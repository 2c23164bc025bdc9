use vstd::prelude::*;
use crate::record::{usage_seq, MEMORY_DIVISOR};
use crate::text::{
    dec, fixed2, lemma_nearest, lemma_nearest_exact, lemma_nearest_monotonic, nearest,
    percent_hundredths, percent_of, scaled2,
};

verus! {

/// One disk of a snapshot: its name, total space and used space, in bytes.
pub struct DiskUsage {
    pub name: String,
    pub total_space: u64,
    pub used_space: u64,
}

/// One network interface: its name and the bytes received and transmitted
/// since the counters started.
pub struct NetworkUsage {
    pub name: String,
    pub received: u64,
    pub transmitted: u64,
}

/// One disk as the metrics provider reports it.
pub struct RawDisk {
    pub name: String,
    pub total_space: u64,
    pub available_space: u64,
}

/// What the metrics provider reports in one sample, in enumeration order.
/// Each core's utilisation is given in hundredths of a percent.
pub struct HostReading {
    pub cpu_usages: Vec<u32>,
    pub used_memory: u64,
    pub total_memory: u64,
    pub used_swap: u64,
    pub total_swap: u64,
    pub disks: Vec<RawDisk>,
    pub networks: Vec<NetworkUsage>,
}

/// One complete sample of the host's metrics. Memory and swap are in the
/// provider's unit; each core's utilisation is in hundredths of a percent.
pub struct SystemSnapshot {
    pub cpu_usages: Vec<u32>,
    pub used_memory: u64,
    pub total_memory: u64,
    pub used_swap: u64,
    pub total_swap: u64,
    pub disks: Vec<DiskUsage>,
    pub networks: Vec<NetworkUsage>,
}

/// Used space is total minus available; a provider that reports more
/// available than total space gives zero used space.
pub open spec fn used_space_of(total: u64, available: u64) -> u64 {
    if available <= total { (total - available) as u64 } else { 0 }
}

/// What a reading holds: a disk is (name, total space, available space) and
/// a network interface is (name, received, transmitted).
pub struct ReadingModel {
    pub cpu_usages: Seq<u32>,
    pub used_memory: u64,
    pub total_memory: u64,
    pub used_swap: u64,
    pub total_swap: u64,
    pub disks: Seq<(Seq<char>, u64, u64)>,
    pub networks: Seq<(Seq<char>, u64, u64)>,
}

/// What a snapshot holds: a disk is (name, total space, used space) and a
/// network interface is (name, received, transmitted).
pub struct SnapshotModel {
    pub cpu_usages: Seq<u32>,
    pub used_memory: u64,
    pub total_memory: u64,
    pub used_swap: u64,
    pub total_swap: u64,
    pub disks: Seq<(Seq<char>, u64, u64)>,
    pub networks: Seq<(Seq<char>, u64, u64)>,
}

pub open spec fn network_view(n: NetworkUsage) -> (Seq<char>, u64, u64) {
    (n.name@, n.received, n.transmitted)
}

impl View for HostReading {
    type V = ReadingModel;

    open spec fn view(&self) -> ReadingModel {
        ReadingModel {
            cpu_usages: self.cpu_usages@,
            used_memory: self.used_memory,
            total_memory: self.total_memory,
            used_swap: self.used_swap,
            total_swap: self.total_swap,
            disks: self.disks@.map_values(|d: RawDisk| (d.name@, d.total_space, d.available_space)),
            networks: self.networks@.map_values(|n: NetworkUsage| network_view(n)),
        }
    }
}

impl View for SystemSnapshot {
    type V = SnapshotModel;

    open spec fn view(&self) -> SnapshotModel {
        SnapshotModel {
            cpu_usages: self.cpu_usages@,
            used_memory: self.used_memory,
            total_memory: self.total_memory,
            used_swap: self.used_swap,
            total_swap: self.total_swap,
            disks: self.disks@.map_values(|d: DiskUsage| (d.name@, d.total_space, d.used_space)),
            networks: self.networks@.map_values(|n: NetworkUsage| network_view(n)),
        }
    }
}

/// The snapshot that a reading becomes: everything is kept but each disk's
/// available space, which gives way to its used space.
pub open spec fn snapshot_of(r: ReadingModel) -> SnapshotModel {
    SnapshotModel {
        cpu_usages: r.cpu_usages,
        used_memory: r.used_memory,
        total_memory: r.total_memory,
        used_swap: r.used_swap,
        total_swap: r.total_swap,
        disks: r.disks.map_values(|d: (Seq<char>, u64, u64)| (d.0, d.1, used_space_of(d.1, d.2))),
        networks: r.networks,
    }
}

/// No disk of the reading reports more available than total space.
pub open spec fn disks_consistent(r: ReadingModel) -> bool {
    forall|i: int| 0 <= i < r.disks.len() ==> #[trigger] r.disks[i].2 <= r.disks[i].1
}

/// Two different readings whose disks report no more available than total
/// space give two different snapshots: nothing of a reading is lost.
pub proof fn distinct_readings_give_distinct_snapshots(a: ReadingModel, b: ReadingModel)
    requires
        a != b,
        disks_consistent(a),
        disks_consistent(b),
    ensures
        snapshot_of(a) != snapshot_of(b),
{
    if snapshot_of(a) == snapshot_of(b) {
        let da = snapshot_of(a).disks;
        let db = snapshot_of(b).disks;
        assert(a.disks.len() == da.len() && b.disks.len() == db.len());
        assert forall|i: int| 0 <= i < a.disks.len() implies a.disks[i] == b.disks[i] by {
            assert(da[i] == db[i]);
            assert(a.disks[i].2 <= a.disks[i].1);
            assert(b.disks[i].2 <= b.disks[i].1);
        }
        assert(a.disks =~= b.disks);
        assert(a == b);
    }
}

impl DiskUsage {
    /// The disk's used share, in hundredths of a percent; `None` for a disk
    /// without space, where the share is not a number.
    pub fn usage_percent(&self) -> (r: Option<u128>)
        ensures
            r matches Some(h) ==> percent_hundredths(self.used_space as nat, self.total_space as nat)
                == Some(h as nat),
            r is None <==> self.total_space == 0,
    {
        percent_of(self.used_space, self.total_space)
    }
}

impl SystemSnapshot {
    /// Builds a snapshot from one reading of the provider. Devices keep the
    /// provider's order; an empty device list stays empty.
    pub fn build(reading: HostReading) -> (s: SystemSnapshot)
        ensures
            s.cpu_usages@ == reading.cpu_usages@,
            s.used_memory == reading.used_memory,
            s.total_memory == reading.total_memory,
            s.used_swap == reading.used_swap,
            s.total_swap == reading.total_swap,
            s.disks@.len() == reading.disks@.len(),
            forall|i: int| 0 <= i < s.disks@.len() ==> {
                let d = #[trigger] s.disks@[i];
                let raw = reading.disks@[i];
                &&& d.name@ == raw.name@
                &&& d.total_space == raw.total_space
                &&& d.used_space == used_space_of(raw.total_space, raw.available_space)
            },
            s.networks@ == reading.networks@,
            s@ == snapshot_of(reading@),
    {
        let mut disks: Vec<DiskUsage> = Vec::new();
        let mut i: usize = 0;
        while i < reading.disks.len()
            invariant
                i <= reading.disks@.len(),
                disks@.len() == i,
                forall|j: int| 0 <= j < i ==> {
                    let d = #[trigger] disks@[j];
                    let raw = reading.disks@[j];
                    &&& d.name@ == raw.name@
                    &&& d.total_space == raw.total_space
                    &&& d.used_space == used_space_of(raw.total_space, raw.available_space)
                },
            decreases reading.disks@.len() - i,
        {
            let raw = &reading.disks[i];
            let used = if raw.available_space <= raw.total_space {
                raw.total_space - raw.available_space
            } else {
                0
            };
            disks.push(DiskUsage { name: raw.name.clone(), total_space: raw.total_space, used_space: used });
            i = i + 1;
        }
        let ghost model = reading@;
        let s = SystemSnapshot {
            cpu_usages: reading.cpu_usages,
            used_memory: reading.used_memory,
            total_memory: reading.total_memory,
            used_swap: reading.used_swap,
            total_swap: reading.total_swap,
            disks,
            networks: reading.networks,
        };
        assert(s@.disks =~= model.disks.map_values(
            |d: (Seq<char>, u64, u64)| (d.0, d.1, used_space_of(d.1, d.2)),
        ));
        assert(s@ == snapshot_of(model));
        s
    }

    /// Used memory over total memory, in hundredths of a percent; `None` where
    /// the total is zero and the share is not a number.
    pub fn memory_percent(&self) -> (r: Option<u128>)
        ensures
            r matches Some(h) ==> percent_hundredths(self.used_memory as nat, self.total_memory as nat)
                == Some(h as nat),
            r is None <==> self.total_memory == 0,
    {
        percent_of(self.used_memory, self.total_memory)
    }

    /// Used swap over total swap, in hundredths of a percent; `None` where the
    /// total is zero and the share is not a number.
    pub fn swap_percent(&self) -> (r: Option<u128>)
        ensures
            r matches Some(h) ==> percent_hundredths(self.used_swap as nat, self.total_swap as nat)
                == Some(h as nat),
            r is None <==> self.total_swap == 0,
    {
        percent_of(self.used_swap, self.total_swap)
    }
}

/// Where total memory is not zero, the memory share is `used / total * 100`
/// rounded to the nearest hundredth (off by at most half a hundredth), and it
/// lies between 0 and 100 when used memory does not exceed total memory.
pub proof fn memory_percent_is_nearest(s: SystemSnapshot)
    requires
        s.total_memory > 0,
    ensures
        percent_hundredths(s.used_memory as nat, s.total_memory as nat) matches Some(h) && {
            let exact = s.used_memory * 10000;
            let total = s.total_memory as int;
            &&& 2 * (h * total - exact) <= total
            &&& 2 * (exact - h * total) <= total
            &&& (s.used_memory <= s.total_memory ==> h <= 10000)
        },
{
    lemma_nearest(s.used_memory as nat * 10000, s.total_memory as nat);
    let h = nearest(s.used_memory as nat * 10000, s.total_memory as nat);
    if s.used_memory <= s.total_memory {
        lemma_nearest_monotonic(s.used_memory as nat * 10000, s.total_memory as nat * 10000, s.total_memory as nat);
        lemma_nearest_exact(10000, s.total_memory as nat);
    }
}

/// Where total memory is zero, the memory share is not a number, and the
/// memory field is still written, with `NaN` for the share.
pub proof fn zero_memory_total_gives_nan(s: SystemSnapshot)
    requires
        s.total_memory == 0,
    ensures
        percent_hundredths(s.used_memory as nat, s.total_memory as nat) is None,
        usage_seq(s.used_memory, s.total_memory) == "used "@ + scaled2(s.used_memory as nat, MEMORY_DIVISOR as nat)
            + " TB / total 0.00 TB (NaN%)"@,
{
    reveal_strlit(" TB / total 0.00 TB (NaN%)");
    reveal_strlit(" TB / total ");
    reveal_strlit(" TB (");
    reveal_strlit("%)");
    assert(dec(0) == seq!['0']);
    assert(fixed2(0) =~= seq!['0', '.', '0', '0']);
    assert(usage_seq(s.used_memory, s.total_memory) =~= "used "@ + scaled2(s.used_memory as nat, MEMORY_DIVISOR as nat)
        + " TB / total 0.00 TB (NaN%)"@);
}

} // verus!
