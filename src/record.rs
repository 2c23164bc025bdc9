use vstd::prelude::*;
use crate::snapshot::{DiskUsage, NetworkUsage, SystemSnapshot};
use crate::text::{
    dec, fixed2, pad2, percent_seq, push_dec, push_fixed2, push_pad2, push_percent,
    push_scaled2, scaled2,
};

verus! {

/// Memory and swap figures are divided by this before they are shown in "TB".
pub const MEMORY_DIVISOR: u64 = 1048576;

/// Disk figures are divided by this before they are shown in "GB".
pub const DISK_DIVISOR: u64 = 1073741824;

/// Network counters are divided by this, truncating, before they are shown in "KB".
pub const NETWORK_DIVISOR: u64 = 1024;

/// `used <u> TB / total <t> TB (<p>%)` for memory or swap.
pub open spec fn usage_seq(used: u64, total: u64) -> Seq<char> {
    "used "@ + scaled2(used as nat, MEMORY_DIVISOR as nat) + " TB / total "@
        + scaled2(total as nat, MEMORY_DIVISOR as nat) + " TB ("@
        + percent_seq(used as nat, total as nat) + "%)"@
}

/// `CPU <n>: <p>%` for the core numbered `n`, counting from one.
pub open spec fn cpu_seq(n: nat, usage: u32) -> Seq<char> {
    "CPU "@ + dec(n) + ": "@ + fixed2(usage as nat) + "%"@
}

/// `<name>: <u> GB used / <t> GB total (<p>%)`.
pub open spec fn disk_seq(d: DiskUsage) -> Seq<char> {
    d.name@ + ": "@ + scaled2(d.used_space as nat, DISK_DIVISOR as nat) + " GB used / "@
        + scaled2(d.total_space as nat, DISK_DIVISOR as nat) + " GB total ("@
        + percent_seq(d.used_space as nat, d.total_space as nat) + "%)"@
}

/// `<name>: received <r> KB / transmitted <t> KB`.
pub open spec fn network_seq(n: NetworkUsage) -> Seq<char> {
    n.name@ + ": received "@ + dec(n.received as nat / NETWORK_DIVISOR as nat)
        + " KB / transmitted "@ + dec(n.transmitted as nat / NETWORK_DIVISOR as nat) + " KB"@
}

/// The parts separated by `, `; no parts give the empty text.
pub open spec fn join(parts: Seq<Seq<char>>) -> Seq<char>
    decreases parts.len(),
{
    if parts.len() == 0 {
        seq![]
    } else if parts.len() == 1 {
        parts[0]
    } else {
        join(parts.drop_last()) + ", "@ + parts.last()
    }
}

/// One `CPU <n>: <p>%` entry per core, numbered from one.
pub open spec fn cpu_parts(usages: Seq<u32>) -> Seq<Seq<char>> {
    Seq::new(usages.len(), |i: int| cpu_seq((i + 1) as nat, usages[i]))
}

/// One entry per disk, in order.
pub open spec fn disk_parts(disks: Seq<DiskUsage>) -> Seq<Seq<char>> {
    disks.map_values(|d: DiskUsage| disk_seq(d))
}

/// One entry per network interface, in order.
pub open spec fn network_parts(networks: Seq<NetworkUsage>) -> Seq<Seq<char>> {
    networks.map_values(|n: NetworkUsage| network_seq(n))
}

/// Every line of the log record of `s` after the time, blank line included.
pub open spec fn record_fields(s: SystemSnapshot) -> Seq<char> {
    "\nMemory: "@ + usage_seq(s.used_memory, s.total_memory)
        + "\nSwap: "@ + usage_seq(s.used_swap, s.total_swap)
        + "\nCPU Usage: "@ + join(cpu_parts(s.cpu_usages@))
        + "\nDisk Usage: "@ + join(disk_parts(s.disks@))
        + "\nNetwork Usage: "@ + join(network_parts(s.networks@))
        + "\n\n"@
}

/// The log record of `s` taken at `hour:minute`, blank line included.
pub open spec fn record_seq(s: SystemSnapshot, hour: u32, minute: u32) -> Seq<char> {
    "Time: "@ + pad2(hour as nat) + ":"@ + pad2(minute as nat) + record_fields(s)
}

/// The log record of `s` where the clock gave no local time.
pub open spec fn untimed_record_seq(s: SystemSnapshot) -> Seq<char> {
    "Time: --:--"@ + record_fields(s)
}

proof fn lemma_join_step(parts: Seq<Seq<char>>, i: int)
    requires
        0 <= i < parts.len(),
    ensures
        join(parts.take(i + 1)) == if i == 0 {
            parts[0]
        } else {
            join(parts.take(i)) + ", "@ + parts[i]
        },
{
    assert(parts.take(i + 1).drop_last() =~= parts.take(i));
}

/// Appends the memory or swap figures `used`, `total` and their share.
pub fn push_usage(s: &mut String, used: u64, total: u64)
    ensures
        final(s)@ == old(s)@ + usage_seq(used, total),
{
    s.append("used ");
    push_scaled2(s, used, MEMORY_DIVISOR);
    s.append(" TB / total ");
    push_scaled2(s, total, MEMORY_DIVISOR);
    s.append(" TB (");
    push_percent(s, used, total);
    s.append("%)");
    assert(final(s)@ =~= old(s)@ + usage_seq(used, total));
}

/// Appends the entry of the core numbered `n`.
pub fn push_cpu(s: &mut String, n: usize, usage: u32)
    ensures
        final(s)@ == old(s)@ + cpu_seq(n as nat, usage),
{
    s.append("CPU ");
    push_dec(s, n as u128);
    s.append(": ");
    push_fixed2(s, usage as u128);
    s.append("%");
    assert(final(s)@ =~= old(s)@ + cpu_seq(n as nat, usage));
}

/// Appends the entry of one disk.
pub fn push_disk(s: &mut String, d: &DiskUsage)
    ensures
        final(s)@ == old(s)@ + disk_seq(*d),
{
    s.append(d.name.as_str());
    s.append(": ");
    push_scaled2(s, d.used_space, DISK_DIVISOR);
    s.append(" GB used / ");
    push_scaled2(s, d.total_space, DISK_DIVISOR);
    s.append(" GB total (");
    push_percent(s, d.used_space, d.total_space);
    s.append("%)");
    assert(final(s)@ =~= old(s)@ + disk_seq(*d));
}

/// Appends the entry of one network interface.
pub fn push_network(s: &mut String, n: &NetworkUsage)
    ensures
        final(s)@ == old(s)@ + network_seq(*n),
{
    s.append(n.name.as_str());
    s.append(": received ");
    push_dec(s, (n.received / NETWORK_DIVISOR) as u128);
    s.append(" KB / transmitted ");
    push_dec(s, (n.transmitted / NETWORK_DIVISOR) as u128);
    s.append(" KB");
    assert(final(s)@ =~= old(s)@ + network_seq(*n));
}

fn push_cpu_list(s: &mut String, usages: &Vec<u32>)
    ensures
        final(s)@ == old(s)@ + join(cpu_parts(usages@)),
{
    let ghost base = s@;
    let ghost parts = cpu_parts(usages@);
    let mut i: usize = 0;
    while i < usages.len()
        invariant
            i <= usages@.len(),
            parts == cpu_parts(usages@),
            s@ == base + join(parts.take(i as int)),
        decreases usages@.len() - i,
    {
        proof { lemma_join_step(parts, i as int); }
        if i > 0 {
            s.append(", ");
        }
        push_cpu(s, i + 1, usages[i]);
        i = i + 1;
    }
    assert(parts.take(i as int) =~= parts);
}

fn push_disk_list(s: &mut String, disks: &Vec<DiskUsage>)
    ensures
        final(s)@ == old(s)@ + join(disk_parts(disks@)),
{
    let ghost base = s@;
    let ghost parts = disk_parts(disks@);
    let mut i: usize = 0;
    while i < disks.len()
        invariant
            i <= disks@.len(),
            parts == disk_parts(disks@),
            s@ == base + join(parts.take(i as int)),
        decreases disks@.len() - i,
    {
        proof { lemma_join_step(parts, i as int); }
        if i > 0 {
            s.append(", ");
        }
        push_disk(s, &disks[i]);
        i = i + 1;
    }
    assert(parts.take(i as int) =~= parts);
}

fn push_network_list(s: &mut String, networks: &Vec<NetworkUsage>)
    ensures
        final(s)@ == old(s)@ + join(network_parts(networks@)),
{
    let ghost base = s@;
    let ghost parts = network_parts(networks@);
    let mut i: usize = 0;
    while i < networks.len()
        invariant
            i <= networks@.len(),
            parts == network_parts(networks@),
            s@ == base + join(parts.take(i as int)),
        decreases networks@.len() - i,
    {
        proof { lemma_join_step(parts, i as int); }
        if i > 0 {
            s.append(", ");
        }
        push_network(s, &networks[i]);
        i = i + 1;
    }
    assert(parts.take(i as int) =~= parts);
}

fn push_record_fields(s: &mut String, snapshot: &SystemSnapshot)
    ensures
        final(s)@ == old(s)@ + record_fields(*snapshot),
{
    s.append("\nMemory: ");
    push_usage(s, snapshot.used_memory, snapshot.total_memory);
    s.append("\nSwap: ");
    push_usage(s, snapshot.used_swap, snapshot.total_swap);
    s.append("\nCPU Usage: ");
    push_cpu_list(s, &snapshot.cpu_usages);
    s.append("\nDisk Usage: ");
    push_disk_list(s, &snapshot.disks);
    s.append("\nNetwork Usage: ");
    push_network_list(s, &snapshot.networks);
    s.append("\n\n");
    assert(final(s)@ =~= old(s)@ + record_fields(*snapshot));
}

/// The log record of `snapshot` stamped with the wall-clock time
/// `hour:minute`, each zero-padded to two digits.
pub fn format_record(snapshot: &SystemSnapshot, hour: u32, minute: u32) -> (r: String)
    ensures
        r@ == record_seq(*snapshot, hour, minute),
{
    let mut s = String::new();
    s.append("Time: ");
    push_pad2(&mut s, hour as u128);
    s.append(":");
    push_pad2(&mut s, minute as u128);
    push_record_fields(&mut s, snapshot);
    assert(s@ =~= record_seq(*snapshot, hour, minute));
    s
}

/// The log record of `snapshot` with `--:--` for the time, for a clock that
/// gives no local time.
pub fn format_untimed_record(snapshot: &SystemSnapshot) -> (r: String)
    ensures
        r@ == untimed_record_seq(*snapshot),
{
    let mut s = String::new();
    s.append("Time: --:--");
    push_record_fields(&mut s, snapshot);
    assert(s@ =~= untimed_record_seq(*snapshot));
    s
}

#[verifier::external_type_specification]
#[verifier::external_body]
pub struct ExSystemTime(std::time::SystemTime);

/// Relies on std's `SystemTime::now`: a reading of the system clock, of which
/// nothing is promised.
pub assume_specification[ std::time::SystemTime::now ]() -> std::time::SystemTime;

/// Relies on std's `SystemTime::duration_since(UNIX_EPOCH)`: `Ok` with the
/// whole seconds that `t` lies after 1970-01-01 00:00 UTC, or, for an earlier
/// `t`, `Err` with the whole seconds it lies before (`SystemTimeError::duration`).
/// It does not panic; nothing is promised of the values, which come from the clock.
#[verifier::external_body]
fn seconds_from_epoch(t: &std::time::SystemTime) -> (r: Result<u64, u64>) {
    match t.duration_since(std::time::UNIX_EPOCH) {
        Ok(after) => Ok(after.as_secs()),
        Err(before) => Err(before.duration().as_secs()),
    }
}

/// Relies on chrono's `DateTime::from_timestamp`, `DateTime::with_timezone(&Local)`
/// and `Timelike::{hour, minute}`: the local hour, from 0 to 23, and minute,
/// from 0 to 59, at `timestamp` seconds from 1970-01-01 00:00 UTC; `None`
/// where the timestamp lies outside chrono's dates. The lookup of the local
/// offset in chrono's `Local` unwraps its result, and so panics where the time
/// zone data give an offset of a day or more or no local time type at all.
#[verifier::external_body]
fn local_hour_minute_at(timestamp: i64) -> (r: Option<(u32, u32)>)
    ensures
        r matches Some(t) ==> t.0 < 24 && t.1 < 60,
{
    match chrono::DateTime::from_timestamp(timestamp, 0) {
        Some(utc) => {
            let local = utc.with_timezone(&chrono::Local);
            Some((chrono::Timelike::hour(&local), chrono::Timelike::minute(&local)))
        },
        None => None,
    }
}

/// The signed seconds from 1970-01-01 00:00 UTC of a clock reading given as
/// whole seconds after (`Ok`) or before (`Err`) that moment, if they fit an `i64`.
pub fn signed_seconds(reading: Result<u64, u64>) -> (r: Option<i64>)
    ensures
        match reading {
            Ok(after) => r == if after <= i64::MAX { Some(after as i64) } else { None },
            Err(before) => r == if before <= i64::MAX {
                Some((-(before as int)) as i64)
            } else {
                None
            },
        },
{
    match reading {
        Ok(after) => if after <= i64::MAX as u64 { Some(after as i64) } else { None },
        Err(before) => if before <= i64::MAX as u64 { Some(-(before as i64)) } else { None },
    }
}

/// The log record of `snapshot` stamped with the current local time; where
/// the clock gives no local time, the time reads `--:--`.
pub fn record_now(snapshot: &SystemSnapshot) -> (r: String)
    ensures
        (exists|hour: u32, minute: u32|
            hour < 24 && minute < 60 && r@ == record_seq(*snapshot, hour, minute))
            || r@ == untimed_record_seq(*snapshot),
{
    let now = std::time::SystemTime::now();
    let local = match signed_seconds(seconds_from_epoch(&now)) {
        Some(timestamp) => local_hour_minute_at(timestamp),
        None => None,
    };
    match local {
        Some((hour, minute)) => format_record(snapshot, hour, minute),
        None => format_untimed_record(snapshot),
    }
}

} // verus!
