use vstd::prelude::*;
use crate::record::{cpu_seq, disk_seq, network_seq, push_cpu, push_disk, push_network, push_usage, usage_seq};
use crate::snapshot::{DiskUsage, NetworkUsage};
use crate::state::{AppState, Trigger};

verus! {

/// One element of the display, top to bottom: a line of text, with a font
/// size where it is not the default, or a control that sends a trigger.
pub enum Widget {
    Label { text: String, size: Option<u16> },
    Button { caption: String, trigger: Trigger },
}

/// What a widget shows.
pub enum Shown {
    Label(Seq<char>, Option<u16>),
    Button(Seq<char>, Trigger),
}

impl View for Widget {
    type V = Shown;

    open spec fn view(&self) -> Shown {
        match self {
            Widget::Label { text, size } => Shown::Label(text@, *size),
            Widget::Button { caption, trigger } => Shown::Button(caption@, *trigger),
        }
    }
}

/// What a list of widgets shows, in order.
pub open spec fn shown(ws: Seq<Widget>) -> Seq<Shown> {
    ws.map_values(|w: Widget| w@)
}

/// One indented line per core, numbered from one.
pub open spec fn cpu_lines(usages: Seq<u32>) -> Seq<Shown> {
    Seq::new(usages.len(), |i: int| Shown::Label("          "@ + cpu_seq((i + 1) as nat, usages[i]), Some(20u16)))
}

/// One indented line per disk.
pub open spec fn disk_lines(disks: Seq<DiskUsage>) -> Seq<Shown> {
    disks.map_values(|d: DiskUsage| Shown::Label("           "@ + disk_seq(d), None))
}

/// One indented line per network interface.
pub open spec fn network_lines(networks: Seq<NetworkUsage>) -> Seq<Shown> {
    networks.map_values(|n: NetworkUsage| Shown::Label("           "@ + network_seq(n), None))
}

/// The display of `state`: a loading line before the first sample; then the
/// title, memory and swap lines, the per-core toggle, the per-core lines when
/// shown, the disk and network sections, and the refresh control.
pub open spec fn display(state: AppState) -> Seq<Shown> {
    match state {
        AppState::NotLoaded => seq![Shown::Label("Loading..."@, Some(40u16))],
        AppState::Loaded { snapshot, show_cpu_usage } => {
            seq![
                Shown::Label("                        System Monitor"@, Some(30u16)),
                Shown::Label("   Memory: "@ + usage_seq(snapshot.used_memory, snapshot.total_memory), None),
                Shown::Label("   Swap: "@ + usage_seq(snapshot.used_swap, snapshot.total_swap), None),
                Shown::Button("    CPU Usage"@, Trigger::ToggleCpuUsage),
            ]
            + (if show_cpu_usage { cpu_lines(snapshot.cpu_usages@) } else { seq![] })
            + seq![Shown::Label("    Disk usage:"@, Some(20u16))]
            + disk_lines(snapshot.disks@)
            + seq![Shown::Label("    Network usage:"@, Some(20u16))]
            + network_lines(snapshot.networks@)
            + seq![Shown::Button("Refresh"@, Trigger::Refresh)]
        },
    }
}

fn label(text: &str, size: Option<u16>) -> (w: Widget)
    ensures
        w@ == Shown::Label(text@, size),
{
    let mut s = String::new();
    s.append(text);
    assert(s@ =~= text@);
    Widget::Label { text: s, size }
}

fn button(caption: &str, trigger: Trigger) -> (w: Widget)
    ensures
        w@ == Shown::Button(caption@, trigger),
{
    let mut s = String::new();
    s.append(caption);
    assert(s@ =~= caption@);
    Widget::Button { caption: s, trigger }
}

fn push_cpu_lines(ws: &mut Vec<Widget>, usages: &Vec<u32>)
    ensures
        shown(final(ws)@) == shown(old(ws)@) + cpu_lines(usages@),
{
    let ghost base = shown(ws@);
    let mut i: usize = 0;
    while i < usages.len()
        invariant
            i <= usages@.len(),
            shown(ws@) =~= base + cpu_lines(usages@).take(i as int),
        decreases usages@.len() - i,
    {
        let mut s = String::new();
        s.append("          ");
        push_cpu(&mut s, i + 1, usages[i]);
        let ghost before = ws@;
        let w = Widget::Label { text: s, size: Some(20) };
        ws.push(w);
        assert(shown(ws@) =~= shown(before).push(w@));
        i = i + 1;
        assert(shown(ws@) =~= base + cpu_lines(usages@).take(i as int));
    }
    assert(cpu_lines(usages@).take(i as int) =~= cpu_lines(usages@));
}

fn push_disk_lines(ws: &mut Vec<Widget>, disks: &Vec<DiskUsage>)
    ensures
        shown(final(ws)@) == shown(old(ws)@) + disk_lines(disks@),
{
    let ghost base = shown(ws@);
    let mut i: usize = 0;
    while i < disks.len()
        invariant
            i <= disks@.len(),
            shown(ws@) =~= base + disk_lines(disks@).take(i as int),
        decreases disks@.len() - i,
    {
        let mut s = String::new();
        s.append("           ");
        push_disk(&mut s, &disks[i]);
        let ghost before = ws@;
        let w = Widget::Label { text: s, size: None };
        ws.push(w);
        assert(shown(ws@) =~= shown(before).push(w@));
        i = i + 1;
        assert(shown(ws@) =~= base + disk_lines(disks@).take(i as int));
    }
    assert(disk_lines(disks@).take(i as int) =~= disk_lines(disks@));
}

fn push_network_lines(ws: &mut Vec<Widget>, networks: &Vec<NetworkUsage>)
    ensures
        shown(final(ws)@) == shown(old(ws)@) + network_lines(networks@),
{
    let ghost base = shown(ws@);
    let mut i: usize = 0;
    while i < networks.len()
        invariant
            i <= networks@.len(),
            shown(ws@) =~= base + network_lines(networks@).take(i as int),
        decreases networks@.len() - i,
    {
        let mut s = String::new();
        s.append("           ");
        push_network(&mut s, &networks[i]);
        let ghost before = ws@;
        let w = Widget::Label { text: s, size: None };
        ws.push(w);
        assert(shown(ws@) =~= shown(before).push(w@));
        i = i + 1;
        assert(shown(ws@) =~= base + network_lines(networks@).take(i as int));
    }
    assert(network_lines(networks@).take(i as int) =~= network_lines(networks@));
}

fn usage_label(heading: &str, used: u64, total: u64) -> (w: Widget)
    ensures
        w@ == Shown::Label(heading@ + usage_seq(used, total), None),
{
    let mut s = String::new();
    s.append(heading);
    push_usage(&mut s, used, total);
    Widget::Label { text: s, size: None }
}

/// The widgets that show `state`, top to bottom.
pub fn display_widgets(state: &AppState) -> (ws: Vec<Widget>)
    ensures
        shown(ws@) == display(*state),
{
    let mut ws: Vec<Widget> = Vec::new();
    match state {
        AppState::NotLoaded => {
            ws.push(label("Loading...", Some(40)));
            assert(shown(ws@) =~= display(*state));
        },
        AppState::Loaded { snapshot, show_cpu_usage } => {
            ws.push(label("                        System Monitor", Some(30)));
            ws.push(usage_label("   Memory: ", snapshot.used_memory, snapshot.total_memory));
            ws.push(usage_label("   Swap: ", snapshot.used_swap, snapshot.total_swap));
            ws.push(button("    CPU Usage", Trigger::ToggleCpuUsage));
            let ghost head = shown(ws@);
            if *show_cpu_usage {
                push_cpu_lines(&mut ws, &snapshot.cpu_usages);
            } else {
                assert(shown(ws@) =~= head + seq![]);
            }
            let ghost with_cpu = shown(ws@);
            ws.push(label("    Disk usage:", Some(20)));
            assert(shown(ws@) =~= with_cpu + seq![Shown::Label("    Disk usage:"@, Some(20u16))]);
            push_disk_lines(&mut ws, &snapshot.disks);
            let ghost with_disks = shown(ws@);
            ws.push(label("    Network usage:", Some(20)));
            assert(shown(ws@) =~= with_disks + seq![Shown::Label("    Network usage:"@, Some(20u16))]);
            push_network_lines(&mut ws, &snapshot.networks);
            let ghost with_networks = shown(ws@);
            ws.push(button("Refresh", Trigger::Refresh));
            assert(shown(ws@) =~= with_networks + seq![Shown::Button("Refresh"@, Trigger::Refresh)]);
            assert(shown(ws@) =~= display(*state));
        },
    }
    ws
}

/// The window's title.
pub fn title() -> (r: String)
    ensures
        r@ == "System Monitor - Rust Project"@,
{
    let mut s = String::new();
    s.append("System Monitor - Rust Project");
    assert(s@ =~= "System Monitor - Rust Project"@);
    s
}

} // verus!
