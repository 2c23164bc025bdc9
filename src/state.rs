use vstd::prelude::*;
use crate::snapshot::{
    disks_consistent, distinct_readings_give_distinct_snapshots, snapshot_of, HostReading,
    SystemSnapshot,
};

verus! {

/// What the process holds: nothing before the first sample, then the latest
/// snapshot and whether the per-core lines are shown.
pub enum AppState {
    NotLoaded,
    Loaded { snapshot: SystemSnapshot, show_cpu_usage: bool },
}

/// What the display's controls ask for.
#[derive(Clone, Copy, Debug, PartialEq, Eq, Structural)]
pub enum Trigger {
    Refresh,
    ToggleCpuUsage,
}

/// What the state machine reacts to. A refresh arrives with the snapshot
/// that was sampled (and logged) for it.
pub enum Event {
    Refreshed(SystemSnapshot),
    ToggleCpuUsage,
}

/// The state after `event`: a refresh replaces the whole state with the new
/// snapshot and hides the per-core lines; a toggle flips their visibility
/// and does nothing before the first sample.
pub open spec fn next(state: AppState, event: Event) -> AppState {
    match event {
        Event::Refreshed(snapshot) => AppState::Loaded { snapshot, show_cpu_usage: false },
        Event::ToggleCpuUsage => match state {
            AppState::NotLoaded => AppState::NotLoaded,
            AppState::Loaded { snapshot, show_cpu_usage } => AppState::Loaded {
                snapshot,
                show_cpu_usage: !show_cpu_usage,
            },
        },
    }
}

impl AppState {
    /// The state before the first sample.
    pub fn new() -> (r: AppState)
        ensures
            r is NotLoaded,
    {
        AppState::NotLoaded
    }

    /// The state after `event`.
    pub fn apply(self, event: Event) -> (r: AppState)
        ensures
            r == next(self, event),
    {
        match event {
            Event::Refreshed(snapshot) => AppState::Loaded { snapshot, show_cpu_usage: false },
            Event::ToggleCpuUsage => match self {
                AppState::NotLoaded => AppState::NotLoaded,
                AppState::Loaded { snapshot, show_cpu_usage } => AppState::Loaded {
                    snapshot,
                    show_cpu_usage: !show_cpu_usage,
                },
            },
        }
    }

    /// Whether a snapshot has been taken.
    pub fn is_loaded(&self) -> (r: bool)
        ensures
            r == (self is Loaded),
    {
        match self {
            AppState::NotLoaded => false,
            AppState::Loaded { .. } => true,
        }
    }
}

/// Toggling the per-core lines twice gives back the same state, snapshot
/// untouched.
pub proof fn toggle_twice_restores(snapshot: SystemSnapshot, show_cpu_usage: bool)
    ensures
        ({
            let start = AppState::Loaded { snapshot, show_cpu_usage };
            next(next(start, Event::ToggleCpuUsage), Event::ToggleCpuUsage) == start
        }),
{
}

/// Toggling before the first sample leaves the state not loaded.
pub proof fn toggle_before_load_is_noop()
    ensures
        next(AppState::NotLoaded, Event::ToggleCpuUsage) is NotLoaded,
{
}

/// After two refreshes the state holds exactly the second snapshot, with
/// the per-core lines hidden, whatever came before; where the two snapshots
/// were built from different readings, whose disks report no more available
/// than total space, the second differs from the first.
pub proof fn second_refresh_replaces_first(
    state: AppState,
    first_reading: HostReading,
    second_reading: HostReading,
    first: SystemSnapshot,
    second: SystemSnapshot,
)
    requires
        first@ == snapshot_of(first_reading@),
        second@ == snapshot_of(second_reading@),
        first_reading@ != second_reading@,
        disks_consistent(first_reading@),
        disks_consistent(second_reading@),
    ensures
        next(next(state, Event::Refreshed(first)), Event::Refreshed(second))
            == (AppState::Loaded { snapshot: second, show_cpu_usage: false }),
        second@ != first@,
{
    distinct_readings_give_distinct_snapshots(first_reading@, second_reading@);
}

} // verus!
