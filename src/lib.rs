//! Host metrics snapshots: the rules that turn raw counters into a snapshot,
//! the fixed text record that is appended to the log, the lines that the
//! display shows, and the state machine that holds the current snapshot.

pub mod text;
pub mod snapshot;
pub mod record;
pub mod state;
pub mod view;

pub use text::{fixed2_text, percent_text, round_div};
pub use snapshot::{DiskUsage, HostReading, NetworkUsage, RawDisk, SystemSnapshot};
pub use record::{format_record, format_untimed_record, record_now, signed_seconds};
pub use state::{AppState, Event, Trigger};
pub use view::{display_widgets, title, Widget};
