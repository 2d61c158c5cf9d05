//! A concurrency-friendly abstraction over a platform's display enumeration
//! and screen capture: cheap, cloneable monitor handles carrying a stable
//! identity and an immutable metadata snapshot, directory operations that
//! resolve fresh enumerations into handles, and a capture resolution that
//! re-resolves a handle's identity against the live display set. The native
//! layer is consumed as plain field readings; every decision over them is
//! verified here, and the blocking native calls themselves stay with the
//! embedding program.

pub mod capture;
pub mod directory;
pub mod errors;
pub mod frame;
pub mod laws;
pub mod monitor;

pub use directory::{find_monitor_index, get_default_monitor_from, get_monitor_by_id_from,
    list_monitors_from};
pub use errors::{CaptureError, EnumerationError, Field};
pub use frame::CapturedFrame;
pub use monitor::{FieldReadings, MonitorData, SafeMonitor};
