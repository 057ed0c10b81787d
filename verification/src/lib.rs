//! # Instrumentation probe for process vitals
//!
//! Client code registers integer metrics, starts a heartbeat and logs
//! events; every heartbeat tick and every event records one row with the
//! operating system's counters for the process, the allocator's counters
//! and the current value of each metric.
//!
//! The library holds the rules of the recording: the registry of metrics,
//! the rows and their format, the schedule of the heartbeat, and the shape
//! of the readings of each platform. Of the machine it asks one thing, the
//! number of cores, once when a recording is made. It reads no clock,
//! samples no counters of the process and writes to no sink: whoever embeds
//! it hands in the time and the readings with each call, and takes the
//! recorded text out.

pub mod counters;
pub mod data;
pub mod error;
pub mod global;
pub mod heartbeat;
pub mod laws;
pub mod line;
pub mod metric;
pub mod probe;
pub mod procstat;
pub mod reader;
pub mod readings;
pub mod text;
pub mod time;
pub mod tokens;

pub use crate::data::ProbeData;
pub use crate::error::{ReadingsError, ReadingsResult};
pub use crate::probe::Probe;
pub use crate::readings::{get_os_readings, OsReadings};
