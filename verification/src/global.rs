//! Helpers for a probe kept in a well-known place, so that routines deep in
//! the call stack can be instrumented without handing the probe down to
//! them.
//!
//! The place is a slot that holds at most one probe. Its owner locks it and
//! lends it to these helpers; the probe in it may have clones elsewhere. The
//! slot is set once: a probe that is set stays until it is removed.
//! `log_event` and `get_i64` fail silently while the slot is empty, which
//! allows switching the instrumentation on or off at the top level.

use crate::error::ReadingsError;
use crate::probe::Probe;
use crate::readings::OsReadings;
use crate::time::Instant;
use std::sync::atomic::AtomicI64;
use std::sync::Arc;
use vstd::prelude::*;

verus! {

/// Setup `probe` as the default probe. The slot is set once: where it
/// holds a probe already, that probe stays and `probe` is dropped.
pub fn set(slot: &mut Option<Probe>, probe: Probe)
    ensures
        *old(slot) is None ==> *final(slot) == Some(probe),
        *old(slot) is Some ==> *final(slot) == *old(slot),
{
    if slot.is_none() {
        *slot = Some(probe);
    }
}

/// Remove the default probe, if any.
pub fn unset(slot: &mut Option<Probe>)
    ensures
        *final(slot) == None::<Probe>,
{
    *slot = None;
}

/// Log on the default probe an individual event with a label and the current
/// values of metrics. Without a default probe nothing is recorded and the
/// call succeeds.
pub fn log_event(
    slot: &Option<Probe>,
    now: Instant,
    usage: Result<OsReadings, ReadingsError>,
    allocated: usize,
    freed: usize,
    event: &str,
) -> (r: Result<(), ReadingsError>)
    ensures
        *slot is None ==> r is Ok,
        *slot is Some ==> r == Err::<(), ReadingsError>(ReadingsError::PoisonedProbe) || r
            == crate::data::line_result(usage),
{
    match slot {
        Some(probe) => probe.log_event(now, usage, allocated, freed, event),
        None => Ok(()),
    }
}

/// Recover from the default probe a pre-registered user-defined metric.
/// Without a default probe there is none.
pub fn get_i64(slot: &Option<Probe>, name: &str) -> (r: Option<Arc<AtomicI64>>)
    ensures
        *slot is None ==> r is None,
{
    match slot {
        Some(probe) => probe.get_i64(name),
        None => None,
    }
}

} // verus!
