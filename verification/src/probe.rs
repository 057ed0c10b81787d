//! The probe: a handle on one recording, shared between the code that logs
//! events and the heartbeat.

use crate::data::{line_result, ProbeData, ProbeView};
use crate::error::ReadingsError;
use crate::heartbeat::Heartbeat;
use crate::readings::OsReadings;
use crate::time::{Duration, Instant};
use std::sync::atomic::AtomicI64;
use std::sync::Arc;
use std::sync::Mutex;
use std::sync::MutexGuard;
use vstd::prelude::*;

verus! {

/// `std::sync::Mutex`: a lock, carried around as it is.
#[verifier::external_type_specification]
#[verifier::external_body]
#[verifier::reject_recursive_types(T)]
pub struct ExMutex<T: ?Sized>(Mutex<T>);

/// `std::sync::MutexGuard`: the hold on a lock, which ends when the guard
/// is dropped.
#[verifier::external_type_specification]
#[verifier::external_body]
#[verifier::reject_recursive_types(T)]
pub struct ExMutexGuard<'a, T: ?Sized + 'a>(MutexGuard<'a, T>);

/// The recording that a lock was made around: what `Mutex::new` was given
/// when it made the lock. It says nothing of what the lock guards later,
/// which its holders change.
pub uninterp spec fn made_around(lock: Mutex<ProbeData>) -> ProbeView;

/// `Mutex::new`: a new lock, unlocked, that guards `data`. The lock that
/// comes back was made around this recording.
#[verifier::external_body]
fn guarded(data: ProbeData) -> (r: Mutex<ProbeData>)
    ensures
        made_around(r) == data@,
{
    Mutex::new(data)
}

/// `Mutex::lock`: waits for the lock and gives its guard, or `None` where
/// the lock is poisoned because a thread panicked while it held it. Which
/// of the two comes back depends on the other threads, so nothing is claimed
/// of it. Every method of the probe takes the lock once and lets go of it
/// before it returns, so no thread waits for a lock that it holds itself.
#[verifier::external_body]
fn lock<'a>(mutex: &'a Mutex<ProbeData>) -> Option<MutexGuard<'a, ProbeData>> {
    mutex.lock().ok()
}

/// `DerefMut::deref_mut` on the guard: the state behind the lock. The other
/// holders of the probe may have changed it since this one last saw it, so
/// nothing is claimed of what it holds.
#[verifier::external_body]
fn locked<'a, 'b>(guard: &'a mut MutexGuard<'b, ProbeData>) -> &'a mut ProbeData {
    &mut **guard
}

/// The interface to reading probe.
///
/// A probe is a handle: its clones share one recording behind one lock, and
/// lines are recorded in the order in which their calls take the lock. What
/// each operation does to the recording is stated on `ProbeData`. Here the
/// recording belongs to every holder at once: a contract says what the
/// recording was when the probe was made, and of a later call which results
/// are possible.
#[derive(Clone)]
pub struct Probe {
    inner: Arc<Mutex<ProbeData>>,
}

impl Probe {
    /// The recording that this probe was made over, as it stood when the
    /// probe was made. What the holders of the probe have done to the
    /// recording since is not in it.
    pub closed spec fn initial(&self) -> ProbeView {
        made_around(*self.inner)
    }

    /// Creates a probe for this machine. Its recording starts with the
    /// format marker, without metrics and without an origin.
    pub fn new() -> (r: Probe)
        ensures
            r.initial().origin is None,
            r.initial().names == Seq::<Seq<char>>::empty(),
            r.initial().handles == Seq::<Arc<AtomicI64>>::empty(),
            r.initial().output == "#ReadingsV1\n"@,
    {
        Probe::over(ProbeData::new())
    }

    /// Creates a probe for a machine with `cores` cores. Its recording
    /// starts with the format marker, without metrics and without an origin.
    pub fn with_cores(cores: usize) -> (r: Probe)
        ensures
            r.initial() == (ProbeView {
                cores: cores as nat,
                origin: None,
                names: Seq::empty(),
                handles: Seq::empty(),
                output: "#ReadingsV1\n"@,
            }),
    {
        Probe::over(ProbeData::with_cores(cores))
    }

    /// Creates a probe that shares the recording `data`, which goes on from
    /// where `data` stands.
    pub fn over(data: ProbeData) -> (r: Probe)
        ensures
            r.initial() == data@,
    {
        Probe { inner: Arc::new(guarded(data)) }
    }

    /// Register an i64 user-defined metric.
    ///
    /// Must be called prior to the first call to `log_event` or
    /// `spawn_heartbeat`: afterwards it fails as a late registration. It
    /// also fails where the lock is poisoned.
    ///
    /// The result is a shared AtomicI64 that can be used by client code to
    /// communicate updates with the probe.
    pub fn register_i64(&mut self, name: &str) -> (r: Result<Arc<AtomicI64>, ReadingsError>)
        ensures
            r is Err ==> r->Err_0 == ReadingsError::LateRegistertingMetricsAttempt || r->Err_0
                == ReadingsError::PoisonedProbe,
    {
        match lock(&self.inner) {
            Some(mut guard) => locked(&mut guard).register_i64(name),
            None => Err(ReadingsError::PoisonedProbe),
        }
    }

    /// Starts a heartbeat: records the event `spawned_heartbeat` at `now`
    /// and returns the schedule of the ticks, one every `interval` from the
    /// origin of the recording. Fails with the error of readings that
    /// failed, or where the lock is poisoned.
    pub fn spawn_heartbeat(
        &mut self,
        interval: Duration,
        now: Instant,
        usage: Result<OsReadings, ReadingsError>,
        allocated: usize,
        freed: usize,
    ) -> (r: Result<Heartbeat, ReadingsError>)
        ensures
            r is Ok ==> usage is Ok && r->Ok_0.interval == interval && r->Ok_0.step == 1,
            r is Err ==> r->Err_0 == ReadingsError::PoisonedProbe || usage == Err::<
                OsReadings,
                ReadingsError,
            >(r->Err_0),
    {
        match lock(&self.inner) {
            Some(mut guard) => locked(&mut guard).spawn_heartbeat(
                interval,
                now,
                usage,
                allocated,
                freed,
            ),
            None => Err(ReadingsError::PoisonedProbe),
        }
    }

    /// Records an event: one line at `now`, with the label normalized.
    /// Fails with the error of readings that failed, or where the lock is
    /// poisoned.
    pub fn log_event(
        &self,
        now: Instant,
        usage: Result<OsReadings, ReadingsError>,
        allocated: usize,
        freed: usize,
        event: &str,
    ) -> (r: Result<(), ReadingsError>)
        ensures
            r == Err::<(), ReadingsError>(ReadingsError::PoisonedProbe) || r == line_result(usage),
    {
        match lock(&self.inner) {
            Some(mut guard) => locked(&mut guard).log_event(now, usage, allocated, freed, event),
            None => Err(ReadingsError::PoisonedProbe),
        }
    }

    /// Records one line at `now`, with the label as it is. Fails with the
    /// error of readings that failed, or where the lock is poisoned.
    pub fn write_line(
        &self,
        now: Instant,
        usage: Result<OsReadings, ReadingsError>,
        allocated: usize,
        freed: usize,
        reason: &str,
    ) -> (r: Result<(), ReadingsError>)
        ensures
            r == Err::<(), ReadingsError>(ReadingsError::PoisonedProbe) || r == line_result(usage),
    {
        match lock(&self.inner) {
            Some(mut guard) => locked(&mut guard).write_line(now, usage, allocated, freed, reason),
            None => Err(ReadingsError::PoisonedProbe),
        }
    }

    /// Recover a pre-registered user-defined metric from the probe.
    ///
    /// The result is a shared AtomicI64 that can be used by client code to
    /// communicate updates with the probe. There is none where no metric has
    /// this name, or where the lock is poisoned.
    ///
    /// It is more efficient for the client code to keep the shared AtomicI64
    /// somewhere handy than calling this at every update. Nevertheless, it
    /// allows for intermediate code to just have to propagate the probe
    /// without worrying about the various metrics that the underlying code
    /// may need.
    pub fn get_i64(&self, name: &str) -> Option<Arc<AtomicI64>> {
        match lock(&self.inner) {
            Some(mut guard) => locked(&mut guard).get_i64(name),
            None => None,
        }
    }

    /// Hands over the text recorded since the last call, for the sink.
    /// Fails where the lock is poisoned.
    pub fn take_output(&self) -> (r: Result<String, ReadingsError>)
        ensures
            r is Err ==> r->Err_0 == ReadingsError::PoisonedProbe,
    {
        match lock(&self.inner) {
            Some(mut guard) => Ok(locked(&mut guard).take_output()),
            None => Err(ReadingsError::PoisonedProbe),
        }
    }
}

} // verus!
