//! The state of a recording: the registry of metrics, the origin of its
//! times and the text recorded so far.

use crate::error::ReadingsError;
use crate::heartbeat::Heartbeat;
use crate::line::{data_row, format_header, format_line, header_row};
use crate::metric::{current_value, new_handle, share, Metric};
use crate::readings::OsReadings;
use crate::text::{normalize, normalized, texts};
use crate::time::{span_between, Duration, Instant};
use std::sync::atomic::AtomicI64;
use std::sync::Arc;
use vstd::prelude::*;

verus! {

/// What the state of a recording holds, as plain values.
pub struct ProbeView {
    /// The number of cores, sampled once at creation.
    pub cores: nat,
    /// The time of the first recorded line; `None` until one is recorded.
    pub origin: Option<Instant>,
    /// The normalized names of the registered metrics, in registration order.
    pub names: Seq<Seq<char>>,
    /// The shared integers of the registered metrics, in the same order.
    pub handles: Seq<Arc<AtomicI64>>,
    /// The text recorded and not yet taken for the sink.
    pub output: Seq<char>,
}

impl ProbeView {
    /// Whether a line has been recorded, after which no metric can be
    /// registered.
    pub open spec fn started(self) -> bool {
        self.origin is Some
    }

    /// The origin once a line has been recorded at `now`: the one already
    /// set, or else `now`.
    pub open spec fn origin_at(self, now: Instant) -> Instant {
        match self.origin {
            Some(origin) => origin,
            None => now,
        }
    }

    /// The time that a line recorded at `now` shows.
    pub open spec fn elapsed_at(self, now: Instant) -> Duration {
        Duration { nanos: span_between(now, self.origin_at(now)) as u128 }
    }

    /// What precedes the next data row: the header row before the first
    /// line, nothing afterwards.
    pub open spec fn opening(self) -> Seq<char> {
        if self.started() {
            Seq::empty()
        } else {
            header_row(self.names)
        }
    }

    /// The state after registering a metric `name` with the shared integer
    /// `handle`.
    pub open spec fn with_metric(self, name: Seq<char>, handle: Arc<AtomicI64>) -> ProbeView {
        ProbeView {
            names: self.names.push(normalized(name)),
            handles: self.handles.push(handle),
            ..self
        }
    }

    /// The state after a line is recorded at `now` with the readings
    /// `readings`: before the first line the header row goes in front and
    /// `now` becomes the origin, and then comes the data row.
    pub open spec fn after_line(
        self,
        now: Instant,
        readings: OsReadings,
        allocated: nat,
        freed: nat,
        values: Seq<i64>,
        reason: Seq<char>,
    ) -> ProbeView {
        ProbeView {
            origin: Some(self.origin_at(now)),
            output: self.output + self.opening() + data_row(
                self.elapsed_at(now),
                self.cores,
                readings,
                allocated,
                freed,
                values,
                reason,
            ),
            ..self
        }
    }

    /// The shared integer registered under the normalized `name`: that of
    /// the first metric with this name, if there is one.
    pub open spec fn lookup(self, name: Seq<char>) -> Option<Arc<AtomicI64>>
        recommends
            self.names.len() == self.handles.len(),
    {
        if exists|i: int| 0 <= i < self.names.len() && self.names[i] == name {
            let first = choose|i: int|
                0 <= i < self.names.len() && self.names[i] == name && forall|j: int|
                    0 <= j < i ==> self.names[j] != name;
            Some(self.handles[first])
        } else {
            None
        }
    }
}

/// The result that goes with the readings handed to a line: their error, or
/// success.
pub open spec fn line_result(usage: Result<OsReadings, ReadingsError>) -> Result<
    (),
    ReadingsError,
> {
    match usage {
        Ok(_) => Ok(()),
        Err(e) => Err(e),
    }
}

/// What starting a heartbeat gives: with readings, the schedule that starts
/// at `origin`; with readings that failed, their error.
pub open spec fn heartbeat_result(
    usage: Result<OsReadings, ReadingsError>,
    origin: Instant,
    interval: Duration,
) -> Result<Heartbeat, ReadingsError> {
    match usage {
        Ok(_) => Ok(Heartbeat { origin, interval, step: 1 }),
        Err(e) => Err(e),
    }
}

/// What a probe guards: the registry of metrics and the text recorded so
/// far. Whoever owns the sink takes that text and writes it out.
pub struct ProbeData {
    cores: usize,
    origin: Option<Instant>,
    pending: String,
    metrics: Vec<Metric>,
}

impl View for ProbeData {
    type V = ProbeView;

    closed spec fn view(&self) -> ProbeView {
        ProbeView {
            cores: self.cores as nat,
            origin: self.origin,
            names: Seq::new(self.metrics@.len(), |i: int| self.metrics@[i].name@),
            handles: Seq::new(self.metrics@.len(), |i: int| self.metrics@[i].handle),
            output: self.pending@,
        }
    }
}

/// `num_cpus::get`: the number of logical cores available to this process.
/// The count depends on the machine, so nothing is claimed of it.
#[verifier::external_body]
fn available_cores() -> usize {
    num_cpus::get()
}

impl ProbeData {
    /// A recording on a machine with `cores` cores. Nothing is registered, no
    /// line is recorded, and the recording starts with its format marker.
    pub fn with_cores(cores: usize) -> (r: ProbeData)
        ensures
            r@ == (ProbeView {
                cores: cores as nat,
                origin: None,
                names: Seq::empty(),
                handles: Seq::empty(),
                output: "#ReadingsV1\n"@,
            }),
    {
        let r = ProbeData {
            cores,
            origin: None,
            pending: String::from_str("#ReadingsV1\n"),
            metrics: Vec::new(),
        };
        assert(r@.names =~= Seq::empty());
        assert(r@.handles =~= Seq::empty());
        r
    }

    /// A recording on this machine, with as many cores as the process can
    /// use.
    pub fn new() -> (r: ProbeData)
        ensures
            r@.origin is None,
            r@.names == Seq::<Seq<char>>::empty(),
            r@.handles == Seq::<Arc<AtomicI64>>::empty(),
            r@.output == "#ReadingsV1\n"@,
    {
        ProbeData::with_cores(available_cores())
    }

    /// The registry pairs every name with one shared integer.
    pub proof fn lemma_registry_is_paired(&self)
        ensures
            self@.names.len() == self@.handles.len(),
    {
    }

    /// The number of cores, as sampled at creation.
    pub fn cores(&self) -> (r: usize)
        ensures
            r == self@.cores,
    {
        self.cores
    }

    /// The time of the first recorded line, if one has been recorded.
    pub fn origin(&self) -> (r: Option<Instant>)
        ensures
            r == self@.origin,
    {
        self.origin
    }

    /// Whether a line has been recorded, after which no metric can be
    /// registered.
    pub fn is_started(&self) -> (r: bool)
        ensures
            r == self@.started(),
    {
        self.origin.is_some()
    }

    /// The number of registered metrics.
    pub fn metric_count(&self) -> (r: usize)
        ensures
            r == self@.names.len(),
    {
        self.metrics.len()
    }

    /// Register an i64 user-defined metric.
    ///
    /// Succeeds exactly before the first line is recorded. The metric is
    /// appended to the registry under its normalized name, and the result is
    /// the shared integer through which client code reports updates. Once a
    /// line has been recorded the call fails and changes nothing.
    pub fn register_i64(&mut self, name: &str) -> (r: Result<Arc<AtomicI64>, ReadingsError>)
        ensures
            old(self)@.started() ==> r is Err && r->Err_0
                == ReadingsError::LateRegistertingMetricsAttempt && final(self)@ == old(self)@,
            !old(self)@.started() ==> r is Ok && final(self)@ == old(self)@.with_metric(
                name@,
                r->Ok_0,
            ),
    {
        if self.origin.is_some() {
            return Err(ReadingsError::LateRegistertingMetricsAttempt);
        }
        let it = new_handle();
        let metric = Metric { name: normalize(name), handle: share(&it) };
        self.metrics.push(metric);
        assert(self@.names =~= old(self)@.names.push(normalized(name@)));
        assert(self@.handles =~= old(self)@.handles.push(it));
        Ok(it)
    }

    /// Recover a pre-registered user-defined metric: the
    /// shared integer of the first metric registered under this name, once
    /// normalized, or `None` when there is none.
    pub fn get_i64(&self, name: &str) -> (r: Option<Arc<AtomicI64>>)
        ensures
            r == self@.lookup(normalized(name@)),
    {
        let wanted = normalize(name);
        let mut i: usize = 0;
        while i < self.metrics.len()
            invariant
                i <= self.metrics.len(),
                wanted@ == normalized(name@),
                forall|j: int| 0 <= j < i ==> self@.names[j] != wanted@,
            decreases self.metrics.len() - i,
        {
            if self.metrics[i].name == wanted {
                assert(self@.names[i as int] == wanted@);
                return Some(share(&self.metrics[i].handle));
            }
            i = i + 1;
        }
        None
    }

    /// The values that the registered metrics hold at this moment, in
    /// registration order.
    pub fn sample_metrics(&self) -> (values: Vec<i64>)
        ensures
            values@.len() == self@.names.len(),
    {
        let mut values: Vec<i64> = Vec::new();
        let mut i: usize = 0;
        while i < self.metrics.len()
            invariant
                i <= self.metrics.len(),
                values@.len() == i,
            decreases self.metrics.len() - i,
        {
            values.push(current_value(&self.metrics[i].handle));
            i = i + 1;
        }
        values
    }

    /// The registered names, copied out in registration order.
    fn names(&self) -> (names: Vec<String>)
        ensures
            texts(names@) == self@.names,
    {
        let mut names: Vec<String> = Vec::new();
        let mut i: usize = 0;
        while i < self.metrics.len()
            invariant
                i <= self.metrics.len(),
                names@.len() == i,
                forall|j: int| 0 <= j < i ==> names@[j]@ == self.metrics@[j].name@,
            decreases self.metrics.len() - i,
        {
            names.push(self.metrics[i].name.clone());
            i = i + 1;
        }
        assert(texts(names@) =~= self@.names);
        names
    }

    /// Records one line at `now` with the metric values `values`, one for
    /// each registered metric, in registration order.
    ///
    /// With readings, the header row is recorded first where this is the
    /// first line, and `now` becomes the origin. With readings that failed
    /// nothing is recorded: the error is handed on and the recording stays
    /// as it was, so that one which has not started can still take metrics.
    pub fn write_sampled_line(
        &mut self,
        now: Instant,
        usage: Result<OsReadings, ReadingsError>,
        allocated: usize,
        freed: usize,
        values: &Vec<i64>,
        reason: &str,
    ) -> (r: Result<(), ReadingsError>)
        requires
            values@.len() == old(self)@.names.len(),
        ensures
            usage is Ok ==> final(self)@ == old(self)@.after_line(
                now,
                usage->Ok_0,
                allocated as nat,
                freed as nat,
                values@,
                reason@,
            ),
            usage is Err ==> final(self)@ == old(self)@,
            r == line_result(usage),
    {
        let readings = match usage {
            Ok(readings) => readings,
            Err(e) => {
                return Err(e);
            },
        };
        let origin = match self.origin {
            Some(origin) => origin,
            None => {
                let names = self.names();
                let header = format_header(&names);
                self.pending.append(header.as_str());
                self.origin = Some(now);
                now
            },
        };
        let elapsed = now.duration_since(origin);
        let line = format_line(elapsed, self.cores, &readings, allocated, freed, values, reason);
        self.pending.append(line.as_str());
        assert(self@ =~= old(self)@.after_line(
            now,
            readings,
            allocated as nat,
            freed as nat,
            values@,
            reason@,
        ));
        Ok(())
    }

    /// Records one line at `now`, with the value that each metric holds at
    /// this moment. With readings that failed nothing is recorded.
    pub fn write_line(
        &mut self,
        now: Instant,
        usage: Result<OsReadings, ReadingsError>,
        allocated: usize,
        freed: usize,
        reason: &str,
    ) -> (r: Result<(), ReadingsError>)
        ensures
            usage is Ok ==> exists|values: Seq<i64>|
                values.len() == old(self)@.names.len() && final(self)@ == old(self)@.after_line(
                    now,
                    usage->Ok_0,
                    allocated as nat,
                    freed as nat,
                    values,
                    reason@,
                ),
            usage is Err ==> final(self)@ == old(self)@,
            r == line_result(usage),
    {
        let values = self.sample_metrics();
        self.write_sampled_line(now, usage, allocated, freed, &values, reason)
    }

    /// Records an event: one line at `now` with the normalized label. With
    /// readings that failed nothing is recorded.
    pub fn log_event(
        &mut self,
        now: Instant,
        usage: Result<OsReadings, ReadingsError>,
        allocated: usize,
        freed: usize,
        event: &str,
    ) -> (r: Result<(), ReadingsError>)
        ensures
            usage is Ok ==> exists|values: Seq<i64>|
                values.len() == old(self)@.names.len() && final(self)@ == old(self)@.after_line(
                    now,
                    usage->Ok_0,
                    allocated as nat,
                    freed as nat,
                    values,
                    normalized(event@),
                ),
            usage is Err ==> final(self)@ == old(self)@,
            r == line_result(usage),
    {
        let label = normalize(event);
        self.write_line(now, usage, allocated, freed, label.as_str())
    }

    /// Starts a heartbeat: records the event `spawned_heartbeat` at `now`,
    /// which sets the origin if no line was recorded before, and returns the
    /// schedule of the ticks, which are due at multiples of `interval` after
    /// the origin. Running the schedule is left to the caller. With readings
    /// that failed nothing is recorded and there is no schedule.
    pub fn spawn_heartbeat(
        &mut self,
        interval: Duration,
        now: Instant,
        usage: Result<OsReadings, ReadingsError>,
        allocated: usize,
        freed: usize,
    ) -> (r: Result<Heartbeat, ReadingsError>)
        ensures
            usage is Ok ==> exists|values: Seq<i64>|
                values.len() == old(self)@.names.len() && final(self)@ == old(self)@.after_line(
                    now,
                    usage->Ok_0,
                    allocated as nat,
                    freed as nat,
                    values,
                    "spawned_heartbeat"@,
                ),
            usage is Err ==> final(self)@ == old(self)@,
            r == heartbeat_result(usage, old(self)@.origin_at(now), interval),
    {
        match self.write_line(now, usage, allocated, freed, "spawned_heartbeat") {
            Ok(()) => {
                let origin = match self.origin {
                    Some(origin) => origin,
                    None => now,
                };
                Ok(Heartbeat::new(origin, interval))
            },
            Err(e) => Err(e),
        }
    }

    /// Hands over the text recorded since the last call, for the sink.
    pub fn take_output(&mut self) -> (text: String)
        ensures
            text@ == old(self)@.output,
            final(self)@ == (ProbeView { output: Seq::empty(), ..old(self)@ }),
    {
        let mut text = String::new();
        std::mem::swap(&mut self.pending, &mut text);
        text
    }
}

} // verus!
