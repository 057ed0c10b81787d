//! The ways in which recording can fail.

use vstd::prelude::*;

verus! {

/// Reading error enumeration.
#[derive(Clone, Copy, Debug, PartialEq, Eq, Structural)]
pub enum ReadingsError {
    /// A metric was registered after the first line had been recorded.
    LateRegistertingMetricsAttempt,
    /// The platform's source of process readings could not be read.
    ProcStat,
    /// The sink refused a write or a flush.
    Io,
    /// The lock around the probe can no longer be taken.
    PoisonedProbe,
}

/// Reading generic Result helper.
pub type ReadingsResult<T> = Result<T, ReadingsError>;

impl ReadingsError {
    /// The sentence that describes this error.
    pub open spec fn spec_message(self) -> Seq<char> {
        match self {
            ReadingsError::LateRegistertingMetricsAttempt => {
                "Metrics can only be added before first event"@
            },
            ReadingsError::ProcStat => "io Error accessing /proc/self/stat"@,
            ReadingsError::Io => "Io error writing readings"@,
            ReadingsError::PoisonedProbe => "Poisoned probe"@,
        }
    }

    /// The sentence that describes this error.
    pub fn message(&self) -> (r: String)
        ensures
            r@ == self.spec_message(),
    {
        match self {
            ReadingsError::LateRegistertingMetricsAttempt => {
                String::from_str("Metrics can only be added before first event")
            },
            ReadingsError::ProcStat => String::from_str("io Error accessing /proc/self/stat"),
            ReadingsError::Io => String::from_str("Io error writing readings"),
            ReadingsError::PoisonedProbe => String::from_str("Poisoned probe"),
        }
    }
}

} // verus!
