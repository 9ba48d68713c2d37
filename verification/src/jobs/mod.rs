//! Tracking jobs: what a job holds, and the rules it must meet before a
//! scheduler accepts it.

pub mod lifecycle;
pub mod registry;
pub mod tle;

pub use self::lifecycle::{JobStatus, StepRequest, TransitionError};
pub use self::registry::{JobRegistry, Registered, StatusEvent};
pub use self::tle::{TleData, TleLines, TleParseError};
use crate::radio::Hertz;
use crate::time::Timestamp;
use vstd::prelude::*;

verus! {

/// Why a job is not accepted.
#[derive(Clone, Copy, Debug, PartialEq, Eq, Structural)]
pub enum JobValidationError {
    /// The window does not start before it ends.
    InvalidTimeWindow,
    /// A frequency is not a finite number above zero.
    NonPositiveFrequency,
    /// An element line has the wrong length.
    InvalidTle(TleParseError),
    /// Another job already has this identifier.
    DuplicateId,
}

/// What a job holds, as mathematical values.
pub struct JobView {
    pub id: u64,
    pub satellite_id: Seq<char>,
    pub start: Timestamp,
    pub end: Timestamp,
    pub tle: TleLines,
    pub rx_frequency: Hertz,
    pub tx_frequency: Hertz,
    pub uplink: Option<Seq<u8>>,
}

impl JobView {
    /// The first rule that the values break, if any. The window is looked at
    /// first, then the downlink frequency, then the uplink frequency, then
    /// the element lines.
    pub open spec fn validation_error(self) -> Option<JobValidationError> {
        if !self.start.precedes(self.end) {
            Some(JobValidationError::InvalidTimeWindow)
        } else if !self.rx_frequency.finite_and_positive() {
            Some(JobValidationError::NonPositiveFrequency)
        } else if !self.tx_frequency.finite_and_positive() {
            Some(JobValidationError::NonPositiveFrequency)
        } else {
            match self.tle.length_error() {
                Some(e) => Some(JobValidationError::InvalidTle(e)),
                None => None,
            }
        }
    }

    /// The values meet every rule that a job by itself can be held to: the
    /// window starts before it ends, both frequencies are finite and above
    /// zero, and both element lines have the fixed length.
    pub open spec fn valid(self) -> bool {
        &&& self.start.precedes(self.end)
        &&& self.rx_frequency.finite_and_positive()
        &&& self.tx_frequency.finite_and_positive()
        &&& self.tle.valid()
    }

    /// The job sends as well as receives.
    pub open spec fn transmits(self) -> bool {
        self.uplink is Some
    }
}

/// The bytes of an optional payload.
pub open spec fn payload_view(payload: Option<Vec<u8>>) -> Option<Seq<u8>> {
    match payload {
        Some(bytes) => Some(bytes@),
        None => None,
    }
}

/// A request to track one pass of one satellite. A job is checked when it is
/// made and cannot be changed afterwards.
#[derive(Debug)]
pub struct Job {
    id: u64,
    satellite_id: String,
    start: Timestamp,
    end: Timestamp,
    tle: TleData,
    rx_frequency: Hertz,
    tx_frequency: Hertz,
    uplink: Option<Vec<u8>>,
}

impl View for Job {
    type V = JobView;

    closed spec fn view(&self) -> JobView {
        JobView {
            id: self.id,
            satellite_id: self.satellite_id@,
            start: self.start,
            end: self.end,
            tle: self.tle@,
            rx_frequency: self.rx_frequency,
            tx_frequency: self.tx_frequency,
            uplink: payload_view(self.uplink),
        }
    }
}

impl Job {
    #[verifier::type_invariant]
    spec fn well_formed(&self) -> bool {
        self@.valid()
    }

    /// Makes a job from the values submitted, or says which rule they break
    /// first. Whether the identifier is already taken is for the registry
    /// to say.
    pub fn new(
        id: u64,
        satellite_id: String,
        start: Timestamp,
        end: Timestamp,
        tle: TleData,
        rx_frequency: Hertz,
        tx_frequency: Hertz,
        uplink: Option<Vec<u8>>,
    ) -> (r: Result<Job, JobValidationError>)
        ensures
            ({
                let submitted = JobView {
                    id,
                    satellite_id: satellite_id@,
                    start,
                    end,
                    tle: tle@,
                    rx_frequency,
                    tx_frequency,
                    uplink: payload_view(uplink),
                };
                &&& r is Ok <==> submitted.valid()
                &&& match r {
                    Ok(job) => job@ == submitted,
                    Err(e) => submitted.validation_error() == Some(e),
                }
            }),
    {
        if !start.is_before(&end) {
            return Err(JobValidationError::InvalidTimeWindow);
        }
        if !rx_frequency.is_finite_and_positive() {
            return Err(JobValidationError::NonPositiveFrequency);
        }
        if !tx_frequency.is_finite_and_positive() {
            return Err(JobValidationError::NonPositiveFrequency);
        }
        match tle.validate() {
            Err(e) => {
                return Err(JobValidationError::InvalidTle(e));
            },
            Ok(()) => {},
        }
        Ok(Job { id, satellite_id, start, end, tle, rx_frequency, tx_frequency, uplink })
    }

    /// The identifier that the submitter gave the job.
    pub fn id(&self) -> (id: u64)
        ensures
            id == self@.id,
    {
        self.id
    }

    /// The satellite to track.
    pub fn satellite_id(&self) -> (s: &String)
        ensures
            s@ == self@.satellite_id,
    {
        &self.satellite_id
    }

    /// When tracking begins. It is earlier than the end of the window.
    pub fn start(&self) -> (t: Timestamp)
        ensures
            t == self@.start,
            t.precedes(self@.end),
    {
        proof {
            use_type_invariant(self);
        }
        self.start
    }

    /// When tracking ends. It is later than the start of the window.
    pub fn end(&self) -> (t: Timestamp)
        ensures
            t == self@.end,
            self@.start.precedes(t),
    {
        proof {
            use_type_invariant(self);
        }
        self.end
    }

    /// The orbital elements. Both element lines have the fixed length.
    pub fn tle(&self) -> (t: &TleData)
        ensures
            t@ == self@.tle,
            t@.valid(),
    {
        proof {
            use_type_invariant(self);
        }
        &self.tle
    }

    /// The downlink frequency, a finite number above zero.
    pub fn rx_frequency(&self) -> (f: Hertz)
        ensures
            f == self@.rx_frequency,
            f.finite_and_positive(),
    {
        proof {
            use_type_invariant(self);
        }
        self.rx_frequency
    }

    /// The uplink frequency, a finite number above zero.
    pub fn tx_frequency(&self) -> (f: Hertz)
        ensures
            f == self@.tx_frequency,
            f.finite_and_positive(),
    {
        proof {
            use_type_invariant(self);
        }
        self.tx_frequency
    }

    /// The bytes to send during the pass, if any.
    pub fn uplink(&self) -> (payload: &Option<Vec<u8>>)
        ensures
            payload_view(*payload) == self@.uplink,
    {
        &self.uplink
    }

    /// Whether the job sends as well as receives.
    pub fn transmits(&self) -> (r: bool)
        ensures
            r == self@.transmits(),
    {
        self.uplink.is_some()
    }
}

/// The rules are met exactly where no rule is found broken.
pub proof fn lemma_valid_means_no_error(job: JobView)
    ensures
        job.valid() <==> job.validation_error() is None,
{
}

/// A window that does not start before it ends is refused for that reason,
/// whatever else the job holds.
pub proof fn lemma_bad_window_is_refused(job: JobView)
    requires
        !job.start.precedes(job.end),
    ensures
        job.validation_error() == Some(JobValidationError::InvalidTimeWindow),
{
}

/// A job whose window starts before it ends, with both frequencies finite
/// and above zero, is refused only for its element lines.
pub proof fn lemma_good_window_and_frequencies(job: JobView)
    requires
        job.start.precedes(job.end),
        job.rx_frequency.finite_and_positive(),
        job.tx_frequency.finite_and_positive(),
    ensures
        job.tle.valid() ==> job.validation_error() is None,
        !job.tle.valid() ==> job.validation_error() matches Some(
            JobValidationError::InvalidTle(_),
        ),
{
}

} // verus!
