//! The life cycle of a tracking job: the states it passes through, the
//! steps that are allowed between them, and what each step waits for.

use crate::time::Timestamp;
use vstd::prelude::*;

verus! {

/// Where a job stands on its way through the ground station.
#[derive(Clone, Copy, Debug, PartialEq, Eq, Structural)]
pub enum JobStatus {
    /// The job passed validation and was registered.
    Received,
    /// Antenna time is reserved for the job's window.
    Scheduled,
    /// The window has opened and the hardware is tracking.
    Started,
    /// The window has closed; nothing follows.
    Completed,
    /// The job failed; nothing follows.
    Error,
}

/// A step that is asked for, with what is known outside the job at that
/// moment and that the step depends on.
#[derive(Debug)]
pub enum StepRequest {
    /// Reserve antenna time. The scheduler says whether the window overlaps
    /// that of another job that is scheduled or started on the same station.
    Schedule { window_conflict: bool },
    /// Begin tracking; the clock reads `now`.
    Start { now: Timestamp },
    /// End tracking; the clock reads `now`.
    Complete { now: Timestamp },
    /// Give the job up, for the cause given.
    Fail { cause: String },
}

/// Why a step of the life cycle was refused.
#[derive(Clone, Copy, Debug, PartialEq, Eq, Structural)]
pub enum TransitionError {
    /// No job is registered under the identifier. Only a registry reports
    /// this.
    UnknownJob,
    /// The life cycle has no step from the current state to the requested one.
    IllegalTransition,
    /// The window overlaps that of another job that holds the station.
    WindowConflict,
    /// The clock has not reached the instant that the step waits for.
    TooEarly,
}

impl StepRequest {
    /// The state that the step leads to.
    pub open spec fn target(self) -> JobStatus {
        match self {
            StepRequest::Schedule { .. } => JobStatus::Scheduled,
            StepRequest::Start { .. } => JobStatus::Started,
            StepRequest::Complete { .. } => JobStatus::Completed,
            StepRequest::Fail { .. } => JobStatus::Error,
        }
    }

    /// What keeps a job with the window from `start` to `end` from entering
    /// the state asked for, if anything: a window conflict for `Scheduled`,
    /// a clock that has not reached `start` for `Started`, one that has not
    /// reached `end` for `Completed`. Nothing keeps a job from failing.
    pub open spec fn obstacle(self, start: Timestamp, end: Timestamp) -> Option<TransitionError> {
        match self {
            StepRequest::Schedule { window_conflict } => if window_conflict {
                Some(TransitionError::WindowConflict)
            } else {
                None
            },
            StepRequest::Start { now } => if now.precedes(start) {
                Some(TransitionError::TooEarly)
            } else {
                None
            },
            StepRequest::Complete { now } => if now.precedes(end) {
                Some(TransitionError::TooEarly)
            } else {
                None
            },
            StepRequest::Fail { .. } => None,
        }
    }

    /// The cause that the request gives, which only a failure does.
    pub open spec fn cause(self) -> Option<Seq<char>> {
        match self {
            StepRequest::Fail { cause } => Some(cause@),
            _ => None,
        }
    }

    /// The state that the step leads to.
    pub fn goal(&self) -> (s: JobStatus)
        ensures
            s == self.target(),
    {
        match self {
            StepRequest::Schedule { .. } => JobStatus::Scheduled,
            StepRequest::Start { .. } => JobStatus::Started,
            StepRequest::Complete { .. } => JobStatus::Completed,
            StepRequest::Fail { .. } => JobStatus::Error,
        }
    }
}

impl JobStatus {
    /// The state of a job that has just been registered.
    pub open spec fn initial() -> JobStatus {
        JobStatus::Received
    }

    /// No step leaves this state.
    pub open spec fn terminal(self) -> bool {
        self is Completed || self is Error
    }

    /// How far along the life cycle a state is. Every step leads to a state
    /// that is further along.
    pub open spec fn rank(self) -> nat {
        match self {
            JobStatus::Received => 0,
            JobStatus::Scheduled => 1,
            JobStatus::Started => 2,
            JobStatus::Completed => 3,
            JobStatus::Error => 4,
        }
    }

    /// The life cycle has a step from `self` to `next`: the three steps of
    /// the normal course, and the step to `Error` from every state that is
    /// not terminal.
    pub open spec fn allows(self, next: JobStatus) -> bool {
        match (self, next) {
            (JobStatus::Received, JobStatus::Scheduled) => true,
            (JobStatus::Scheduled, JobStatus::Started) => true,
            (JobStatus::Started, JobStatus::Completed) => true,
            (_, JobStatus::Error) => !self.terminal(),
            _ => false,
        }
    }

    /// The outcome of a request made of a job in the state `self` whose
    /// window runs from `start` to `end`. Whether the life cycle has the
    /// step is decided first, then whether anything keeps the job from it.
    pub open spec fn step(self, request: StepRequest, start: Timestamp, end: Timestamp) -> Result<
        JobStatus,
        TransitionError,
    > {
        if !self.allows(request.target()) {
            Err(TransitionError::IllegalTransition)
        } else {
            match request.obstacle(start, end) {
                Some(e) => Err(e),
                None => Ok(request.target()),
            }
        }
    }

    /// The state of a job that has just been registered.
    pub fn first() -> (s: JobStatus)
        ensures
            s == JobStatus::initial(),
    {
        JobStatus::Received
    }

    /// Whether no step leaves this state.
    pub fn is_terminal(&self) -> (r: bool)
        ensures
            r == self.terminal(),
    {
        match self {
            JobStatus::Completed | JobStatus::Error => true,
            _ => false,
        }
    }

    /// Whether the life cycle has a step from `self` to `next`.
    pub fn can_become(&self, next: JobStatus) -> (r: bool)
        ensures
            r == self.allows(next),
    {
        match (*self, next) {
            (JobStatus::Received, JobStatus::Scheduled) => true,
            (JobStatus::Scheduled, JobStatus::Started) => true,
            (JobStatus::Started, JobStatus::Completed) => true,
            (JobStatus::Received, JobStatus::Error) => true,
            (JobStatus::Scheduled, JobStatus::Error) => true,
            (JobStatus::Started, JobStatus::Error) => true,
            _ => false,
        }
    }

    /// Decides a request made of a job in the state `self` whose window runs
    /// from `start` to `end`: the state that the job enters, or why it stays
    /// where it is.
    pub fn transition(&self, request: &StepRequest, start: Timestamp, end: Timestamp) -> (r: Result<
        JobStatus,
        TransitionError,
    >)
        ensures
            r == self.step(*request, start, end),
    {
        if !self.can_become(request.goal()) {
            return Err(TransitionError::IllegalTransition);
        }
        match request {
            StepRequest::Schedule { window_conflict } => {
                if *window_conflict {
                    Err(TransitionError::WindowConflict)
                } else {
                    Ok(JobStatus::Scheduled)
                }
            },
            StepRequest::Start { now } => {
                if now.is_before(&start) {
                    Err(TransitionError::TooEarly)
                } else {
                    Ok(JobStatus::Started)
                }
            },
            StepRequest::Complete { now } => {
                if now.is_before(&end) {
                    Err(TransitionError::TooEarly)
                } else {
                    Ok(JobStatus::Completed)
                }
            },
            StepRequest::Fail { .. } => Ok(JobStatus::Error),
        }
    }
}

impl Default for JobStatus {
    fn default() -> (s: JobStatus)
        ensures
            s == JobStatus::initial(),
    {
        JobStatus::Received
    }
}

/// Every step leads further along the life cycle, so none leads back to a
/// state that was left, and none stays in place.
pub proof fn lemma_steps_go_forward(from: JobStatus, to: JobStatus)
    requires
        from.allows(to),
    ensures
        from.rank() < to.rank(),
        !to.allows(from),
        from != to,
{
}

/// No step leaves `Completed` or `Error`, whatever is asked for.
pub proof fn lemma_terminal_states_are_final(
    from: JobStatus,
    request: StepRequest,
    start: Timestamp,
    end: Timestamp,
)
    requires
        from.terminal(),
    ensures
        forall|to: JobStatus| !from.allows(to),
        from.step(request, start, end) == Err::<JobStatus, TransitionError>(
            TransitionError::IllegalTransition,
        ),
{
}

/// A job does not go from `Received` to `Completed` in one step, whatever
/// its window and whatever the clock reads.
pub proof fn lemma_received_cannot_complete(
    request: StepRequest,
    start: Timestamp,
    end: Timestamp,
)
    requires
        request.target() == JobStatus::Completed,
    ensures
        !JobStatus::Received.allows(JobStatus::Completed),
        JobStatus::Received.step(request, start, end) == Err::<JobStatus, TransitionError>(
            TransitionError::IllegalTransition,
        ),
{
}

/// A job can fail in every state that is not terminal, whatever its window.
pub proof fn lemma_error_is_always_reachable(
    from: JobStatus,
    request: StepRequest,
    start: Timestamp,
    end: Timestamp,
)
    requires
        !from.terminal(),
        request is Fail,
    ensures
        from.allows(JobStatus::Error),
        from.step(request, start, end) == Ok::<JobStatus, TransitionError>(JobStatus::Error),
{
}

/// A step that is granted is one the life cycle has, and what the new state
/// waits for had come about: no window conflict for `Scheduled`, the start
/// of the window for `Started`, its end for `Completed`.
pub proof fn lemma_granted_steps_are_legal(
    from: JobStatus,
    request: StepRequest,
    start: Timestamp,
    end: Timestamp,
)
    requires
        from.step(request, start, end) is Ok,
    ensures
        from.step(request, start, end) == Ok::<JobStatus, TransitionError>(request.target()),
        from.allows(request.target()),
        request matches StepRequest::Schedule { window_conflict } ==> !window_conflict,
        request matches StepRequest::Start { now } ==> now.reached(start),
        request matches StepRequest::Complete { now } ==> now.reached(end),
{
}

} // verus!
