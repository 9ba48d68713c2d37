//! The registry of accepted jobs: it keeps identifiers unique and holds the
//! state of each job, which changes only by steps of the life cycle.

use crate::jobs::lifecycle::{lemma_granted_steps_are_legal, JobStatus, StepRequest, TransitionError};
use crate::jobs::{Job, JobValidationError, JobView};
use std::collections::HashMap;
use vstd::prelude::*;

verus! {

/// A registered job and the state it is in.
pub struct Registered {
    pub job: JobView,
    pub status: JobStatus,
}

struct Entry {
    job: Job,
    status: JobStatus,
}

impl Entry {
    spec fn registered(self) -> Registered {
        Registered { job: self.job@, status: self.status }
    }
}

/// What is made known of every step that a job takes: the job, the state it
/// has entered, and the cause where it has failed.
#[derive(Debug)]
pub struct StatusEvent {
    pub id: u64,
    pub status: JobStatus,
    pub cause: Option<String>,
}

impl StatusEvent {
    /// The cause, as a sequence of characters.
    pub open spec fn cause_view(self) -> Option<Seq<char>> {
        match self.cause {
            Some(cause) => Some(cause@),
            None => None,
        }
    }
}

/// The jobs that were accepted, by identifier, each with its state.
pub struct JobRegistry {
    entries: HashMap<u64, Entry>,
}

impl View for JobRegistry {
    type V = Map<u64, Registered>;

    closed spec fn view(&self) -> Map<u64, Registered> {
        self.entries@.map_values(|e: Entry| e.registered())
    }
}

/// What a request made of the job under `id` gives: an unknown identifier
/// is reported first, and for a known one the life cycle decides by the
/// job's state and window.
pub open spec fn transition_outcome(jobs: Map<u64, Registered>, id: u64, request: StepRequest) -> Result<
    JobStatus,
    TransitionError,
> {
    if !jobs.contains_key(id) {
        Err(TransitionError::UnknownJob)
    } else {
        jobs[id].status.step(request, jobs[id].job.start, jobs[id].job.end)
    }
}

impl JobRegistry {
    /// Every job stands under its own identifier and meets the rules for
    /// jobs. A new registry is so, and every operation keeps it so.
    pub open spec fn wf(&self) -> bool {
        forall|id: u64| #[trigger]
            self@.contains_key(id) ==> self@[id].job.id == id && self@[id].job.valid()
    }

    /// A registry without jobs.
    pub fn new() -> (r: JobRegistry)
        ensures
            r@ == Map::<u64, Registered>::empty(),
            r.wf(),
    {
        let r = JobRegistry { entries: HashMap::new() };
        assert(r@ =~= Map::<u64, Registered>::empty());
        r
    }

    /// Takes a job in, in the state `Received`, unless its identifier is
    /// taken: then the registry stays as it is and the job is dropped. An
    /// identifier stays taken when its job has come to an end.
    pub fn register(&mut self, job: Job) -> (r: Result<(), JobValidationError>)
        requires
            old(self).wf(),
        ensures
            final(self).wf(),
            old(self)@.contains_key(job@.id) ==> r == Err::<(), JobValidationError>(
                JobValidationError::DuplicateId,
            ) && final(self)@ == old(self)@,
            !old(self)@.contains_key(job@.id) ==> r is Ok && final(self)@ == old(self)@.insert(
                job@.id,
                Registered { job: job@, status: JobStatus::initial() },
            ),
    {
        broadcast use vstd::std_specs::hash::group_hash_axioms;

        proof {
            use_type_invariant(&job);
        }
        let id = job.id();
        if self.entries.contains_key(&id) {
            return Err(JobValidationError::DuplicateId);
        }
        let ghost before = self.entries@;
        let entry = Entry { job, status: JobStatus::first() };
        self.entries.insert(id, entry);
        proof {
            assert(self.entries@ == before.insert(id, entry));
            assert(self@ =~= old(self)@.insert(id, entry.registered()));
        }
        Ok(())
    }

    /// Whether a job is registered under `id`.
    pub fn contains(&self, id: u64) -> (r: bool)
        ensures
            r == self@.contains_key(id),
    {
        broadcast use vstd::std_specs::hash::group_hash_axioms;

        self.entries.contains_key(&id)
    }

    /// The state of the job registered under `id`.
    pub fn status(&self, id: u64) -> (r: Option<JobStatus>)
        ensures
            r == (if self@.contains_key(id) {
                Some(self@[id].status)
            } else {
                None
            }),
    {
        broadcast use vstd::std_specs::hash::group_hash_axioms;

        match self.entries.get(&id) {
            Some(entry) => Some(entry.status),
            None => None,
        }
    }

    /// The job registered under `id`. It carries that identifier and meets
    /// the rules for jobs.
    pub fn job(&self, id: u64) -> (r: Option<&Job>)
        requires
            self.wf(),
        ensures
            r is Some <==> self@.contains_key(id),
            r matches Some(job) ==> job@ == self@[id].job && job@.id == id && job@.valid(),
    {
        broadcast use vstd::std_specs::hash::group_hash_axioms;

        match self.entries.get(&id) {
            Some(entry) => {
                assert(self@.contains_key(id) && self@[id] == entry.registered());
                Some(&entry.job)
            },
            None => None,
        }
    }

    /// Puts a request to the job registered under `id`. Where the life cycle
    /// grants the step, the job enters the new state and the event to make
    /// known is returned; else nothing changes.
    pub fn transition(&mut self, id: u64, request: StepRequest) -> (r: Result<
        StatusEvent,
        TransitionError,
    >)
        requires
            old(self).wf(),
        ensures
            final(self).wf(),
            match r {
                Ok(event) => {
                    &&& transition_outcome(old(self)@, id, request) == Ok::<
                        JobStatus,
                        TransitionError,
                    >(event.status)
                    &&& event.id == id
                    &&& event.cause_view() == request.cause()
                    &&& final(self)@ == old(self)@.insert(
                        id,
                        Registered { job: old(self)@[id].job, status: event.status },
                    )
                },
                Err(e) => {
                    &&& transition_outcome(old(self)@, id, request) == Err::<
                        JobStatus,
                        TransitionError,
                    >(e)
                    &&& final(self)@ == old(self)@
                },
            },
    {
        broadcast use vstd::std_specs::hash::group_hash_axioms;

        let ghost before = self.entries@;
        let granted = match self.entries.get(&id) {
            None => {
                return Err(TransitionError::UnknownJob);
            },
            Some(entry) => entry.status.transition(&request, entry.job.start(), entry.job.end()),
        };
        let status = match granted {
            Ok(status) => status,
            Err(e) => {
                return Err(e);
            },
        };
        match self.entries.remove(&id) {
            Some(entry) => {
                let moved = Entry { job: entry.job, status };
                self.entries.insert(id, moved);
                proof {
                    assert(self.entries@ =~= before.insert(id, moved));
                    assert(self@ =~= old(self)@.insert(id, moved.registered()));
                }
            },
            None => {},
        }
        let cause = match request {
            StepRequest::Fail { cause } => Some(cause),
            _ => None,
        };
        Ok(StatusEvent { id, status, cause })
    }
}

/// The state of a registered job changes only by a step that the life cycle
/// has, and then it is further along than it was.
pub proof fn lemma_registered_jobs_go_forward(
    jobs: Map<u64, Registered>,
    id: u64,
    request: StepRequest,
)
    requires
        transition_outcome(jobs, id, request) is Ok,
    ensures
        jobs.contains_key(id),
        transition_outcome(jobs, id, request) == Ok::<JobStatus, TransitionError>(
            request.target(),
        ),
        jobs[id].status.allows(request.target()),
        jobs[id].status.rank() < request.target().rank(),
{
    lemma_granted_steps_are_legal(jobs[id].status, request, jobs[id].job.start, jobs[id].job.end);
}

} // verus!
