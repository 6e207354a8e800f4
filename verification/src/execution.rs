//! Admission and completion ownership for synchronous server operations.
//!
//! Storage work runs elsewhere, a bounded number of jobs at a time. What is decided here is
//! which jobs are admitted and when all of them are done.

use vstd::prelude::*;
use crate::protocol::error::{Error, StorageFailureClass};

verus! {

/// Why a job has no result.
#[derive(Debug, Clone, Copy, PartialEq, Eq, Structural)]
pub enum ExecutionError {
    Busy,
    Closed,
    Failed,
}

impl ExecutionError {
    /// The error in words.
    pub open spec fn text(self) -> Seq<char> {
        match self {
            ExecutionError::Busy => "all storage execution slots are occupied"@,
            ExecutionError::Closed => "storage execution is shutting down"@,
            ExecutionError::Failed =>
            "storage job did not complete normally; outcome may be uncertain"@,
        }
    }

    /// The error in words.
    pub fn to_string(&self) -> (r: String)
        ensures
            r@ == self.text(),
    {
        match self {
            ExecutionError::Busy => "all storage execution slots are occupied".to_owned(),
            ExecutionError::Closed => "storage execution is shutting down".to_owned(),
            ExecutionError::Failed => {
                "storage job did not complete normally; outcome may be uncertain".to_owned()
            },
        }
    }

    /// The protocol error for a job without a result: it may be tried again where it was not
    /// admitted.
    pub fn into_domain(self) -> (r: Error)
        ensures
            match self {
                ExecutionError::Failed => r matches Error::Storage(m) && m@ == self.text(),
                _ => r matches Error::Unavailable(f) && f.backend@ == "execution"@ && f.operation@
                    == "admission"@ && f.detail@ == self.text() && f.retry_after_secs == Some(1u32)
                    && f.class == StorageFailureClass::Unavailable,
            },
    {
        match self {
            ExecutionError::Busy | ExecutionError::Closed => Error::storage_unavailable(
                "execution",
                "admission".to_owned(),
                self.to_string(),
            ),
            ExecutionError::Failed => Error::Storage(self.to_string()),
        }
    }
}

/// Whether an error is one of the server rather than of the request.
pub fn is_server_error(error: &Error) -> (r: bool)
    ensures
        r == (500 <= error.status_spec() < 600),
{
    let status = error.status_code();
    500 <= status && status < 600
}

/// How a job ended.
#[derive(Debug, Clone, Copy, PartialEq, Eq, Structural)]
pub enum JobOutcome {
    /// The work returned, with whatever result.
    Returned,
    /// The work panicked.
    Panicked,
}

/// The state of admission: what is admitted, what runs, and whether more may come.
#[derive(Debug, Clone, Copy, PartialEq, Eq, Structural)]
pub struct Admission {
    /// Whether new jobs are admitted.
    pub accepting: bool,
    /// Whether there is a runtime to run jobs on.
    pub started: bool,
    /// Whether shutdown was requested.
    pub cancelled: bool,
    /// How many jobs may be admitted at a time.
    pub capacity: usize,
    /// Jobs that are admitted and not released.
    pub admitted: usize,
    /// Jobs that have begun and are not released.
    pub running: usize,
}

impl Admission {
    /// Jobs do not exceed the capacity, and only admitted jobs run.
    pub open spec fn is_valid(self) -> bool {
        self.running <= self.admitted <= self.capacity
    }

    /// Whether all admitted jobs are done and none will come.
    pub open spec fn drained(self) -> bool {
        !self.accepting && self.admitted == 0
    }

    /// What a request for admission comes to.
    pub open spec fn verdict(self) -> Result<(), ExecutionError> {
        if !self.accepting || self.cancelled || !self.started {
            Err(ExecutionError::Closed)
        } else if self.admitted == self.capacity {
            Err(ExecutionError::Busy)
        } else {
            Ok(())
        }
    }

    /// Admission that has not begun.
    pub fn new(capacity: usize) -> (r: Self)
        ensures
            r == (Admission {
                accepting: true,
                started: false,
                cancelled: false,
                capacity,
                admitted: 0,
                running: 0,
            }),
            r.is_valid(),
    {
        Admission {
            accepting: true,
            started: false,
            cancelled: false,
            capacity,
            admitted: 0,
            running: 0,
        }
    }

    /// There is a runtime now.
    pub fn start(&mut self)
        requires
            !old(self).started,
        ensures
            *final(self) == (Admission { started: true, ..*old(self) }),
            *final(self) == after_step(*old(self), Step::Start),
            old(self).is_valid() ==> final(self).is_valid(),
    {
        self.started = true;
    }

    /// Asks for the admission of a job.
    pub fn submit(&mut self) -> (r: Result<(), ExecutionError>)
        requires
            old(self).is_valid(),
        ensures
            r == old(self).verdict(),
            r is Ok ==> *final(self) == (Admission {
                admitted: (old(self).admitted + 1) as usize,
                ..*old(self)
            }),
            r is Err ==> *final(self) == *old(self),
            *final(self) == after_step(*old(self), Step::Submit),
            final(self).is_valid(),
    {
        if !self.accepting || self.cancelled {
            return Err(ExecutionError::Closed);
        }
        if !self.started {
            return Err(ExecutionError::Closed);
        }
        if self.admitted == self.capacity {
            return Err(ExecutionError::Busy);
        }
        self.admitted = self.admitted + 1;
        Ok(())
    }

    /// An admitted job begins.
    pub fn job_started(&mut self)
        requires
            old(self).is_valid(),
            old(self).running < old(self).admitted,
        ensures
            *final(self) == (Admission { running: (old(self).running + 1) as usize, ..*old(self) }),
            *final(self) == after_step(*old(self), Step::JobStarted),
            final(self).is_valid(),
    {
        self.running = self.running + 1;
    }

    /// A job has ended. A panic leaves storage in doubt, so nothing more is admitted and
    /// shutdown is requested.
    pub fn job_ended(&mut self, outcome: JobOutcome) -> (r: Result<(), ExecutionError>)
        requires
            old(self).is_valid(),
        ensures
            match outcome {
                JobOutcome::Returned => r is Ok && *final(self) == *old(self),
                JobOutcome::Panicked => r == Err::<(), ExecutionError>(ExecutionError::Failed)
                    && *final(self) == (Admission { accepting: false, cancelled: true, ..*old(self) }),
            },
            *final(self) == after_step(*old(self), Step::JobEnded(outcome)),
            final(self).is_valid(),
    {
        match outcome {
            JobOutcome::Returned => Ok(()),
            JobOutcome::Panicked => {
                self.accepting = false;
                self.cancelled = true;
                Err(ExecutionError::Failed)
            },
        }
    }

    /// A job gives its place back, whether or not it ever began, and whether or not anybody
    /// waits for its result.
    pub fn job_released(&mut self, began: bool)
        requires
            old(self).is_valid(),
            old(self).admitted > 0,
            began ==> old(self).running > 0,
            !began ==> old(self).running < old(self).admitted,
        ensures
            *final(self) == (Admission {
                admitted: (old(self).admitted - 1) as usize,
                running: if began {
                    (old(self).running - 1) as usize
                } else {
                    old(self).running
                },
                ..*old(self)
            }),
            *final(self) == after_step(*old(self), Step::JobReleased(began)),
            final(self).is_valid(),
    {
        if began {
            self.running = self.running - 1;
        }
        self.admitted = self.admitted - 1;
    }

    /// Admits nothing more.
    pub fn close(&mut self)
        ensures
            *final(self) == (Admission { accepting: false, ..*old(self) }),
            *final(self) == after_step(*old(self), Step::Close),
            old(self).is_valid() ==> final(self).is_valid(),
    {
        self.accepting = false;
    }

    /// Shutdown was requested.
    pub fn cancel(&mut self)
        ensures
            *final(self) == (Admission { cancelled: true, ..*old(self) }),
            *final(self) == after_step(*old(self), Step::Cancel),
            old(self).is_valid() ==> final(self).is_valid(),
    {
        self.cancelled = true;
    }

    /// Whether all admitted jobs are done and none will come.
    pub fn is_drained(&self) -> (r: bool)
        ensures
            r == self.drained(),
    {
        !self.accepting && self.admitted == 0
    }
}

/// What may happen to admission.
pub enum Step {
    Start,
    Submit,
    JobStarted,
    JobEnded(JobOutcome),
    JobReleased(bool),
    Close,
    Cancel,
}

/// The state after a step that is allowed in a state.
pub open spec fn after_step(a: Admission, step: Step) -> Admission {
    match step {
        Step::Start => Admission { started: true, ..a },
        Step::Submit => if a.verdict() is Ok {
            Admission { admitted: (a.admitted + 1) as usize, ..a }
        } else {
            a
        },
        Step::JobStarted => if a.running < a.admitted {
            Admission { running: (a.running + 1) as usize, ..a }
        } else {
            a
        },
        Step::JobEnded(JobOutcome::Returned) => a,
        Step::JobEnded(JobOutcome::Panicked) => Admission {
            accepting: false,
            cancelled: true,
            ..a
        },
        Step::JobReleased(began) => if began && a.running > 0 {
            Admission {
                admitted: (a.admitted - 1) as usize,
                running: (a.running - 1) as usize,
                ..a
            }
        } else if !began && a.running < a.admitted {
            Admission { admitted: (a.admitted - 1) as usize, ..a }
        } else {
            a
        },
        Step::Close => Admission { accepting: false, ..a },
        Step::Cancel => Admission { cancelled: true, ..a },
    }
}

/// The state after some steps.
pub open spec fn after_steps(a: Admission, steps: Seq<Step>) -> Admission
    decreases steps.len(),
{
    if steps.len() == 0 {
        a
    } else {
        after_step(after_steps(a, steps.drop_last()), steps.last())
    }
}

/// Whatever happens, jobs never exceed the capacity, and the capacity never changes.
pub proof fn law_capacity_is_kept(a: Admission, steps: Seq<Step>)
    requires
        a.is_valid(),
    ensures
        after_steps(a, steps).is_valid(),
        after_steps(a, steps).capacity == a.capacity,
    decreases steps.len(),
{
    if steps.len() > 0 {
        law_capacity_is_kept(a, steps.drop_last());
    }
}

/// How many jobs are admitted in some steps.
pub open spec fn admissions(a: Admission, steps: Seq<Step>) -> int
    decreases steps.len(),
{
    if steps.len() == 0 {
        0
    } else {
        let before = after_steps(a, steps.drop_last());
        admissions(a, steps.drop_last()) + if steps.last() is Submit && before.verdict() is Ok {
            1int
        } else {
            0
        }
    }
}

/// How many jobs begin in some steps.
pub open spec fn begins(a: Admission, steps: Seq<Step>) -> int
    decreases steps.len(),
{
    if steps.len() == 0 {
        0
    } else {
        let before = after_steps(a, steps.drop_last());
        begins(a, steps.drop_last()) + if steps.last() is JobStarted && before.running
            < before.admitted {
            1int
        } else {
            0
        }
    }
}

/// How many jobs are released in some steps, of those that began or of those that did not.
pub open spec fn releases(a: Admission, steps: Seq<Step>, began: bool) -> int
    decreases steps.len(),
{
    if steps.len() == 0 {
        0
    } else {
        let before = after_steps(a, steps.drop_last());
        let counts = steps.last() == Step::JobReleased(began) && if began {
            before.running > 0
        } else {
            before.running < before.admitted
        };
        releases(a, steps.drop_last(), began) + if counts {
            1int
        } else {
            0
        }
    }
}

/// No job begins that was not admitted, and a refused one never does. Once all jobs are
/// released, each that was admitted has begun once, or was given up without beginning.
pub proof fn law_jobs_are_accounted_for(a: Admission, steps: Seq<Step>)
    requires
        a.is_valid(),
        a.admitted == 0,
    ensures
        begins(a, steps) <= admissions(a, steps),
        after_steps(a, steps).admitted == 0 ==> admissions(a, steps) == begins(a, steps) + releases(
            a,
            steps,
            false,
        ),
{
    law_capacity_is_kept(a, steps);
    lemma_accounts(a, steps);
}

proof fn lemma_accounts(a: Admission, steps: Seq<Step>)
    requires
        a.is_valid(),
    ensures
        0 <= releases(a, steps, false),
        a.admitted + admissions(a, steps) == after_steps(a, steps).admitted + releases(
            a,
            steps,
            true,
        ) + releases(a, steps, false),
        a.running + begins(a, steps) == after_steps(a, steps).running + releases(a, steps, true),
    decreases steps.len(),
{
    if steps.len() > 0 {
        lemma_accounts(a, steps.drop_last());
        law_capacity_is_kept(a, steps.drop_last());
    }
}

/// Once admission is closed it stays closed: every later request for admission is refused, and
/// the number of admitted jobs never grows, so that those admitted before are all there is to
/// wait for.
pub proof fn law_closed_admission_only_drains(a: Admission, steps: Seq<Step>)
    requires
        a.is_valid(),
        !a.accepting,
    ensures
        !after_steps(a, steps).accepting,
        after_steps(a, steps).verdict() == Err::<(), ExecutionError>(ExecutionError::Closed),
        after_steps(a, steps).admitted <= a.admitted,
        a.drained() ==> after_steps(a, steps).drained() && after_steps(a, steps).running == 0,
    decreases steps.len(),
{
    law_capacity_is_kept(a, steps);
    if steps.len() > 0 {
        law_capacity_is_kept(a, steps.drop_last());
        law_closed_admission_only_drains(a, steps.drop_last());
    }
}

/// After a panic nothing more is admitted.
pub proof fn law_panic_ends_admission(a: Admission, steps: Seq<Step>)
    requires
        a.is_valid(),
    ensures
        after_steps(after_step(a, Step::JobEnded(JobOutcome::Panicked)), steps).verdict() == Err::<
            (),
            ExecutionError,
        >(ExecutionError::Closed),
{
    law_closed_admission_only_drains(after_step(a, Step::JobEnded(JobOutcome::Panicked)), steps);
}

/// A job is admitted exactly while jobs are taken at all and there is room; where there is none, it
/// may come again.
pub proof fn law_jobs_are_admitted_while_there_is_room(a: Admission)
    requires
        a.is_valid(),
    ensures
        a.verdict() is Ok <==> a.accepting && a.started && !a.cancelled && a.admitted < a.capacity,
        a.verdict() == Err::<(), ExecutionError>(ExecutionError::Busy) <==> a.accepting && a.started
            && !a.cancelled && a.admitted == a.capacity,
{
}

} // verus!
