//! The decisions of the `fg` builtin: which job to bring to the foreground, and
//! the exit status. Reading the job table, printing and resuming are the
//! caller's.
use vstd::prelude::*;

verus! {

/// The exit status of a builtin that succeeded.
pub const STATUS_CMD_OK: i32 = 0;

/// The exit status of a builtin that failed.
pub const STATUS_CMD_ERROR: i32 = 1;

/// The exit status of a builtin given arguments it cannot use.
pub const STATUS_INVALID_ARGS: i32 = 2;

/// What the job table says of one job.
#[derive(Clone, Copy, Debug, PartialEq, Eq, Structural)]
pub struct JobStatus {
    pub stopped: bool,
    pub wants_job_control: bool,
    pub completed: bool,
    pub constructed: bool,
}

/// The job that `fg` is to bring to the foreground.
#[derive(Clone, Copy, Debug, PartialEq, Eq, Structural)]
pub enum FgTarget {
    /// The job at this position of the job table.
    Listed(usize),
    /// The job that the table finds by this process id.
    ByPid(i32),
}

/// Why `fg` brings no job to the foreground.
#[derive(Clone, Copy, Debug, PartialEq, Eq, Structural)]
pub enum FgError {
    /// No job is stopped, under job control and unfinished.
    NoSuitableJobs,
    /// More than one job was named, and the first names a job.
    AmbiguousJob,
    /// More than one job was named, and the first names none.
    NotAJob,
    /// The job named is not a number.
    NotANumber,
    /// The job with this process id cannot be brought to the foreground.
    NoSuitableJob(i32),
    /// The job with this process id is not under job control.
    NotUnderJobControl(i32),
}

/// A job that `fg` without arguments may pick.
pub open spec fn can_resume(j: JobStatus) -> bool {
    j.stopped && j.wants_job_control && !j.completed
}

/// `i` is the first position of `jobs` that holds a job `fg` may pick.
pub open spec fn first_resumable(jobs: Seq<JobStatus>, i: int) -> bool {
    &&& 0 <= i < jobs.len()
    &&& can_resume(jobs[i])
    &&& forall|j: int| 0 <= j < i ==> !can_resume(#[trigger] jobs[j])
}

/// Whether the job found by process id is refused as "no suitable job".
///
/// The predicate is kept as the builtin has always evaluated it: "found, or not
/// constructed, or not completed". It refuses every job that is found, which
/// reads as inverted against its message; a job that is not found counts as not
/// constructed. Which predicate was meant is an open question.
pub open spec fn pid_job_rejected(job: Option<JobStatus>) -> bool {
    job is Some || !(job matches Some(j) && j.constructed) || !(job matches Some(j) && j.completed)
}

/// The job that `fg` acts on, or why there is none.
///
/// `operands` is the number of arguments after the options, `pid` the first of
/// them read as a number (`None` where it is not one), and `by_pid` the job that
/// the table finds by that number.
pub open spec fn spec_select_job(
    jobs: Seq<JobStatus>,
    operands: nat,
    pid: Option<i32>,
    by_pid: Option<JobStatus>,
) -> Result<FgTarget, FgError> {
    if operands == 0 {
        if exists|i: int| first_resumable(jobs, i) {
            Ok(FgTarget::Listed((choose|i: int| first_resumable(jobs, i)) as usize))
        } else {
            Err(FgError::NoSuitableJobs)
        }
    } else if operands > 1 {
        if pid matches Some(p) && p > 0 && by_pid is Some {
            Err(FgError::AmbiguousJob)
        } else {
            Err(FgError::NotAJob)
        }
    } else {
        match pid {
            None => Err(FgError::NotANumber),
            Some(p) => if pid_job_rejected(by_pid) {
                Err(FgError::NoSuitableJob(p))
            } else if !by_pid.unwrap().wants_job_control {
                Err(FgError::NotUnderJobControl(p))
            } else {
                Ok(FgTarget::ByPid(p))
            },
        }
    }
}

impl FgError {
    pub open spec fn spec_status(self) -> i32 {
        match self {
            FgError::NoSuitableJobs | FgError::AmbiguousJob | FgError::NotAJob => STATUS_CMD_ERROR,
            _ => STATUS_INVALID_ARGS,
        }
    }

    /// The exit status of `fg` when it fails this way.
    pub fn status(&self) -> (r: i32)
        ensures
            r == self.spec_status(),
    {
        match self {
            FgError::NoSuitableJobs | FgError::AmbiguousJob | FgError::NotAJob => STATUS_CMD_ERROR,
            _ => STATUS_INVALID_ARGS,
        }
    }
}

/// Picks the job that `fg` brings to the foreground: with no operand, the first
/// job of the table (the one made last) that is stopped, under job control and
/// unfinished; with one, the job of that process id; more than one is an error.
pub fn select_job(jobs: &Vec<JobStatus>, operands: usize, pid: Option<i32>, by_pid: Option<JobStatus>) -> (r: Result<FgTarget, FgError>)
    ensures
        r == spec_select_job(jobs@, operands as nat, pid, by_pid),
        operands == 0 ==> match r {
            Ok(FgTarget::Listed(i)) => first_resumable(jobs@, i as int),
            Ok(FgTarget::ByPid(_)) => false,
            Err(e) => e == FgError::NoSuitableJobs && forall|j: int|
                0 <= j < jobs@.len() ==> !can_resume(#[trigger] jobs@[j]),
        },
{
    if operands == 0 {
        let mut i: usize = 0;
        while i < jobs.len()
            invariant
                operands == 0,
                i <= jobs@.len(),
                forall|j: int| 0 <= j < i ==> !can_resume(#[trigger] jobs@[j]),
            decreases jobs@.len() - i,
        {
            let j = jobs[i];
            if j.stopped && j.wants_job_control && !j.completed {
                proof {
                    assert(first_resumable(jobs@, i as int));
                    let k = choose|k: int| first_resumable(jobs@, k);
                    assert(k == i as int) by {
                        if k < i as int {
                            assert(!can_resume(jobs@[k]));
                        }
                        if k > i as int {
                            assert(!can_resume(jobs@[i as int]));
                        }
                    }
                }
                return Ok(FgTarget::Listed(i));
            }
            i = i + 1;
        }
        Err(FgError::NoSuitableJobs)
    } else if operands > 1 {
        let found = match pid {
            Some(p) => p > 0 && by_pid.is_some(),
            None => false,
        };
        if found {
            Err(FgError::AmbiguousJob)
        } else {
            Err(FgError::NotAJob)
        }
    } else {
        match pid {
            None => Err(FgError::NotANumber),
            Some(p) => {
                let constructed = match by_pid {
                    Some(j) => j.constructed,
                    None => false,
                };
                let completed = match by_pid {
                    Some(j) => j.completed,
                    None => false,
                };
                let rejected = by_pid.is_some() || !constructed || !completed;
                if rejected {
                    Err(FgError::NoSuitableJob(p))
                } else {
                    match by_pid {
                        Some(j) => if !j.wants_job_control {
                            Err(FgError::NotUnderJobControl(p))
                        } else {
                            Ok(FgTarget::ByPid(p))
                        },
                        None => Err(FgError::NoSuitableJob(p)),
                    }
                }
            },
        }
    }
}

/// The exit status of `fg` once the job was brought forward: success exactly
/// when the job could be resumed.
pub fn fg_status(resumed: bool) -> (r: i32)
    ensures
        r == (if resumed { STATUS_CMD_OK } else { STATUS_CMD_ERROR }),
{
    if resumed {
        STATUS_CMD_OK
    } else {
        STATUS_CMD_ERROR
    }
}

} // verus!
