//! The decisions of one attempt to hand the terminal to a process group.
//!
//! The caller performs each `Request` (a terminal or process-group call) and
//! hands back what it reported as a `Reply`; `TransferAttempt::advance` then says
//! what comes next. An attempt ends in an `Outcome`.
use vstd::prelude::*;

verus! {

/// How a terminal call failed, as its error number classifies it.
#[derive(Clone, Copy, Debug, PartialEq, Eq, Structural)]
pub enum TtyError {
    /// The descriptor is not a terminal (`ENOTTY`).
    NotATerminal,
    /// The descriptor is closed (`EBADF`).
    BadDescriptor,
    /// The process group does not exist any more, on some systems (`EINVAL`).
    InvalidArgument,
    /// The process group is not yet seen in the session, or is gone (`EPERM`).
    PermissionDenied,
    /// Any other error number.
    Other(i32),
}

/// A call that the caller makes on behalf of an attempt.
#[derive(Clone, Copy, Debug, PartialEq, Eq, Structural)]
pub enum Request {
    /// Ask which process group owns the terminal.
    QueryOwner,
    /// Make this process group the owner of the terminal.
    AssignOwner(i32),
    /// Ask, without blocking, whether this process group still has members.
    ProbeGroup(i32),
}

/// What the call of a `Request` reported.
#[derive(Clone, Copy, Debug)]
pub enum Reply {
    /// The terminal's owner, or why it could not be read.
    Owner(Result<i32, TtyError>),
    /// Whether the assignment took.
    Assign(Result<(), TtyError>),
    /// Whether the probed group still has live members.
    Probe(bool),
}

/// How an attempt ended.
#[derive(Clone, Copy, Debug, PartialEq, Eq, Structural)]
pub enum Outcome {
    /// The group does not want the terminal; nothing was asked.
    NotWanted,
    /// There is no terminal to hand over.
    NoTerminal,
    /// The group already owns the terminal: its leader claimed it first.
    AlreadyOwned,
    /// An unrelated process group owns the terminal; it is left alone.
    OwnedByOther,
    /// The terminal was assigned to the group.
    Transferred,
    /// Standard input was closed: the caller redirects terminal output.
    StdinClosed,
    /// Reading the terminal's owner failed unexpectedly.
    QueryFailed(TtyError),
    /// The group has no live members left.
    GroupTerminated,
    /// Assigning the terminal failed unexpectedly.
    AssignFailed(TtyError),
}

impl Outcome {
    /// Whether the group owns the terminal at the end of the attempt.
    pub open spec fn spec_transferred(self) -> bool {
        self is AlreadyOwned || self is Transferred
    }

    pub fn transferred(&self) -> (r: bool)
        ensures
            r == self.spec_transferred(),
    {
        match self {
            Outcome::AlreadyOwned | Outcome::Transferred => true,
            _ => false,
        }
    }
}

/// Which reply an attempt waits for.
#[derive(Clone, Copy, Debug, PartialEq, Eq, Structural)]
pub enum Phase {
    /// The first look at the terminal's owner.
    FirstQuery,
    /// The assignment of the terminal to the group.
    Assigning,
    /// A second look at the owner, after the assignment failed with this error.
    Requery(TtyError),
    /// The liveness probe of the group.
    Probing,
}

/// An attempt in progress to give the terminal to the process group `pgid`.
#[derive(Clone, Copy, Debug)]
pub struct TransferAttempt {
    pub pgid: i32,
    pub shell_pgrp: i32,
    pub phase: Phase,
}

/// Where an attempt stands after a step.
#[derive(Clone, Copy, Debug)]
pub enum Step {
    Pending(TransferAttempt),
    Done(Outcome),
}

impl TransferAttempt {
    /// The target is a real group, and not the shell's own.
    pub open spec fn wf(self) -> bool {
        self.pgid >= 0 && self.pgid != self.shell_pgrp
    }

    pub open spec fn with_phase(self, phase: Phase) -> TransferAttempt {
        TransferAttempt { phase, ..self }
    }

    /// Whether `reply` is the kind of answer this attempt waits for.
    pub open spec fn answers(self, reply: Reply) -> bool {
        match self.phase {
            Phase::FirstQuery | Phase::Requery(_) => reply is Owner,
            Phase::Assigning => reply is Assign,
            Phase::Probing => reply is Probe,
        }
    }

    pub open spec fn spec_request(self) -> Request {
        match self.phase {
            Phase::FirstQuery | Phase::Requery(_) => Request::QueryOwner,
            Phase::Assigning => Request::AssignOwner(self.pgid),
            Phase::Probing => Request::ProbeGroup(self.pgid),
        }
    }

    /// The next step after `reply`. A reply of the wrong kind changes nothing.
    pub open spec fn spec_advance(self, reply: Reply) -> Step {
        match (self.phase, reply) {
            (Phase::FirstQuery, Reply::Owner(Err(_))) => Step::Done(Outcome::NoTerminal),
            (Phase::FirstQuery, Reply::Owner(Ok(owner))) => {
                if owner < 0 {
                    Step::Done(Outcome::NoTerminal)
                } else if owner == self.pgid {
                    Step::Done(Outcome::AlreadyOwned)
                } else if owner != self.shell_pgrp {
                    Step::Done(Outcome::OwnedByOther)
                } else {
                    Step::Pending(self.with_phase(Phase::Assigning))
                }
            },
            (Phase::Assigning, Reply::Assign(Ok(()))) => Step::Done(Outcome::Transferred),
            (Phase::Assigning, Reply::Assign(Err(e))) => Step::Pending(
                self.with_phase(Phase::Requery(e)),
            ),
            (Phase::Requery(_), Reply::Owner(Err(q))) => match q {
                TtyError::NotATerminal => Step::Done(Outcome::NoTerminal),
                TtyError::BadDescriptor => Step::Done(Outcome::StdinClosed),
                _ => Step::Done(Outcome::QueryFailed(q)),
            },
            (Phase::Requery(e), Reply::Owner(Ok(owner))) => {
                if owner == self.pgid {
                    Step::Done(Outcome::AlreadyOwned)
                } else {
                    match e {
                        TtyError::InvalidArgument => Step::Done(Outcome::GroupTerminated),
                        TtyError::PermissionDenied => Step::Pending(
                            self.with_phase(Phase::Probing),
                        ),
                        TtyError::NotATerminal => Step::Done(Outcome::NoTerminal),
                        _ => Step::Done(Outcome::AssignFailed(e)),
                    }
                }
            },
            (Phase::Probing, Reply::Probe(alive)) => {
                if alive {
                    Step::Pending(self.with_phase(Phase::Assigning))
                } else {
                    Step::Done(Outcome::GroupTerminated)
                }
            },
            _ => Step::Pending(self),
        }
    }

    /// The call that the caller makes next.
    pub fn request(&self) -> (r: Request)
        ensures
            r == self.spec_request(),
    {
        match self.phase {
            Phase::FirstQuery | Phase::Requery(_) => Request::QueryOwner,
            Phase::Assigning => Request::AssignOwner(self.pgid),
            Phase::Probing => Request::ProbeGroup(self.pgid),
        }
    }

    /// Decides what follows `reply`, the answer to `self.request()`.
    pub fn advance(self, reply: Reply) -> (r: Step)
        requires
            self.answers(reply),
        ensures
            r == self.spec_advance(reply),
    {
        match (self.phase, reply) {
            (Phase::FirstQuery, Reply::Owner(Err(_))) => Step::Done(Outcome::NoTerminal),
            (Phase::FirstQuery, Reply::Owner(Ok(owner))) => {
                if owner < 0 {
                    Step::Done(Outcome::NoTerminal)
                } else if owner == self.pgid {
                    Step::Done(Outcome::AlreadyOwned)
                } else if owner != self.shell_pgrp {
                    Step::Done(Outcome::OwnedByOther)
                } else {
                    Step::Pending(TransferAttempt { phase: Phase::Assigning, ..self })
                }
            },
            (Phase::Assigning, Reply::Assign(Ok(()))) => Step::Done(Outcome::Transferred),
            (Phase::Assigning, Reply::Assign(Err(e))) => Step::Pending(
                TransferAttempt { phase: Phase::Requery(e), ..self },
            ),
            (Phase::Requery(_), Reply::Owner(Err(q))) => match q {
                TtyError::NotATerminal => Step::Done(Outcome::NoTerminal),
                TtyError::BadDescriptor => Step::Done(Outcome::StdinClosed),
                _ => Step::Done(Outcome::QueryFailed(q)),
            },
            (Phase::Requery(e), Reply::Owner(Ok(owner))) => {
                if owner == self.pgid {
                    Step::Done(Outcome::AlreadyOwned)
                } else {
                    match e {
                        TtyError::InvalidArgument => Step::Done(Outcome::GroupTerminated),
                        TtyError::PermissionDenied => Step::Pending(
                            TransferAttempt { phase: Phase::Probing, ..self },
                        ),
                        TtyError::NotATerminal => Step::Done(Outcome::NoTerminal),
                        _ => Step::Done(Outcome::AssignFailed(e)),
                    }
                }
            },
            (Phase::Probing, Reply::Probe(alive)) => {
                if alive {
                    Step::Pending(TransferAttempt { phase: Phase::Assigning, ..self })
                } else {
                    Step::Done(Outcome::GroupTerminated)
                }
            },
            _ => Step::Pending(self),
        }
    }
}

/// Where a step stands after the caller answers with each of `replies` in turn.
pub open spec fn run(s: Step, replies: Seq<Reply>) -> Step
    decreases replies.len(),
{
    if replies.len() == 0 {
        s
    } else {
        match s {
            Step::Done(_) => s,
            Step::Pending(a) => run(a.spec_advance(replies[0]), replies.drop_first()),
        }
    }
}

/// How many assignments of the terminal the caller makes along that run.
pub open spec fn assignments(s: Step, replies: Seq<Reply>) -> nat
    decreases replies.len(),
{
    if replies.len() == 0 {
        0
    } else {
        match s {
            Step::Done(_) => 0,
            Step::Pending(a) => (if a.phase is Assigning {
                1nat
            } else {
                0nat
            }) + assignments(a.spec_advance(replies[0]), replies.drop_first()),
        }
    }
}

} // verus!
