//! The handle through which the shell lends the terminal to one job group at a
//! time and takes it back.
//!
//! Job groups live in the caller's table; the handle refers to the one that owns
//! the terminal by its index there. Nothing else changes a job group while the
//! handle is bound to it: the shell is single-threaded here.
use vstd::prelude::*;
use crate::job_group::JobGroup;
use crate::transfer::{assignments, run, Outcome, Phase, Reply, Step, TransferAttempt, TtyError};

verus! {

/// The job group that was given the terminal, and the shell's own process group.
#[derive(Clone, Copy, Debug, PartialEq, Eq, Structural)]
pub struct Binding {
    pub index: usize,
    pub shell_pgrp: i32,
}

/// Which job group, if any, holds the terminal on the shell's behalf.
pub struct TtyTransfer {
    owner: Option<Binding>,
}

/// The start of an attempt to give the terminal to `jg`.
pub open spec fn spec_try_transfer<M>(jg: JobGroup<M>, shell_pgrp: i32) -> Step {
    if !jg.spec_wants_terminal() {
        Step::Done(Outcome::NotWanted)
    } else {
        Step::Pending(
            TransferAttempt { pgid: jg.spec_pgid().unwrap(), shell_pgrp, phase: Phase::FirstQuery },
        )
    }
}

/// What saving the terminal modes does to the table: with the handle bound and
/// the capture made, the owner's modes are replaced; else nothing changes.
pub open spec fn saves_modes<M>(
    owner: Option<Binding>,
    before: Seq<JobGroup<M>>,
    after: Seq<JobGroup<M>>,
    captured: Result<M, TtyError>,
) -> bool {
    match (owner, captured) {
        (Some(b), Ok(m)) => {
            &&& after.len() == before.len()
            &&& forall|j: int| 0 <= j < before.len() && j != b.index ==> after[j] == before[j]
            &&& before[b.index as int].same_but_modes(after[b.index as int])
            &&& after[b.index as int].spec_tmodes() == Some(m)
        },
        _ => after == before,
    }
}

impl TtyTransfer {
    pub closed spec fn spec_owner(&self) -> Option<Binding> {
        self.owner
    }

    /// An idle handle.
    pub fn new() -> (r: Self)
        ensures
            r.spec_owner().is_none(),
    {
        TtyTransfer { owner: None }
    }

    pub fn owner(&self) -> (r: Option<Binding>)
        ensures
            r == self.spec_owner(),
    {
        self.owner
    }

    pub fn is_bound(&self) -> (r: bool)
        ensures
            r == self.spec_owner().is_some(),
    {
        self.owner.is_some()
    }

    /// Starts an attempt to give the terminal to `jg`. A group that does not want
    /// the terminal is done at once, and no call is made on its behalf.
    pub fn try_transfer<M>(jg: &JobGroup<M>, shell_pgrp: i32) -> (r: Step)
        requires
            jg.spec_wants_terminal() ==> {
                &&& jg.spec_pgid().is_some()
                &&& jg.spec_pgid().unwrap() >= 0
                &&& jg.spec_pgid().unwrap() != shell_pgrp
            },
        ensures
            r == spec_try_transfer(*jg, shell_pgrp),
            r matches Step::Pending(a) ==> a.wf(),
    {
        if !jg.wants_terminal() {
            return Step::Done(Outcome::NotWanted);
        }
        let pgid = jg.get_pgid().unwrap();
        Step::Pending(TransferAttempt { pgid, shell_pgrp, phase: Phase::FirstQuery })
    }

    /// Records how an attempt to give the terminal to the group at `index` ended:
    /// the handle is bound to it exactly when the group then owns the terminal.
    pub fn to_job_group(&mut self, index: usize, shell_pgrp: i32, outcome: &Outcome)
        requires
            old(self).spec_owner().is_none(),
        ensures
            final(self).spec_owner() == (if outcome.spec_transferred() {
                Some(Binding { index, shell_pgrp })
            } else {
                None
            }),
    {
        if outcome.transferred() {
            self.owner = Some(Binding { index, shell_pgrp });
        }
    }

    /// Unbinds the handle. Where it was bound, returns the shell's process group,
    /// to which the caller gives the terminal back; where it was idle, nothing.
    pub fn reclaim(&mut self) -> (r: Option<i32>)
        ensures
            final(self).spec_owner().is_none(),
            r == (match old(self).spec_owner() {
                Some(b) => Some(b.shell_pgrp),
                None => None,
            }),
    {
        let r = match self.owner {
            Some(b) => Some(b.shell_pgrp),
            None => None,
        };
        self.owner = None;
        r
    }

    /// Stores the terminal modes just captured into the group that owns the
    /// terminal. Returns the capture's error where it is worth reporting: any but
    /// "not a terminal", which comes when a job never used the terminal.
    pub fn save_tty_modes<M>(&self, groups: &mut Vec<JobGroup<M>>, captured: Result<M, TtyError>) -> (r: Option<TtyError>)
        requires
            self.spec_owner() matches Some(b) ==> b.index < old(groups).len(),
        ensures
            saves_modes(self.spec_owner(), old(groups)@, final(groups)@, captured),
            r == (match (self.spec_owner(), captured) {
                (Some(_), Err(e)) => if e is NotATerminal { None } else { Some(e) },
                _ => None,
            }),
    {
        match self.owner {
            None => None,
            Some(b) => match captured {
                Ok(m) => {
                    let mut g = groups.remove(b.index);
                    g.set_tmodes(m);
                    groups.insert(b.index, g);
                    proof {
                        assert(groups@ =~= old(groups)@.update(b.index as int, g));
                    }
                    None
                },
                Err(TtyError::NotATerminal) => None,
                Err(e) => Some(e),
            },
        }
    }
}

/// An attempt that has ended stays ended, and makes no more calls.
proof fn lemma_done_stays_done(o: Outcome, replies: Seq<Reply>)
    ensures
        run(Step::Done(o), replies) == Step::Done(o),
        assignments(Step::Done(o), replies) == 0,
{
}

/// A group that does not want the terminal is not given it, and no assignment of
/// the terminal is made for it, whatever the calls report.
pub proof fn lemma_unwanted_group_left_alone<M>(
    jg: JobGroup<M>,
    shell_pgrp: i32,
    replies: Seq<Reply>,
)
    requires
        !jg.spec_wants_terminal(),
    ensures
        run(spec_try_transfer(jg, shell_pgrp), replies) == Step::Done(Outcome::NotWanted),
        assignments(spec_try_transfer(jg, shell_pgrp), replies) == 0,
        !Outcome::NotWanted.spec_transferred(),
{
    lemma_done_stays_done(Outcome::NotWanted, replies);
}

/// Where the target group already owns the terminal when first asked, the
/// attempt ends with the group owning it, and no assignment is made.
pub proof fn lemma_owner_already_target<M>(jg: JobGroup<M>, shell_pgrp: i32, replies: Seq<Reply>)
    requires
        jg.spec_wants_terminal(),
        jg.wf(),
        jg.spec_pgid().unwrap() != shell_pgrp,
        replies.len() >= 1,
        replies[0] == Reply::Owner(Ok(jg.spec_pgid().unwrap())),
    ensures
        run(spec_try_transfer(jg, shell_pgrp), replies) == Step::Done(Outcome::AlreadyOwned),
        assignments(spec_try_transfer(jg, shell_pgrp), replies) == 0,
        Outcome::AlreadyOwned.spec_transferred(),
{
    lemma_done_stays_done(Outcome::AlreadyOwned, replies.drop_first());
}

/// Where a third process group, neither the target nor the shell's, owns the
/// terminal when first asked, the attempt ends without the terminal, and no
/// assignment is made.
pub proof fn lemma_third_owner_left_alone<M>(
    jg: JobGroup<M>,
    shell_pgrp: i32,
    owner: i32,
    replies: Seq<Reply>,
)
    requires
        jg.spec_wants_terminal(),
        jg.wf(),
        jg.spec_pgid().unwrap() != shell_pgrp,
        owner >= 0,
        owner != jg.spec_pgid().unwrap(),
        owner != shell_pgrp,
        replies.len() >= 1,
        replies[0] == Reply::Owner(Ok(owner)),
    ensures
        run(spec_try_transfer(jg, shell_pgrp), replies) == Step::Done(Outcome::OwnedByOther),
        assignments(spec_try_transfer(jg, shell_pgrp), replies) == 0,
        !Outcome::OwnedByOther.spec_transferred(),
{
    lemma_done_stays_done(Outcome::OwnedByOther, replies.drop_first());
}

/// A probe that finds no live member ends the attempt without the terminal.
pub proof fn lemma_dead_group_probe_ends(a: TransferAttempt, replies: Seq<Reply>)
    requires
        a.phase is Probing,
        replies.len() >= 1,
        replies[0] == Reply::Probe(false),
    ensures
        run(Step::Pending(a), replies) == Step::Done(Outcome::GroupTerminated),
        assignments(Step::Pending(a), replies) == 0,
        !Outcome::GroupTerminated.spec_transferred(),
{
    lemma_done_stays_done(Outcome::GroupTerminated, replies.drop_first());
}

/// In every round of retries, where the assignment is refused for want of
/// permission, the group still does not own the terminal, and the probe finds no
/// live member, the attempt ends without the terminal after those three calls.
pub proof fn lemma_refused_dead_group_ends(a: TransferAttempt, owner: i32, replies: Seq<Reply>)
    requires
        a.phase is Assigning,
        owner != a.pgid,
        replies.len() >= 3,
        replies[0] == Reply::Assign(Err(TtyError::PermissionDenied)),
        replies[1] == Reply::Owner(Ok(owner)),
        replies[2] == Reply::Probe(false),
    ensures
        run(Step::Pending(a), replies) == Step::Done(Outcome::GroupTerminated),
        assignments(Step::Pending(a), replies) == 1,
{
    let a1 = a.with_phase(Phase::Requery(TtyError::PermissionDenied));
    let a2 = a.with_phase(Phase::Probing);
    let r1 = replies.drop_first();
    let r2 = r1.drop_first();
    assert(a.spec_advance(replies[0]) == Step::Pending(a1));
    assert(a1.spec_advance(r1[0]) == Step::Pending(a2));
    lemma_dead_group_probe_ends(a2, r2);
    assert(run(Step::Pending(a1), r1) == run(Step::Pending(a2), r2));
    assert(assignments(Step::Pending(a1), r1) == 0);
}

/// Where the shell owns the terminal, the first assignment is refused for want
/// of permission, the group still does not own the terminal, and the probe finds
/// no live member, the attempt ends without the terminal after four calls, one of
/// them an assignment.
pub proof fn lemma_dead_group_not_awaited<M>(
    jg: JobGroup<M>,
    shell_pgrp: i32,
    owner: i32,
    replies: Seq<Reply>,
)
    requires
        jg.spec_wants_terminal(),
        jg.wf(),
        jg.spec_pgid().unwrap() != shell_pgrp,
        shell_pgrp >= 0,
        owner != jg.spec_pgid().unwrap(),
        replies.len() >= 4,
        replies[0] == Reply::Owner(Ok(shell_pgrp)),
        replies[1] == Reply::Assign(Err(TtyError::PermissionDenied)),
        replies[2] == Reply::Owner(Ok(owner)),
        replies[3] == Reply::Probe(false),
    ensures
        run(spec_try_transfer(jg, shell_pgrp), replies) == Step::Done(Outcome::GroupTerminated),
        assignments(spec_try_transfer(jg, shell_pgrp), replies) == 1,
        !Outcome::GroupTerminated.spec_transferred(),
{
    let a0 = TransferAttempt {
        pgid: jg.spec_pgid().unwrap(),
        shell_pgrp,
        phase: Phase::FirstQuery,
    };
    let a1 = a0.with_phase(Phase::Assigning);
    let r1 = replies.drop_first();
    assert(a0.spec_advance(replies[0]) == Step::Pending(a1));
    lemma_refused_dead_group_ends(a1, owner, r1);
}

/// Modes saved while the handle is bound to a group are exactly the modes put
/// back on the terminal when that group next runs in the foreground. Starting a
/// transfer only reads the group, so a transfer in between changes nothing here.
pub proof fn lemma_saved_modes_restored<M>(
    t: TtyTransfer,
    before: Seq<JobGroup<M>>,
    after: Seq<JobGroup<M>>,
    m: M,
)
    requires
        t.spec_owner() is Some,
        t.spec_owner().unwrap().index < before.len(),
        before[t.spec_owner().unwrap().index as int].spec_wants_terminal(),
        saves_modes(t.spec_owner(), before, after, Ok(m)),
    ensures
        after[t.spec_owner().unwrap().index as int].spec_modes_to_restore() == Some(m),
{
}

} // verus!
