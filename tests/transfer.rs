use tty_transfer::{
    JobGroup, Outcome, Phase, Reply, Request, Step, TransferAttempt, TtyError, TtyTransfer,
};

const SHELL: i32 = 100;
const TARGET: i32 = 200;

fn wanting() -> JobGroup<u32> {
    JobGroup::new(Some(TARGET), true)
}

fn pending(step: Step) -> TransferAttempt {
    match step {
        Step::Pending(a) => a,
        Step::Done(o) => panic!("attempt ended early: {:?}", o),
    }
}

fn done(step: Step) -> Outcome {
    match step {
        Step::Done(o) => o,
        Step::Pending(a) => panic!("attempt still waits: {:?}", a.phase),
    }
}

/// Runs an attempt on `jg` with the given replies, returning the requests made
/// and the outcome.
fn drive(jg: &JobGroup<u32>, replies: &[Reply]) -> (Vec<Request>, Outcome) {
    let mut step = TtyTransfer::try_transfer(jg, SHELL);
    let mut requests = Vec::new();
    for reply in replies {
        let a = pending(step);
        requests.push(a.request());
        step = a.advance(*reply);
    }
    (requests, done(step))
}

#[test]
fn unwanted_group_is_not_asked_for() {
    let jg: JobGroup<u32> = JobGroup::new(Some(TARGET), false);
    let (requests, outcome) = drive(&jg, &[]);
    assert!(requests.is_empty());
    assert_eq!(outcome, Outcome::NotWanted);
    assert!(!outcome.transferred());
}

#[test]
fn owner_already_target_needs_no_assignment() {
    let (requests, outcome) = drive(&wanting(), &[Reply::Owner(Ok(TARGET))]);
    assert_eq!(requests, vec![Request::QueryOwner]);
    assert_eq!(outcome, Outcome::AlreadyOwned);
    assert!(outcome.transferred());
}

#[test]
fn third_owner_is_left_alone() {
    let (requests, outcome) = drive(&wanting(), &[Reply::Owner(Ok(300))]);
    assert_eq!(requests, vec![Request::QueryOwner]);
    assert_eq!(outcome, Outcome::OwnedByOther);
    assert!(!outcome.transferred());
}

#[test]
fn no_terminal_at_first_query() {
    let (_, outcome) = drive(&wanting(), &[Reply::Owner(Err(TtyError::NotATerminal))]);
    assert_eq!(outcome, Outcome::NoTerminal);
    let (_, outcome) = drive(&wanting(), &[Reply::Owner(Ok(-1))]);
    assert_eq!(outcome, Outcome::NoTerminal);
}

#[test]
fn shell_owner_assigns_to_target() {
    let (requests, outcome) =
        drive(&wanting(), &[Reply::Owner(Ok(SHELL)), Reply::Assign(Ok(()))]);
    assert_eq!(requests, vec![Request::QueryOwner, Request::AssignOwner(TARGET)]);
    assert_eq!(outcome, Outcome::Transferred);
    assert!(outcome.transferred());
}

#[test]
fn dead_group_ends_after_probe() {
    let (requests, outcome) = drive(
        &wanting(),
        &[
            Reply::Owner(Ok(SHELL)),
            Reply::Assign(Err(TtyError::PermissionDenied)),
            Reply::Owner(Ok(SHELL)),
            Reply::Probe(false),
        ],
    );
    assert_eq!(
        requests,
        vec![
            Request::QueryOwner,
            Request::AssignOwner(TARGET),
            Request::QueryOwner,
            Request::ProbeGroup(TARGET),
        ]
    );
    assert_eq!(outcome, Outcome::GroupTerminated);
    assert!(!outcome.transferred());
}

#[test]
fn live_group_is_retried_until_assigned() {
    let (requests, outcome) = drive(
        &wanting(),
        &[
            Reply::Owner(Ok(SHELL)),
            Reply::Assign(Err(TtyError::PermissionDenied)),
            Reply::Owner(Ok(SHELL)),
            Reply::Probe(true),
            Reply::Assign(Err(TtyError::PermissionDenied)),
            Reply::Owner(Ok(SHELL)),
            Reply::Probe(true),
            Reply::Assign(Ok(())),
        ],
    );
    assert_eq!(requests.len(), 8);
    assert_eq!(requests[4], Request::AssignOwner(TARGET));
    assert_eq!(requests[7], Request::AssignOwner(TARGET));
    assert_eq!(outcome, Outcome::Transferred);
}

#[test]
fn child_wins_race_after_failed_assignment() {
    let (_, outcome) = drive(
        &wanting(),
        &[
            Reply::Owner(Ok(SHELL)),
            Reply::Assign(Err(TtyError::PermissionDenied)),
            Reply::Owner(Ok(TARGET)),
        ],
    );
    assert_eq!(outcome, Outcome::AlreadyOwned);
    assert!(outcome.transferred());
}

#[test]
fn requery_failures() {
    let cases = [
        (TtyError::NotATerminal, Outcome::NoTerminal),
        (TtyError::BadDescriptor, Outcome::StdinClosed),
        (TtyError::Other(5), Outcome::QueryFailed(TtyError::Other(5))),
    ];
    for (err, expected) in cases {
        let (_, outcome) = drive(
            &wanting(),
            &[
                Reply::Owner(Ok(SHELL)),
                Reply::Assign(Err(TtyError::PermissionDenied)),
                Reply::Owner(Err(err)),
            ],
        );
        assert_eq!(outcome, expected);
        assert!(!outcome.transferred());
    }
}

#[test]
fn assignment_failures() {
    let cases = [
        (TtyError::InvalidArgument, Outcome::GroupTerminated),
        (TtyError::NotATerminal, Outcome::NoTerminal),
        (TtyError::BadDescriptor, Outcome::AssignFailed(TtyError::BadDescriptor)),
        (TtyError::Other(22), Outcome::AssignFailed(TtyError::Other(22))),
    ];
    for (err, expected) in cases {
        let (_, outcome) = drive(
            &wanting(),
            &[Reply::Owner(Ok(SHELL)), Reply::Assign(Err(err)), Reply::Owner(Ok(SHELL))],
        );
        assert_eq!(outcome, expected);
        assert!(!outcome.transferred());
    }
}

#[test]
fn request_follows_phase() {
    let a = TransferAttempt { pgid: 7, shell_pgrp: 1, phase: Phase::Probing };
    assert_eq!(a.request(), Request::ProbeGroup(7));
    let b = pending(a.advance(Reply::Probe(true)));
    assert_eq!(b.phase, Phase::Assigning);
    assert_eq!(b.request(), Request::AssignOwner(7));
}

#[test]
fn dead_group_ends_in_later_round() {
    let (requests, outcome) = drive(
        &wanting(),
        &[
            Reply::Owner(Ok(SHELL)),
            Reply::Assign(Err(TtyError::PermissionDenied)),
            Reply::Owner(Ok(SHELL)),
            Reply::Probe(true),
            Reply::Assign(Err(TtyError::PermissionDenied)),
            Reply::Owner(Ok(SHELL)),
            Reply::Probe(false),
        ],
    );
    assert_eq!(requests.iter().filter(|r| **r == Request::AssignOwner(TARGET)).count(), 2);
    assert_eq!(outcome, Outcome::GroupTerminated);
}
