use tty_transfer::{Binding, JobGroup, Outcome, TtyError, TtyTransfer};

#[test]
fn job_group_accessors() {
    let mut jg: JobGroup<u64> = JobGroup::new(Some(42), true);
    assert_eq!(jg.get_pgid(), Some(42));
    assert!(jg.wants_terminal());
    assert!(!jg.is_foreground());
    assert_eq!(*jg.tmodes(), None);
    jg.set_is_foreground(true);
    assert!(jg.is_foreground());
    jg.set_tmodes(9);
    assert_eq!(*jg.tmodes(), Some(9));
    assert_eq!(jg.modes_to_restore(), Some(&9));
}

#[test]
fn modes_not_restored_for_group_without_terminal() {
    let mut jg: JobGroup<u64> = JobGroup::new(Some(42), false);
    jg.set_tmodes(9);
    assert_eq!(jg.modes_to_restore(), None);
    let fresh: JobGroup<u64> = JobGroup::new(Some(42), true);
    assert_eq!(fresh.modes_to_restore(), None);
}

#[test]
fn reclaim_when_never_bound_does_nothing() {
    let mut t = TtyTransfer::new();
    assert!(!t.is_bound());
    assert_eq!(t.reclaim(), None);
    assert_eq!(t.reclaim(), None);
    assert!(!t.is_bound());
}

#[test]
fn bound_handle_reclaims_to_shell_group() {
    let mut t = TtyTransfer::new();
    t.to_job_group(1, 100, &Outcome::Transferred);
    assert_eq!(t.owner(), Some(Binding { index: 1, shell_pgrp: 100 }));
    assert_eq!(t.reclaim(), Some(100));
    assert!(!t.is_bound());
    assert_eq!(t.reclaim(), None);
}

#[test]
fn handle_binds_when_child_claimed_terminal() {
    let mut t = TtyTransfer::new();
    t.to_job_group(0, 5, &Outcome::AlreadyOwned);
    assert!(t.is_bound());
    assert_eq!(t.reclaim(), Some(5));
}

#[test]
fn failed_transfer_leaves_handle_idle() {
    for outcome in [
        Outcome::NotWanted,
        Outcome::NoTerminal,
        Outcome::OwnedByOther,
        Outcome::StdinClosed,
        Outcome::GroupTerminated,
        Outcome::QueryFailed(TtyError::Other(1)),
        Outcome::AssignFailed(TtyError::Other(1)),
    ] {
        let mut t = TtyTransfer::new();
        t.to_job_group(0, 5, &outcome);
        assert!(!t.is_bound());
        assert_eq!(t.reclaim(), None);
    }
}

#[test]
fn saved_modes_round_trip() {
    let mut groups: Vec<JobGroup<[u8; 4]>> =
        vec![JobGroup::new(Some(10), true), JobGroup::new(Some(20), true)];
    let mut t = TtyTransfer::new();
    let step = TtyTransfer::try_transfer(&groups[1], 1);
    assert!(matches!(step, tty_transfer::Step::Pending(_)));
    t.to_job_group(1, 1, &Outcome::Transferred);
    let captured = [1, 2, 3, 4];
    assert_eq!(t.save_tty_modes(&mut groups, Ok(captured)), None);
    assert_eq!(t.reclaim(), Some(1));
    // A later transfer reads the group and leaves its modes alone.
    let _ = TtyTransfer::try_transfer(&groups[1], 1);
    assert_eq!(groups[1].modes_to_restore(), Some(&[1, 2, 3, 4]));
    assert_eq!(*groups[0].tmodes(), None);
    assert_eq!(groups[1].get_pgid(), Some(20));
}

#[test]
fn save_when_idle_changes_nothing() {
    let mut groups: Vec<JobGroup<u8>> = vec![JobGroup::new(Some(10), true)];
    let t = TtyTransfer::new();
    assert_eq!(t.save_tty_modes(&mut groups, Ok(7)), None);
    assert_eq!(*groups[0].tmodes(), None);
}

#[test]
fn save_failures() {
    let mut groups: Vec<JobGroup<u8>> = vec![JobGroup::new(Some(10), true)];
    let mut t = TtyTransfer::new();
    t.to_job_group(0, 1, &Outcome::Transferred);
    assert_eq!(t.save_tty_modes(&mut groups, Err(TtyError::NotATerminal)), None);
    assert_eq!(
        t.save_tty_modes(&mut groups, Err(TtyError::BadDescriptor)),
        Some(TtyError::BadDescriptor)
    );
    assert_eq!(*groups[0].tmodes(), None);
    assert_eq!(t.reclaim(), Some(1));
}
