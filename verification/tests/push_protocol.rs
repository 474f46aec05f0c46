use git_rsl::push_protocol::{PushAction, PushError, PushEvent, SecurePush};

fn read(hash: Option<&str>) -> PushEvent {
    PushEvent::RslRead { last_remote_entry_hash: hash.map(|h| h.to_string()) }
}

/// Runs a push whose every operation succeeds and whose local RSL is current.
fn run_clean_push(remote_entry: Option<&str>) -> (Result<(), PushError>, String) {
    let (mut push, first) = SecurePush::new();
    assert_eq!(first, PushAction::FetchRsl);
    assert_eq!(push.step(PushEvent::Completed), PushAction::InitRslIfNeeded);
    assert_eq!(push.step(PushEvent::Completed), PushAction::CheckoutRslBranch);
    assert_eq!(push.step(PushEvent::Completed), PushAction::FetchRsl);
    assert_eq!(push.step(PushEvent::Completed), PushAction::ReadRsl);
    assert_eq!(push.step(read(remote_entry)), PushAction::ValidateRsl);
    assert_eq!(push.step(PushEvent::Completed), PushAction::CheckUpToDate);
    assert_eq!(push.step(PushEvent::Answered(true)), PushAction::CreatePushEntry);
    let prev = push.entry_prev_hash();
    assert_eq!(push.step(PushEvent::Completed), PushAction::CommitPushEntry);
    assert_eq!(push.step(PushEvent::Completed), PushAction::PushRsl);
    assert_eq!(push.step(PushEvent::Completed), PushAction::PushRefs);
    match push.step(PushEvent::Completed) {
        PushAction::Finish(res) => {
            assert!(push.is_finished());
            (res, prev)
        }
        other => panic!("unexpected action {:?}", other),
    }
}

#[test]
fn secure_push() {
    let (res, prev) = run_clean_push(None);
    assert_eq!(res, Ok(()));
    assert_eq!(prev, "");
}

#[test]
fn secure_push_twice() {
    let (first, _) = run_clean_push(None);
    assert_eq!(first, Ok(()));
    let (second, prev) = run_clean_push(Some("abc123"));
    assert_eq!(second, Ok(()));
    assert_eq!(prev, "abc123");
}

#[test]
fn push_fast_forwards_stale_local_rsl() {
    let (mut push, _) = SecurePush::new();
    push.step(PushEvent::Completed);
    push.step(PushEvent::Completed);
    push.step(PushEvent::Completed);
    push.step(PushEvent::Completed);
    push.step(read(Some("h1")));
    push.step(PushEvent::Completed);
    assert_eq!(push.step(PushEvent::Answered(false)), PushAction::CheckFastForward);
    assert_eq!(push.step(PushEvent::Answered(true)), PushAction::FastForward);
    assert_eq!(push.step(PushEvent::Completed), PushAction::CreatePushEntry);
    assert_eq!(push.entry_prev_hash(), "h1");
}

#[test]
fn push_stops_when_local_rsl_diverged() {
    for answer in [PushEvent::Answered(false), PushEvent::Failed] {
        let (mut push, _) = SecurePush::new();
        for _ in 0..4 {
            push.step(PushEvent::Completed);
        }
        push.step(read(None));
        push.step(PushEvent::Completed);
        push.step(PushEvent::Answered(false));
        assert_eq!(push.step(answer), PushAction::Finish(Err(PushError::CannotFastForward)));
        assert!(push.is_finished());
    }
}

#[test]
fn push_starts_over_after_refs_push_fails() {
    let (mut push, _) = SecurePush::new();
    for _ in 0..4 {
        push.step(PushEvent::Completed);
    }
    push.step(read(Some("old")));
    push.step(PushEvent::Completed);
    push.step(PushEvent::Answered(true));
    push.step(PushEvent::Completed);
    push.step(PushEvent::Completed);
    push.step(PushEvent::Completed);
    assert_eq!(push.step(PushEvent::Failed), PushAction::FetchRsl);
    assert!(!push.is_finished());
    assert_eq!(push.step(PushEvent::Completed), PushAction::ReadRsl);
    assert_eq!(push.step(read(Some("new"))), PushAction::ValidateRsl);
    assert_eq!(push.entry_prev_hash(), "new");
}

#[test]
fn push_failures_report_their_step() {
    let (mut p, _) = SecurePush::new();
    assert_eq!(p.step(PushEvent::Failed), PushAction::Finish(Err(PushError::FetchFailed)));

    let (mut p, _) = SecurePush::new();
    p.step(PushEvent::Completed);
    assert_eq!(p.step(PushEvent::Failed), PushAction::Finish(Err(PushError::InitFailed)));

    let (mut p, _) = SecurePush::new();
    p.step(PushEvent::Completed);
    p.step(PushEvent::Completed);
    assert_eq!(p.step(PushEvent::Failed), PushAction::Finish(Err(PushError::CheckoutFailed)));

    let (mut p, _) = SecurePush::new();
    for _ in 0..3 {
        p.step(PushEvent::Completed);
    }
    assert_eq!(p.step(PushEvent::Failed), PushAction::Finish(Err(PushError::FetchFailed)));

    let (mut p, _) = SecurePush::new();
    for _ in 0..4 {
        p.step(PushEvent::Completed);
    }
    assert_eq!(p.step(PushEvent::Failed), PushAction::Finish(Err(PushError::ReadFailed)));

    let (mut p, _) = SecurePush::new();
    for _ in 0..4 {
        p.step(PushEvent::Completed);
    }
    p.step(read(None));
    assert_eq!(p.step(PushEvent::Failed), PushAction::Finish(Err(PushError::InvalidRemoteRsl)));

    let (mut p, _) = SecurePush::new();
    for _ in 0..4 {
        p.step(PushEvent::Completed);
    }
    p.step(read(None));
    p.step(PushEvent::Completed);
    assert_eq!(p.step(PushEvent::Failed), PushAction::Finish(Err(PushError::UpToDateCheckFailed)));

    let (mut p, _) = SecurePush::new();
    for _ in 0..4 {
        p.step(PushEvent::Completed);
    }
    p.step(read(None));
    p.step(PushEvent::Completed);
    p.step(PushEvent::Answered(false));
    p.step(PushEvent::Answered(true));
    assert_eq!(p.step(PushEvent::Failed), PushAction::Finish(Err(PushError::FastForwardFailed)));

    let (mut p, _) = SecurePush::new();
    for _ in 0..4 {
        p.step(PushEvent::Completed);
    }
    p.step(read(None));
    p.step(PushEvent::Completed);
    p.step(PushEvent::Answered(true));
    p.step(PushEvent::Completed);
    p.step(PushEvent::Completed);
    assert_eq!(p.step(PushEvent::Failed), PushAction::Finish(Err(PushError::RslPushFailed)));
}

#[test]
fn push_error_context_messages() {
    assert_eq!(
        PushError::FetchFailed.context(),
        Some("Problem fetching Remote RSL. Check your connection or your SSH config")
    );
    assert_eq!(PushError::InitFailed.context(), Some("Problem initializing RSL"));
    assert_eq!(PushError::ReadFailed.context(), Some("couldn't read RSL"));
    assert_eq!(PushError::InvalidRemoteRsl.context(), Some("Invalid remote RSL"));
    assert_eq!(
        PushError::CannotFastForward.context(),
        Some("Local RSL cannot be fastforwarded to match remote. This may indicate that someone has tampered with the RSL history. Use caution before proceeding.")
    );
    assert_eq!(PushError::CheckoutFailed.context(), None);
    assert_eq!(PushError::RslPushFailed.context(), None);
}
