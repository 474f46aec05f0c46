//! The decisions of a secure push: update and check the reference state log
//! (RSL), record a push entry, then push the branches, starting over when
//! the branch push fails.
use vstd::prelude::*;

verus! {

/// What the push is waiting for: the outcome of the operation last asked for.
#[derive(Clone, Copy, Debug, PartialEq, Eq)]
pub enum PushStage {
    /// The first fetch of the remote RSL.
    FetchingFirst,
    /// Creating the RSL if the repository has none.
    Initialising,
    /// Checking out the local RSL branch.
    CheckingOut,
    /// Fetching the remote RSL at the start of a round.
    Fetching,
    /// Reading the RSL.
    Reading,
    /// Validating the remote RSL.
    Validating,
    /// Asking whether the local RSL matches the remote one.
    CheckingUpToDate,
    /// Asking whether the local RSL can be fast-forwarded to the remote one.
    CheckingFastForward,
    /// Fast-forwarding the local RSL.
    FastForwarding,
    /// Making the new push entry.
    CreatingEntry,
    /// Committing the new push entry to the local RSL.
    CommittingEntry,
    /// Pushing the RSL.
    PushingRsl,
    /// Pushing the branches.
    PushingRefs,
    /// Nothing: the push is over.
    Finished,
}

/// Why a secure push stopped.
#[derive(Clone, Copy, Debug, PartialEq, Eq)]
pub enum PushError {
    FetchFailed,
    InitFailed,
    CheckoutFailed,
    ReadFailed,
    InvalidRemoteRsl,
    UpToDateCheckFailed,
    CannotFastForward,
    FastForwardFailed,
    RslPushFailed,
}

impl PushError {
    pub open spec fn spec_context(self) -> Option<Seq<char>> {
        match self {
            PushError::FetchFailed => Some("Problem fetching Remote RSL. Check your connection or your SSH config"@),
            PushError::InitFailed => Some("Problem initializing RSL"@),
            PushError::ReadFailed => Some("couldn't read RSL"@),
            PushError::InvalidRemoteRsl => Some("Invalid remote RSL"@),
            PushError::CannotFastForward => Some(
                "Local RSL cannot be fastforwarded to match remote. This may indicate that someone has tampered with the RSL history. Use caution before proceeding."@,
            ),
            _ => None,
        }
    }

    /// The message this error adds to the cause it reports; `None` where the
    /// cause is reported as it is.
    pub fn context(&self) -> (res: Option<&'static str>)
        ensures
            match res {
                Some(m) => self.spec_context() == Some(m@),
                None => self.spec_context() is None,
            },
    {
        match self {
            PushError::FetchFailed => Some("Problem fetching Remote RSL. Check your connection or your SSH config"),
            PushError::InitFailed => Some("Problem initializing RSL"),
            PushError::ReadFailed => Some("couldn't read RSL"),
            PushError::InvalidRemoteRsl => Some("Invalid remote RSL"),
            PushError::CannotFastForward => Some(
                "Local RSL cannot be fastforwarded to match remote. This may indicate that someone has tampered with the RSL history. Use caution before proceeding.",
            ),
            _ => None,
        }
    }
}

/// The outcome of the operation last asked for.
#[derive(Debug)]
pub enum PushEvent {
    /// The operation succeeded.
    Completed,
    /// The operation failed.
    Failed,
    /// A question was answered.
    Answered(bool),
    /// The RSL was read; the hash of its last push entry on the remote, if any.
    RslRead { last_remote_entry_hash: Option<String> },
}

/// The next operation to perform.
#[derive(Clone, Copy, Debug, PartialEq, Eq)]
pub enum PushAction {
    FetchRsl,
    InitRslIfNeeded,
    CheckoutRslBranch,
    ReadRsl,
    ValidateRsl,
    CheckUpToDate,
    CheckFastForward,
    FastForward,
    /// Make a push entry for the first ref name, chained to `entry_prev_hash`.
    CreatePushEntry,
    CommitPushEntry,
    PushRsl,
    PushRefs,
    Finish(Result<(), PushError>),
}

/// Whether `event` is an outcome that the operation awaited in `stage` can
/// have. Making and committing a push entry do not fail.
pub open spec fn event_fits(stage: PushStage, event: PushEvent) -> bool {
    match stage {
        PushStage::Reading => event is RslRead || event is Failed,
        PushStage::CheckingUpToDate | PushStage::CheckingFastForward => event is Answered || event is Failed,
        PushStage::CreatingEntry | PushStage::CommittingEntry => event is Completed,
        PushStage::Finished => false,
        _ => event is Completed || event is Failed,
    }
}

pub open spec fn fail(e: PushError) -> (PushStage, PushAction) {
    (PushStage::Finished, PushAction::Finish(Err(e)))
}

/// The stage reached and the operation asked for when `event` happens in
/// `stage`.
pub open spec fn transition(stage: PushStage, event: PushEvent) -> (PushStage, PushAction) {
    match stage {
        PushStage::FetchingFirst => if event is Completed {
            (PushStage::Initialising, PushAction::InitRslIfNeeded)
        } else {
            fail(PushError::FetchFailed)
        },
        PushStage::Initialising => if event is Completed {
            (PushStage::CheckingOut, PushAction::CheckoutRslBranch)
        } else {
            fail(PushError::InitFailed)
        },
        PushStage::CheckingOut => if event is Completed {
            (PushStage::Fetching, PushAction::FetchRsl)
        } else {
            fail(PushError::CheckoutFailed)
        },
        PushStage::Fetching => if event is Completed {
            (PushStage::Reading, PushAction::ReadRsl)
        } else {
            fail(PushError::FetchFailed)
        },
        PushStage::Reading => if event is RslRead {
            (PushStage::Validating, PushAction::ValidateRsl)
        } else {
            fail(PushError::ReadFailed)
        },
        PushStage::Validating => if event is Completed {
            (PushStage::CheckingUpToDate, PushAction::CheckUpToDate)
        } else {
            fail(PushError::InvalidRemoteRsl)
        },
        PushStage::CheckingUpToDate => match event {
            PushEvent::Answered(true) => (PushStage::CreatingEntry, PushAction::CreatePushEntry),
            PushEvent::Answered(false) => (PushStage::CheckingFastForward, PushAction::CheckFastForward),
            _ => fail(PushError::UpToDateCheckFailed),
        },
        PushStage::CheckingFastForward => match event {
            PushEvent::Answered(true) => (PushStage::FastForwarding, PushAction::FastForward),
            _ => fail(PushError::CannotFastForward),
        },
        PushStage::FastForwarding => if event is Completed {
            (PushStage::CreatingEntry, PushAction::CreatePushEntry)
        } else {
            fail(PushError::FastForwardFailed)
        },
        PushStage::CreatingEntry => (PushStage::CommittingEntry, PushAction::CommitPushEntry),
        PushStage::CommittingEntry => (PushStage::PushingRsl, PushAction::PushRsl),
        PushStage::PushingRsl => if event is Completed {
            (PushStage::PushingRefs, PushAction::PushRefs)
        } else {
            fail(PushError::RslPushFailed)
        },
        PushStage::PushingRefs => if event is Completed {
            (PushStage::Finished, PushAction::Finish(Ok(())))
        } else {
            (PushStage::Fetching, PushAction::FetchRsl)
        },
        PushStage::Finished => (PushStage::Finished, PushAction::Finish(Ok(()))),
    }
}

/// Abstract state of a secure push.
pub struct SecurePushView {
    pub stage: PushStage,
    /// The hash of the last push entry on the remote, as last read.
    pub last_remote_entry_hash: Option<Seq<char>>,
}

/// The hash kept after `event` happens in `stage`.
pub open spec fn kept_hash(stage: PushStage, event: PushEvent, kept: Option<Seq<char>>) -> Option<Seq<char>> {
    match event {
        PushEvent::RslRead { last_remote_entry_hash } => if stage == PushStage::Reading {
            match last_remote_entry_hash {
                Some(h) => Some(h@),
                None => None,
            }
        } else {
            kept
        },
        _ => kept,
    }
}

/// The state of one secure push.
pub struct SecurePush {
    stage: PushStage,
    last_remote_entry_hash: Option<String>,
}

impl View for SecurePush {
    type V = SecurePushView;

    closed spec fn view(&self) -> SecurePushView {
        SecurePushView {
            stage: self.stage,
            last_remote_entry_hash: match self.last_remote_entry_hash {
                Some(h) => Some(h@),
                None => None,
            },
        }
    }
}

impl SecurePush {
    /// A secure push about to start; its first operation is to fetch the
    /// remote RSL.
    pub fn new() -> (res: (SecurePush, PushAction))
        ensures
            res.0@.stage == PushStage::FetchingFirst,
            res.0@.last_remote_entry_hash is None,
            res.1 == PushAction::FetchRsl,
    {
        (SecurePush { stage: PushStage::FetchingFirst, last_remote_entry_hash: None }, PushAction::FetchRsl)
    }

    /// Whether the push is over.
    pub fn is_finished(&self) -> (res: bool)
        ensures
            res == (self@.stage == PushStage::Finished),
    {
        match self.stage {
            PushStage::Finished => true,
            _ => false,
        }
    }

    /// The previous hash for the new push entry: the hash of the last push
    /// entry on the remote, or the empty string when there is none.
    pub fn entry_prev_hash(&self) -> (res: String)
        ensures
            res@ == match self@.last_remote_entry_hash {
                Some(h) => h,
                None => Seq::<char>::empty(),
            },
    {
        match &self.last_remote_entry_hash {
            Some(h) => h.clone(),
            None => String::new(),
        }
    }

    /// Takes the outcome of the operation last asked for and says what to do
    /// next.
    pub fn step(&mut self, event: PushEvent) -> (action: PushAction)
        requires
            event_fits(old(self)@.stage, event),
        ensures
            (final(self)@.stage, action) == transition(old(self)@.stage, event),
            final(self)@.last_remote_entry_hash == kept_hash(
                old(self)@.stage,
                event,
                old(self)@.last_remote_entry_hash,
            ),
    {
        let completed = match &event {
            PushEvent::Completed => true,
            _ => false,
        };
        let (next, action) = match self.stage {
            PushStage::FetchingFirst => if completed {
                (PushStage::Initialising, PushAction::InitRslIfNeeded)
            } else {
                (PushStage::Finished, PushAction::Finish(Err(PushError::FetchFailed)))
            },
            PushStage::Initialising => if completed {
                (PushStage::CheckingOut, PushAction::CheckoutRslBranch)
            } else {
                (PushStage::Finished, PushAction::Finish(Err(PushError::InitFailed)))
            },
            PushStage::CheckingOut => if completed {
                (PushStage::Fetching, PushAction::FetchRsl)
            } else {
                (PushStage::Finished, PushAction::Finish(Err(PushError::CheckoutFailed)))
            },
            PushStage::Fetching => if completed {
                (PushStage::Reading, PushAction::ReadRsl)
            } else {
                (PushStage::Finished, PushAction::Finish(Err(PushError::FetchFailed)))
            },
            PushStage::Reading => match event {
                PushEvent::RslRead { last_remote_entry_hash } => {
                    self.last_remote_entry_hash = last_remote_entry_hash;
                    (PushStage::Validating, PushAction::ValidateRsl)
                },
                _ => (PushStage::Finished, PushAction::Finish(Err(PushError::ReadFailed))),
            },
            PushStage::Validating => if completed {
                (PushStage::CheckingUpToDate, PushAction::CheckUpToDate)
            } else {
                (PushStage::Finished, PushAction::Finish(Err(PushError::InvalidRemoteRsl)))
            },
            PushStage::CheckingUpToDate => match event {
                PushEvent::Answered(true) => (PushStage::CreatingEntry, PushAction::CreatePushEntry),
                PushEvent::Answered(false) => (PushStage::CheckingFastForward, PushAction::CheckFastForward),
                _ => (PushStage::Finished, PushAction::Finish(Err(PushError::UpToDateCheckFailed))),
            },
            PushStage::CheckingFastForward => match event {
                PushEvent::Answered(true) => (PushStage::FastForwarding, PushAction::FastForward),
                _ => (PushStage::Finished, PushAction::Finish(Err(PushError::CannotFastForward))),
            },
            PushStage::FastForwarding => if completed {
                (PushStage::CreatingEntry, PushAction::CreatePushEntry)
            } else {
                (PushStage::Finished, PushAction::Finish(Err(PushError::FastForwardFailed)))
            },
            PushStage::CreatingEntry => (PushStage::CommittingEntry, PushAction::CommitPushEntry),
            PushStage::CommittingEntry => (PushStage::PushingRsl, PushAction::PushRsl),
            PushStage::PushingRsl => if completed {
                (PushStage::PushingRefs, PushAction::PushRefs)
            } else {
                (PushStage::Finished, PushAction::Finish(Err(PushError::RslPushFailed)))
            },
            PushStage::PushingRefs => if completed {
                (PushStage::Finished, PushAction::Finish(Ok(())))
            } else {
                (PushStage::Fetching, PushAction::FetchRsl)
            },
            PushStage::Finished => (PushStage::Finished, PushAction::Finish(Ok(()))),
        };
        self.stage = next;
        action
    }
}

} // verus!

verus! {

/// A secure push succeeds only when the branches themselves were pushed.
pub proof fn lemma_success_only_after_refs_pushed(stage: PushStage, event: PushEvent)
    requires
        event_fits(stage, event),
        transition(stage, event).1 == PushAction::Finish(Ok(())),
    ensures
        stage == PushStage::PushingRefs,
        event is Completed,
{
}

/// The stages that come after the remote RSL was validated in a round.
pub open spec fn after_validation(stage: PushStage) -> bool {
    match stage {
        PushStage::CheckingUpToDate | PushStage::CheckingFastForward | PushStage::FastForwarding
        | PushStage::CreatingEntry | PushStage::CommittingEntry | PushStage::PushingRsl
        | PushStage::PushingRefs => true,
        _ => false,
    }
}

/// The local RSL is brought up to date, a push entry made and anything
/// pushed only after the remote RSL was validated in the same round: these
/// stages are entered only from one another or from a successful validation.
pub proof fn lemma_nothing_changes_before_validation(stage: PushStage, event: PushEvent)
    requires
        event_fits(stage, event),
        after_validation(transition(stage, event).0),
    ensures
        after_validation(stage) || (stage == PushStage::Validating && event is Completed),
{
}

/// A push entry is made only when the local RSL matches the remote one,
/// directly or after a fast-forward.
pub proof fn lemma_entry_only_on_current_rsl(stage: PushStage, event: PushEvent)
    requires
        event_fits(stage, event),
        transition(stage, event).1 == PushAction::CreatePushEntry,
    ensures
        (stage == PushStage::CheckingUpToDate && event matches PushEvent::Answered(true))
            || (stage == PushStage::FastForwarding && event is Completed),
{
}

/// When the local RSL has diverged from the remote one the push stops.
pub proof fn lemma_diverged_rsl_stops(event: PushEvent)
    requires
        event_fits(PushStage::CheckingFastForward, event),
        !(event matches PushEvent::Answered(true)),
    ensures
        transition(PushStage::CheckingFastForward, event) == fail(PushError::CannotFastForward),
{
}

/// A failed push of the branches starts a new round from fetching the RSL.
pub proof fn lemma_failed_refs_push_starts_over()
    ensures
        transition(PushStage::PushingRefs, PushEvent::Failed) == (PushStage::Fetching, PushAction::FetchRsl),
{
}

} // verus!
