//! Validation of the remote RSL against the last locally trusted state.
use vstd::prelude::*;
use crate::object_id::ObjectId;

verus! {

/// What the walk from the local RSL head to the remote RSL head found at a
/// commit that is a push entry: the hash it records for its predecessor and
/// its own hash.
#[derive(Debug)]
pub struct PushEntryLink {
    pub prev_hash: String,
    pub hash: String,
}

/// Why the remote RSL was refused.
#[derive(Clone, Copy, Debug, PartialEq, Eq)]
pub enum RslError {
    /// The remote RSL head neither is nor descends from the local RSL head.
    NoPathFromLocalToRemote,
    /// The walk over the new commits ended on a hash: starting from the last
    /// local push entry, every new push entry named the one before it.
    InvalidEntry,
}

impl RslError {
    pub open spec fn spec_message(self) -> Seq<char> {
        match self {
            RslError::NoPathFromLocalToRemote => "RSL invalid: No path to get from Local RSL to Remote RSL"@,
            RslError::InvalidEntry => "invalid RSL entry"@,
        }
    }

    /// The human-readable message of this error.
    pub fn message(&self) -> (res: &'static str)
        ensures
            res@ == self.spec_message(),
    {
        match self {
            RslError::NoPathFromLocalToRemote => "RSL invalid: No path to get from Local RSL to Remote RSL",
            RslError::InvalidEntry => "invalid RSL entry",
        }
    }
}

pub open spec fn opt_string_view(s: Option<String>) -> Option<Seq<char>> {
    match s {
        Some(v) => Some(v@),
        None => None,
    }
}

/// One step of the walk: a commit that is not a push entry leaves the
/// expected hash unchanged; a push entry continues the chain when it records
/// the expected hash as its predecessor, and breaks it otherwise.
pub open spec fn link_step(prev: Option<Seq<char>>, commit: Option<PushEntryLink>) -> Option<Seq<char>> {
    match commit {
        None => prev,
        Some(entry) => if prev == Some(entry.prev_hash@) {
            Some(entry.hash@)
        } else {
            None
        },
    }
}

/// The hash in hand after walking `walk` in order, starting from `start`.
pub open spec fn chain_result(start: Option<Seq<char>>, walk: Seq<Option<PushEntryLink>>) -> Option<Seq<char>>
    decreases walk.len(),
{
    if walk.len() == 0 {
        start
    } else {
        link_step(chain_result(start, walk.drop_last()), walk.last())
    }
}

/// The outcome of validating the remote RSL.
pub open spec fn validation_outcome(
    remote_head: Seq<u8>,
    local_head: Seq<u8>,
    remote_descends_from_local: Option<bool>,
    local_last_entry_hash: Option<Seq<char>>,
    walk: Seq<Option<PushEntryLink>>,
) -> Result<(), RslError> {
    if remote_descends_from_local != Some(true) && remote_head != local_head {
        Err(RslError::NoPathFromLocalToRemote)
    } else if chain_result(local_last_entry_hash, walk) is Some {
        Err(RslError::InvalidEntry)
    } else {
        Ok(())
    }
}

/// Checks the signature on the remote RSL head; every head is accepted.
fn verify_signature(_head: &ObjectId) -> (res: Result<(), RslError>)
    ensures
        res == Ok::<(), RslError>(()),
{
    Ok(())
}

/// Validates the remote RSL against the local one.
///
/// `remote_descends_from_local` is the answer of the repository to whether
/// the remote head descends from the local head (`None` when it could not
/// tell); `local_last_entry_hash` is the hash of the last push entry of the
/// local RSL, if it has one; `walk` lists, oldest first, the commits reached
/// from the remote head and not from the local head, with the link of each
/// one that is a push entry.
///
/// The remote RSL is refused when its head neither is nor descends from the
/// local head, and when the walk over the new commits ends on a hash (see
/// `chain_result`); otherwise it is accepted.
pub fn validate_rsl(
    remote_head: &ObjectId,
    local_head: &ObjectId,
    remote_descends_from_local: Option<bool>,
    local_last_entry_hash: &Option<String>,
    walk: &Vec<Option<PushEntryLink>>,
) -> (res: Result<(), RslError>)
    ensures
        res == validation_outcome(
            remote_head@,
            local_head@,
            remote_descends_from_local,
            opt_string_view(*local_last_entry_hash),
            walk@,
        ),
{
    let descendant = match remote_descends_from_local {
        Some(d) => d,
        None => false,
    };
    let same = remote_head.same_as(local_head);
    if !descendant && !same {
        return Err(RslError::NoPathFromLocalToRemote);
    }
    let mut current: Option<String> = match local_last_entry_hash {
        Some(h) => Some(h.clone()),
        None => None,
    };
    let ghost start = opt_string_view(*local_last_entry_hash);
    let mut i: usize = 0;
    while i < walk.len()
        invariant
            i <= walk.len(),
            opt_string_view(current) == chain_result(start, walk@.take(i as int)),
        decreases walk.len() - i,
    {
        assert(walk@.take(i + 1).drop_last() =~= walk@.take(i as int));
        match &walk[i] {
            None => {},
            Some(entry) => {
                let linked = match &current {
                    Some(p) => *p == entry.prev_hash,
                    None => false,
                };
                if linked {
                    current = Some(entry.hash.clone());
                } else {
                    current = None;
                }
            },
        }
        i = i + 1;
    }
    assert(walk@.take(walk.len() as int) =~= walk@);
    if current.is_some() {
        return Err(RslError::InvalidEntry);
    }
    verify_signature(remote_head)
}

} // verus!

verus! {

/// Walking a walk in two consecutive parts gives what walking it at once
/// gives: validation can resume from the hash reached so far.
pub proof fn lemma_chain_resumes(start: Option<Seq<char>>, first: Seq<Option<PushEntryLink>>, rest: Seq<Option<PushEntryLink>>)
    ensures
        chain_result(start, first + rest) == chain_result(chain_result(start, first), rest),
    decreases rest.len(),
{
    if rest.len() == 0 {
        assert(first + rest =~= first);
    } else {
        assert((first + rest).drop_last() =~= first + rest.drop_last());
        assert((first + rest).last() == rest.last());
        lemma_chain_resumes(start, first, rest.drop_last());
    }
}

/// Once a link is broken no later entry repairs it.
pub proof fn lemma_broken_chain_stays_broken(walk: Seq<Option<PushEntryLink>>)
    ensures
        chain_result(None, walk) == None::<Seq<char>>,
    decreases walk.len(),
{
    if walk.len() > 0 {
        lemma_broken_chain_stays_broken(walk.drop_last());
    }
}

/// A walk that breaks the chain somewhere ends broken, whatever follows.
pub proof fn lemma_break_is_final(
    start: Option<Seq<char>>,
    first: Seq<Option<PushEntryLink>>,
    rest: Seq<Option<PushEntryLink>>,
)
    requires
        chain_result(start, first) is None,
    ensures
        chain_result(start, first + rest) is None,
{
    lemma_chain_resumes(start, first, rest);
    lemma_broken_chain_stays_broken(rest);
}

pub open spec fn is_push_entry(commit: Option<PushEntryLink>) -> bool {
    commit is Some
}

/// Commits that are not push entries do not affect the outcome of the walk.
pub proof fn lemma_other_commits_ignored(start: Option<Seq<char>>, walk: Seq<Option<PushEntryLink>>)
    ensures
        chain_result(start, walk) == chain_result(start, walk.filter(|c: Option<PushEntryLink>| is_push_entry(c))),
    decreases walk.len(),
{
    let pred = |c: Option<PushEntryLink>| is_push_entry(c);
    if walk.len() > 0 {
        lemma_other_commits_ignored(start, walk.drop_last());
        assert(walk.drop_last().push(walk.last()) =~= walk);
        walk.drop_last().lemma_filter_push(walk.last(), pred);
        let f = walk.drop_last().filter(pred);
        if pred(walk.last()) {
            assert(f.push(walk.last()).drop_last() =~= f);
        }
    } else {
        reveal(Seq::filter);
    }
}

/// Without a last local push entry the walk never ends on a hash, so the
/// walk itself never makes validation fail.
pub proof fn lemma_no_local_entry_never_invalid(
    remote_head: Seq<u8>,
    local_head: Seq<u8>,
    remote_descends_from_local: Option<bool>,
    walk: Seq<Option<PushEntryLink>>,
)
    ensures
        validation_outcome(remote_head, local_head, remote_descends_from_local, None, walk)
            != Err::<(), RslError>(RslError::InvalidEntry),
{
    lemma_broken_chain_stays_broken(walk);
}

} // verus!
