//! Whether every fetched branch head is recorded by a push entry.
use vstd::prelude::*;
use crate::object_id::ObjectId;

verus! {

/// Whether `entry` is present and names `id`.
pub open spec fn holds_id(entry: Option<ObjectId>, id: Seq<u8>) -> bool {
    match entry {
        Some(o) => o@ == id,
        None => false,
    }
}

/// The set of object names present in `ids`; absent entries are skipped.
pub open spec fn present_ids(ids: Seq<Option<ObjectId>>) -> Set<Seq<u8>> {
    Set::new(|x: Seq<u8>| exists|i: int| 0 <= i < ids.len() && holds_id(#[trigger] ids[i], x))
}

/// Whether `id` is among the present entries of `ids[0..n]`.
pub open spec fn present_in_prefix(ids: Seq<Option<ObjectId>>, n: int, id: Seq<u8>) -> bool {
    exists|i: int| 0 <= i < n && holds_id(#[trigger] ids[i], id)
}

fn contains_id(ids: &Vec<Option<ObjectId>>, id: &ObjectId) -> (res: bool)
    ensures
        res == present_ids(ids@).contains(id@),
{
    let mut i: usize = 0;
    while i < ids.len()
        invariant
            i <= ids.len(),
            !present_in_prefix(ids@, i as int, id@),
        decreases ids.len() - i,
    {
        match &ids[i] {
            Some(o) => {
                if o.same_as(id) {
                    assert(holds_id(ids@[i as int], id@));
                    return true;
                }
            },
            None => {},
        }
        i = i + 1;
    }
    false
}

/// Whether the head of every remote-tracking branch that exists is the head
/// recorded by some push entry.
///
/// For each ref name, `push_entry_heads` holds the head recorded by the last
/// push entry for it and `fetch_heads` the target of its remote-tracking
/// branch; `None` where there is none. Order and repetition do not matter.
pub fn all_push_entries_in_fetch_head(
    push_entry_heads: &Vec<Option<ObjectId>>,
    fetch_heads: &Vec<Option<ObjectId>>,
) -> (res: bool)
    ensures
        res == present_ids(fetch_heads@).subset_of(present_ids(push_entry_heads@)),
{
    let mut i: usize = 0;
    while i < fetch_heads.len()
        invariant
            i <= fetch_heads.len(),
            forall|x: Seq<u8>| #[trigger] present_in_prefix(fetch_heads@, i as int, x)
                ==> present_ids(push_entry_heads@).contains(x),
        decreases fetch_heads.len() - i,
    {
        match &fetch_heads[i] {
            Some(head) => {
                if !contains_id(push_entry_heads, head) {
                    assert(present_ids(fetch_heads@).contains(head@));
                    return false;
                }
            },
            None => {},
        }
        assert forall|x: Seq<u8>| #[trigger] present_in_prefix(fetch_heads@, i + 1, x)
            implies present_ids(push_entry_heads@).contains(x) by {
            let k = choose|k: int| 0 <= k < i + 1 && holds_id(#[trigger] fetch_heads@[k], x);
            if k < i {
                assert(present_in_prefix(fetch_heads@, i as int, x));
            }
        }
        i = i + 1;
    }
    assert forall|x: Seq<u8>| present_ids(fetch_heads@).contains(x)
        implies present_ids(push_entry_heads@).contains(x) by {
        assert(present_in_prefix(fetch_heads@, fetch_heads.len() as int, x));
    }
    true
}

/// Only which object names are present matters: two pairs of lists with the
/// same present names get the same answer.
pub proof fn lemma_only_present_names_matter(
    heads_a: Seq<Option<ObjectId>>,
    fetched_a: Seq<Option<ObjectId>>,
    heads_b: Seq<Option<ObjectId>>,
    fetched_b: Seq<Option<ObjectId>>,
)
    requires
        present_ids(heads_a) == present_ids(heads_b),
        present_ids(fetched_a) == present_ids(fetched_b),
    ensures
        present_ids(fetched_a).subset_of(present_ids(heads_a))
            == present_ids(fetched_b).subset_of(present_ids(heads_b)),
{
}

/// Ref names without a remote-tracking branch never make the check fail.
pub proof fn lemma_missing_fetch_heads_ignored(fetched: Seq<Option<ObjectId>>)
    ensures
        present_ids(fetched.push(None)) == present_ids(fetched),
{
    assert forall|x: Seq<u8>| present_ids(fetched.push(None)).contains(x)
        implies present_ids(fetched).contains(x) by {
        let k = choose|k: int| 0 <= k < fetched.len() + 1 && holds_id(#[trigger] fetched.push(None)[k], x);
        assert(fetched[k] == fetched.push(None)[k]);
    }
    assert forall|x: Seq<u8>| present_ids(fetched).contains(x)
        implies present_ids(fetched.push(None)).contains(x) by {
        let k = choose|k: int| 0 <= k < fetched.len() && holds_id(#[trigger] fetched[k], x);
        assert(fetched.push(None)[k] == fetched[k]);
    }
    assert(present_ids(fetched.push(None)) =~= present_ids(fetched));
}

} // verus!
