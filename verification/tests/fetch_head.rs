use git_rsl::fetch_head::all_push_entries_in_fetch_head;
use git_rsl::object_id::ObjectId;

fn oid(b: u8) -> Option<ObjectId> {
    Some(ObjectId::from_bytes([b; 20]))
}

#[test]
fn fetch_heads_covered_by_entries() {
    assert!(all_push_entries_in_fetch_head(&vec![oid(1), oid(2)], &vec![oid(2), oid(1), oid(2)]));
}

#[test]
fn unrecorded_fetch_head_is_reported() {
    assert!(!all_push_entries_in_fetch_head(&vec![oid(1), oid(2)], &vec![oid(1), oid(3)]));
}

#[test]
fn refs_without_remote_branch_are_skipped() {
    assert!(all_push_entries_in_fetch_head(&vec![oid(1), None], &vec![None, oid(1), None]));
    assert!(all_push_entries_in_fetch_head(&vec![], &vec![None]));
    assert!(!all_push_entries_in_fetch_head(&vec![None], &vec![oid(4)]));
}
