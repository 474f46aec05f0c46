use git_rsl::refspec::push_refspecs;

#[test]
fn refspecs_map_branches_to_themselves() {
    let specs = push_refspecs(&["master", "dev"]);
    assert_eq!(specs, vec!["refs/heads/master:refs/heads/master".to_string(), "refs/heads/dev:refs/heads/dev".to_string()]);
    assert!(push_refspecs(&[]).is_empty());
}
