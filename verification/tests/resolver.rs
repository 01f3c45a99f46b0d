use git_command_test::resolver::{
    get_final_path, get_home_path_and_projects_without_dot_git_string, strip_marker,
};

#[test]
fn marker_is_stripped_before_joining() {
    let r = get_final_path("/home/user", "myrepo/.git/");
    assert_eq!(r, "/home/user/projects/myrepo");
}

#[test]
fn unmarked_entry_passes_through() {
    let r = get_final_path("/home/user", "myrepo");
    assert_eq!(r, "/home/user/projects/myrepo");
}

#[test]
fn marker_without_trailing_slash_is_not_stripped() {
    let r = get_final_path("/home/user", "myrepo/.git");
    assert_eq!(r, "/home/user/projects/myrepo/.git");
}

#[test]
fn nested_entry_keeps_inner_components() {
    let r = get_final_path("/home/user", "group/myrepo/.git/");
    assert_eq!(r, "/home/user/projects/group/myrepo");
}

#[test]
fn strip_marker_removes_one_trailing_marker() {
    assert_eq!(strip_marker("repoA/.git/"), "repoA");
    assert_eq!(strip_marker("repoA"), "repoA");
    assert_eq!(strip_marker(""), "");
    assert_eq!(strip_marker("/.git/"), "");
}

#[test]
fn strip_marker_removes_only_the_last_occurrence() {
    assert_eq!(strip_marker("a/.git//.git/"), "a/.git/");
    assert_eq!(strip_marker("a/.git/b/.git/"), "a/.git/b");
}

#[test]
fn empty_entry_resolves_to_bare_projects_dir() {
    let r = get_final_path("/home/user", "/.git/");
    assert_eq!(r, "/home/user/projects/");
}

#[test]
fn home_based_resolution_ends_in_projects_path() {
    let r = get_home_path_and_projects_without_dot_git_string("myrepo/.git/");
    let p = r.expect("a home directory should be available in the test environment");
    assert!(p.ends_with("/projects/myrepo"));
    assert!(!p.starts_with("/projects"));
}
