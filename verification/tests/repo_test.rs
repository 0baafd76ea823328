use commit::repo::{branch_name, find_latest, latest_change, name};
use commit::window::main_window::{file_name, repo_label};

#[test]
fn name_of_https_remote() {
    assert_eq!(name("https://github.com/m1guelpf/commit.git"), Some("m1guelpf/commit".to_string()));
    assert_eq!(name("https://github.com/m1guelpf/commit"), Some("m1guelpf/commit".to_string()));
}

#[test]
fn name_of_https_remote_with_more_pieces() {
    assert_eq!(name("https://gitlab.com/group/project/sub.git"), Some("group/project".to_string()));
}

#[test]
fn name_strips_every_trailing_git() {
    assert_eq!(name("https://github.com/a/b.git.git"), Some("a/b".to_string()));
    assert_eq!(name("git@github.com:a/b.git.git"), Some("a/b".to_string()));
}

#[test]
fn name_of_ssh_remote() {
    assert_eq!(name("git@github.com:m1guelpf/commit.git"), Some("m1guelpf/commit".to_string()));
    assert_eq!(name("git@host:a:b"), Some("a".to_string()));
}

#[test]
fn name_of_short_http_url_falls_back_to_scp_form() {
    assert_eq!(name("http://host/x"), None);
    assert_eq!(name("http://user@host:8080/x"), Some("//user@host".to_string()));
}

#[test]
fn name_of_unknown_url() {
    assert_eq!(name(""), None);
    assert_eq!(name("/home/me/repo.git"), None);
    assert_eq!(name("host:repo"), None);
}

#[test]
fn branch_of_local_ref() {
    assert_eq!(branch_name("refs/heads/main"), "main");
    assert_eq!(branch_name("refs/heads/feature/x"), "feature/x");
}

#[test]
fn branch_name_removes_first_heads_prefix_only() {
    assert_eq!(branch_name("refs/remotes/origin/main"), "refs/remotes/origin/main");
    assert_eq!(branch_name("xrefs/heads/refs/heads/y"), "xrefs/heads/y");
    assert_eq!(branch_name(""), "");
}

#[test]
fn latest_change_takes_the_greatest_readable_time() {
    assert_eq!(latest_change(&vec![]), None);
    assert_eq!(latest_change(&vec![None, None]), None);
    assert_eq!(latest_change(&vec![Some(5), None, Some(9), Some(-3)]), Some(9));
    assert_eq!(latest_change(&vec![Some(-7)]), Some(-7));
}

#[test]
fn find_latest_picks_most_recent_repository() {
    let changes = vec![
        ("/code/a".to_string(), 10i128),
        ("/code/b".to_string(), 30i128),
        ("/code/c".to_string(), 20i128),
    ];
    assert_eq!(find_latest(&changes), Some("/code/b".to_string()));
}

#[test]
fn find_latest_of_nothing() {
    assert_eq!(find_latest(&vec![]), None);
}

#[test]
fn find_latest_with_first_entry_oldest() {
    let changes = vec![("old".to_string(), -5i128), ("new".to_string(), 100i128)];
    assert_eq!(find_latest(&changes), Some("new".to_string()));
}

#[test]
fn file_name_like_path() {
    assert_eq!(file_name("/home/me/code/app"), Some("app".to_string()));
    assert_eq!(file_name("/home/me/code/app/"), Some("app".to_string()));
    assert_eq!(file_name("app/."), Some("app".to_string()));
    assert_eq!(file_name("./app"), Some("app".to_string()));
    assert_eq!(file_name("/"), None);
    assert_eq!(file_name(""), None);
    assert_eq!(file_name("."), None);
    assert_eq!(file_name("a/.."), None);
    assert_eq!(file_name("a/..."), Some("...".to_string()));
}

#[test]
fn file_name_agrees_with_std() {
    for p in ["/a/b", "/a/b/", "a", "a/./", "..", "/x/y/.", "x//y", "/", "", ".", "./.", "a/.b"] {
        let expected = std::path::Path::new(p).file_name().map(|s| s.to_str().unwrap().to_string());
        assert_eq!(file_name(p), expected, "path {:?}", p);
    }
}

#[test]
fn repo_label_prefers_remote_name() {
    assert_eq!(
        repo_label(Some("git@github.com:me/tool.git"), "/code/tool"),
        Some("me/tool".to_string())
    );
    assert_eq!(repo_label(Some("not a url"), "/code/tool"), Some("tool".to_string()));
    assert_eq!(repo_label(None, "/code/tool/"), Some("tool".to_string()));
    assert_eq!(repo_label(None, "/"), None);
}
