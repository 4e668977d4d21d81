use jj_git_util::keys::get_ssh_keys;
use jj_git_util::keys::ssh_key_candidates;
use jj_git_util::workspace::StoreBackend;
use jj_git_util::workspace::expand_git_path;
use jj_git_util::workspace::get_git_repo;
use jj_git_util::workspace::is_colocated_git_workspace;

#[test]
fn tilde_prefix_expands_to_home() {
    assert_eq!(expand_git_path("~/config", Some("/home/u")), "/home/u/config");
}

#[test]
fn absolute_path_is_unchanged() {
    assert_eq!(expand_git_path("/abs/path", Some("/home/u")), "/abs/path");
}

#[test]
fn unknown_home_leaves_tilde_alone() {
    assert_eq!(expand_git_path("~/config", None), "~/config");
}

#[test]
fn bare_tilde_is_not_a_prefix() {
    assert_eq!(expand_git_path("~", Some("/home/u")), "~");
    assert_eq!(expand_git_path("~user/x", Some("/home/u")), "~user/x");
}

#[test]
fn git_repo_requires_git_backend() {
    assert_eq!(get_git_repo(&StoreBackend::GitBacked), Ok(()));
    assert_eq!(
        get_git_repo(&StoreBackend::Other),
        Err("The repo is not backed by a git repo".to_string())
    );
}

#[test]
fn colocated_when_workdir_is_root() {
    assert!(is_colocated_git_workspace(
        &StoreBackend::GitBacked,
        Some("/w"),
        "/w",
        None,
        false,
        None,
    ));
}

#[test]
fn not_colocated_without_git_backend_or_workdir() {
    assert!(!is_colocated_git_workspace(&StoreBackend::Other, Some("/w"), "/w", None, true, None));
    assert!(!is_colocated_git_workspace(&StoreBackend::GitBacked, None, "/w", None, true, None));
}

#[test]
fn colocated_via_canonical_dot_git_parent() {
    assert!(is_colocated_git_workspace(
        &StoreBackend::GitBacked,
        Some("/link/w"),
        "/real/w",
        Some("/real/w"),
        true,
        Some("/real/w"),
    ));
    assert!(!is_colocated_git_workspace(
        &StoreBackend::GitBacked,
        Some("/link/w"),
        "/real/w",
        Some("/other"),
        true,
        Some("/real/w"),
    ));
    // an unresolved .git entry decides against colocation
    assert!(!is_colocated_git_workspace(
        &StoreBackend::GitBacked,
        Some("/link/w"),
        "/real/w",
        Some("/real/w"),
        false,
        Some("/real/w"),
    ));
}

#[test]
fn key_candidates_are_fixed_and_ordered() {
    assert_eq!(
        ssh_key_candidates(),
        vec![
            ".ssh/id_ed25519_sk".to_string(),
            ".ssh/id_ed25519".to_string(),
            ".ssh/id_rsa".to_string(),
        ]
    );
}

#[test]
fn only_legacy_key_present() {
    let keys = get_ssh_keys("user", &vec![false, false, true]);
    assert_eq!(keys, vec![".ssh/id_rsa".to_string()]);
}

#[test]
fn all_keys_present_keep_priority_order() {
    let keys = get_ssh_keys("user", &vec![true, true, true]);
    assert_eq!(
        keys,
        vec![
            ".ssh/id_ed25519_sk".to_string(),
            ".ssh/id_ed25519".to_string(),
            ".ssh/id_rsa".to_string(),
        ]
    );
}

#[test]
fn no_keys_present() {
    let keys = get_ssh_keys("user", &vec![false, false, false]);
    assert!(keys.is_empty());
}
