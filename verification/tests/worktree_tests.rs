use s2_cli::locate::{is_fleet_root, missing_override_message, registry_step, RegistryFile};
use s2_cli::worktree::{
    branch_delete_args, feature_branch, linked_worktrees, worktree_add_args, worktree_dir_name,
    worktree_prune_args, worktree_remove_args,
};

#[test]
fn worktree_names() {
    assert_eq!(feature_branch("vision-fix"), "feat/vision-fix");
    assert_eq!(worktree_dir_name("generation", "vision-fix"), "generation--vision-fix");
}

#[test]
fn add_on_new_branch() {
    assert_eq!(
        worktree_add_args("/f/Systems/Runtimes/generation", "/f/Systems/Runtimes/.wt/generation--vision-fix", "vision-fix", None),
        vec![
            "-C",
            "/f/Systems/Runtimes/generation",
            "worktree",
            "add",
            "-b",
            "feat/vision-fix",
            "/f/Systems/Runtimes/.wt/generation--vision-fix",
        ]
    );
}

#[test]
fn add_detached() {
    assert_eq!(
        worktree_add_args("/r", "/w", "hot", Some("abc123")),
        vec!["-C", "/r", "worktree", "add", "--detach", "/w", "abc123"]
    );
}

#[test]
fn remove_prune_and_branch_delete() {
    assert_eq!(worktree_remove_args("/r", "/w"), vec!["-C", "/r", "worktree", "remove", "/w"]);
    assert_eq!(worktree_prune_args("/r"), vec!["-C", "/r", "worktree", "prune"]);
    assert_eq!(branch_delete_args("/r", "x"), vec!["-C", "/r", "branch", "-d", "feat/x"]);
}

#[test]
fn porcelain_listing() {
    let out = "worktree /f/gen\nHEAD 1111\nbranch refs/heads/main\n\nworktree /f/.wt/gen--a\nHEAD 2222\nbranch refs/heads/feat/a\n\nworktree /f/.wt/gen--b\nHEAD 3333\ndetached\n\n";
    assert_eq!(linked_worktrees(out), vec!["/f/.wt/gen--a", "/f/.wt/gen--b"]);
}

#[test]
fn porcelain_main_only() {
    assert!(linked_worktrees("worktree /f/gen\nHEAD 1111\nbranch refs/heads/main\n").is_empty());
    assert!(linked_worktrees("").is_empty());
}

#[test]
fn registry_search_steps() {
    assert_eq!(registry_step(true, true, true), Some(RegistryFile::Nested));
    assert_eq!(registry_step(false, true, true), Some(RegistryFile::Local));
    assert_eq!(registry_step(false, true, false), None);
    assert_eq!(registry_step(false, false, true), None);
    assert!(is_fleet_root(true, true));
    assert!(!is_fleet_root(true, false));
    assert_eq!(missing_override_message("/tmp/cp.json"), "S2_CONTROL_PLANE_PATH=/tmp/cp.json does not exist");
}
