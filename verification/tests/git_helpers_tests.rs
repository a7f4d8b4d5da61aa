use andiamo::git_helpers::GitError;
use andiamo::git_helpers::GitResult;
use andiamo::git_helpers::check_git_installed;
use andiamo::git_helpers::get_existing_remotes;
use andiamo::git_helpers::has_remote;
use andiamo::git_helpers::is_git_repo;
use andiamo::CmdOutcome;

fn success(stdout: &str) -> CmdOutcome {
    CmdOutcome::Success {
        stdout: stdout.to_string(),
    }
}

fn failure(stderr: &str) -> CmdOutcome {
    CmdOutcome::Failure {
        stderr: stderr.to_string(),
    }
}

fn spawn_error(message: &str) -> CmdOutcome {
    CmdOutcome::SpawnError {
        message: message.to_string(),
    }
}

#[test]
fn test_git_error_debug() {
    let error = GitError::NotAGitRepository;
    let debug_str = format!("{:?}", error);
    assert!(
        debug_str.contains("NotAGitRepository"),
        "Debug string should contain error type"
    );
}

#[test]
fn test_git_error_command_failed() {
    let error = GitError::CommandFailed("Test error".to_string());
    let debug_str = format!("{:?}", error);
    assert!(
        debug_str.contains("CommandFailed"),
        "Debug string should contain CommandFailed"
    );
    assert!(
        debug_str.contains("Test error"),
        "Debug string should contain error message"
    );
}

#[test]
fn test_git_error_remote_not_found() {
    let error = GitError::RemoteNotFound("origin".to_string());
    let debug_str = format!("{:?}", error);
    assert!(
        debug_str.contains("RemoteNotFound"),
        "Debug string should contain RemoteNotFound"
    );
    assert!(
        debug_str.contains("origin"),
        "Debug string should contain remote name"
    );
}

#[test]
fn test_check_git_installed_outcomes() {
    assert!(check_git_installed(&success("git version 2.39.0\n")));
    assert!(!check_git_installed(&failure("unknown option")));
    assert!(!check_git_installed(&spawn_error("No such file or directory")));
}

#[test]
fn test_is_git_repo_true() {
    assert!(is_git_repo(&success("true\n")));
}

#[test]
fn test_is_git_repo_surrounding_blanks() {
    assert!(is_git_repo(&success("  true \r\n")));
}

#[test]
fn test_is_git_repo_false_output() {
    assert!(!is_git_repo(&success("false\n")));
}

#[test]
fn test_is_git_repo_failed_probe() {
    // A fresh directory: the probe exits non-zero, which counts as "no repository".
    assert!(!is_git_repo(&failure(
        "fatal: not a git repository (or any of the parent directories): .git\n"
    )));
}

#[test]
fn test_is_git_repo_unspawnable_probe() {
    assert!(!is_git_repo(&spawn_error("No such file or directory")));
}

#[test]
fn test_get_existing_remotes_empty() {
    let remotes = get_existing_remotes(&success(""));
    assert!(remotes.is_empty(), "Should have no remotes in a fresh repo");
}

#[test]
fn test_get_existing_remotes_with_remotes() {
    let remotes = get_existing_remotes(&success("origin\nmirror\n"));
    assert_eq!(remotes.len(), 2, "Should have 2 remotes");
    assert!(remotes.contains(&"origin".to_string()), "Should contain origin");
    assert!(remotes.contains(&"mirror".to_string()), "Should contain mirror");
}

#[test]
fn test_get_existing_remotes_trims_and_drops_blank_lines() {
    let remotes = get_existing_remotes(&success("  origin \n\n   \nmirror\r\n"));
    assert_eq!(remotes, vec!["origin".to_string(), "mirror".to_string()]);
}

#[test]
fn test_get_existing_remotes_failure_is_silent() {
    // A failed or unspawnable listing is treated as "no remotes", not surfaced.
    assert!(get_existing_remotes(&failure("fatal: not a git repository\n")).is_empty());
    assert!(get_existing_remotes(&spawn_error("No such file or directory")).is_empty());
}

#[test]
fn test_has_remote() {
    let names = vec!["origin".to_string(), "mirror".to_string()];
    assert!(has_remote(&names, "origin"));
    assert!(has_remote(&names, "mirror"));
    assert!(!has_remote(&names, "upstream"));
    let none: Vec<String> = Vec::new();
    assert!(!has_remote(&none, "origin"));
}

#[test]
fn test_git_result_alias_holds_both_arms() {
    let ok: GitResult<u32> = Ok(7);
    let err: GitResult<u32> = Err(GitError::NotAGitRepository);
    assert!(matches!(ok, Ok(7)));
    assert!(matches!(err, Err(GitError::NotAGitRepository)));
}
