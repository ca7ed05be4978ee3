use gc_rust::orchestrator::{
    clone_url, resolve_reference, target_path, Action, Event, OperationError, Orchestrator, Phase,
    RepoRef,
};
use gc_rust::resolver::repository;

fn example_reference() -> RepoRef {
    RepoRef {
        host: "github.com".to_string(),
        organization: "example".to_string(),
        project: "application".to_string(),
    }
}

fn expect_check_exists(action: Action) -> String {
    match action {
        Action::CheckExists(p) => p,
        other => panic!("expected a path-existence check, got {:?}", action_name(&other)),
    }
}

fn action_name(action: &Action) -> &'static str {
    match action {
        Action::CheckExists(_) => "CheckExists",
        Action::CreateDir(_) => "CreateDir",
        Action::AskConfirm => "AskConfirm",
        Action::DeleteDir(_) => "DeleteDir",
        Action::RunClone(_, _) => "RunClone",
        Action::RunCheckout(_, _) => "RunCheckout",
        Action::Finish(_) => "Finish",
        Action::Stop => "Stop",
        Action::Fail(_) => "Fail",
    }
}

#[test]
fn resolve_reference_builds_a_reference() {
    let reference =
        resolve_reference("https://github.com/example/application/issues".to_string()).unwrap();
    assert_eq!(reference.host, "github.com");
    assert_eq!(reference.organization, "example");
    assert_eq!(reference.project, "application");
    assert!(!reference.project.ends_with(".git"));
}

#[test]
fn target_path_is_deterministic() {
    let a = target_path("/home/user/src", "github.com", "example", "application");
    let b = target_path("/home/user/src", "github.com", "example", "application");
    assert_eq!(a, b);
    assert_eq!(a, "/home/user/src/github.com/example/application");
}

#[test]
fn clone_url_is_normalized_for_every_form() {
    let inputs = vec![
        "git@github.com:example/application.git",
        "https://github.com/example/application/security/dependabot",
        "example/application",
    ];
    for input in inputs {
        let (host, team, project) = repository(input.to_string()).unwrap();
        assert_eq!(
            clone_url(&host, &team, &project),
            "git@github.com:example/application.git"
        );
    }
}

#[test]
fn declined_confirmation_stops_without_touching_anything() {
    let (mut orch, first) = Orchestrator::new(example_reference(), "/base".to_string(), None);
    let probe = expect_check_exists(first);
    assert_eq!(probe, "/base/github.com/example/application");
    let ask = orch.next(Event::Exists(true));
    assert!(matches!(ask, Action::AskConfirm));
    let last = orch.next(Event::Confirmed(false));
    assert!(matches!(last, Action::Stop));
    assert_eq!(orch.phase, Phase::Stopped);
}

#[test]
fn accepted_confirmation_recreates_and_clones() {
    let (mut orch, first) = Orchestrator::new(example_reference(), "/base".to_string(), None);
    let probe = expect_check_exists(first);
    let ask = orch.next(Event::Exists(true));
    assert!(matches!(ask, Action::AskConfirm));
    match orch.next(Event::Confirmed(true)) {
        Action::DeleteDir(p) => assert_eq!(p, probe),
        other => panic!("expected a deletion, got {}", action_name(&other)),
    }
    match orch.next(Event::FsOk) {
        Action::CreateDir(p) => assert_eq!(p, probe),
        other => panic!("expected a recreation, got {}", action_name(&other)),
    }
    match orch.next(Event::FsOk) {
        Action::RunClone(url, p) => {
            assert_eq!(url, "git@github.com:example/application.git");
            assert_eq!(p, probe);
        }
        other => panic!("expected the clone, got {}", action_name(&other)),
    }
    match orch.next(Event::GitDone(true, String::new())) {
        Action::Finish(outcome) => {
            assert_eq!(outcome.target_path, probe);
            assert!(outcome.branch_checked_out.is_none());
        }
        other => panic!("expected the outcome, got {}", action_name(&other)),
    }
    assert_eq!(orch.phase, Phase::Done);
}

#[test]
fn fresh_path_with_branch_checks_out_after_clone() {
    let (mut orch, first) = Orchestrator::new(
        example_reference(),
        "/base".to_string(),
        Some("develop".to_string()),
    );
    let probe = expect_check_exists(first);
    match orch.next(Event::Exists(false)) {
        Action::CreateDir(p) => assert_eq!(p, probe),
        other => panic!("expected a creation, got {}", action_name(&other)),
    }
    match orch.next(Event::FsOk) {
        Action::RunClone(url, p) => {
            assert_eq!(url, "git@github.com:example/application.git");
            assert_eq!(p, probe);
        }
        other => panic!("expected the clone, got {}", action_name(&other)),
    }
    match orch.next(Event::GitDone(true, String::new())) {
        Action::RunCheckout(branch, p) => {
            assert_eq!(branch, "develop");
            assert_eq!(p, probe);
        }
        other => panic!("expected the checkout, got {}", action_name(&other)),
    }
    match orch.next(Event::GitDone(true, String::new())) {
        Action::Finish(outcome) => {
            assert_eq!(outcome.target_path, probe);
            assert_eq!(outcome.branch_checked_out, Some("develop".to_string()));
        }
        other => panic!("expected the outcome, got {}", action_name(&other)),
    }
    assert_eq!(orch.phase, Phase::Done);
}

#[test]
fn create_failure_is_terminal() {
    let (mut orch, _) = Orchestrator::new(example_reference(), "/base".to_string(), None);
    orch.next(Event::Exists(false));
    match orch.next(Event::FsFailed("disk full".to_string())) {
        Action::Fail(OperationError::CantCreateTargetDir(m)) => assert_eq!(m, "disk full"),
        other => panic!("expected a creation failure, got {}", action_name(&other)),
    }
    assert_eq!(orch.phase, Phase::Failed);
}

#[test]
fn delete_failure_is_terminal() {
    let (mut orch, _) = Orchestrator::new(example_reference(), "/base".to_string(), None);
    orch.next(Event::Exists(true));
    orch.next(Event::Confirmed(true));
    match orch.next(Event::FsFailed("permission denied".to_string())) {
        Action::Fail(OperationError::CantDeleteTargetDir(m)) => {
            assert_eq!(m, "permission denied")
        }
        other => panic!("expected a deletion failure, got {}", action_name(&other)),
    }
    assert_eq!(orch.phase, Phase::Failed);
}

#[test]
fn clone_failure_carries_stderr() {
    let (mut orch, _) = Orchestrator::new(example_reference(), "/base".to_string(), None);
    orch.next(Event::Exists(false));
    orch.next(Event::FsOk);
    match orch.next(Event::GitDone(false, "fatal: repository not found".to_string())) {
        Action::Fail(err) => {
            assert!(matches!(err, OperationError::FailedGitOperation(_)));
            assert_eq!(
                err.message(),
                "Failed git operation: fatal: repository not found"
            );
        }
        other => panic!("expected a git failure, got {}", action_name(&other)),
    }
    assert_eq!(orch.phase, Phase::Failed);
}

#[test]
fn checkout_failure_carries_stderr() {
    let (mut orch, _) = Orchestrator::new(
        example_reference(),
        "/base".to_string(),
        Some("missing".to_string()),
    );
    orch.next(Event::Exists(false));
    orch.next(Event::FsOk);
    orch.next(Event::GitDone(true, String::new()));
    match orch.next(Event::GitDone(false, "error: pathspec".to_string())) {
        Action::Fail(OperationError::FailedGitOperation(m)) => assert_eq!(m, "error: pathspec"),
        other => panic!("expected a git failure, got {}", action_name(&other)),
    }
    assert_eq!(orch.phase, Phase::Failed);
}

#[test]
fn confirmation_read_failure_is_terminal() {
    let (mut orch, _) = Orchestrator::new(example_reference(), "/base".to_string(), None);
    orch.next(Event::Exists(true));
    match orch.next(Event::ConfirmFailed("broken pipe".to_string())) {
        Action::Fail(err) => {
            assert!(matches!(err, OperationError::FailedCaptureInput(_)));
            assert_eq!(err.message(), "Failed to capture prompt: broken pipe");
        }
        other => panic!("expected a prompt failure, got {}", action_name(&other)),
    }
    assert_eq!(orch.phase, Phase::Failed);
}

#[test]
fn filesystem_error_messages_carry_the_detail() {
    let create = OperationError::CantCreateTargetDir("detail one".to_string());
    assert_eq!(
        create.message(),
        "Cannot create target directory: detail one"
    );
    let delete = OperationError::CantDeleteTargetDir("detail two".to_string());
    assert_eq!(
        delete.message(),
        "Cannot delete target directory: detail two"
    );
}
