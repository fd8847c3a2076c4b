use release_flow::command::{replace_variables, run_command, RunType, Variable};
use release_flow::error::StepError;
use release_flow::git::branch_name_from_issue;
use release_flow::issues::Issue;
use release_flow::releases::Manifests;
use release_flow::state::{GitHub, IssueSelected, Release, State};

fn no_manifests() -> Manifests {
    Manifests { cargo: None, pyproject: None, package_json: None }
}

fn manifests_with(version: &str) -> Manifests {
    Manifests { cargo: Some(String::from(version)), pyproject: None, package_json: None }
}

#[test]
fn test() {
    let file = tempfile::NamedTempFile::new().unwrap();
    let command = format!("cat {}", file.path().to_str().unwrap());
    let manifests = no_manifests();
    let result =
        run_command(RunType::Real(State::new(None, None)), command.clone(), None, &manifests);

    assert!(result.is_ok());

    file.close().unwrap();

    let result = run_command(RunType::Real(State::new(None, None)), command, None, &manifests);
    assert!(result.is_err());
}

#[test]
fn multiple_variables() {
    let command = "blah $$ branch_name".to_string();
    let mut variables: Vec<(String, Variable)> = Vec::new();
    variables.push(("$$".to_string(), Variable::Version));
    variables.push(("branch_name".to_string(), Variable::IssueBranch));
    let issue = Issue::Jira { key: "13".to_string(), summary: "1234".to_string() };
    let expected_branch_name = branch_name_from_issue(&issue);
    let state = State::IssueSelected(IssueSelected {
        jira_config: None,
        github_state: GitHub::New,
        github_config: None,
        issue,
        release: Release::Initial,
    });
    let manifests = manifests_with("1.2.3");

    let command = replace_variables(command, variables, &state, &manifests).unwrap();

    assert_eq!(command, format!("blah {} {}", "1.2.3", expected_branch_name));
}

#[test]
fn replace_version() {
    let command = "blah $$ other blah".to_string();
    let mut variables: Vec<(String, Variable)> = Vec::new();
    variables.push(("$$".to_string(), Variable::Version));
    let state = State::new(None, None);
    let manifests = manifests_with("1.2.3");

    let command = replace_variables(command, variables, &state, &manifests).unwrap();

    assert_eq!(command, format!("blah {} other blah", "1.2.3"));
}

#[test]
fn replace_issue_branch() {
    let command = "blah $$ other blah".to_string();
    let mut variables: Vec<(String, Variable)> = Vec::new();
    variables.push(("$$".to_string(), Variable::IssueBranch));
    let issue = Issue::Jira { key: "13".to_string(), summary: "1234".to_string() };
    let expected_branch_name = branch_name_from_issue(&issue);
    let state = State::IssueSelected(IssueSelected {
        jira_config: None,
        github_state: GitHub::New,
        github_config: None,
        issue,
        release: Release::Initial,
    });
    let manifests = no_manifests();

    let command = replace_variables(command, variables, &state, &manifests).unwrap();

    assert_eq!(command, format!("blah {} other blah", expected_branch_name));
}

#[test]
fn replace_issue_branch_without_issue_fails() {
    let command = "blah branch_name".to_string();
    let mut variables: Vec<(String, Variable)> = Vec::new();
    variables.push(("branch_name".to_string(), Variable::IssueBranch));
    let state = State::new(None, None);
    let manifests = manifests_with("1.2.3");

    let result = replace_variables(command, variables, &state, &manifests);

    assert_eq!(result.unwrap_err(), StepError::NoIssueSelected);
}

#[test]
fn replace_version_without_manifest_fails() {
    let command = "blah $$".to_string();
    let mut variables: Vec<(String, Variable)> = Vec::new();
    variables.push(("$$".to_string(), Variable::Version));
    let state = State::new(None, None);
    let manifests = no_manifests();

    let result = replace_variables(command, variables, &state, &manifests);

    assert_eq!(result.unwrap_err(), StepError::NoManifestFound);
}

#[test]
fn dry_run_previews_and_keeps_state() {
    let mut variables: Vec<(String, Variable)> = Vec::new();
    variables.push(("$$".to_string(), Variable::Version));
    let run_type = RunType::DryRun { state: State::new(None, None), stdout: String::new() };
    let manifests = manifests_with("1.2.3");

    let result = run_command(run_type, "echo $$".to_string(), Some(variables), &manifests);

    match result.unwrap() {
        RunType::DryRun { state, stdout } => {
            assert_eq!(state, State::new(None, None));
            assert_eq!(stdout, "Would run echo 1.2.3\n");
        }
        RunType::Real(_) => panic!("a dry run must stay a dry run"),
    }
}

#[test]
fn real_run_success_keeps_state() {
    let manifests = no_manifests();
    let result =
        run_command(RunType::Real(State::new(None, None)), "true".to_string(), None, &manifests);

    assert_eq!(result.unwrap(), RunType::Real(State::new(None, None)));
}

#[test]
fn real_run_failure_carries_exit_status() {
    let manifests = no_manifests();
    let result =
        run_command(RunType::Real(State::new(None, None)), "exit 7".to_string(), None, &manifests);

    assert_eq!(result.unwrap_err(), StepError::CommandError { code: Some(7) });
}
