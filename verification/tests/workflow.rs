use release_flow::error::{PackageManager, StepError};
use release_flow::issues::{
    issue_selected, select_github_issue, select_jira_issue, transition_selected_issue, Issue,
};
use release_flow::releases::{bump_version_and_update_state, get_version, Manifests};
use release_flow::semver::{Rule, Version};
use release_flow::state::{GitHub, Initial, IssueSelected, JiraConfig, Release, State};

fn jira_config() -> JiraConfig {
    JiraConfig { url: String::from("https://jira.example.com"), project: String::from("REL") }
}

fn selected_state(issue: Issue, config: Option<JiraConfig>) -> State {
    State::IssueSelected(IssueSelected {
        jira_config: config,
        github_state: GitHub::New,
        github_config: None,
        issue,
        release: Release::Initial,
    })
}

#[test]
fn select_jira_issue_twice_fails() {
    let issue = Issue::Jira { key: String::from("REL-1"), summary: String::from("First") };
    let state = selected_state(issue, Some(jira_config()));

    assert_eq!(select_jira_issue(state).unwrap_err(), StepError::IssueAlreadySelected);
}

#[test]
fn select_github_issue_twice_fails() {
    let issue = Issue::GitHub { number: 13, title: String::from("First") };
    let state = selected_state(issue, None);

    assert_eq!(select_github_issue(state).unwrap_err(), StepError::IssueAlreadySelected);
}

#[test]
fn select_jira_issue_needs_configuration() {
    let state = State::new(None, None);

    assert_eq!(select_jira_issue(state).unwrap_err(), StepError::JiraNotConfigured);
}

#[test]
fn select_issue_from_initial_succeeds() {
    let state = State::new(Some(jira_config()), None);
    let parts = select_jira_issue(state).unwrap();
    let issue = Issue::Jira { key: String::from("REL-2"), summary: String::from("Ship it") };

    let state = issue_selected(parts, issue);
    match state {
        State::IssueSelected(sel) => {
            assert_eq!(sel.jira_config, Some(jira_config()));
            assert_eq!(
                sel.issue,
                Issue::Jira { key: String::from("REL-2"), summary: String::from("Ship it") }
            );
        }
        State::Initial(_) => panic!("an issue was selected"),
    }
}

#[test]
fn transition_needs_selected_issue() {
    let state = State::new(Some(jira_config()), None);

    assert_eq!(transition_selected_issue(&state).unwrap_err(), StepError::NoIssueSelected);
}

#[test]
fn transition_github_issue_fails() {
    let issue = Issue::GitHub { number: 42, title: String::from("A bug") };
    let state = selected_state(issue, Some(jira_config()));

    assert_eq!(
        transition_selected_issue(&state).unwrap_err(),
        StepError::GitHubTransitionUnsupported
    );
}

#[test]
fn transition_jira_issue_hands_out_the_key() {
    let issue = Issue::Jira { key: String::from("REL-3"), summary: String::from("Docs") };
    let state = selected_state(issue, Some(jira_config()));

    let (config, key) = transition_selected_issue(&state).unwrap();
    assert_eq!(config, &jira_config());
    assert_eq!(key, "REL-3");
}

#[test]
fn get_version_probes_in_priority_order() {
    let all = Manifests {
        cargo: Some(String::from("1.0.0")),
        pyproject: Some(String::from("2.0.0")),
        package_json: Some(String::from("3.0.0")),
    };
    let found = get_version(&all).unwrap();
    assert_eq!(found.package_manager, PackageManager::Cargo);
    assert_eq!(found.version, Version::new(1, 0, 0));

    let python_first = Manifests {
        cargo: None,
        pyproject: Some(String::from("2.0.0")),
        package_json: Some(String::from("3.0.0")),
    };
    let found = get_version(&python_first).unwrap();
    assert_eq!(found.package_manager, PackageManager::Poetry);

    let javascript_only =
        Manifests { cargo: None, pyproject: None, package_json: Some(String::from("3.0.0")) };
    let found = get_version(&javascript_only).unwrap();
    assert_eq!(found.package_manager, PackageManager::JavaScript);

    let none = Manifests { cargo: None, pyproject: None, package_json: None };
    assert_eq!(get_version(&none).unwrap_err(), StepError::NoManifestFound);
}

#[test]
fn get_version_rejects_invalid_version_strings() {
    let bad = Manifests { cargo: Some(String::from("not a version")), pyproject: None, package_json: None };
    let err = get_version(&bad).unwrap_err();
    assert_eq!(
        err,
        StepError::InvalidVersion {
            found: String::from("not a version"),
            manifest: PackageManager::Cargo
        }
    );
    assert_eq!(
        err.message(),
        "Found not a version in Cargo.toml which is not a valid version"
    );
}

#[test]
fn bump_step_records_the_release() {
    let manifests =
        Manifests { cargo: Some(String::from("1.2.3")), pyproject: None, package_json: None };
    let state = State::new(None, None);

    let state = bump_version_and_update_state(state, &manifests, Rule::Minor).unwrap();
    match state {
        State::Initial(Initial { release: Release::Bumped(version), .. }) => {
            assert_eq!(version, Version::new(1, 3, 0));
        }
        _ => panic!("the release must be recorded as bumped"),
    }
}

#[test]
fn issue_display_shows_identifier_and_title() {
    let jira = Issue::Jira { key: String::from("REL-9"), summary: String::from("Fix it") };
    assert_eq!(jira.display(), "REL-9: Fix it");

    let github = Issue::GitHub { number: -3, title: String::from("Odd") };
    assert_eq!(github.display(), "-3: Odd");
}

#[test]
fn branch_names_are_stable_slugs() {
    let jira = Issue::Jira { key: String::from("REL-9"), summary: String::from("Fix The Bug") };
    assert_eq!(
        release_flow::git::branch_name_from_issue(&jira),
        "REL-9-fix-the-bug"
    );

    let github = Issue::GitHub { number: 13, title: String::from("1234") };
    assert_eq!(release_flow::git::branch_name_from_issue(&github), "13-1234");
}
