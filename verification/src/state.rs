//! The workflow state threaded through every step: whether an issue has been
//! selected, the tracker configuration carried along, and whether the release
//! version has been bumped in this run.

use vstd::prelude::*;

use crate::issues::Issue;
use crate::semver::Version;

verus! {

/// Configuration for a Jira tracker.
#[derive(Debug, PartialEq, Eq)]
pub struct JiraConfig {
    pub url: String,
    pub project: String,
}

/// Configuration for a GitHub tracker.
#[derive(Debug, PartialEq, Eq)]
pub struct GitHubConfig {
    pub owner: String,
    pub repo: String,
}

/// Session data for the GitHub tracker, refreshed when issues are listed.
#[derive(Debug, PartialEq, Eq)]
pub enum GitHub {
    New,
    Initialized { token: String },
}

/// Whether the version-bump step has already run in this workflow
/// invocation. It only ever moves forward, from `Initial` to `Bumped`.
#[derive(Debug, PartialEq, Eq)]
pub enum Release {
    Initial,
    Bumped(Version),
}

/// The data available before an issue has been selected.
#[derive(Debug, PartialEq, Eq)]
pub struct Initial {
    pub jira_config: Option<JiraConfig>,
    pub github_state: GitHub,
    pub github_config: Option<GitHubConfig>,
    pub release: Release,
}

/// The data available once an issue has been selected.
#[derive(Debug, PartialEq, Eq)]
pub struct IssueSelected {
    pub jira_config: Option<JiraConfig>,
    pub github_state: GitHub,
    pub github_config: Option<GitHubConfig>,
    pub issue: Issue,
    pub release: Release,
}

/// The workflow state: a variant per phase, so that steps needing a selected
/// issue are unrepresentable before one exists.
#[derive(Debug, PartialEq, Eq)]
pub enum State {
    Initial(Initial),
    IssueSelected(IssueSelected),
}

/// The release progress recorded in a state, whatever its phase.
pub open spec fn release_of(s: State) -> Release {
    match s {
        State::Initial(parts) => parts.release,
        State::IssueSelected(parts) => parts.release,
    }
}

/// Do two states agree on everything except the release sub-field?
pub open spec fn same_but_release(a: State, b: State) -> bool {
    match (a, b) {
        (State::Initial(x), State::Initial(y)) => {
            &&& x.jira_config == y.jira_config
            &&& x.github_state == y.github_state
            &&& x.github_config == y.github_config
        },
        (State::IssueSelected(x), State::IssueSelected(y)) => {
            &&& x.jira_config == y.jira_config
            &&& x.github_state == y.github_state
            &&& x.github_config == y.github_config
            &&& x.issue == y.issue
        },
        _ => false,
    }
}

impl State {
    /// A fresh workflow state: no issue selected, no version bumped.
    pub fn new(jira_config: Option<JiraConfig>, github_config: Option<GitHubConfig>) -> (s: State)
        ensures
            s == (State::Initial(
                Initial {
                    jira_config,
                    github_state: GitHub::New,
                    github_config,
                    release: Release::Initial,
                },
            )),
    {
        State::Initial(
            Initial { jira_config, github_state: GitHub::New, github_config, release: Release::Initial },
        )
    }
}

} // verus!
