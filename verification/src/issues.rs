//! Issue records and the state transitions around them: selecting an issue
//! (valid only once per run) and requesting a tracker status transition
//! (defined only for the Jira variant).
//!
//! The tracker calls themselves are outside collaborators: the functions
//! here decide whether a step may run and what state it yields, and hand the
//! caller exactly what the external call needs.

use vstd::prelude::*;

use crate::error::StepError;
use crate::state::{Initial, IssueSelected, JiraConfig, State};
use crate::text::{chars_vec, int_rep, push_all, push_i64, string_from_chars};

verus! {

/// An issue record from one of the supported trackers.
#[derive(Debug, PartialEq, Eq)]
pub enum Issue {
    Jira { key: String, summary: String },
    GitHub { number: i64, title: String },
}

/// The text an issue is shown as: its identifier, a colon, and its title.
pub open spec fn issue_display_chars(issue: Issue) -> Seq<char> {
    match issue {
        Issue::Jira { key, summary } => key@ + seq![':', ' '] + summary@,
        Issue::GitHub { number, title } => int_rep(number as int) + seq![':', ' '] + title@,
    }
}

impl Issue {
    /// Render this issue for display.
    pub fn display(&self) -> (r: String)
        ensures
            r@ == issue_display_chars(*self),
    {
        let mut out: Vec<char> = Vec::new();
        match self {
            Issue::Jira { key, summary } => {
                let kv = chars_vec(key.as_str());
                push_all(&mut out, &kv);
                out.push(':');
                out.push(' ');
                let sv = chars_vec(summary.as_str());
                push_all(&mut out, &sv);
            },
            Issue::GitHub { number, title } => {
                push_i64(&mut out, *number);
                out.push(':');
                out.push(' ');
                let tv = chars_vec(title.as_str());
                push_all(&mut out, &tv);
            },
        }
        proof {
            assert(out@ =~= issue_display_chars(*self));
        }
        string_from_chars(&out)
    }
}

/// Begin selecting a Jira issue: valid only before any issue is selected and
/// only with Jira configured. On success the caller lists candidate issues
/// with the configuration carried in the returned parts, prompts for one,
/// and finishes with [`issue_selected`].
pub fn select_jira_issue(state: State) -> (r: Result<Initial, StepError>)
    ensures
        state matches State::IssueSelected(_) ==> r == Err::<Initial, StepError>(
            StepError::IssueAlreadySelected,
        ),
        state matches State::Initial(parts) ==> match parts.jira_config {
            None => r == Err::<Initial, StepError>(StepError::JiraNotConfigured),
            Some(_) => r == Ok::<Initial, StepError>(parts),
        },
{
    match state {
        State::IssueSelected(_) => Err(StepError::IssueAlreadySelected),
        State::Initial(parts) => match &parts.jira_config {
            None => Err(StepError::JiraNotConfigured),
            Some(_) => Ok(parts),
        },
    }
}

/// Begin selecting a GitHub issue: valid only before any issue is selected.
/// On success the caller lists candidate issues, prompts for one, updates
/// the tracker session data on the parts, and finishes with
/// [`issue_selected`].
pub fn select_github_issue(state: State) -> (r: Result<Initial, StepError>)
    ensures
        state matches State::IssueSelected(_) ==> r == Err::<Initial, StepError>(
            StepError::IssueAlreadySelected,
        ),
        state matches State::Initial(parts) ==> r == Ok::<Initial, StepError>(parts),
{
    match state {
        State::IssueSelected(_) => Err(StepError::IssueAlreadySelected),
        State::Initial(parts) => Ok(parts),
    }
}

/// Finish a selection: carry every field over and record the chosen issue.
pub fn issue_selected(parts: Initial, issue: Issue) -> (s: State)
    ensures
        s == (State::IssueSelected(
            IssueSelected {
                jira_config: parts.jira_config,
                github_state: parts.github_state,
                github_config: parts.github_config,
                issue,
                release: parts.release,
            },
        )),
{
    State::IssueSelected(
        IssueSelected {
            jira_config: parts.jira_config,
            github_state: parts.github_state,
            github_config: parts.github_config,
            issue,
            release: parts.release,
        },
    )
}

/// Decide a status transition for the selected issue: it fails before an
/// issue is selected, always fails for a GitHub issue whatever the requested
/// status, and for a Jira issue with configuration hands back what the
/// tracker call needs. The state itself is untouched: on external success
/// the workflow continues with the same state.
pub fn transition_selected_issue<'a>(state: &'a State) -> (r: Result<
    (&'a JiraConfig, &'a String),
    StepError,
>)
    ensures
        match state {
            State::Initial(_) => r matches Err(e) && e == StepError::NoIssueSelected,
            State::IssueSelected(sel) => match sel.issue {
                Issue::GitHub { .. } => r matches Err(e) && e
                    == StepError::GitHubTransitionUnsupported,
                Issue::Jira { key, .. } => match sel.jira_config {
                    None => r matches Err(e) && e == StepError::JiraNotConfigured,
                    Some(cfg) => r matches Ok(p) && *p.0 == cfg && *p.1 == key,
                },
            },
        },
{
    match state {
        State::Initial(_) => Err(StepError::NoIssueSelected),
        State::IssueSelected(sel) => match &sel.issue {
            Issue::GitHub { .. } => Err(StepError::GitHubTransitionUnsupported),
            Issue::Jira { key, .. } => match &sel.jira_config {
                None => Err(StepError::JiraNotConfigured),
                Some(cfg) => Ok((cfg, key)),
            },
        },
    }
}

} // verus!
