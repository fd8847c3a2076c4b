//! The failure taxonomy shared by every workflow step: usage errors from
//! running a step in the wrong state, discovery errors from version probing,
//! rule-application errors from the bump algorithm, and command failures.

use vstd::prelude::*;
use vstd::string::*;

verus! {

/// The manifest ecosystem a discovered version came from, in probe order.
#[derive(Clone, Copy, Debug, PartialEq, Eq, Structural)]
pub enum PackageManager {
    Cargo,
    Poetry,
    JavaScript,
}

/// A step failure. Every error aborts the running workflow.
#[derive(Debug, PartialEq, Eq)]
pub enum StepError {
    /// An issue was already selected when a select step ran.
    IssueAlreadySelected,
    /// A step needing a selected issue ran from the initial state.
    NoIssueSelected,
    /// A status transition was requested for an issue tracker that has none.
    GitHubTransitionUnsupported,
    /// A Jira operation ran without Jira configuration.
    JiraNotConfigured,
    /// No supported manifest was found to read a version from.
    NoManifestFound,
    /// A manifest held a string that is not a valid semantic version.
    InvalidVersion { found: String, manifest: PackageManager },
    /// The existing prerelease is not of the `label.N` shape.
    PrereleaseNotIncrementable,
    /// The existing prerelease counter is not an unsigned number in range.
    InvalidPrereleaseSuffix,
    /// The requested prerelease label does not form a valid prerelease.
    InvalidPrereleaseLabel { label: String },
    /// A numeric version component cannot be incremented any further.
    VersionComponentOverflow,
    /// The templated command exited with a non-zero status.
    CommandError { code: Option<i32> },
    /// The templated command could not be handed to the shell at all.
    CommandSpawnFailed { message: String },
}

/// The mathematical shape of a [`StepError`], with strings as sequences.
#[verifier::ext_equal]
pub enum ErrorView {
    IssueAlreadySelected,
    NoIssueSelected,
    GitHubTransitionUnsupported,
    JiraNotConfigured,
    NoManifestFound,
    InvalidVersion { found: Seq<char>, manifest: PackageManager },
    PrereleaseNotIncrementable,
    InvalidPrereleaseSuffix,
    InvalidPrereleaseLabel { label: Seq<char> },
    VersionComponentOverflow,
    CommandError { code: Option<i32> },
    CommandSpawnFailed { message: Seq<char> },
}

impl View for StepError {
    type V = ErrorView;

    open spec fn view(&self) -> ErrorView {
        match self {
            StepError::IssueAlreadySelected => ErrorView::IssueAlreadySelected,
            StepError::NoIssueSelected => ErrorView::NoIssueSelected,
            StepError::GitHubTransitionUnsupported => ErrorView::GitHubTransitionUnsupported,
            StepError::JiraNotConfigured => ErrorView::JiraNotConfigured,
            StepError::NoManifestFound => ErrorView::NoManifestFound,
            StepError::InvalidVersion { found, manifest } => ErrorView::InvalidVersion {
                found: found@,
                manifest: *manifest,
            },
            StepError::PrereleaseNotIncrementable => ErrorView::PrereleaseNotIncrementable,
            StepError::InvalidPrereleaseSuffix => ErrorView::InvalidPrereleaseSuffix,
            StepError::InvalidPrereleaseLabel { label } => ErrorView::InvalidPrereleaseLabel {
                label: label@,
            },
            StepError::VersionComponentOverflow => ErrorView::VersionComponentOverflow,
            StepError::CommandError { code } => ErrorView::CommandError { code: *code },
            StepError::CommandSpawnFailed { message } => ErrorView::CommandSpawnFailed {
                message: message@,
            },
        }
    }
}

/// The name of the manifest file each ecosystem is probed through.
pub open spec fn manifest_file_chars(m: PackageManager) -> Seq<char> {
    match m {
        PackageManager::Cargo => "Cargo.toml"@,
        PackageManager::Poetry => "pyproject.toml"@,
        PackageManager::JavaScript => "package.json"@,
    }
}

impl PackageManager {
    /// The manifest file this ecosystem reads its version from.
    pub fn manifest_file(&self) -> (r: &'static str)
        ensures
            r@ == manifest_file_chars(*self),
    {
        match self {
            PackageManager::Cargo => "Cargo.toml",
            PackageManager::Poetry => "pyproject.toml",
            PackageManager::JavaScript => "package.json",
        }
    }
}

/// The text a [`StepError`] shows the user.
pub open spec fn error_message_chars(e: ErrorView) -> Seq<char> {
    match e {
        ErrorView::IssueAlreadySelected => "You've already selected an issue!"@,
        ErrorView::NoIssueSelected => "No issue selected, try running a SelectIssue step before this one"@,
        ErrorView::GitHubTransitionUnsupported => "Transitioning GitHub issues is not supported"@,
        ErrorView::JiraNotConfigured => "Jira is not configured"@,
        ErrorView::NoManifestFound => "No supported metadata found to parse version from"@,
        ErrorView::InvalidVersion { found, manifest } => "Found "@ + found + " in "@
            + manifest_file_chars(manifest) + " which is not a valid version"@,
        ErrorView::PrereleaseNotIncrementable => "A prerelease version already exists but could not be incremented"@,
        ErrorView::InvalidPrereleaseSuffix => "The existing prerelease suffix is not an unsigned number"@,
        ErrorView::InvalidPrereleaseLabel { label } => "The label "@ + label
            + " does not form a valid prerelease"@,
        ErrorView::VersionComponentOverflow => "A version component is too large to increment"@,
        ErrorView::CommandError { code } => "The command returned a non-zero exit status"@,
        ErrorView::CommandSpawnFailed { message } => "The command could not be run: "@ + message,
    }
}

impl StepError {
    /// Render this failure for the user.
    pub fn message(&self) -> (r: String)
        ensures
            r@ == error_message_chars(self@),
    {
        match self {
            StepError::IssueAlreadySelected => String::from_str(
                "You've already selected an issue!",
            ),
            StepError::NoIssueSelected => String::from_str(
                "No issue selected, try running a SelectIssue step before this one",
            ),
            StepError::GitHubTransitionUnsupported => String::from_str(
                "Transitioning GitHub issues is not supported",
            ),
            StepError::JiraNotConfigured => String::from_str("Jira is not configured"),
            StepError::NoManifestFound => String::from_str(
                "No supported metadata found to parse version from",
            ),
            StepError::InvalidVersion { found, manifest } => {
                let mut r = String::from_str("Found ");
                r.append(found.as_str());
                r.append(" in ");
                r.append(manifest.manifest_file());
                r.append(" which is not a valid version");
                r
            },
            StepError::PrereleaseNotIncrementable => String::from_str(
                "A prerelease version already exists but could not be incremented",
            ),
            StepError::InvalidPrereleaseSuffix => String::from_str(
                "The existing prerelease suffix is not an unsigned number",
            ),
            StepError::InvalidPrereleaseLabel { label } => {
                let mut r = String::from_str("The label ");
                r.append(label.as_str());
                r.append(" does not form a valid prerelease");
                r
            },
            StepError::VersionComponentOverflow => String::from_str(
                "A version component is too large to increment",
            ),
            StepError::CommandError { code } => String::from_str(
                "The command returned a non-zero exit status",
            ),
            StepError::CommandSpawnFailed { message } => {
                let mut r = String::from_str("The command could not be run: ");
                r.append(message.as_str());
                r
            },
        }
    }
}

} // verus!
