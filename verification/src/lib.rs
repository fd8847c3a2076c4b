//! Core of a release workflow: a state machine over issue selection and
//! version bumping, an exact semantic-version bump algorithm, and command
//! templating with workflow-derived variables.

pub mod command;
pub mod error;
pub mod git;
pub mod issues;
pub mod releases;
pub mod semver;
pub mod state;
pub mod text;
