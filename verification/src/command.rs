//! Command templating and execution: declared variables are resolved against
//! the workflow state and the discovered version, substituted literally into
//! the command string, and the result is previewed in dry-run mode or handed
//! to the shell in real mode.

use vstd::prelude::*;
use vstd::string::*;

use crate::error::{ErrorView, StepError};
use crate::git::{branch_name_chars, branch_name_from_issue};
use crate::releases::{get_version, spec_get_version, Manifests, ManifestsView};
use crate::semver::version_chars;
use crate::state::State;
use crate::text::{chars_vec, replace_all, replaced, string_from_chars};

verus! {

/// A value a placeholder token in a command can be replaced with.
#[derive(Clone, Copy, Debug, PartialEq, Eq, Structural)]
pub enum Variable {
    /// The first supported version found in the project.
    Version,
    /// The branch name generated for the selected issue; the workflow must
    /// already have one selected when this variable is used.
    IssueBranch,
}

/// The execution mode threaded through a step: a dry run carries the state
/// and the preview text written so far, a real run only the state.
#[derive(Debug, PartialEq, Eq)]
pub enum RunType {
    DryRun { state: State, stdout: String },
    Real(State),
}

/// The state carried by an execution mode.
pub open spec fn state_of(rt: RunType) -> State {
    match rt {
        RunType::DryRun { state, stdout } => state,
        RunType::Real(state) => state,
    }
}

/// What replacing each declared variable in turn yields: every occurrence of
/// the placeholder is substituted with the resolved value, or the whole
/// operation fails with the resolution error.
pub open spec fn spec_replace_variables(
    cmd: Seq<char>,
    vars: Seq<(String, Variable)>,
    state: State,
    m: ManifestsView,
) -> Result<Seq<char>, ErrorView>
    decreases vars.len(),
{
    if vars.len() == 0 {
        Ok(cmd)
    } else {
        match vars[0].1 {
            Variable::Version => match spec_get_version(m) {
                Err(e) => Err(e),
                Ok(pv) => spec_replace_variables(
                    replaced(cmd, vars[0].0@, version_chars(pv.version)),
                    vars.drop_first(),
                    state,
                    m,
                ),
            },
            Variable::IssueBranch => match state {
                State::Initial(_) => Err(ErrorView::NoIssueSelected),
                State::IssueSelected(sel) => spec_replace_variables(
                    replaced(cmd, vars[0].0@, branch_name_chars(sel.issue)),
                    vars.drop_first(),
                    state,
                    m,
                ),
            },
        }
    }
}

/// Replace every declared variable in the command string, in order.
pub fn replace_variables(
    command: String,
    variables: Vec<(String, Variable)>,
    state: &State,
    manifests: &Manifests,
) -> (r: Result<String, StepError>)
    ensures
        match r {
            Ok(s) => spec_replace_variables(command@, variables@, *state, manifests@) == Ok::<
                Seq<char>,
                ErrorView,
            >(s@),
            Err(e) => spec_replace_variables(command@, variables@, *state, manifests@) == Err::<
                Seq<char>,
                ErrorView,
            >(e@),
        },
{
    let mut cmd = chars_vec(command.as_str());
    let mut i: usize = 0;
    proof {
        assert(variables@.skip(0) =~= variables@);
    }
    while i < variables.len()
        invariant
            i <= variables@.len(),
            spec_replace_variables(command@, variables@, *state, manifests@)
                == spec_replace_variables(cmd@, variables@.skip(i as int), *state, manifests@),
        decreases variables@.len() - i,
    {
        let ghost vars_rest = variables@.skip(i as int);
        proof {
            assert(vars_rest[0] == variables@[i as int]);
            assert(vars_rest.drop_first() =~= variables@.skip(i + 1));
        }
        let pair = &variables[i];
        let namev = chars_vec(pair.0.as_str());
        match pair.1 {
            Variable::Version => {
                match get_version(manifests) {
                    Err(e) => {
                        return Err(e);
                    },
                    Ok(pv) => {
                        let value = pv.version.render();
                        let valuev = chars_vec(value.as_str());
                        cmd = replace_all(&cmd, &namev, &valuev);
                    },
                }
            },
            Variable::IssueBranch => {
                match state {
                    State::Initial(_) => {
                        return Err(StepError::NoIssueSelected);
                    },
                    State::IssueSelected(sel) => {
                        let branch = branch_name_from_issue(&sel.issue);
                        let branchv = chars_vec(branch.as_str());
                        cmd = replace_all(&cmd, &namev, &branchv);
                    },
                }
            },
        }
        i += 1;
    }
    proof {
        assert(variables@.skip(i as int) =~= Seq::<(String, Variable)>::empty());
    }
    Ok(string_from_chars(&cmd))
}

/// What a command templates to under an optional variable table.
pub open spec fn spec_substituted(
    cmd: Seq<char>,
    variables: Option<Vec<(String, Variable)>>,
    state: State,
    m: ManifestsView,
) -> Result<Seq<char>, ErrorView> {
    match variables {
        None => Ok(cmd),
        Some(vars) => spec_replace_variables(cmd, vars@, state, m),
    }
}

/// Relies on `execute::shell` and std's `process::Command::status`: the
/// command line runs through the system shell, and the call reports whether
/// it exited successfully together with its exit code, or the error text
/// when it could not be started. Success is defined as a zero exit status,
/// so it holds exactly when the exit code is zero.
#[verifier::external_body]
fn shell_status(command: &str) -> (r: Result<(bool, Option<i32>), StepError>)
    ensures
        r matches Ok(p) ==> (p.0 <==> p.1 == Some(0i32)),
        r matches Err(e) ==> e matches StepError::CommandSpawnFailed { .. },
{
    match execute::shell(command).status() {
        Ok(status) => Ok((status.success(), status.code())),
        Err(e) => Err(StepError::CommandSpawnFailed { message: e.to_string() }),
    }
}

/// Run `command` after substituting the declared variables. A dry run never
/// hands anything to the shell: it records the substituted command in its
/// preview text and returns the state unchanged. A real run returns the
/// state unchanged on a zero exit status and the command failure otherwise.
pub fn run_command(
    run_type: RunType,
    command: String,
    variables: Option<Vec<(String, Variable)>>,
    manifests: &Manifests,
) -> (r: Result<RunType, StepError>)
    ensures
        spec_substituted(command@, variables, state_of(run_type), manifests@) matches Err(ev)
            ==> r matches Err(e) && e@ == ev,
        match run_type {
            RunType::DryRun { state, stdout } => spec_substituted(
                command@,
                variables,
                state,
                manifests@,
            ) matches Ok(cmd2) ==> r matches Ok(rt2) && rt2 matches RunType::DryRun {
                state: s2,
                stdout: o2,
            } && s2 == state && o2@ == stdout@ + "Would run "@ + cmd2 + "\n"@,
            RunType::Real(_) => true,
        },
        match run_type {
            RunType::Real(state) => spec_substituted(command@, variables, state, manifests@)
                is Ok ==> match r {
                Ok(rt2) => rt2 == RunType::Real(state),
                Err(e) => e@ matches ErrorView::CommandError { code } && code != Some(0i32) || e@
                    matches ErrorView::CommandSpawnFailed { .. },
            },
            RunType::DryRun { .. } => true,
        },
{
    match run_type {
        RunType::DryRun { state, stdout } => {
            let cmd2 = match variables {
                None => command,
                Some(vars) => match replace_variables(command, vars, &state, manifests) {
                    Ok(c) => c,
                    Err(e) => {
                        return Err(e);
                    },
                },
            };
            let mut out = stdout;
            out.append("Would run ");
            out.append(cmd2.as_str());
            out.append("\n");
            Ok(RunType::DryRun { state, stdout: out })
        },
        RunType::Real(state) => {
            let cmd2 = match variables {
                None => command,
                Some(vars) => match replace_variables(command, vars, &state, manifests) {
                    Ok(c) => c,
                    Err(e) => {
                        return Err(e);
                    },
                },
            };
            match shell_status(cmd2.as_str()) {
                Err(e) => Err(e),
                Ok((success, code)) => {
                    if success {
                        Ok(RunType::Real(state))
                    } else {
                        Err(StepError::CommandError { code })
                    }
                },
            }
        },
    }
}

} // verus!
