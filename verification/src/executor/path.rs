//! PWD, CWD and CDUP: reading and moving the working directory.
use vstd::prelude::*;
use vstd::string::StringExecFns;

use crate::errors::ExecutionError;
use crate::executor::{result_matches, ExecutionResult, SpecOutcome};
use crate::paths::{
    clean_abs_path, is_clean_abs_path, join_path, parent_path, replace_ascii_char, replace_char,
    spec_join, spec_parent,
};
use crate::sessionstate::{SessionState, StateModel};

verus! {

/// The reply text of PWD: the working directory in quotes, with each
/// line feed carried as a NUL.
pub open spec fn spec_pwd_message(prefix: Seq<char>) -> Seq<char> {
    "\""@ + replace_char(prefix, '\n', '\0') + "\""@
}

/// What PWD answers.
pub open spec fn spec_pwd(m: StateModel) -> SpecOutcome {
    SpecOutcome { status: 257, message: spec_pwd_message(m.name_prefix), new_state: None }
}

/// PWD prints the working directory.
pub fn pwd_command_executor(state: &SessionState, _argument: &str) -> (r: Result<
    ExecutionResult,
    ExecutionError,
>)
    requires
        state.wf(),
    ensures
        r matches Ok(res) && result_matches(res, spec_pwd(state@)),
{
    let encoded = replace_ascii_char(state.name_prefix.as_str(), 10, 0);
    let message = "\"".to_owned().concat(encoded.as_str()).concat("\"");
    Ok(ExecutionResult { status: 257, message, new_state: None })
}

/// The path CWD asks the filesystem to resolve: the argument, with each
/// NUL read back as a line feed, joined onto the working directory.
pub open spec fn spec_cwd_target(prefix: Seq<char>, arg: Seq<char>) -> Seq<char> {
    spec_join(prefix, replace_char(arg, '\0', '\n'))
}

/// The path CWD will ask the filesystem about. The argument must be
/// ASCII, as every parsed command argument is.
pub fn cwd_target(state: &SessionState, argument: &str) -> (r: String)
    requires
        state.wf(),
        argument.is_ascii(),
    ensures
        r@ == spec_cwd_target(state@.name_prefix, argument@),
{
    let decoded = replace_ascii_char(argument, 0, 10);
    proof {
        assert forall|i: int| 0 <= i < decoded@.len() implies (#[trigger] decoded@[i] as u32)
            < 128 by {
            assert((argument@[i] as u32) < 128);
        }
    }
    join_path(state.name_prefix.as_str(), decoded.as_str())
}

/// What CWD answers, given the canonical path the filesystem resolved
/// the target to, when it could.
pub open spec fn spec_cwd(m: StateModel, resolved: Option<Seq<char>>) -> SpecOutcome {
    if resolved matches Some(p) && clean_abs_path(p) {
        SpecOutcome {
            status: 250,
            message: "Okay."@,
            new_state: Some(StateModel { name_prefix: resolved->0, ..m }),
        }
    } else {
        SpecOutcome { status: 550, message: "Failed to change directory."@, new_state: None }
    }
}

/// The view of an optional resolved path.
pub open spec fn opt_view(resolved: Option<String>) -> Option<Seq<char>> {
    match resolved {
        Some(p) => Some(p@),
        None => None,
    }
}

/// CWD moves to the canonical form of the requested path, which the
/// caller resolves; resolution failure leaves the directory alone.
pub fn cwd_command_executor(state: &SessionState, _argument: &str, resolved: Option<String>) -> (r:
    Result<ExecutionResult, ExecutionError>)
    requires
        state.wf(),
    ensures
        r matches Ok(res) && result_matches(res, spec_cwd(state@, opt_view(resolved))),
{
    match resolved {
        Some(p) => {
            if is_clean_abs_path(p.as_str()) {
                let mut new_state = state.clone();
                new_state.name_prefix = p;
                Ok(
                    ExecutionResult {
                        status: 250,
                        message: "Okay.".to_owned(),
                        new_state: Some(new_state),
                    },
                )
            } else {
                Ok(
                    ExecutionResult {
                        status: 550,
                        message: "Failed to change directory.".to_owned(),
                        new_state: None,
                    },
                )
            }
        },
        None => Ok(
            ExecutionResult {
                status: 550,
                message: "Failed to change directory.".to_owned(),
                new_state: None,
            },
        ),
    }
}

/// What CDUP answers.
pub open spec fn spec_cdup(m: StateModel) -> SpecOutcome {
    SpecOutcome {
        status: 200,
        message: "Okay."@,
        new_state: Some(StateModel { name_prefix: spec_parent(m.name_prefix), ..m }),
    }
}

/// CDUP pops the last path component; the root stays the root.
pub fn cdup_command_executor(state: &SessionState, _argument: &str) -> (r: Result<
    ExecutionResult,
    ExecutionError,
>)
    requires
        state.wf(),
    ensures
        r matches Ok(res) && result_matches(res, spec_cdup(state@)),
{
    let mut new_state = state.clone();
    new_state.name_prefix = parent_path(state.name_prefix.as_str());
    Ok(ExecutionResult { status: 200, message: "Okay.".to_owned(), new_state: Some(new_state) })
}

} // verus!
