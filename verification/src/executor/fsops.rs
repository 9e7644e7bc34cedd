//! MKD, RMD, DELE, RNFR and RNTO: changing the filesystem's shape. The
//! caller performs the change; the executors decide the target, the
//! reply and the staged rename state.
use vstd::prelude::*;
use vstd::string::StringExecFns;

use crate::errors::ExecutionError;
use crate::executor::{result_matches, ExecutionResult, SpecOutcome};
use crate::paths::{join_path, spec_join};
use crate::sessionstate::{SessionState, StateModel};
use crate::verb::Verb;

verus! {

/// The path these verbs work on: the argument under the working
/// directory.
pub fn fsop_target(state: &SessionState, argument: &str) -> (r: String)
    requires
        state.wf(),
        argument.is_ascii(),
    ensures
        r@ == spec_join(state@.name_prefix, argument@),
{
    join_path(state.name_prefix.as_str(), argument)
}

/// What MKD answers, given whether the directory was created: the quoted
/// target on success.
pub open spec fn spec_mkd(m: StateModel, arg: Seq<char>, created: bool) -> SpecOutcome {
    if created {
        SpecOutcome {
            status: 257,
            message: "\""@ + spec_join(m.name_prefix, arg) + "\" created."@,
            new_state: None,
        }
    } else {
        SpecOutcome { status: 550, message: "Failed to create directory."@, new_state: None }
    }
}

/// MKD reports on the directory the caller tried to create.
pub fn mkd_command_executor(state: &SessionState, argument: &str, created: bool) -> (r: Result<
    ExecutionResult,
    ExecutionError,
>)
    requires
        state.wf(),
        argument.is_ascii(),
    ensures
        r matches Ok(res) && result_matches(res, spec_mkd(state@, argument@, created)),
{
    if created {
        let target = fsop_target(state, argument);
        let message = "\"".to_owned().concat(target.as_str()).concat("\" created.");
        Ok(ExecutionResult { status: 257, message, new_state: None })
    } else {
        Ok(
            ExecutionResult {
                status: 550,
                message: "Failed to create directory.".to_owned(),
                new_state: None,
            },
        )
    }
}

/// What RMD answers, given whether the directory went away.
pub open spec fn spec_rmd(removed: bool) -> SpecOutcome {
    if removed {
        SpecOutcome { status: 250, message: "Okay."@, new_state: None }
    } else {
        SpecOutcome { status: 550, message: "Failed to remove directory."@, new_state: None }
    }
}

/// RMD reports on the directory the caller tried to remove.
pub fn rmd_command_executor(_state: &SessionState, _argument: &str, removed: bool) -> (r: Result<
    ExecutionResult,
    ExecutionError,
>)
    ensures
        r matches Ok(res) && result_matches(res, spec_rmd(removed)),
{
    if removed {
        Ok(ExecutionResult { status: 250, message: "Okay.".to_owned(), new_state: None })
    } else {
        Ok(
            ExecutionResult {
                status: 550,
                message: "Failed to remove directory.".to_owned(),
                new_state: None,
            },
        )
    }
}

/// What DELE answers, given whether the file went away.
pub open spec fn spec_dele(removed: bool) -> SpecOutcome {
    if removed {
        SpecOutcome { status: 250, message: "Okay."@, new_state: None }
    } else {
        SpecOutcome { status: 550, message: "Failed to delete file."@, new_state: None }
    }
}

/// DELE reports on the file the caller tried to delete.
pub fn dele_command_executor(_state: &SessionState, _argument: &str, removed: bool) -> (r: Result<
    ExecutionResult,
    ExecutionError,
>)
    ensures
        r matches Ok(res) && result_matches(res, spec_dele(removed)),
{
    if removed {
        Ok(ExecutionResult { status: 250, message: "Okay.".to_owned(), new_state: None })
    } else {
        Ok(
            ExecutionResult {
                status: 550,
                message: "Failed to delete file.".to_owned(),
                new_state: None,
            },
        )
    }
}

/// What RNFR answers, given whether the probed source exists: the staged
/// source path on success.
pub open spec fn spec_rnfr(m: StateModel, arg: Seq<char>, source_exists: bool) -> SpecOutcome {
    if source_exists {
        SpecOutcome {
            status: 350,
            message: "Ready for destination name."@,
            new_state: Some(StateModel { rename_from: Some(spec_join(m.name_prefix, arg)), ..m }),
        }
    } else {
        SpecOutcome { status: 550, message: "File not found."@, new_state: None }
    }
}

/// RNFR stages the source of a rename; the caller has probed whether it
/// exists.
pub fn rnfr_command_executor(state: &SessionState, argument: &str, source_exists: bool) -> (r:
    Result<ExecutionResult, ExecutionError>)
    requires
        state.wf(),
        argument.is_ascii(),
    ensures
        r matches Ok(res) && result_matches(res, spec_rnfr(state@, argument@, source_exists)),
{
    if source_exists {
        let mut new_state = state.clone();
        new_state.rename_from = Some(fsop_target(state, argument));
        Ok(
            ExecutionResult {
                status: 350,
                message: "Ready for destination name.".to_owned(),
                new_state: Some(new_state),
            },
        )
    } else {
        Ok(
            ExecutionResult { status: 550, message: "File not found.".to_owned(), new_state: None },
        )
    }
}

/// RNTO can act only straight after RNFR staged a source.
pub open spec fn rnto_ready(m: StateModel) -> bool {
    m.previous_command == Some(Verb::RNFR) && m.rename_from is Some
}

/// What RNTO answers, given whether the rename the caller committed went
/// through; either way the staged source is consumed.
pub open spec fn spec_rnto(m: StateModel, renamed: Option<bool>) -> SpecOutcome {
    if !rnto_ready(m) {
        SpecOutcome { status: 503, message: "Previous command must be RNFR."@, new_state: None }
    } else if renamed == Some(true) {
        SpecOutcome {
            status: 250,
            message: "Okay."@,
            new_state: Some(StateModel { rename_from: None, ..m }),
        }
    } else {
        SpecOutcome {
            status: 550,
            message: "Rename failed."@,
            new_state: Some(StateModel { rename_from: None, ..m }),
        }
    }
}

/// RNTO commits the staged rename, whose outcome the caller hands in;
/// out of order it refuses, and either attempt consumes the staged
/// source.
pub fn rnto_command_executor(state: &SessionState, _argument: &str, renamed: Option<bool>) -> (r:
    Result<ExecutionResult, ExecutionError>)
    ensures
        r matches Ok(res) && result_matches(res, spec_rnto(state@, renamed)),
{
    let ready = matches!(state.previous_command, Some(Verb::RNFR)) && !matches!(
        state.rename_from,
        None,
    );
    if !ready {
        return Ok(
            ExecutionResult {
                status: 503,
                message: "Previous command must be RNFR.".to_owned(),
                new_state: None,
            },
        );
    }
    let mut new_state = state.clone();
    new_state.rename_from = None;
    if matches!(renamed, Some(true)) {
        Ok(
            ExecutionResult {
                status: 250,
                message: "Okay.".to_owned(),
                new_state: Some(new_state),
            },
        )
    } else {
        Ok(
            ExecutionResult {
                status: 550,
                message: "Rename failed.".to_owned(),
                new_state: Some(new_state),
            },
        )
    }
}

} // verus!
