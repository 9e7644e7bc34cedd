//! The verbs that answer from nothing but their fixed texts.
use vstd::prelude::*;

use crate::errors::ExecutionError;
use crate::executor::{result_matches, ExecutionResult, SpecOutcome};
use crate::sessionstate::SessionState;

verus! {

/// What SYST answers.
pub open spec fn spec_syst() -> SpecOutcome {
    SpecOutcome { status: 215, message: "UNIX Type: L8"@, new_state: None }
}

/// SYST names the system type.
pub fn syst_command_executor(_state: &SessionState, _argument: &str) -> (r: Result<
    ExecutionResult,
    ExecutionError,
>)
    ensures
        r matches Ok(res) && result_matches(res, spec_syst()),
{
    Ok(ExecutionResult { status: 215, message: "UNIX Type: L8".to_owned(), new_state: None })
}

/// What STAT answers.
pub open spec fn spec_stat() -> SpecOutcome {
    SpecOutcome { status: 502, message: "Not implemented."@, new_state: None }
}

/// STAT is not offered.
pub fn stat_command_executor(_state: &SessionState, _argument: &str) -> (r: Result<
    ExecutionResult,
    ExecutionError,
>)
    ensures
        r matches Ok(res) && result_matches(res, spec_stat()),
{
    Ok(ExecutionResult { status: 502, message: "Not implemented.".to_owned(), new_state: None })
}

/// What HELP answers: the banner on an empty argument, a refusal on
/// anything else.
pub open spec fn spec_help(arg: Seq<char>) -> SpecOutcome {
    if arg.len() == 0 {
        SpecOutcome {
            status: 211,
            message: "FeTP rust ftp server.\nhttps://github.com/larssonoliver/fetp"@,
            new_state: None,
        }
    } else {
        SpecOutcome { status: 504, message: "Not implemented for this parameter."@, new_state: None }
    }
}

/// HELP prints the banner; asking about one command is not offered.
pub fn help_command_executor(_state: &SessionState, argument: &str) -> (r: Result<
    ExecutionResult,
    ExecutionError,
>)
    ensures
        r matches Ok(res) && result_matches(res, spec_help(argument@)),
{
    if argument.is_empty() {
        Ok(
            ExecutionResult {
                status: 211,
                message: "FeTP rust ftp server.\nhttps://github.com/larssonoliver/fetp".to_owned(),
                new_state: None,
            },
        )
    } else {
        Ok(
            ExecutionResult {
                status: 504,
                message: "Not implemented for this parameter.".to_owned(),
                new_state: None,
            },
        )
    }
}

/// What NOOP answers.
pub open spec fn spec_noop() -> SpecOutcome {
    SpecOutcome { status: 200, message: "NOOP"@, new_state: None }
}

/// NOOP does nothing, successfully.
pub fn noop_command_executor(_state: &SessionState, _argument: &str) -> (r: Result<
    ExecutionResult,
    ExecutionError,
>)
    ensures
        r matches Ok(res) && result_matches(res, spec_noop()),
{
    Ok(ExecutionResult { status: 200, message: "NOOP".to_owned(), new_state: None })
}

/// What QUIT answers.
pub open spec fn spec_quit() -> SpecOutcome {
    SpecOutcome { status: 221, message: "Bye."@, new_state: None }
}

/// QUIT says goodbye; the engine ends the session on seeing the verb.
pub fn quit_command_executor(_state: &SessionState, _argument: &str) -> (r: Result<
    ExecutionResult,
    ExecutionError,
>)
    ensures
        r matches Ok(res) && result_matches(res, spec_quit()),
{
    Ok(ExecutionResult { status: 221, message: "Bye.".to_owned(), new_state: None })
}

/// What ALLO answers.
pub open spec fn spec_allo() -> SpecOutcome {
    SpecOutcome {
        status: 202,
        message: "Command not implemented, superfluous at this site."@,
        new_state: None,
    }
}

/// ALLO needs no allocation here.
pub fn allo_command_executor(_state: &SessionState, _argument: &str) -> (r: Result<
    ExecutionResult,
    ExecutionError,
>)
    ensures
        r matches Ok(res) && result_matches(res, spec_allo()),
{
    Ok(
        ExecutionResult {
            status: 202,
            message: "Command not implemented, superfluous at this site.".to_owned(),
            new_state: None,
        },
    )
}

} // verus!
