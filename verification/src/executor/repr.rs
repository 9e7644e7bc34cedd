//! TYPE, STRU and MODE: representation, structure and transfer mode.
use vstd::prelude::*;

use crate::errors::ExecutionError;
use crate::executor::{result_matches, ExecutionResult, SpecOutcome};
use crate::sessionstate::{SessionState, StateModel};
use crate::text::{str_eq, to_ascii_upper, upper_chars};

verus! {

/// The binary flag a TYPE argument asks for: image and local-8 turn it
/// on, ASCII turns it off, anything else is refused.
pub open spec fn spec_type_mode(arg: Seq<char>) -> Option<bool> {
    if !vstd::utf8::is_ascii_chars(arg) {
        None
    } else if upper_chars(arg) == "I"@ || upper_chars(arg) == "L 8"@ {
        Some(true)
    } else if upper_chars(arg) == "A"@ || upper_chars(arg) == "A N"@ {
        Some(false)
    } else {
        None
    }
}

/// What TYPE answers.
pub open spec fn spec_type(m: StateModel, arg: Seq<char>) -> SpecOutcome {
    match spec_type_mode(arg) {
        Some(flag) => SpecOutcome {
            status: 200,
            message: if flag {
                "Binary mode enabled."@
            } else {
                "Binary mode disabled."@
            },
            new_state: Some(StateModel { binary_flag: flag, ..m }),
        },
        None => SpecOutcome {
            status: 504,
            message: if arg.len() == 0 {
                "Parameter required."@
            } else {
                "Invalid parameter."@
            },
            new_state: Some(m),
        },
    }
}

/// TYPE sets or clears the binary flag, in any casing of its argument.
pub fn type_command_executor(state: &SessionState, argument: &str) -> (r: Result<
    ExecutionResult,
    ExecutionError,
>)
    ensures
        r matches Ok(res) && result_matches(res, spec_type(state@, argument@)),
{
    let mut new_state = state.clone();
    let upper = to_ascii_upper(argument);
    let (status, message): (u16, &'static str) = match upper {
        Some(up) => {
            if str_eq(up.as_str(), "I") || str_eq(up.as_str(), "L 8") {
                new_state.binary_flag = true;
                (200, "Binary mode enabled.")
            } else if str_eq(up.as_str(), "A") || str_eq(up.as_str(), "A N") {
                new_state.binary_flag = false;
                (200, "Binary mode disabled.")
            } else if argument.is_empty() {
                (504, "Parameter required.")
            } else {
                (504, "Invalid parameter.")
            }
        },
        None => {
            if argument.is_empty() {
                (504, "Parameter required.")
            } else {
                (504, "Invalid parameter.")
            }
        },
    };
    Ok(ExecutionResult { status, message: message.to_owned(), new_state: Some(new_state) })
}

/// What STRU answers: only the file structure is accepted.
pub open spec fn spec_stru(arg: Seq<char>) -> SpecOutcome {
    if arg == "F"@ || arg == "f"@ {
        SpecOutcome { status: 200, message: "Using file structure."@, new_state: None }
    } else if arg.len() == 0 {
        SpecOutcome { status: 504, message: "Parameter required."@, new_state: None }
    } else {
        SpecOutcome { status: 504, message: "Only file structure is supported."@, new_state: None }
    }
}

/// STRU accepts the file structure alone.
pub fn stru_command_executor(_state: &SessionState, argument: &str) -> (r: Result<
    ExecutionResult,
    ExecutionError,
>)
    ensures
        r matches Ok(res) && result_matches(res, spec_stru(argument@)),
{
    let (status, message): (u16, &'static str) = if str_eq(argument, "F") || str_eq(argument, "f") {
        (200, "Using file structure.")
    } else if argument.is_empty() {
        (504, "Parameter required.")
    } else {
        (504, "Only file structure is supported.")
    };
    Ok(ExecutionResult { status, message: message.to_owned(), new_state: None })
}

/// What MODE answers: only the stream mode is accepted.
pub open spec fn spec_mode(arg: Seq<char>) -> SpecOutcome {
    if arg == "S"@ || arg == "s"@ {
        SpecOutcome { status: 200, message: "Using stream mode."@, new_state: None }
    } else if arg.len() == 0 {
        SpecOutcome { status: 504, message: "Parameter required."@, new_state: None }
    } else {
        SpecOutcome { status: 504, message: "Only stream mode is supported."@, new_state: None }
    }
}

/// MODE accepts the stream mode alone.
pub fn mode_command_executor(_state: &SessionState, argument: &str) -> (r: Result<
    ExecutionResult,
    ExecutionError,
>)
    ensures
        r matches Ok(res) && result_matches(res, spec_mode(argument@)),
{
    let (status, message): (u16, &'static str) = if str_eq(argument, "S") || str_eq(argument, "s") {
        (200, "Using stream mode.")
    } else if argument.is_empty() {
        (504, "Parameter required.")
    } else {
        (504, "Only stream mode is supported.")
    };
    Ok(ExecutionResult { status, message: message.to_owned(), new_state: None })
}

} // verus!
