//! RETR: sending a file's bytes down the data connection.
use vstd::prelude::*;

use crate::errors::ExecutionError;
use crate::executor::{result_matches, ExecutionResult, SpecOutcome};
use crate::paths::{join_path, spec_join};
use crate::sessionstate::{SessionState, StateModel, TransferPlan};
use crate::wire::write_all_bytes;

verus! {

/// What RETR answers, given whether the probed target exists: the plan
/// to stream that file, or a refusal.
pub open spec fn spec_retr(m: StateModel, arg: Seq<char>, target_exists: bool) -> SpecOutcome {
    if target_exists {
        SpecOutcome {
            status: 150,
            message: "Opening data connection."@,
            new_state: Some(
                StateModel {
                    data_transfer_func: Some(TransferPlan::Retrieve),
                    data_transfer_func_parameter: Some(spec_join(m.name_prefix, arg)),
                    ..m
                },
            ),
        }
    } else {
        SpecOutcome { status: 550, message: "File not found."@, new_state: None }
    }
}

/// The file RETR would stream: the argument under the working directory.
pub fn retr_target(state: &SessionState, argument: &str) -> (r: String)
    requires
        state.wf(),
        argument.is_ascii(),
    ensures
        r@ == spec_join(state@.name_prefix, argument@),
{
    join_path(state.name_prefix.as_str(), argument)
}

/// RETR plans the retrieval of an existing file; the caller has probed
/// whether the target exists.
pub fn retr_command_executor(state: &SessionState, argument: &str, target_exists: bool) -> (r:
    Result<ExecutionResult, ExecutionError>)
    requires
        state.wf(),
        argument.is_ascii(),
    ensures
        r matches Ok(res) && result_matches(res, spec_retr(state@, argument@, target_exists)),
{
    if !target_exists {
        return Ok(
            ExecutionResult { status: 550, message: "File not found.".to_owned(), new_state: None },
        );
    }
    let mut new_state = state.clone();
    new_state.data_transfer_func = Some(TransferPlan::Retrieve);
    new_state.data_transfer_func_parameter = Some(retr_target(state, argument));
    Ok(
        ExecutionResult {
            status: 150,
            message: "Opening data connection.".to_owned(),
            new_state: Some(new_state),
        },
    )
}

/// The bytes a retrieval starting at `start` sends: the file from that
/// offset on, or nothing when the offset lies past the end.
pub open spec fn spec_transfer_tail(file: Seq<u8>, start: int) -> Seq<u8> {
    if start <= file.len() {
        file.skip(start)
    } else {
        Seq::empty()
    }
}

/// The slice a retrieval sends.
pub fn transfer_tail(file: &Vec<u8>, start: usize) -> (r: &[u8])
    ensures
        r@ == spec_transfer_tail(file@, start as int),
{
    if start <= file.len() {
        let tail = file.as_slice().split_at(start);
        tail.1
    } else {
        let empty: &[u8] = &[];
        proof {
            assert(empty@ =~= Seq::<u8>::empty());
        }
        empty
    }
}

/// Streams the already-read file from the start position down the data
/// connection. The reply statuses are fixed: no connection, a file that
/// could not be read, a stream failure, or completion.
pub fn data_transfer_func<R: std::io::Read, W: std::io::Write>(
    file: Option<&Vec<u8>>,
    start_position: usize,
    _read_stream: Option<&mut R>,
    write_stream: Option<&mut W>,
) -> (r: (u16, String))
    ensures
        write_stream is None ==> r.0 == 425 && r.1@ == "No data connection was established."@,
        write_stream is Some && file is None ==> r.0 == 551 && r.1@ == "Server error."@,
        write_stream is Some && file is Some ==> (r.0 == 226 && r.1@ == "Transfer complete."@) || (
        r.0 == 426 && r.1@ == "Error while sending data."@),
{
    let stream = match write_stream {
        Some(stream) => stream,
        None => {
            return (425, "No data connection was established.".to_owned());
        },
    };
    let file = match file {
        Some(file) => file,
        None => {
            return (551, "Server error.".to_owned());
        },
    };
    match write_all_bytes(stream, transfer_tail(file, start_position)) {
        Ok(()) => (226, "Transfer complete.".to_owned()),
        Err(_) => (426, "Error while sending data.".to_owned()),
    }
}

} // verus!
