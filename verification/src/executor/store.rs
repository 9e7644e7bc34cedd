//! STOR, APPE and STOU: receiving bytes from the data connection into a
//! file.
use vstd::prelude::*;
use vstd::string::StringExecFns;

use crate::errors::ExecutionError;
use crate::executor::{result_matches, ExecutionResult, SpecOutcome};
use crate::paths::{join_path, spec_join};
use crate::sessionstate::{SessionState, StateModel, StoreMode, TransferPlan};

verus! {

/// What a store verb answers: the plan to receive into the argument
/// under the working directory, in the verb's mode.
pub open spec fn spec_store(m: StateModel, arg: Seq<char>, mode: StoreMode) -> SpecOutcome {
    SpecOutcome {
        status: 150,
        message: "Opening data connection."@,
        new_state: Some(
            StateModel {
                data_transfer_func: Some(TransferPlan::Store(mode)),
                data_transfer_func_parameter: Some(spec_join(m.name_prefix, arg)),
                ..m
            },
        ),
    }
}

/// Plans a store in the given mode.
fn store_plan(state: &SessionState, argument: &str, mode: StoreMode) -> (r: Result<
    ExecutionResult,
    ExecutionError,
>)
    requires
        state.wf(),
        argument.is_ascii(),
    ensures
        r matches Ok(res) && result_matches(res, spec_store(state@, argument@, mode)),
{
    let mut new_state = state.clone();
    new_state.data_transfer_func = Some(TransferPlan::Store(mode));
    new_state.data_transfer_func_parameter = Some(
        join_path(state.name_prefix.as_str(), argument),
    );
    Ok(
        ExecutionResult {
            status: 150,
            message: "Opening data connection.".to_owned(),
            new_state: Some(new_state),
        },
    )
}

/// STOR plans to receive into the target, truncating what is there.
pub fn stor_command_executor(state: &SessionState, argument: &str) -> (r: Result<
    ExecutionResult,
    ExecutionError,
>)
    requires
        state.wf(),
        argument.is_ascii(),
    ensures
        r matches Ok(res) && result_matches(res, spec_store(state@, argument@, StoreMode::Truncate)),
{
    store_plan(state, argument, StoreMode::Truncate)
}

/// APPE plans to receive onto the target's end.
pub fn appe_command_executor(state: &SessionState, argument: &str) -> (r: Result<
    ExecutionResult,
    ExecutionError,
>)
    requires
        state.wf(),
        argument.is_ascii(),
    ensures
        r matches Ok(res) && result_matches(res, spec_store(state@, argument@, StoreMode::Append)),
{
    store_plan(state, argument, StoreMode::Append)
}

/// STOU plans to receive into a fresh name derived from the target.
pub fn stou_command_executor(state: &SessionState, argument: &str) -> (r: Result<
    ExecutionResult,
    ExecutionError,
>)
    requires
        state.wf(),
        argument.is_ascii(),
    ensures
        r matches Ok(res) && result_matches(res, spec_store(state@, argument@, StoreMode::Unique)),
{
    store_plan(state, argument, StoreMode::Unique)
}

/// The name STOU tries on its k-th attempt: the planned target itself
/// first, then the target with a dotted decimal counter.
pub open spec fn spec_unique_store_candidate(base: Seq<char>, k: u32) -> Seq<char> {
    if k == 0 {
        base
    } else {
        base + "."@ + crate::numbers::dec_chars(k as int)
    }
}

/// Names STOU's k-th candidate target.
pub fn unique_store_candidate(base: &str, k: u32) -> (r: String)
    ensures
        r@ == spec_unique_store_candidate(base@, k),
{
    if k == 0 {
        base.to_owned()
    } else {
        base.to_owned().concat(".").concat(crate::numbers::dec_u64_string(k as u64).as_str())
    }
}

/// How one attempt to receive a file ended; the caller moves the bytes
/// and reports what happened.
pub enum StoreOutcome {
    /// No data connection was there to receive from.
    NoConnection,
    /// The target file could not be opened or created.
    OpenFailed,
    /// The data connection failed while receiving.
    ReadFailed,
    /// Writing the received bytes to the target failed.
    WriteFailed,
    /// Every byte landed in the target.
    Done,
}

/// The second reply of a store's data phase, for each way the transfer
/// can end.
pub fn store_transfer_reply(outcome: StoreOutcome) -> (r: (u16, String))
    ensures
        outcome is NoConnection ==> r.0 == 425 && r.1@ == "No data connection was established."@,
        outcome is OpenFailed ==> r.0 == 550 && r.1@ == "Could not open target file."@,
        outcome is ReadFailed ==> r.0 == 426 && r.1@ == "Error while receiving data."@,
        outcome is WriteFailed ==> r.0 == 551 && r.1@ == "Server error."@,
        outcome is Done ==> r.0 == 226 && r.1@ == "Transfer complete."@,
{
    match outcome {
        StoreOutcome::NoConnection => (425, "No data connection was established.".to_owned()),
        StoreOutcome::OpenFailed => (550, "Could not open target file.".to_owned()),
        StoreOutcome::ReadFailed => (426, "Error while receiving data.".to_owned()),
        StoreOutcome::WriteFailed => (551, "Server error.".to_owned()),
        StoreOutcome::Done => (226, "Transfer complete.".to_owned()),
    }
}

} // verus!
