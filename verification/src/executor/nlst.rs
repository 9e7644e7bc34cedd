//! NLST: naming a directory's entries, one base name per line.
use vstd::prelude::*;
use vstd::string::StringExecFns;

use crate::errors::ExecutionError;
use crate::executor::list::{spec_list_target, spec_output};
use crate::executor::{result_matches, ExecutionResult, SpecOutcome};
use crate::paths::join_path;
use crate::sessionstate::{SessionState, StateModel, TransferPlan};
use crate::wire::write_all_bytes;

verus! {

/// What NLST answers, given whether the probed target exists.
pub open spec fn spec_nlst(m: StateModel, arg: Seq<char>, target_exists: bool) -> SpecOutcome {
    if target_exists {
        SpecOutcome {
            status: 150,
            message: "Opening data connection."@,
            new_state: Some(
                StateModel {
                    data_transfer_func: Some(TransferPlan::Nlst),
                    data_transfer_func_parameter: Some(spec_list_target(m, arg)),
                    ..m
                },
            ),
        }
    } else {
        SpecOutcome { status: 550, message: "File not found."@, new_state: None }
    }
}

/// NLST plans the name listing of an existing path; the caller has
/// probed whether the target exists.
pub fn nlst_command_executor(state: &SessionState, argument: &str, target_exists: bool) -> (r:
    Result<ExecutionResult, ExecutionError>)
    requires
        state.wf(),
        argument.is_ascii(),
    ensures
        r matches Ok(res) && result_matches(res, spec_nlst(state@, argument@, target_exists)),
{
    if !target_exists {
        return Ok(
            ExecutionResult { status: 550, message: "File not found.".to_owned(), new_state: None },
        );
    }
    let mut new_state = state.clone();
    new_state.data_transfer_func = Some(TransferPlan::Nlst);
    new_state.data_transfer_func_parameter = Some(
        if argument.is_empty() {
            state.name_prefix.clone()
        } else {
            join_path(state.name_prefix.as_str(), argument)
        },
    );
    Ok(
        ExecutionResult {
            status: 150,
            message: "Opening data connection.".to_owned(),
            new_state: Some(new_state),
        },
    )
}

/// Joins base names into the listing sent down the data channel, each
/// name closed by CRLF.
pub fn create_output(names: &Vec<String>) -> (r: String)
    ensures
        r@ == spec_output(names@.map_values(|s: String| s@)),
{
    let ghost recs = names@.map_values(|s: String| s@);
    let mut out = String::new();
    let mut i: usize = 0;
    while i < names.len()
        invariant
            i <= names@.len(),
            recs == names@.map_values(|s: String| s@),
            out@ == spec_output(recs.take(i as int)),
        decreases names@.len() - i,
    {
        out.append(names[i].as_str());
        out.append("\r\n");
        proof {
            assert(recs.take(i + 1).drop_last() =~= recs.take(i as int));
            assert(recs.take(i + 1).last() == recs[i as int]);
        }
        i = i + 1;
    }
    proof {
        assert(recs.take(recs.len() as int) =~= recs);
    }
    out
}

/// Streams the base names the caller has read off the disk down the data
/// connection. The names are absent when the directory could not be read
/// for want of permission.
pub fn data_transfer_func<R: std::io::Read, W: std::io::Write>(
    names: Option<&Vec<String>>,
    _start_position: usize,
    _read_stream: Option<&mut R>,
    write_stream: Option<&mut W>,
) -> (r: (u16, String))
    ensures
        write_stream is None ==> r.0 == 425 && r.1@ == "No data connection was established."@,
        write_stream is Some && names is None ==> r.0 == 451 && r.1@
            == "Error reading directory or file."@,
        write_stream is Some && names is Some ==> (r.0 == 226 && r.1@ == "Transfer complete."@) || (
        r.0 == 426 && r.1@ == "Error while sending data."@),
{
    let stream = match write_stream {
        Some(stream) => stream,
        None => {
            return (425, "No data connection was established.".to_owned());
        },
    };
    let names = match names {
        Some(names) => names,
        None => {
            return (451, "Error reading directory or file.".to_owned());
        },
    };
    let outbuf = create_output(names);
    match write_all_bytes(stream, outbuf.as_str().as_bytes()) {
        Ok(()) => (226, "Transfer complete.".to_owned()),
        Err(_) => (426, "Error while sending data.".to_owned()),
    }
}

} // verus!
