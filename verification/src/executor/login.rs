//! USER, PASS and ACCT: the login sequence.
use vstd::prelude::*;

use crate::auth;
use crate::errors::ExecutionError;
use crate::executor::{result_matches, ExecutionResult, SpecOutcome};
use crate::sessionstate::{SessionState, StateModel};
use crate::status::Status;
use crate::verb::Verb;

verus! {

/// What USER answers: the name is recorded whenever it is given, and the
/// anonymous user is granted access at once.
pub open spec fn spec_user(m: StateModel, arg: Seq<char>) -> SpecOutcome {
    if arg.len() == 0 {
        SpecOutcome { status: 501, message: "User name parameter empty."@, new_state: None }
    } else if arg == "anonymous"@ {
        SpecOutcome {
            status: 230,
            message: "Anonymous login ok, public access granted."@,
            new_state: Some(StateModel { user: Some(arg), is_authenticated: true, ..m }),
        }
    } else {
        SpecOutcome {
            status: 331,
            message: "User name okay, need password."@,
            new_state: Some(StateModel { user: Some(arg), is_authenticated: false, ..m }),
        }
    }
}

/// USER records the name; the anonymous user is granted access at once.
pub fn user_command_executor(state: &SessionState, argument: &str) -> (r: Result<
    ExecutionResult,
    ExecutionError,
>)
    ensures
        r matches Ok(res) && result_matches(res, spec_user(state@, argument@)),
{
    let (status, message): (u16, &'static str) = if argument.is_empty() {
        (501, "User name parameter empty.")
    } else if auth::validate(argument, "") {
        (230, "Anonymous login ok, public access granted.")
    } else {
        (331, "User name okay, need password.")
    };
    let new_state = user_update_state(state, status, argument);
    Ok(ExecutionResult { status, message: message.to_owned(), new_state })
}

/// The state USER leaves behind: the name is recorded whenever the verb
/// was accepted, and anonymous acceptance grants authentication.
pub fn user_update_state(current_state: &SessionState, status: Status, username: &str) -> (r:
    Option<SessionState>)
    ensures
        (r is Some) == (status == 230 || status == 331),
        r matches Some(s) ==> s@ == (StateModel {
            user: Some(username@),
            is_authenticated: status == 230,
            ..current_state@
        }),
{
    if status == 230 || status == 331 {
        let mut new_state = current_state.clone();
        new_state.user = Some(username.to_owned());
        new_state.is_authenticated = status == 230;
        Some(new_state)
    } else {
        None
    }
}

/// What PASS answers, given whether the credentials were accepted. A
/// session that never recorded a user name cannot be authenticated.
pub open spec fn spec_pass_with(m: StateModel, arg: Seq<char>, credentials_ok: bool) -> SpecOutcome {
    if m.previous_command != Some(Verb::USER) {
        SpecOutcome { status: 503, message: "Previous command must be USER."@, new_state: None }
    } else if m.is_authenticated && m.user == Some("anonymous"@) {
        SpecOutcome { status: 202, message: "Already logged in as anonymous."@, new_state: None }
    } else if arg.len() == 0 {
        SpecOutcome { status: 501, message: "Password parameter empty."@, new_state: None }
    } else if m.user is None {
        SpecOutcome { status: 530, message: "User name or password incorrect."@, new_state: None }
    } else if credentials_ok {
        SpecOutcome {
            status: 230,
            message: "User logged in, proceed."@,
            new_state: Some(StateModel { is_authenticated: true, ..m }),
        }
    } else {
        SpecOutcome { status: 530, message: "User name or password incorrect."@, new_state: None }
    }
}

/// What PASS answers under the library's own credential predicate.
pub open spec fn spec_pass(m: StateModel, arg: Seq<char>) -> SpecOutcome {
    spec_pass_with(m, arg, m.user == Some("anonymous"@))
}

/// PASS with the outcome of the credential check handed in.
pub fn pass_command_executor_with_result(
    state: &SessionState,
    argument: &str,
    credentials_ok: bool,
) -> (r: Result<ExecutionResult, ExecutionError>)
    ensures
        r matches Ok(res) && result_matches(res, spec_pass_with(state@, argument@, credentials_ok)),
{
    if !matches!(state.previous_command, Some(Verb::USER)) {
        return Ok(
            ExecutionResult {
                status: 503,
                message: "Previous command must be USER.".to_owned(),
                new_state: None,
            },
        );
    }
    if is_anonymous_user(state) {
        return Ok(
            ExecutionResult {
                status: 202,
                message: "Already logged in as anonymous.".to_owned(),
                new_state: None,
            },
        );
    }
    if argument.is_empty() {
        return Ok(
            ExecutionResult {
                status: 501,
                message: "Password parameter empty.".to_owned(),
                new_state: None,
            },
        );
    }
    if matches!(state.user, None) {
        return Ok(
            ExecutionResult {
                status: 530,
                message: "User name or password incorrect.".to_owned(),
                new_state: None,
            },
        );
    }
    if credentials_ok {
        let mut new_state = state.clone();
        new_state.is_authenticated = true;
        Ok(
            ExecutionResult {
                status: 230,
                message: "User logged in, proceed.".to_owned(),
                new_state: Some(new_state),
            },
        )
    } else {
        Ok(
            ExecutionResult {
                status: 530,
                message: "User name or password incorrect.".to_owned(),
                new_state: None,
            },
        )
    }
}

/// PASS checks the given password against the recorded user.
pub fn pass_command_executor(state: &SessionState, argument: &str) -> (r: Result<
    ExecutionResult,
    ExecutionError,
>)
    ensures
        r matches Ok(res) && result_matches(res, spec_pass(state@, argument@)),
{
    let credentials_ok = match &state.user {
        Some(u) => auth::validate(u.as_str(), argument),
        None => false,
    };
    pass_command_executor_with_result(state, argument, credentials_ok)
}

/// The session already holds an authenticated anonymous login.
fn is_anonymous_user(state: &SessionState) -> (r: bool)
    ensures
        r == (state@.is_authenticated && state@.user == Some("anonymous"@)),
{
    state.is_authenticated && match &state.user {
        Some(u) => crate::text::str_eq(u.as_str(), "anonymous"),
        None => false,
    }
}

/// What ACCT answers: there is no account system to report on.
pub open spec fn spec_acct(m: StateModel) -> SpecOutcome {
    if m.previous_command != Some(Verb::PASS) {
        SpecOutcome { status: 503, message: "Previous command must be PASS."@, new_state: None }
    } else if m.is_authenticated {
        SpecOutcome { status: 202, message: "Access already granted."@, new_state: None }
    } else {
        SpecOutcome { status: 530, message: "Not logged in."@, new_state: None }
    }
}

/// ACCT reports on the account; there is no account system.
pub fn acct_command_executor(state: &SessionState, _argument: &str) -> (r: Result<
    ExecutionResult,
    ExecutionError,
>)
    ensures
        r matches Ok(res) && result_matches(res, spec_acct(state@)),
{
    let (status, message): (u16, &'static str) = if !matches!(
        state.previous_command,
        Some(Verb::PASS),
    ) {
        (503, "Previous command must be PASS.")
    } else if state.is_authenticated {
        (202, "Access already granted.")
    } else {
        (530, "Not logged in.")
    };
    Ok(ExecutionResult { status, message: message.to_owned(), new_state: None })
}

} // verus!
