//! One executor per verb: a pure function from session state and argument
//! to a reply and an optional replacement state.
pub mod data;
pub mod fsops;
pub mod list;
pub mod login;
pub mod nlst;
pub mod path;
pub mod repr;
pub mod retr;
pub mod store;
pub mod simple;

use vstd::prelude::*;

use crate::command::Command;
use crate::errors::ExecutionError;
use crate::sessionstate::{state_wf, SessionState, StateModel, StoreMode};
use crate::status::Status;
use crate::verb::Verb;

verus! {

/// What one executed command answers: a status, a line of text, and the
/// replacement session state when the command changed anything.
pub struct ExecutionResult {
    pub status: Status,
    pub message: String,
    pub new_state: Option<SessionState>,
}

/// What one command answers, as contracts describe it.
pub ghost struct SpecOutcome {
    pub status: Status,
    pub message: Seq<char>,
    pub new_state: Option<StateModel>,
}

/// The executed result carries exactly the described outcome.
pub open spec fn result_matches(res: ExecutionResult, t: SpecOutcome) -> bool {
    &&& res.status == t.status
    &&& res.message@ == t.message
    &&& (res.new_state is Some) == (t.new_state is Some)
    &&& res.new_state matches Some(s) ==> t.new_state == Some(s@)
}

/// What a command needs the filesystem or the network to do before it can
/// be executed. The caller performs it and hands back the matching answer.
pub enum OutsideRequest {
    /// The verb decides on session state alone.
    Nothing,
    /// Resolve this path to its canonical form, following links.
    Canonicalize(String),
    /// Say whether this path exists.
    Exists(String),
    /// Create this directory.
    CreateDir(String),
    /// Remove this directory.
    RemoveDir(String),
    /// Remove this file.
    RemoveFile(String),
    /// Rename the first path to the second.
    Rename(String, String),
    /// Bind a fresh listener for a passive data connection.
    BindListener,
}

/// The answer to an [`OutsideRequest`].
pub enum OutsideAnswer {
    /// Nothing was asked.
    Nothing,
    /// The canonical path, or nothing when resolution failed.
    Resolved(Option<String>),
    /// Whether the path exists.
    Exists(bool),
    /// Whether the filesystem change succeeded.
    Done(bool),
    /// The port of the freshly bound listener, or nothing when the bind
    /// failed.
    Listener(Option<u16>),
}

impl OutsideAnswer {
    /// The answer has the shape the request calls for.
    pub open spec fn answers(&self, q: OutsideRequest) -> bool {
        match q {
            OutsideRequest::Nothing => self is Nothing,
            OutsideRequest::Canonicalize(_) => self is Resolved,
            OutsideRequest::Exists(_) => self is Exists,
            OutsideRequest::CreateDir(_) => self is Done,
            OutsideRequest::RemoveDir(_) => self is Done,
            OutsideRequest::RemoveFile(_) => self is Done,
            OutsideRequest::Rename(_, _) => self is Done,
            OutsideRequest::BindListener => self is Listener,
        }
    }
}

/// The answer as contracts see it.
pub ghost enum AnswerModel {
    Nothing,
    Resolved(Option<Seq<char>>),
    Exists(bool),
    Done(bool),
    Listener(Option<u16>),
}

impl View for OutsideAnswer {
    type V = AnswerModel;

    open spec fn view(&self) -> AnswerModel {
        match self {
            OutsideAnswer::Nothing => AnswerModel::Nothing,
            OutsideAnswer::Resolved(p) => AnswerModel::Resolved(
                match p {
                    Some(s) => Some(s@),
                    None => None,
                },
            ),
            OutsideAnswer::Exists(b) => AnswerModel::Exists(*b),
            OutsideAnswer::Done(b) => AnswerModel::Done(*b),
            OutsideAnswer::Listener(p) => AnswerModel::Listener(*p),
        }
    }
}

/// What a verb's executor answers, for every verb: the registry as one
/// total function. A verb whose collaborator answer is missing or of the
/// wrong shape behaves as if the collaborator had failed.
pub open spec fn spec_execute(v: Verb, m: StateModel, arg: Seq<char>, a: AnswerModel) -> SpecOutcome {
    match v {
        Verb::USER => crate::executor::login::spec_user(m, arg),
        Verb::PASS => crate::executor::login::spec_pass(m, arg),
        Verb::ACCT => crate::executor::login::spec_acct(m),
        Verb::TYPE => crate::executor::repr::spec_type(m, arg),
        Verb::STRU => crate::executor::repr::spec_stru(arg),
        Verb::MODE => crate::executor::repr::spec_mode(arg),
        Verb::PWD | Verb::XPWD => crate::executor::path::spec_pwd(m),
        Verb::CWD | Verb::XCWD => crate::executor::path::spec_cwd(
            m,
            match a {
                AnswerModel::Resolved(p) => p,
                _ => None,
            },
        ),
        Verb::CDUP | Verb::XCUP => crate::executor::path::spec_cdup(m),
        Verb::PASV => crate::executor::data::spec_pasv(
            m,
            match a {
                AnswerModel::Listener(p) => p,
                _ => None,
            },
        ),
        Verb::PORT => crate::executor::data::spec_port(m, arg),
        Verb::REST => crate::executor::data::spec_rest(m, arg),
        Verb::RETR => crate::executor::retr::spec_retr(
            m,
            arg,
            match a {
                AnswerModel::Exists(b) => b,
                _ => false,
            },
        ),
        Verb::STOR => crate::executor::store::spec_store(m, arg, StoreMode::Truncate),
        Verb::APPE => crate::executor::store::spec_store(m, arg, StoreMode::Append),
        Verb::STOU => crate::executor::store::spec_store(m, arg, StoreMode::Unique),
        Verb::ALLO => crate::executor::simple::spec_allo(),
        Verb::LIST => crate::executor::list::spec_list(
            m,
            arg,
            match a {
                AnswerModel::Exists(b) => b,
                _ => false,
            },
        ),
        Verb::NLST => crate::executor::nlst::spec_nlst(
            m,
            arg,
            match a {
                AnswerModel::Exists(b) => b,
                _ => false,
            },
        ),
        Verb::MKD | Verb::XMKD => crate::executor::fsops::spec_mkd(
            m,
            arg,
            match a {
                AnswerModel::Done(b) => b,
                _ => false,
            },
        ),
        Verb::RMD | Verb::XRMD => crate::executor::fsops::spec_rmd(
            match a {
                AnswerModel::Done(b) => b,
                _ => false,
            },
        ),
        Verb::DELE => crate::executor::fsops::spec_dele(
            match a {
                AnswerModel::Done(b) => b,
                _ => false,
            },
        ),
        Verb::RNFR => crate::executor::fsops::spec_rnfr(
            m,
            arg,
            match a {
                AnswerModel::Exists(b) => b,
                _ => false,
            },
        ),
        Verb::RNTO => crate::executor::fsops::spec_rnto(
            m,
            match a {
                AnswerModel::Done(b) => Some(b),
                _ => None,
            },
        ),
        Verb::SYST => crate::executor::simple::spec_syst(),
        Verb::STAT => crate::executor::simple::spec_stat(),
        Verb::HELP => crate::executor::simple::spec_help(arg),
        Verb::NOOP => crate::executor::simple::spec_noop(),
        Verb::QUIT => crate::executor::simple::spec_quit(),
    }
}

/// Every executed command keeps the session well formed and leaves the
/// greeting flag, the executed-verb mark and both addresses alone.
pub proof fn lemma_execute_preserves(v: Verb, m: StateModel, arg: Seq<char>, a: AnswerModel)
    requires
        state_wf(m),
    ensures
        ({
            let out = spec_execute(v, m, arg, a);
            out.new_state matches Some(s) ==> {
                &&& state_wf(s)
                &&& s.has_greeted == m.has_greeted
                &&& s.previous_command == m.previous_command
                &&& s.local_ip == m.local_ip
                &&& s.peer_ip == m.peer_ip
            }
        }),
{
    match v {
        Verb::CDUP | Verb::XCUP => {
            crate::paths::lemma_parent_clean(m.name_prefix);
        },
        _ => {},
    }
}

/// What a command needs done outside before it can run: the path to
/// resolve or probe, the filesystem change to make, or the listener to
/// bind. Most verbs need nothing.
pub fn outside_request(verb: Verb, state: &SessionState, argument: &str) -> (r: OutsideRequest)
    requires
        state.wf(),
        argument.is_ascii(),
    ensures
        ({
            let m = state@;
            match verb {
                Verb::CWD | Verb::XCWD => r matches OutsideRequest::Canonicalize(p) && p@
                    == crate::executor::path::spec_cwd_target(m.name_prefix, argument@),
                Verb::PASV => r is BindListener,
                Verb::RETR => r matches OutsideRequest::Exists(p) && p@ == crate::paths::spec_join(
                    m.name_prefix,
                    argument@,
                ),
                Verb::LIST | Verb::NLST => r matches OutsideRequest::Exists(p) && p@
                    == crate::executor::list::spec_list_target(m, argument@),
                Verb::RNFR => r matches OutsideRequest::Exists(p) && p@ == crate::paths::spec_join(
                    m.name_prefix,
                    argument@,
                ),
                Verb::MKD | Verb::XMKD => r matches OutsideRequest::CreateDir(p) && p@
                    == crate::paths::spec_join(m.name_prefix, argument@),
                Verb::RMD | Verb::XRMD => r matches OutsideRequest::RemoveDir(p) && p@
                    == crate::paths::spec_join(m.name_prefix, argument@),
                Verb::DELE => r matches OutsideRequest::RemoveFile(p) && p@
                    == crate::paths::spec_join(m.name_prefix, argument@),
                Verb::RNTO => if crate::executor::fsops::rnto_ready(m) {
                    r matches OutsideRequest::Rename(f, t) && Some(f@) == m.rename_from && t@
                        == crate::paths::spec_join(m.name_prefix, argument@)
                } else {
                    r is Nothing
                },
                _ => r is Nothing,
            }
        }),
{
    match verb {
        Verb::CWD | Verb::XCWD => OutsideRequest::Canonicalize(
            crate::executor::path::cwd_target(state, argument),
        ),
        Verb::PASV => OutsideRequest::BindListener,
        Verb::RETR => OutsideRequest::Exists(crate::executor::retr::retr_target(state, argument)),
        Verb::LIST | Verb::NLST => OutsideRequest::Exists(
            crate::executor::list::list_target(state, argument),
        ),
        Verb::RNFR => OutsideRequest::Exists(crate::executor::fsops::fsop_target(state, argument)),
        Verb::MKD | Verb::XMKD => OutsideRequest::CreateDir(
            crate::executor::fsops::fsop_target(state, argument),
        ),
        Verb::RMD | Verb::XRMD => OutsideRequest::RemoveDir(
            crate::executor::fsops::fsop_target(state, argument),
        ),
        Verb::DELE => OutsideRequest::RemoveFile(
            crate::executor::fsops::fsop_target(state, argument),
        ),
        Verb::RNTO => {
            let ready = matches!(state.previous_command, Some(Verb::RNFR));
            match (&state.rename_from, ready) {
                (Some(from), true) => OutsideRequest::Rename(
                    from.clone(),
                    crate::executor::fsops::fsop_target(state, argument),
                ),
                _ => OutsideRequest::Nothing,
            }
        },
        _ => OutsideRequest::Nothing,
    }
}

impl Command {
    /// Runs the one executor the verb names, with the collaborator's
    /// answer to the command's outside request.
    pub fn execute(&self, state: &SessionState, answer: &OutsideAnswer) -> (r: Result<
        ExecutionResult,
        ExecutionError,
    >)
        requires
            state.wf(),
            vstd::utf8::is_ascii_chars(self.arg@),
        ensures
            r matches Ok(res) && result_matches(
                res,
                spec_execute(self.verb, state@, self.arg@, answer@),
            ),
    {
        let arg = self.arg.as_str();
        match self.verb {
            Verb::USER => crate::executor::login::user_command_executor(state, arg),
            Verb::PASS => crate::executor::login::pass_command_executor(state, arg),
            Verb::ACCT => crate::executor::login::acct_command_executor(state, arg),
            Verb::TYPE => crate::executor::repr::type_command_executor(state, arg),
            Verb::STRU => crate::executor::repr::stru_command_executor(state, arg),
            Verb::MODE => crate::executor::repr::mode_command_executor(state, arg),
            Verb::PWD | Verb::XPWD => crate::executor::path::pwd_command_executor(state, arg),
            Verb::CWD | Verb::XCWD => {
                let resolved = match answer {
                    OutsideAnswer::Resolved(Some(p)) => Some(p.clone()),
                    _ => None,
                };
                crate::executor::path::cwd_command_executor(state, arg, resolved)
            },
            Verb::CDUP | Verb::XCUP => crate::executor::path::cdup_command_executor(state, arg),
            Verb::PASV => {
                let port = match answer {
                    OutsideAnswer::Listener(p) => *p,
                    _ => None,
                };
                crate::executor::data::pasv_command_executor(state, arg, port)
            },
            Verb::PORT => crate::executor::data::port_command_executor(state, arg),
            Verb::REST => crate::executor::data::rest_command_executor(state, arg),
            Verb::RETR => crate::executor::retr::retr_command_executor(
                state,
                arg,
                answer_exists(answer),
            ),
            Verb::STOR => crate::executor::store::stor_command_executor(state, arg),
            Verb::APPE => crate::executor::store::appe_command_executor(state, arg),
            Verb::STOU => crate::executor::store::stou_command_executor(state, arg),
            Verb::ALLO => crate::executor::simple::allo_command_executor(state, arg),
            Verb::LIST => crate::executor::list::list_command_executor(
                state,
                arg,
                answer_exists(answer),
            ),
            Verb::NLST => crate::executor::nlst::nlst_command_executor(
                state,
                arg,
                answer_exists(answer),
            ),
            Verb::MKD | Verb::XMKD => crate::executor::fsops::mkd_command_executor(
                state,
                arg,
                answer_done(answer),
            ),
            Verb::RMD | Verb::XRMD => crate::executor::fsops::rmd_command_executor(
                state,
                arg,
                answer_done(answer),
            ),
            Verb::DELE => crate::executor::fsops::dele_command_executor(
                state,
                arg,
                answer_done(answer),
            ),
            Verb::RNFR => crate::executor::fsops::rnfr_command_executor(
                state,
                arg,
                answer_exists(answer),
            ),
            Verb::RNTO => {
                let renamed = match answer {
                    OutsideAnswer::Done(b) => Some(*b),
                    _ => None,
                };
                crate::executor::fsops::rnto_command_executor(state, arg, renamed)
            },
            Verb::SYST => crate::executor::simple::syst_command_executor(state, arg),
            Verb::STAT => crate::executor::simple::stat_command_executor(state, arg),
            Verb::HELP => crate::executor::simple::help_command_executor(state, arg),
            Verb::NOOP => crate::executor::simple::noop_command_executor(state, arg),
            Verb::QUIT => crate::executor::simple::quit_command_executor(state, arg),
        }
    }
}

/// Reads an existence answer; anything else counts as absent.
fn answer_exists(answer: &OutsideAnswer) -> (r: bool)
    ensures
        r == (answer@ matches AnswerModel::Exists(b) && b),
{
    match answer {
        OutsideAnswer::Exists(b) => *b,
        _ => false,
    }
}

/// Reads a completion answer; anything else counts as failed.
fn answer_done(answer: &OutsideAnswer) -> (r: bool)
    ensures
        r == (answer@ matches AnswerModel::Done(b) && b),
{
    match answer {
        OutsideAnswer::Done(b) => *b,
        _ => false,
    }
}

} // verus!
