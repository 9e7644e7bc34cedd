//! Per-connection session state, updated by replacement after each command.
use vstd::prelude::*;
use vstd::string::StringExecFns;

use crate::config;
use crate::verb::Verb;

verus! {

/// An IPv4 address as four octets.
#[derive(Debug, Clone, Copy, PartialEq, Eq, Structural)]
pub struct Ipv4 {
    pub a: u8,
    pub b: u8,
    pub c: u8,
    pub d: u8,
}

impl Ipv4 {
    /// The all-zero address.
    pub fn unspecified() -> (r: Ipv4)
        ensures
            r == (Ipv4 { a: 0, b: 0, c: 0, d: 0 }),
    {
        Ipv4 { a: 0, b: 0, c: 0, d: 0 }
    }
}

/// An IPv4 socket address, as PORT names one.
#[derive(Debug, Clone, Copy, PartialEq, Eq, Structural)]
pub struct DataAddr {
    pub ip: Ipv4,
    pub port: u16,
}

/// How bytes will reach a store target.
#[derive(Debug, Clone, Copy, PartialEq, Eq, Structural)]
pub enum StoreMode {
    Truncate,
    Append,
    Unique,
}

/// The deferred action a data phase will run.
#[derive(Debug, Clone, Copy, PartialEq, Eq, Structural)]
pub enum TransferPlan {
    Retrieve,
    List,
    Nlst,
    Store(StoreMode),
}

/// The session state as contracts speak of it: each string by its characters.
pub ghost struct StateModel {
    pub user: Option<Seq<char>>,
    pub is_authenticated: bool,
    pub previous_command: Option<Verb>,
    pub binary_flag: bool,
    pub name_prefix: Seq<char>,
    pub has_greeted: bool,
    pub file_offset: int,
    pub local_ip: Ipv4,
    pub peer_ip: Ipv4,
    pub port_ip: Option<DataAddr>,
    pub data_listener: Option<u16>,
    pub data_transfer_func: Option<TransferPlan>,
    pub data_transfer_func_parameter: Option<Seq<char>>,
    pub rename_from: Option<Seq<char>>,
}

/// All data one control connection carries between commands.
pub struct SessionState {
    /// Present after a successful USER.
    pub user: Option<String>,
    /// True only after credentials were accepted or anonymous was granted.
    pub is_authenticated: bool,
    /// The verb most recently executed, whatever its outcome.
    pub previous_command: Option<Verb>,
    /// True means image (binary) representation; false means ASCII.
    pub binary_flag: bool,
    /// The session working directory; always absolute.
    pub name_prefix: String,
    /// True once the 220 greeting went out.
    pub has_greeted: bool,
    /// REST start position, consumed by the next data phase.
    pub file_offset: usize,
    /// Address of this end of the control connection.
    pub local_ip: Ipv4,
    /// Address of the peer; IPv6 peers are refused before a state exists.
    pub peer_ip: Ipv4,
    /// Target named by PORT, cleared by PASV and by every data phase.
    pub port_ip: Option<DataAddr>,
    /// Port of the listener bound by PASV, cleared by PORT and by every
    /// data phase. The listener itself lives with the caller.
    pub data_listener: Option<u16>,
    /// The planned transfer, cleared by every data phase.
    pub data_transfer_func: Option<TransferPlan>,
    /// The resolved path or argument the plan works on.
    pub data_transfer_func_parameter: Option<String>,
    /// Source path staged by RNFR, consumed by RNTO.
    pub rename_from: Option<String>,
}

impl View for SessionState {
    type V = StateModel;

    open spec fn view(&self) -> StateModel {
        StateModel {
            user: match self.user {
                Some(u) => Some(u@),
                None => None,
            },
            is_authenticated: self.is_authenticated,
            previous_command: self.previous_command,
            binary_flag: self.binary_flag,
            name_prefix: self.name_prefix@,
            has_greeted: self.has_greeted,
            file_offset: self.file_offset as int,
            local_ip: self.local_ip,
            peer_ip: self.peer_ip,
            port_ip: self.port_ip,
            data_listener: self.data_listener,
            data_transfer_func: self.data_transfer_func,
            data_transfer_func_parameter: match self.data_transfer_func_parameter {
                Some(p) => Some(p@),
                None => None,
            },
            rename_from: match self.rename_from {
                Some(p) => Some(p@),
                None => None,
            },
        }
    }
}

/// A session state every command handler keeps intact: authentication
/// names a user, the working directory is a clean absolute ASCII path,
/// and at most one data-channel plan is armed.
pub open spec fn state_wf(m: StateModel) -> bool {
    &&& m.is_authenticated ==> m.user is Some
    &&& !(m.port_ip is Some && m.data_listener is Some)
    &&& crate::paths::clean_abs_path(m.name_prefix)
}

/// The state a fresh session starts from.
pub open spec fn default_model() -> StateModel {
    StateModel {
        user: None,
        is_authenticated: false,
        previous_command: None,
        binary_flag: false,
        name_prefix: "/"@,
        has_greeted: false,
        file_offset: 0,
        local_ip: Ipv4 { a: 0, b: 0, c: 0, d: 0 },
        peer_ip: Ipv4 { a: 0, b: 0, c: 0, d: 0 },
        port_ip: None,
        data_listener: None,
        data_transfer_func: None,
        data_transfer_func_parameter: None,
        rename_from: None,
    }
}

/// A fresh default state is well formed.
pub proof fn lemma_default_model_wf()
    ensures
        state_wf(default_model()),
{
    reveal_strlit("/");
}

impl SessionState {
    /// The state invariant, stated over the view.
    pub open spec fn wf(&self) -> bool {
        state_wf(self@)
    }

    /// A state for a fresh connection between the two given addresses.
    pub fn new(local_ip: Ipv4, peer_ip: Ipv4) -> (r: Self)
        ensures
            r@ == (StateModel { local_ip, peer_ip, ..default_model() }),
            r.wf(),
    {
        let mut state = Self::default();
        state.local_ip = local_ip;
        state.peer_ip = peer_ip;
        proof {
            lemma_default_model_wf();
        }
        state
    }
}

impl Default for SessionState {
    fn default() -> (r: Self)
        ensures
            r@ == default_model(),
            r.wf(),
    {
        proof {
            lemma_default_model_wf();
        }
        SessionState {
            user: None,
            is_authenticated: false,
            previous_command: None,
            binary_flag: false,
            name_prefix: String::from_str(config::NAME_PREFIX),
            has_greeted: false,
            file_offset: 0,
            local_ip: Ipv4::unspecified(),
            peer_ip: Ipv4::unspecified(),
            port_ip: None,
            data_listener: None,
            data_transfer_func: None,
            data_transfer_func_parameter: None,
            rename_from: None,
        }
    }
}

/// A copy of an optional string with the same characters.
fn clone_opt_string(x: &Option<String>) -> (r: Option<String>)
    ensures
        (r is Some) == (x is Some),
        r matches Some(s) ==> x matches Some(t) && s@ == t@,
{
    match x {
        Some(s) => Some(s.clone()),
        None => None,
    }
}

impl Clone for SessionState {
    /// A copy whose view equals this state's view.
    fn clone(&self) -> (r: Self)
        ensures
            r@ == self@,
    {
        let r = SessionState {
            user: clone_opt_string(&self.user),
            is_authenticated: self.is_authenticated,
            previous_command: self.previous_command,
            binary_flag: self.binary_flag,
            name_prefix: self.name_prefix.clone(),
            has_greeted: self.has_greeted,
            file_offset: self.file_offset,
            local_ip: self.local_ip,
            peer_ip: self.peer_ip,
            port_ip: self.port_ip,
            data_listener: self.data_listener,
            data_transfer_func: self.data_transfer_func,
            data_transfer_func_parameter: clone_opt_string(&self.data_transfer_func_parameter),
            rename_from: clone_opt_string(&self.rename_from),
        };
        r
    }
}

} // verus!
