//! Fixed configuration of the server.
use vstd::prelude::*;
use vstd::string::StringExecFns;

verus! {

/// Longest accepted command line, in bytes.
pub const MAX_LINE_LENGTH: usize = 1024;

/// Control port the acceptor binds.
pub const LISTEN_PORT: u16 = 2121;

/// Address the acceptor binds.
pub const LISTEN_ADDR: &'static str = "127.0.0.1";

/// Initial working directory of every session.
pub const NAME_PREFIX: &'static str = "/";

/// The address and port the acceptor binds, in one string.
pub fn listen_address() -> (r: String)
    ensures
        r@ == LISTEN_ADDR@ + ":"@ + crate::numbers::dec_chars(LISTEN_PORT as int),
{
    LISTEN_ADDR.to_owned().concat(":").concat(
        crate::numbers::dec_u64_string(LISTEN_PORT as u64).as_str(),
    )
}

} // verus!
