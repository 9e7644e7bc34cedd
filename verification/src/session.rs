//! The per-connection engine: the greeting, one command per pass, the
//! reply, and the bookkeeping around each data phase. The caller owns
//! the sockets and the filesystem; every decision stands here.
use vstd::prelude::*;

use crate::command::{parse, spec_parse, Command};
use crate::errors::CommandError;
use crate::executor::{spec_execute, lemma_execute_preserves, OutsideAnswer};
use crate::sessionstate::{DataAddr, SessionState, StateModel};
use crate::status::Status;
use crate::text::{ascii_bytes, ascii_bytes_to_string, ascii_str_bytes, chars_of};
use crate::verb::Verb;
use crate::wire::{read_line, write_multiline};

verus! {

/// Whether the pass that just ran ends the session.
#[derive(Debug, PartialEq, Eq, Structural, Clone, Copy)]
pub enum ShouldExit {
    No,
    Yes,
}

/// Writes one reply to the peer; a message of several lines goes out as
/// a multiline reply. A failed write ends the session, and a message
/// carrying a carriage return cannot be sent at all: no splitting
/// removes it, the wire validation refuses it, and the session ends.
pub fn write_result_to_peer<W: std::io::Write>(
    stream: &mut W,
    status: Status,
    message: &str,
) -> (r: ShouldExit)
    ensures
        (exists|i: int| 0 <= i < message@.len() && message@[i] == '\r') ==> r == ShouldExit::Yes,
{
    if !message.is_ascii() {
        return match crate::wire::write(stream, status, message) {
            Ok(_) => ShouldExit::No,
            Err(_) => ShouldExit::Yes,
        };
    }
    let lines = split_ascii_lines(message);
    let mut refs: Vec<&str> = Vec::new();
    let mut i: usize = 0;
    while i < lines.len()
        invariant
            i <= lines@.len(),
            refs@.len() == i,
            forall|j: int| 0 <= j < i ==> #[trigger] refs@[j]@ == lines@[j]@,
        decreases lines@.len() - i,
    {
        refs.push(lines[i].as_str());
        i = i + 1;
    }
    proof {
        if exists|i: int| 0 <= i < message@.len() && message@[i] == '\r' {
            let (k, j) = choose|k: int, j: int|
                0 <= k < lines@.len() && 0 <= j < lines@[k]@.len() && lines@[k]@[j] == '\r';
            assert(!crate::wire::message_line_ok(refs@[k]@));
        }
    }
    match write_multiline(stream, status, refs.as_slice()) {
        Ok(_) => ShouldExit::No,
        Err(_) => ShouldExit::Yes,
    }
}

/// An ASCII message cut at its line feeds: no piece carries one, and
/// every carriage return of the message survives in some piece.
fn split_ascii_lines(message: &str) -> (r: Vec<String>)
    requires
        message.is_ascii(),
    ensures
        r@.len() >= 1,
        forall|k: int, j: int|
            0 <= k < r@.len() && 0 <= j < r@[k]@.len() ==> #[trigger] r@[k]@[j] != '\n',
        (exists|i: int| 0 <= i < message@.len() && message@[i] == '\r') ==> exists|k: int, j: int|
            0 <= k < r@.len() && 0 <= j < r@[k]@.len() && r@[k]@[j] == '\r',
{
    let bytes = ascii_str_bytes(message);
    let mut pieces: Vec<String> = Vec::new();
    let mut current: Vec<u8> = Vec::new();
    let mut i: usize = 0;
    while i < bytes.len()
        invariant
            i <= bytes@.len(),
            ascii_bytes(bytes@),
            chars_of(bytes@) == message@,
            ascii_bytes(current@),
            forall|j: int| 0 <= j < current@.len() ==> #[trigger] current@[j] != 10,
            forall|k: int, j: int|
                0 <= k < pieces@.len() && 0 <= j < pieces@[k]@.len() ==> #[trigger] pieces@[k]@[j]
                    != '\n',
            (exists|j: int| 0 <= j < i && bytes@[j] == 13) ==> (exists|k: int, j: int|
                0 <= k < pieces@.len() && 0 <= j < pieces@[k]@.len() && pieces@[k]@[j] == '\r')
                || (exists|j: int| 0 <= j < current@.len() && current@[j] == 13),
        decreases bytes@.len() - i,
    {
        let b = bytes[i];
        if b == 10 {
            let ghost before = pieces@;
            let ghost flushed = current@;
            pieces.push(ascii_bytes_to_string(current));
            current = Vec::new();
            proof {
                lemma_piece_chars(pieces@, flushed);
                lemma_flush_keeps_cr(before, flushed, pieces@);
            }
        } else {
            let ghost held = current@;
            current.push(b);
            proof {
                if b == 13 {
                    assert(current@[current@.len() - 1] == 13);
                }
                if exists|j: int| 0 <= j < held.len() && held[j] == 13 {
                    let j0 = choose|j: int| 0 <= j < held.len() && held[j] == 13;
                    assert(current@[j0] == 13);
                }
            }
        }
        i = i + 1;
    }
    let ghost before = pieces@;
    let ghost flushed = current@;
    pieces.push(ascii_bytes_to_string(current));
    proof {
        lemma_piece_chars(pieces@, flushed);
        lemma_flush_keeps_cr(before, flushed, pieces@);
        if exists|i: int| 0 <= i < message@.len() && message@[i] == '\r' {
            let w = choose|i: int| 0 <= i < message@.len() && message@[i] == '\r';
            assert(message@[w] == (bytes@[w] as char));
            assert(bytes@[w] == 13);
        }
    }
    pieces
}

/// Flushing the pending bytes into a new piece keeps every carriage
/// return that either the earlier pieces or the pending bytes carried.
proof fn lemma_flush_keeps_cr(before: Seq<String>, flushed: Seq<u8>, after: Seq<String>)
    requires
        after == before.push(after.last()),
        after.last()@ == chars_of(flushed),
    ensures
        (exists|k: int, j: int|
            0 <= k < before.len() && 0 <= j < before[k]@.len() && before[k]@[j] == '\r') ==> exists|
            k: int,
            j: int,
        | 0 <= k < after.len() && 0 <= j < after[k]@.len() && after[k]@[j] == '\r',
        (exists|j: int| 0 <= j < flushed.len() && flushed[j] == 13) ==> exists|k: int, j: int|
            0 <= k < after.len() && 0 <= j < after[k]@.len() && after[k]@[j] == '\r',
{
    if exists|k: int, j: int|
        0 <= k < before.len() && 0 <= j < before[k]@.len() && before[k]@[j] == '\r' {
        let (k0, j0) = choose|k: int, j: int|
            0 <= k < before.len() && 0 <= j < before[k]@.len() && before[k]@[j] == '\r';
        assert(after[k0]@[j0] == '\r');
    }
    if exists|j: int| 0 <= j < flushed.len() && flushed[j] == 13 {
        let j0 = choose|j: int| 0 <= j < flushed.len() && flushed[j] == 13;
        assert(after[after.len() - 1]@[j0] == (flushed[j0] as char));
        assert(after[after.len() - 1]@[j0] == '\r');
    }
}

/// The last piece holds exactly the characters of the bytes it was made
/// from; spelled out so the splitting loop can carry its line-feed and
/// carriage-return bookkeeping across each flush.
proof fn lemma_piece_chars(pieces: Seq<String>, flushed: Seq<u8>)
    requires
        pieces.len() >= 1,
        pieces.last()@ == chars_of(flushed),
        ascii_bytes(flushed),
        forall|j: int| 0 <= j < flushed.len() ==> #[trigger] flushed[j] != 10,
    ensures
        forall|j: int| 0 <= j < pieces.last()@.len() ==> #[trigger] pieces.last()@[j] != '\n',
        forall|j: int| 0 <= j < flushed.len() && flushed[j] == 13 ==> pieces.last()@[j] == '\r',
{
    assert forall|j: int| 0 <= j < pieces.last()@.len() implies #[trigger] pieces.last()@[j]
        != '\n' by {
        assert(pieces.last()@[j] == (flushed[j] as char));
    }
    assert forall|j: int| 0 <= j < flushed.len() && flushed[j] == 13 implies pieces.last()@[j]
        == '\r' by {
        assert(pieces.last()@[j] == (flushed[j] as char));
    }
}

/// Sends the 220 greeting that opens every session.
pub fn greet_new_connection<W: std::io::Write>(stream: &mut W) -> (r: ShouldExit) {
    write_result_to_peer(stream, 220, "Welcome to the FeTP FTP server.")
}

/// The first pass of a session: marks the session greeted, then greets.
pub fn handle_session_not_greeted<W: std::io::Write>(
    state: &mut SessionState,
    stream: &mut W,
) -> (r: ShouldExit)
    ensures
        final(state)@ == (StateModel { has_greeted: true, ..old(state)@ }),
        old(state).wf() ==> final(state).wf(),
{
    state.has_greeted = true;
    greet_new_connection(stream)
}

/// Reads one line and parses it into a command.
pub fn parse_next_command<R: std::io::Read>(stream: &mut R) -> (r: Result<Command, CommandError>)
    ensures
        r matches Ok(c) ==> vstd::utf8::is_ascii_chars(c.arg@),
{
    match read_line(stream) {
        Ok(buffer) => {
            let r = parse(buffer.as_slice());
            proof {
                let s = buffer@;
                if let Ok(p) = spec_parse(s) {
                    assert forall|i: int| 0 <= i < p.1.len() implies '\0' <= #[trigger] p.1[i]
                        <= '\u{7f}' by {
                        assert(ascii_bytes(s));
                        assert(p.1 == chars_of(crate::command::spec_arg(s)));
                        crate::command::lemma_prefix_len_marker(
                            s,
                            |b: u8| crate::command::is_letter(b),
                        );
                        crate::command::lemma_suffix_len_marker(
                            s,
                            |b: u8| crate::command::is_ctl(b),
                        );
                        if s.len() <= crate::command::letter_run(s) + crate::command::ctl_run(s) {
                        } else {
                            assert(crate::command::spec_arg(s)[i] == s[i + crate::command::letter_run(
                                s,
                            ) + 1]);
                        }
                    }
                }
            }
            r
        },
        Err(_) => Err(CommandError("Error reading command".to_owned())),
    }
}

/// Awaits the next command; a line that parses to none becomes the 500
/// reply to send.
pub fn await_command<R: std::io::Read>(stream: &mut R) -> (r: Result<Command, (Status, String)>)
    ensures
        r matches Ok(c) ==> vstd::utf8::is_ascii_chars(c.arg@),
        r matches Err(p) ==> p.0 == 500,
{
    match parse_next_command(stream) {
        Ok(command) => Ok(command),
        Err(error) => Err((500, error.message())),
    }
}

/// Runs one command against the session: the executor's reply comes
/// back, the replacement state is installed, and the executed verb is
/// recorded whatever the outcome.
pub fn run_command(command: &Command, current_state: &SessionState, answer: &OutsideAnswer) -> (r: (
    (Status, String),
    SessionState,
))
    requires
        current_state.wf(),
        vstd::utf8::is_ascii_chars(command.arg@),
    ensures
        ({
            let out = spec_execute(command.verb, current_state@, command.arg@, answer@);
            &&& r.0.0 == out.status
            &&& r.0.1@ == out.message
            &&& r.1@ == (StateModel {
                previous_command: Some(command.verb),
                ..match out.new_state {
                    Some(s) => s,
                    None => current_state@,
                }
            })
        }),
        r.1.wf(),
        r.1@.has_greeted == current_state@.has_greeted,
        r.1@.local_ip == current_state@.local_ip,
        r.1@.peer_ip == current_state@.peer_ip,
{
    let result = match command.execute(current_state, answer) {
        Ok(result) => result,
        Err(_) => vstd::pervasive::unreached(),
    };
    proof {
        lemma_execute_preserves(command.verb, current_state@, command.arg@, answer@);
    }
    let mut new_state = match result.new_state {
        Some(s) => s,
        None => current_state.clone(),
    };
    new_state.previous_command = Some(command.verb);
    ((result.status, result.message), new_state)
}

/// The session ends after QUIT was executed.
pub fn session_should_exit(state: &SessionState) -> (r: bool)
    ensures
        r == (state@.previous_command == Some(Verb::QUIT)),
{
    matches!(state.previous_command, Some(Verb::QUIT))
}

/// A planned data phase is ready when a transfer is armed.
pub fn data_phase_planned(state: &SessionState) -> (r: bool)
    ensures
        r == (state@.data_transfer_func is Some),
{
    matches!(state.data_transfer_func, Some(_))
}

/// How the data channel manager reaches the peer for the armed plan.
#[derive(Debug, PartialEq, Eq, Structural, Clone, Copy)]
pub enum DataRoute {
    /// No plan is armed, or no channel was arranged: reply 425.
    Deny,
    /// Accept one connection on the listener bound to this port.
    Passive(u16),
    /// Dial this target.
    Active(DataAddr),
}

/// Chooses the route of the pending data phase: the passive listener
/// when one is bound, else the active target, else a refusal.
pub fn data_phase_route(state: &SessionState) -> (r: DataRoute)
    ensures
        (r is Deny) == (state@.data_transfer_func is None || (state@.data_listener is None
            && state@.port_ip is None)),
        r matches DataRoute::Passive(p) ==> state@.data_listener == Some(p),
        r matches DataRoute::Active(a) ==> state@.port_ip == Some(a) && state@.data_listener
            is None,
{
    if matches!(state.data_transfer_func, None) {
        return DataRoute::Deny;
    }
    match (&state.data_listener, &state.port_ip) {
        (Some(p), _) => DataRoute::Passive(*p),
        (None, Some(a)) => DataRoute::Active(*a),
        (None, None) => DataRoute::Deny,
    }
}

/// Clears everything a data phase consumes, successful or not: the plan,
/// its parameter, both channel arrangements, and the start offset.
pub fn finish_data_phase(state: &mut SessionState)
    ensures
        final(state)@ == (StateModel {
            data_listener: None,
            port_ip: None,
            data_transfer_func: None,
            data_transfer_func_parameter: None,
            file_offset: 0,
            ..old(state)@
        }),
        old(state).wf() ==> final(state).wf(),
{
    state.data_listener = None;
    state.port_ip = None;
    state.data_transfer_func = None;
    state.data_transfer_func_parameter = None;
    state.file_offset = 0;
}

/// The refusal sent when no data connection was arranged.
pub fn no_data_connection_reply() -> (r: (Status, String))
    ensures
        r.0 == 425 && r.1@ == "No data connection was established."@,
{
    (425, "No data connection was established.".to_owned())
}

/// The refusal sent when the passive accept failed.
pub fn data_connection_failed_reply() -> (r: (Status, String))
    ensures
        r.0 == 425 && r.1@ == "Data connection failed."@,
{
    (425, "Data connection failed.".to_owned())
}

/// The refusal sent when the active dial failed.
pub fn data_accept_error_reply() -> (r: (Status, String))
    ensures
        r.0 == 425 && r.1@ == "Error accepting data connection."@,
{
    (425, "Error accepting data connection.".to_owned())
}

} // verus!
