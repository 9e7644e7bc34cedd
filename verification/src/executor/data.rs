//! PASV, PORT and REST: arranging the data connection and its offset.
use vstd::prelude::*;

use crate::command::{lemma_prefix_len_marker, lemma_prefix_marker_unique, prefix_len_where,
    prefix_marker};
use crate::errors::ExecutionError;
use crate::executor::{result_matches, ExecutionResult, SpecOutcome};
use crate::numbers::{dec_bytes, dec_value, push_dec_u64, parse_u8, parse_usize, strip_plus,
    valid_uint_literal};
use crate::sessionstate::{DataAddr, Ipv4, SessionState, StateModel};
use crate::text::{ascii_bytes_to_string, ascii_str_bytes, bytes_of_chars, chars_of};

verus! {

/// The body of the PASV reply: an equals sign, then the four address
/// octets and the two port halves, in decimal, separated by commas.
pub open spec fn spec_pasv_fields(ip: Ipv4, port: u16) -> Seq<u8> {
    seq![61u8] + dec_bytes(ip.a as int) + seq![44u8] + dec_bytes(ip.b as int) + seq![44u8]
        + dec_bytes(ip.c as int) + seq![44u8] + dec_bytes(ip.d as int) + seq![44u8] + dec_bytes(
        port as int / 256,
    ) + seq![44u8] + dec_bytes(port as int % 256)
}

/// What PASV answers, given the port of the listener the caller has
/// just bound: its address on the wire, with any active-mode target
/// dropped. A failed bind is reported without touching the session.
pub open spec fn spec_pasv(m: StateModel, port: Option<u16>) -> SpecOutcome {
    match port {
        Some(p) => SpecOutcome {
            status: 227,
            message: chars_of(spec_pasv_fields(m.local_ip, p)),
            new_state: Some(StateModel { data_listener: Some(p), port_ip: None, ..m }),
        },
        None => SpecOutcome {
            status: 425,
            message: "Can't open data connection."@,
            new_state: None,
        },
    }
}

/// PASV answers with the listener the caller has just bound.
pub fn pasv_command_executor(state: &SessionState, _argument: &str, port: Option<u16>) -> (r:
    Result<ExecutionResult, ExecutionError>)
    ensures
        r matches Ok(res) && result_matches(res, spec_pasv(state@, port)),
{
    let p = match port {
        Some(p) => p,
        None => {
            return Ok(
                ExecutionResult {
                    status: 425,
                    message: "Can't open data connection.".to_owned(),
                    new_state: None,
                },
            );
        },
    };
    let ip = state.local_ip;
    let mut out: Vec<u8> = Vec::new();
    out.push(61);
    push_dec_u64(ip.a as u64, &mut out);
    out.push(44);
    push_dec_u64(ip.b as u64, &mut out);
    out.push(44);
    push_dec_u64(ip.c as u64, &mut out);
    out.push(44);
    push_dec_u64(ip.d as u64, &mut out);
    out.push(44);
    push_dec_u64((p / 256) as u64, &mut out);
    out.push(44);
    push_dec_u64((p % 256) as u64, &mut out);
    proof {
        assert(out@ =~= spec_pasv_fields(ip, p));
        crate::numbers::lemma_dec_bytes_ascii(ip.a as int);
        crate::numbers::lemma_dec_bytes_ascii(ip.b as int);
        crate::numbers::lemma_dec_bytes_ascii(ip.c as int);
        crate::numbers::lemma_dec_bytes_ascii(ip.d as int);
        crate::numbers::lemma_dec_bytes_ascii(p as int / 256);
        crate::numbers::lemma_dec_bytes_ascii(p as int % 256);
    }
    let message = ascii_bytes_to_string(out);
    let mut new_state = state.clone();
    new_state.data_listener = Some(p);
    new_state.port_ip = None;
    Ok(ExecutionResult { status: 227, message, new_state: Some(new_state) })
}

/// Where the first comma splits a token.
pub open spec fn comma_pos(s: Seq<u8>) -> int {
    prefix_len_where(s, |b: u8| b != 44)
}

/// The comma-separated pieces of a token; an empty token is one empty
/// piece.
pub open spec fn split_commas(s: Seq<u8>) -> Seq<Seq<u8>>
    decreases s.len(),
    when s.len() >= 0
    via split_commas_decreases
{
    if comma_pos(s) == s.len() {
        seq![s]
    } else {
        seq![s.take(comma_pos(s))] + split_commas(s.skip(comma_pos(s) + 1))
    }
}

#[via_fn]
proof fn split_commas_decreases(s: Seq<u8>) {
    lemma_prefix_len_marker(s, |b: u8| b != 44);
}

/// A piece that reads as one unsigned byte.
pub open spec fn piece_ok(p: Seq<u8>) -> bool {
    valid_uint_literal(p) && dec_value(strip_plus(p)) <= 255
}

/// The value of such a piece.
pub open spec fn piece_value(p: Seq<u8>) -> int {
    dec_value(strip_plus(p))
}

/// How many pieces read as bytes before the first that does not.
pub open spec fn ok_prefix(pieces: Seq<Seq<u8>>) -> int
    decreases pieces.len(),
{
    if pieces.len() == 0 || !piece_ok(pieces[0]) {
        0
    } else {
        1 + ok_prefix(pieces.drop_first())
    }
}

/// The address and port a PORT argument names: the argument must be
/// exactly six byte-valued comma-separated pieces, with nothing before,
/// between or after them.
pub open spec fn spec_port_parse(s: Seq<u8>) -> Option<DataAddr> {
    let ps = split_commas(s);
    if ps.len() == 6 && ok_prefix(ps) == 6 {
        Some(
            DataAddr {
                ip: Ipv4 {
                    a: piece_value(ps[0]) as u8,
                    b: piece_value(ps[1]) as u8,
                    c: piece_value(ps[2]) as u8,
                    d: piece_value(ps[3]) as u8,
                },
                port: (piece_value(ps[4]) * 256 + piece_value(ps[5])) as u16,
            },
        )
    } else {
        None
    }
}

/// Reads the six byte-valued pieces of a PORT argument; an argument
/// with any other shape, a seventh piece or a piece that is no byte
/// among them, yields nothing.
fn parse_port_fields(s: &[u8]) -> (r: Option<Vec<u8>>)
    ensures
        (r is Some) == (split_commas(s@).len() == 6 && ok_prefix(split_commas(s@)) == 6),
        r matches Some(v) ==> v@.len() == 6 && forall|k: int| 0 <= k < 6 ==> #[trigger] v@[k] as int
            == piece_value(split_commas(s@)[k]),
    decreases s@.len(),
{
    let mut vals: Vec<u8> = Vec::new();
    let mut pos: usize = 0;
    let ghost pieces = split_commas(s@);
    let mut done = false;
    proof {
        assert(s@.skip(0) =~= s@);
        lemma_ok_prefix_nonneg(pieces);
    }
    while !done
        invariant
            pos <= s@.len(),
            vals@.len() <= 6,
            !done ==> ({
                &&& split_commas(s@.skip(pos as int)).len() >= 1
                &&& ok_prefix(pieces) == vals@.len() + ok_prefix(split_commas(s@.skip(pos as int)))
                &&& pieces.len() == vals@.len() + split_commas(s@.skip(pos as int)).len()
                &&& forall|k: int| vals@.len() <= k < pieces.len() ==> #[trigger] pieces[k]
                    == split_commas(s@.skip(pos as int))[k - vals@.len()]
            }),
            done ==> ok_prefix(pieces) == vals@.len() && pieces.len() == vals@.len(),
            pieces == split_commas(s@),
            forall|k: int| 0 <= k < vals@.len() ==> #[trigger] vals@[k] as int == piece_value(
                pieces[k],
            ),
        decreases s@.len() - pos + (if done {
            0int
        } else {
            1int
        }),
    {
        if vals.len() == 6 {
            return None;
        }
        let next = scan_comma(s, pos);
        let ghost rest = s@.skip(pos as int);
        proof {
            lemma_split_head(rest, next - pos);
            assert(rest.take(next - pos) =~= s@.subrange(pos as int, next as int));
        }
        let piece = slice_range(s, pos, next);
        match parse_u8(piece.as_slice()) {
            Some(v) => {
                proof {
                    if next == s@.len() {
                        assert(rest.take(next - pos) =~= rest);
                    }
                    assert(piece_ok(split_commas(rest)[0]));
                    lemma_ok_prefix_nonneg(split_commas(rest).drop_first());
                }
                vals.push(v);
                if next == s.len() {
                    proof {
                        assert(split_commas(rest) =~= seq![rest]);
                        assert(split_commas(rest).drop_first().len() == 0);
                        assert(ok_prefix(split_commas(rest)) == 1);
                    }
                    done = true;
                } else {
                    proof {
                        assert(rest.skip(next - pos + 1) =~= s@.skip(next + 1));
                        assert(split_commas(rest).drop_first() =~= split_commas(
                            s@.skip(next + 1),
                        ));
                    }
                    pos = next + 1;
                }
            },
            None => {
                proof {
                    assert(!piece_ok(split_commas(rest)[0]));
                    assert(ok_prefix(split_commas(rest)) == 0);
                    lemma_ok_prefix_nonneg(pieces);
                }
                return None;
            },
        }
    }
    if vals.len() == 6 {
        Some(vals)
    } else {
        None
    }
}

/// A count of pieces is never negative.
proof fn lemma_ok_prefix_nonneg(pieces: Seq<Seq<u8>>)
    ensures
        ok_prefix(pieces) >= 0,
    decreases pieces.len(),
{
    if pieces.len() > 0 && piece_ok(pieces[0]) {
        lemma_ok_prefix_nonneg(pieces.drop_first());
    }
}

/// The first piece of a token is its prefix up to the first comma.
proof fn lemma_split_head(t: Seq<u8>, i: int)
    requires
        prefix_marker(t, |b: u8| b != 44, i),
    ensures
        comma_pos(t) == i,
        split_commas(t) == if i == t.len() {
            seq![t]
        } else {
            seq![t.take(i)] + split_commas(t.skip(i + 1))
        },
{
    lemma_prefix_len_marker(t, |b: u8| b != 44);
    lemma_prefix_marker_unique(t, |b: u8| b != 44, i, comma_pos(t));
}

/// Finds the first comma at or after `pos`.
fn scan_comma(s: &[u8], pos: usize) -> (r: usize)
    requires
        pos <= s@.len(),
    ensures
        pos <= r <= s@.len(),
        prefix_marker(s@.skip(pos as int), |b: u8| b != 44, r - pos),
{
    let mut i: usize = pos;
    while i < s.len()
        invariant
            pos <= i <= s@.len(),
            forall|j: int| pos <= j < i ==> #[trigger] s@[j] != 44,
        decreases s@.len() - i,
    {
        if s[i] == 44 {
            proof {
                assert forall|j: int| 0 <= j < i - pos implies (|b: u8| b != 44)(
                    #[trigger] s@.skip(pos as int)[j],
                ) by {
                    assert(s@.skip(pos as int)[j] == s@[j + pos]);
                }
                assert(s@.skip(pos as int)[i - pos] == s@[i as int]);
            }
            return i;
        }
        i = i + 1;
    }
    proof {
        assert forall|j: int| 0 <= j < i - pos implies (|b: u8| b != 44)(
            #[trigger] s@.skip(pos as int)[j],
        ) by {
            assert(s@.skip(pos as int)[j] == s@[j + pos]);
        }
    }
    i
}

/// Copies a range of a slice.
fn slice_range(s: &[u8], from: usize, to: usize) -> (r: Vec<u8>)
    requires
        from <= to <= s@.len(),
    ensures
        r@ == s@.subrange(from as int, to as int),
{
    let mut out: Vec<u8> = Vec::new();
    let mut i: usize = from;
    while i < to
        invariant
            from <= i <= to <= s@.len(),
            out@ =~= s@.subrange(from as int, i as int),
        decreases to - i,
    {
        out.push(s[i]);
        proof {
            assert(out@ =~= s@.subrange(from as int, i + 1));
        }
        i = i + 1;
    }
    out
}

/// What PORT answers.
pub open spec fn spec_port(m: StateModel, arg: Seq<char>) -> SpecOutcome {
    match spec_port_parse(bytes_of_chars(arg)) {
        Some(addr) => SpecOutcome {
            status: 200,
            message: "Okay."@,
            new_state: Some(StateModel { port_ip: Some(addr), data_listener: None, ..m }),
        },
        None => SpecOutcome { status: 501, message: "Invalid argument."@, new_state: None },
    }
}

/// PORT stores the named target and shuts any passive listener down.
pub fn port_command_executor(state: &SessionState, argument: &str) -> (r: Result<
    ExecutionResult,
    ExecutionError,
>)
    requires
        argument.is_ascii(),
    ensures
        r matches Ok(res) && result_matches(res, spec_port(state@, argument@)),
{
    let bytes = ascii_str_bytes(argument);
    proof {
        crate::text::lemma_bytes_chars_inverse(bytes@);
    }
    let vals = match parse_port_fields(bytes.as_slice()) {
        Some(vals) => vals,
        None => {
            return Ok(invalid_format());
        },
    };
    let ip = Ipv4 { a: vals[0], b: vals[1], c: vals[2], d: vals[3] };
    let port: u16 = (vals[4] as u16) * 256 + (vals[5] as u16);
    let port_ip = DataAddr { ip, port };
    let mut new_state = state.clone();
    new_state.port_ip = Some(port_ip);
    new_state.data_listener = None;
    Ok(ExecutionResult { status: 200, message: "Okay.".to_owned(), new_state: Some(new_state) })
}

/// The PORT rejection.
fn invalid_format() -> (r: ExecutionResult)
    ensures
        r.status == 501,
        r.message@ == "Invalid argument."@,
        r.new_state is None,
{
    ExecutionResult { status: 501, message: "Invalid argument.".to_owned(), new_state: None }
}

/// The offset a REST argument asks for: none means zero.
pub open spec fn spec_rest_pos(arg: Seq<char>) -> Option<int> {
    if arg.len() == 0 {
        Some(0)
    } else if valid_uint_literal(bytes_of_chars(arg)) && dec_value(strip_plus(bytes_of_chars(arg)))
        <= usize::MAX {
        Some(dec_value(strip_plus(bytes_of_chars(arg))))
    } else {
        None
    }
}

/// The REST acknowledgement text.
pub open spec fn spec_rest_message(pos: int) -> Seq<char> {
    "Start position set to "@ + chars_of(dec_bytes(pos)) + "."@
}

/// What REST answers: a new state comes back only when the position
/// changed.
pub open spec fn spec_rest(m: StateModel, arg: Seq<char>) -> SpecOutcome {
    match spec_rest_pos(arg) {
        Some(pos) => SpecOutcome {
            status: 350,
            message: spec_rest_message(pos),
            new_state: if pos == m.file_offset {
                None
            } else {
                Some(StateModel { file_offset: pos, ..m })
            },
        },
        None => SpecOutcome { status: 501, message: "Invalid parameter."@, new_state: None },
    }
}

/// REST stores the start position for the next transfer.
pub fn rest_command_executor(state: &SessionState, argument: &str) -> (r: Result<
    ExecutionResult,
    ExecutionError,
>)
    requires
        argument.is_ascii(),
    ensures
        r matches Ok(res) && result_matches(res, spec_rest(state@, argument@)),
{
    let bytes = ascii_str_bytes(argument);
    proof {
        crate::text::lemma_bytes_chars_inverse(bytes@);
    }
    let pos: usize = if bytes.len() == 0 {
        0
    } else {
        match parse_usize(bytes.as_slice()) {
            Some(pos) => pos,
            None => {
                return Ok(invalid_parameter());
            },
        }
    };
    proof {
        reveal_strlit("Start position set to ");
        reveal_strlit(".");
    }
    let mut message = ascii_str_bytes("Start position set to ");
    push_dec_u64(pos as u64, &mut message);
    message.push(46);
    proof {
        crate::numbers::lemma_dec_bytes_ascii(pos as int);
        assert(chars_of(message@) =~= spec_rest_message(pos as int));
    }
    let message = ascii_bytes_to_string(message);
    let mut result = ExecutionResult { status: 350, message, new_state: None };
    if pos != state.file_offset {
        let mut new_state = state.clone();
        new_state.file_offset = pos;
        result.new_state = Some(new_state);
    }
    Ok(result)
}

/// The REST rejection.
fn invalid_parameter() -> (r: ExecutionResult)
    ensures
        r.status == 501,
        r.message@ == "Invalid parameter."@,
        r.new_state is None,
{
    ExecutionResult { status: 501, message: "Invalid parameter.".to_owned(), new_state: None }
}

} // verus!
