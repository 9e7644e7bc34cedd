//! The command parser: from a raw line of bytes to a verb and argument.
use vstd::prelude::*;

use crate::config;
use crate::errors::CommandError;
use crate::text::{ascii_bytes, ascii_bytes_to_string, chars_of};
use crate::verb::{spec_verb_of, Verb};

verus! {

/// An ASCII letter.
pub open spec fn is_letter(b: u8) -> bool {
    (65 <= b <= 90) || (97 <= b <= 122)
}

/// An ASCII control character.
pub open spec fn is_ctl(b: u8) -> bool {
    b < 32 || b == 127
}

/// A byte that ends the verb token: space, carriage return or line feed.
pub open spec fn is_delim(b: u8) -> bool {
    b == 32 || b == 13 || b == 10
}

/// Length of the longest prefix whose bytes all satisfy `p`.
pub open spec fn prefix_len_where(s: Seq<u8>, p: spec_fn(u8) -> bool) -> int
    decreases s.len(),
{
    if s.len() == 0 || !p(s[0]) {
        0
    } else {
        1 + prefix_len_where(s.drop_first(), p)
    }
}

/// Length of the longest suffix whose bytes all satisfy `p`.
pub open spec fn suffix_len_where(s: Seq<u8>, p: spec_fn(u8) -> bool) -> int
    decreases s.len(),
{
    if s.len() == 0 || !p(s.last()) {
        0
    } else {
        1 + suffix_len_where(s.drop_last(), p)
    }
}

/// `n` marks the end of the longest prefix satisfying `p`.
pub open spec fn prefix_marker(s: Seq<u8>, p: spec_fn(u8) -> bool, n: int) -> bool {
    &&& 0 <= n <= s.len()
    &&& forall|i: int| 0 <= i < n ==> p(#[trigger] s[i])
    &&& n < s.len() ==> !p(s[n])
}

/// `c` marks the length of the longest suffix satisfying `p`.
pub open spec fn suffix_marker(s: Seq<u8>, p: spec_fn(u8) -> bool, c: int) -> bool {
    &&& 0 <= c <= s.len()
    &&& forall|i: int| s.len() - c <= i < s.len() ==> p(#[trigger] s[i])
    &&& c < s.len() ==> !p(s[s.len() - c - 1])
}

/// The longest prefix length carries its own marker.
pub proof fn lemma_prefix_len_marker(s: Seq<u8>, p: spec_fn(u8) -> bool)
    ensures
        prefix_marker(s, p, prefix_len_where(s, p)),
    decreases s.len(),
{
    if s.len() > 0 && p(s[0]) {
        lemma_prefix_len_marker(s.drop_first(), p);
        let n = prefix_len_where(s, p);
        assert forall|i: int| 0 <= i < n implies p(#[trigger] s[i]) by {
            if i > 0 {
                assert(s.drop_first()[i - 1] == s[i]);
            }
        }
        if n < s.len() {
            assert(s.drop_first()[n - 1] == s[n]);
        }
    }
}

/// Only one position can mark the longest prefix.
pub proof fn lemma_prefix_marker_unique(s: Seq<u8>, p: spec_fn(u8) -> bool, a: int, b: int)
    requires
        prefix_marker(s, p, a),
        prefix_marker(s, p, b),
    ensures
        a == b,
{
}

/// The longest suffix length carries its own marker.
pub proof fn lemma_suffix_len_marker(s: Seq<u8>, p: spec_fn(u8) -> bool)
    ensures
        suffix_marker(s, p, suffix_len_where(s, p)),
    decreases s.len(),
{
    if s.len() > 0 && p(s.last()) {
        lemma_suffix_len_marker(s.drop_last(), p);
        let c = suffix_len_where(s, p);
        assert forall|i: int| s.len() - c <= i < s.len() implies p(#[trigger] s[i]) by {
            if i < s.len() - 1 {
                assert(s.drop_last()[i] == s[i]);
            }
        }
        if c < s.len() {
            assert(s.drop_last()[s.len() - c - 1] == s[s.len() - c - 1]);
        }
    }
}

/// Only one length can mark the longest suffix.
pub proof fn lemma_suffix_marker_unique(s: Seq<u8>, p: spec_fn(u8) -> bool, a: int, b: int)
    requires
        suffix_marker(s, p, a),
        suffix_marker(s, p, b),
    ensures
        a == b,
{
    if a < b {
        assert(p(s[s.len() - a - 1]));
    }
    if b < a {
        assert(p(s[s.len() - b - 1]));
    }
}

/// Length of the leading run of letters.
pub open spec fn letter_run(s: Seq<u8>) -> int {
    prefix_len_where(s, |b: u8| is_letter(b))
}

/// Position of the first space, carriage return or line feed.
pub open spec fn delim_pos(s: Seq<u8>) -> int {
    prefix_len_where(s, |b: u8| !is_delim(b))
}

/// Length of the trailing run of control characters.
pub open spec fn ctl_run(s: Seq<u8>) -> int {
    suffix_len_where(s, |b: u8| is_ctl(b))
}

/// What may follow the verb letters: nothing, a line ending, or a space
/// and an argument whose only line feed stands last.
pub open spec fn line_tail_ok(s: Seq<u8>, n: int) -> bool {
    ||| n == s.len()
    ||| (s[n] == 13 && (n + 1 == s.len() || (s[n + 1] == 10 && n + 2 == s.len())))
    ||| (s[n] == 10 && n + 1 == s.len())
    ||| (s[n] == 32 && forall|i: int| n + 1 <= i < s.len() - 1 ==> #[trigger] s[i] != 10)
}

/// The accepted line shape: one or more letters, then an optional
/// argument after a space, then an optional line ending.
pub open spec fn valid_line_format(s: Seq<u8>) -> bool {
    letter_run(s) >= 1 && line_tail_ok(s, letter_run(s))
}

/// The argument bytes that follow a verb of length `n`: everything after
/// the separating space, with the trailing run of control bytes removed.
pub open spec fn spec_arg_at(s: Seq<u8>, n: int) -> Seq<u8> {
    if s.len() <= n + ctl_run(s) {
        Seq::empty()
    } else {
        s.subrange(n + 1, s.len() - ctl_run(s))
    }
}

/// The argument bytes of a line, after its run of verb letters.
pub open spec fn spec_arg(s: Seq<u8>) -> Seq<u8> {
    spec_arg_at(s, letter_run(s))
}

/// Everything the parser says about a line: the verb and argument it
/// yields, or the exact message it rejects the line with.
pub open spec fn spec_parse(s: Seq<u8>) -> Result<(Verb, Seq<char>), Seq<char>> {
    if s.len() > config::MAX_LINE_LENGTH {
        Err("Command too long, max length is 1024 bytes"@)
    } else if !ascii_bytes(s) {
        Err("Command contains non-ASCII characters"@)
    } else if !valid_line_format(s) {
        Err("Invalid command format"@)
    } else {
        let token = chars_of(s.subrange(0, letter_run(s)));
        match spec_verb_of(token) {
            None => Err("Unknown verb: "@ + token),
            Some(v) => Ok((v, chars_of(spec_arg(s)))),
        }
    }
}

/// One parsed command line.
#[derive(Debug)]
pub struct Command {
    pub verb: Verb,
    pub arg: String,
}

/// Parses a raw command line.
pub fn parse(line: &[u8]) -> (r: Result<Command, CommandError>)
    ensures
        r matches Ok(c) ==> spec_parse(line@) matches Ok(p) && c.verb == p.0 && c.arg@ == p.1,
        r matches Err(e) ==> spec_parse(line@) matches Err(m) && e.0@ == m,
{
    Command::new_from_buffer(line)
}

/// Rejects a line longer than the configured cap.
pub fn validate_incoming_buffer_length(buffer: &[u8]) -> (r: Result<(), CommandError>)
    ensures
        r is Ok <==> buffer@.len() <= config::MAX_LINE_LENGTH,
        r matches Err(e) ==> e.0@ == "Command too long, max length is 1024 bytes"@,
{
    if buffer.len() > config::MAX_LINE_LENGTH {
        return Err(CommandError("Command too long, max length is 1024 bytes".to_owned()));
    }
    Ok(())
}

/// Reads an ASCII buffer as text; anything outside ASCII is rejected.
pub fn utf8_buffer_to_string(buffer: &[u8]) -> (r: Result<String, CommandError>)
    ensures
        r is Ok <==> ascii_bytes(buffer@),
        r matches Ok(s) ==> s@ == chars_of(buffer@),
        r matches Err(e) ==> e.0@ == "Command contains non-ASCII characters"@,
{
    let mut i: usize = 0;
    while i < buffer.len()
        invariant
            i <= buffer@.len(),
            forall|j: int| 0 <= j < i ==> buffer@[j] < 128,
        decreases buffer@.len() - i,
    {
        if buffer[i] >= 128 {
            return Err(CommandError("Command contains non-ASCII characters".to_owned()));
        }
        i = i + 1;
    }
    let mut v: Vec<u8> = Vec::new();
    v.extend_from_slice(buffer);
    Ok(ascii_bytes_to_string(v))
}

/// Finds the end of the leading run of letters.
fn scan_letter_run(buffer: &[u8]) -> (n: usize)
    ensures
        n == letter_run(buffer@),
        n <= buffer@.len(),
{
    let mut i: usize = 0;
    while i < buffer.len()
        invariant
            i <= buffer@.len(),
            forall|j: int| 0 <= j < i ==> is_letter(#[trigger] buffer@[j]),
        decreases buffer@.len() - i,
    {
        let b = buffer[i];
        if !((65 <= b && b <= 90) || (97 <= b && b <= 122)) {
            proof {
                lemma_prefix_len_marker(buffer@, |x: u8| is_letter(x));
                lemma_prefix_marker_unique(
                    buffer@,
                    |x: u8| is_letter(x),
                    i as int,
                    letter_run(buffer@),
                );
            }
            return i;
        }
        i = i + 1;
    }
    proof {
        lemma_prefix_len_marker(buffer@, |x: u8| is_letter(x));
        lemma_prefix_marker_unique(buffer@, |x: u8| is_letter(x), i as int, letter_run(buffer@));
    }
    i
}

/// Finds the first space, carriage return or line feed.
fn scan_delim_pos(buffer: &[u8]) -> (n: usize)
    ensures
        n == delim_pos(buffer@),
        n <= buffer@.len(),
{
    let mut i: usize = 0;
    while i < buffer.len()
        invariant
            i <= buffer@.len(),
            forall|j: int| 0 <= j < i ==> !is_delim(#[trigger] buffer@[j]),
        decreases buffer@.len() - i,
    {
        let b = buffer[i];
        if b == 32 || b == 13 || b == 10 {
            proof {
                lemma_prefix_len_marker(buffer@, |x: u8| !is_delim(x));
                lemma_prefix_marker_unique(
                    buffer@,
                    |x: u8| !is_delim(x),
                    i as int,
                    delim_pos(buffer@),
                );
            }
            return i;
        }
        i = i + 1;
    }
    proof {
        lemma_prefix_len_marker(buffer@, |x: u8| !is_delim(x));
        lemma_prefix_marker_unique(buffer@, |x: u8| !is_delim(x), i as int, delim_pos(buffer@));
    }
    i
}

/// Finds the length of the trailing run of control characters.
fn scan_ctl_run(buffer: &[u8]) -> (c: usize)
    requires
        exists|i: int| 0 <= i < buffer@.len() && !is_ctl(#[trigger] buffer@[i]),
    ensures
        c == ctl_run(buffer@),
        c < buffer@.len(),
{
    let ghost witness = choose|i: int| 0 <= i < buffer@.len() && !is_ctl(#[trigger] buffer@[i]);
    let mut c: usize = 0;
    while c < buffer.len()
        invariant
            c <= buffer@.len(),
            forall|i: int|
                buffer@.len() - c <= i < buffer@.len() ==> is_ctl(#[trigger] buffer@[i]),
            0 <= witness < buffer@.len() && !is_ctl(buffer@[witness]),
        decreases buffer@.len() - c,
    {
        let b = buffer[buffer.len() - c - 1];
        if !(b < 32 || b == 127) {
            proof {
                lemma_suffix_len_marker(buffer@, |x: u8| is_ctl(x));
                lemma_suffix_marker_unique(buffer@, |x: u8| is_ctl(x), c as int, ctl_run(buffer@));
            }
            return c;
        }
        c = c + 1;
    }
    proof {
        assert(is_ctl(buffer@[witness]));
    }
    c
}

/// Checks the line against the accepted shape; assumes nothing about the
/// buffer and reports non-ASCII bytes first, as the parser does.
pub fn validate_incoming_buffer_format(buffer: &[u8]) -> (r: Result<(), CommandError>)
    ensures
        r is Ok <==> ascii_bytes(buffer@) && valid_line_format(buffer@),
        r matches Err(e) ==> e.0@ == if !ascii_bytes(buffer@) {
            "Command contains non-ASCII characters"@
        } else {
            "Invalid command format"@
        },
{
    let _text = match utf8_buffer_to_string(buffer) {
        Ok(t) => t,
        Err(e) => {
            return Err(e);
        },
    };
    let n = scan_letter_run(buffer);
    if n == 0 {
        return Err(CommandError("Invalid command format".to_owned()));
    }
    if n == buffer.len() {
        return Ok(());
    }
    let b = buffer[n];
    if b == 13 {
        if n + 1 == buffer.len() || (buffer[n + 1] == 10 && n + 2 == buffer.len()) {
            Ok(())
        } else {
            Err(CommandError("Invalid command format".to_owned()))
        }
    } else if b == 10 {
        if n + 1 == buffer.len() {
            Ok(())
        } else {
            Err(CommandError("Invalid command format".to_owned()))
        }
    } else if b == 32 {
        let mut i: usize = n + 1;
        while i < buffer.len() - 1
            invariant
                ascii_bytes(buffer@),
                n == letter_run(buffer@),
                1 <= n < buffer@.len(),
                buffer@[n as int] == 32,
                n + 1 <= i <= buffer@.len(),
                forall|j: int| n + 1 <= j < i ==> #[trigger] buffer@[j] != 10,
            decreases buffer@.len() - i,
        {
            if buffer[i] == 10 {
                return Err(CommandError("Invalid command format".to_owned()));
            }
            i = i + 1;
        }
        Ok(())
    } else {
        Err(CommandError("Invalid command format".to_owned()))
    }
}

/// Runs both validations, in the parser's order.
pub fn validate_incoming_buffer(buffer: &[u8]) -> (r: Result<(), CommandError>)
    ensures
        r is Ok <==> buffer@.len() <= config::MAX_LINE_LENGTH && ascii_bytes(buffer@)
            && valid_line_format(buffer@),
        r matches Err(e) ==> e.0@ == if buffer@.len() > config::MAX_LINE_LENGTH {
            "Command too long, max length is 1024 bytes"@
        } else if !ascii_bytes(buffer@) {
            "Command contains non-ASCII characters"@
        } else {
            "Invalid command format"@
        },
{
    match validate_incoming_buffer_length(buffer) {
        Ok(()) => validate_incoming_buffer_format(buffer),
        Err(e) => Err(e),
    }
}

/// Reads the verb token, everything up to the first space, carriage
/// return or line feed.
pub fn extract_verb(buffer: &[u8]) -> (r: Result<Verb, CommandError>)
    requires
        ascii_bytes(buffer@),
    ensures
        ({
            let token = chars_of(buffer@.subrange(0, delim_pos(buffer@)));
            &&& r matches Ok(v) ==> spec_verb_of(token) == Some(v)
            &&& r matches Err(e) ==> spec_verb_of(token) is None && e.0@ == "Unknown verb: "@
                + token
        }),
{
    let i = scan_delim_pos(buffer);
    let mut token: Vec<u8> = Vec::new();
    let mut j: usize = 0;
    while j < i
        invariant
            j <= i <= buffer@.len(),
            token@ =~= buffer@.subrange(0, j as int),
        decreases i - j,
    {
        token.push(buffer[j]);
        proof {
            assert(token@ =~= buffer@.subrange(0, j + 1));
        }
        j = j + 1;
    }
    let token_str = ascii_bytes_to_string(token);
    match Verb::from_str(token_str.as_str()) {
        Ok(verb) => Ok(verb),
        Err(err_str) => Err(CommandError(err_str)),
    }
}

/// Reads the argument that follows a verb of the given length: the bytes
/// after the separating space, minus the trailing control characters.
pub fn extract_argument(buffer: &[u8], verb_length: usize) -> (r: String)
    requires
        ascii_bytes(buffer@),
        exists|i: int| 0 <= i < buffer@.len() && !is_ctl(#[trigger] buffer@[i]),
    ensures
        r@ == chars_of(spec_arg_at(buffer@, verb_length as int)),
{
    let control_char_count = scan_ctl_run(buffer);
    if buffer.len() - control_char_count <= verb_length {
        proof {
            assert(chars_of(Seq::<u8>::empty()) =~= Seq::<char>::empty());
        }
        return String::new();
    }
    let end = buffer.len() - control_char_count;
    let mut arg: Vec<u8> = Vec::new();
    let mut j: usize = verb_length + 1;
    while j < end
        invariant
            verb_length + 1 <= j <= end <= buffer@.len(),
            arg@ =~= buffer@.subrange(verb_length + 1, j as int),
        decreases end - j,
    {
        arg.push(buffer[j]);
        proof {
            assert(arg@ =~= buffer@.subrange(verb_length + 1, j + 1));
        }
        j = j + 1;
    }
    ascii_bytes_to_string(arg)
}

/// On an accepted line the verb letters end at the first delimiter.
proof fn lemma_valid_line_delim(s: Seq<u8>)
    requires
        valid_line_format(s),
    ensures
        delim_pos(s) == letter_run(s),
{
    let n = letter_run(s);
    lemma_prefix_len_marker(s, |x: u8| is_letter(x));
    lemma_prefix_len_marker(s, |x: u8| !is_delim(x));
    assert forall|i: int| 0 <= i < n implies !is_delim(#[trigger] s[i]) by {
        assert(is_letter(s[i]));
    }
    assert(prefix_marker(s, |x: u8| !is_delim(x), n));
    lemma_prefix_marker_unique(s, |x: u8| !is_delim(x), n, delim_pos(s));
}

/// An accepted line holds a letter, which is no control character.
proof fn lemma_valid_line_has_non_ctl(s: Seq<u8>)
    requires
        valid_line_format(s),
    ensures
        exists|i: int| 0 <= i < s.len() && !is_ctl(#[trigger] s[i]),
{
    lemma_prefix_len_marker(s, |x: u8| is_letter(x));
    assert(is_letter(s[0]));
    assert(!is_ctl(s[0]));
}

impl Command {
    /// Parses a raw line: validation, then verb, then argument.
    pub fn new_from_buffer(buffer: &[u8]) -> (r: Result<Command, CommandError>)
        ensures
            r matches Ok(c) ==> spec_parse(buffer@) matches Ok(p) && c.verb == p.0 && c.arg@
                == p.1,
            r matches Err(e) ==> spec_parse(buffer@) matches Err(m) && e.0@ == m,
    {
        if let Err(e) = validate_incoming_buffer(buffer) {
            return Err(e);
        }
        proof {
            lemma_valid_line_delim(buffer@);
            lemma_valid_line_has_non_ctl(buffer@);
        }
        let n = scan_letter_run(buffer);
        let verb = match extract_verb(buffer) {
            Ok(v) => v,
            Err(e) => {
                return Err(e);
            },
        };
        let arg = extract_argument(buffer, n);
        Ok(Command { verb, arg })
    }
}

} // verus!
