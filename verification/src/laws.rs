//! The protocol laws the library keeps, each stated once over the spec
//! functions its contracts use, and proved. The laws that belong to a
//! single function stand as its `ensures` instead: the parser's length
//! cap and its refusal of bytes outside ASCII are clauses of
//! [`crate::command::spec_parse`], and what every data phase clears is
//! the contract of [`crate::session::finish_data_phase`].
use vstd::prelude::*;

use crate::command::{
    ctl_run, is_ctl, is_letter, lemma_prefix_len_marker, lemma_prefix_marker_unique,
    lemma_suffix_len_marker, lemma_suffix_marker_unique, letter_run, prefix_marker, spec_arg,
    spec_parse, suffix_marker,
};
use crate::config;
use crate::executor::path::{spec_cwd, spec_cwd_target, spec_pwd};
use crate::executor::{spec_execute, AnswerModel};
use crate::paths::{lemma_quote_round_trip, replace_char, spec_join};
use crate::sessionstate::{state_wf, StateModel};
use crate::text::{
    ascii_bytes, bytes_of_chars, chars_of, lemma_chars_bytes_inverse, upper_char, upper_chars,
};
use crate::verb::{lemma_verb_name_parses, lemma_verb_names_wf, verb_name, Verb};

verus! {

/// The wire form of a command with an argument: the verb's name, a
/// space, the argument, then CRLF.
pub open spec fn spec_command_line(v: Verb, a: Seq<char>) -> Seq<u8> {
    bytes_of_chars(verb_name(v)) + seq![32u8] + bytes_of_chars(a) + seq![13u8, 10u8]
}

/// The wire form of a command without an argument.
pub open spec fn spec_bare_command_line(v: Verb) -> Seq<u8> {
    bytes_of_chars(verb_name(v)) + seq![13u8, 10u8]
}

/// A verb's name parses as itself: its letters are upper case already.
proof fn lemma_name_self_parse(v: Verb)
    ensures
        crate::verb::spec_verb_of(verb_name(v)) == Some(v),
        vstd::utf8::is_ascii_chars(verb_name(v)),
{
    lemma_verb_names_wf(v);
    let nm = verb_name(v);
    assert forall|i: int| 0 <= i < nm.len() implies '\0' <= #[trigger] nm[i] <= '\u{7f}' by {
        assert('A' <= nm[i] <= 'Z');
    }
    assert(upper_chars(nm) =~= nm) by {
        assert forall|i: int| 0 <= i < nm.len() implies #[trigger] upper_chars(nm)[i] == nm[i] by {
            assert(upper_chars(nm)[i] == upper_char(nm[i]));
            assert('A' <= nm[i] <= 'Z');
        }
    }
    lemma_verb_name_parses(nm, v);
}

/// Parse round trip: rendering any verb with an argument that is ASCII,
/// carries no carriage return or line feed, does not end in a control
/// character, and fits the line cap, then parsing the rendered line,
/// gives the verb and the argument back; a bare verb parses back with an
/// empty argument.
pub proof fn lemma_parse_round_trip(v: Verb, a: Seq<char>)
    requires
        vstd::utf8::is_ascii_chars(a),
        forall|i: int| 0 <= i < a.len() ==> a[i] != '\r' && #[trigger] a[i] != '\n',
        a.len() == 0 || !is_ctl(bytes_of_chars(a).last()),
        verb_name(v).len() + a.len() + 3 <= config::MAX_LINE_LENGTH,
    ensures
        spec_parse(spec_command_line(v, a)) == Ok::<(Verb, Seq<char>), Seq<char>>((v, a)),
        spec_parse(spec_bare_command_line(v)) == Ok::<(Verb, Seq<char>), Seq<char>>(
            (v, Seq::<char>::empty()),
        ),
{
    lemma_verb_names_wf(v);
    lemma_name_self_parse(v);
    let nm = verb_name(v);
    let n = nm.len() as int;
    let nb = bytes_of_chars(nm);
    let ab = bytes_of_chars(a);
    lemma_chars_bytes_inverse(nm);
    lemma_chars_bytes_inverse(a);

    let s = spec_command_line(v, a);
    assert(s.len() == n + a.len() + 3);
    assert forall|i: int| 0 <= i < s.len() implies #[trigger] s[i] < 128 && (i < n ==> is_letter(
        s[i],
    )) && (i == n ==> s[i] == 32) && (n < i < s.len() - 2 ==> s[i] == ab[i - n - 1]) && (i == s.len()
        - 2 ==> s[i] == 13) && (i == s.len() - 1 ==> s[i] == 10) by {
        if i < n {
            assert(s[i] == nb[i]);
            assert(nb[i] == (nm[i] as u8));
            assert('A' <= nm[i] <= 'Z');
        } else if i == n {
        } else if i < s.len() - 2 {
            assert(s[i] == ab[i - n - 1]);
            assert(ab[i - n - 1] == (a[i - n - 1] as u8));
            assert('\0' <= a[i - n - 1] <= '\u{7f}');
        }
    }
    assert(ascii_bytes(s));
    assert(prefix_marker(s, |b: u8| is_letter(b), n));
    lemma_prefix_len_marker(s, |b: u8| is_letter(b));
    lemma_prefix_marker_unique(s, |b: u8| is_letter(b), n, letter_run(s));
    assert forall|j: int| n + 1 <= j < s.len() - 1 implies #[trigger] s[j] != 10 by {
        if j < s.len() - 2 {
            assert(s[j] == (a[j - n - 1] as u8));
            if s[j] == 10 {
                assert(a[j - n - 1] == '\n') by {
                    assert('\0' <= a[j - n - 1] <= '\u{7f}');
                }
            }
        }
    }
    assert(crate::command::valid_line_format(s));
    assert(suffix_marker(s, |b: u8| is_ctl(b), 2)) by {
        assert(s[s.len() - 1] == 10 && is_ctl(10));
        assert(s[s.len() - 2] == 13 && is_ctl(13));
        if a.len() == 0 {
            assert(s[s.len() - 3] == 32);
        } else {
            assert(s[s.len() - 3] == ab[a.len() - 1]);
            assert(ab.last() == ab[a.len() - 1]);
        }
    }
    lemma_suffix_len_marker(s, |b: u8| is_ctl(b));
    lemma_suffix_marker_unique(s, |b: u8| is_ctl(b), 2, ctl_run(s));
    assert(s.subrange(0, n) =~= nb);
    assert(chars_of(s.subrange(0, n)) == nm);
    assert(spec_arg(s) =~= ab);
    assert(chars_of(spec_arg(s)) == a);

    let t = spec_bare_command_line(v);
    assert(t.len() == n + 2);
    assert forall|i: int| 0 <= i < t.len() implies #[trigger] t[i] < 128 && (i < n ==> is_letter(
        t[i],
    )) && (i == t.len() - 2 ==> t[i] == 13) && (i == t.len() - 1 ==> t[i] == 10) by {
        if i < n {
            assert(t[i] == nb[i]);
            assert(nb[i] == (nm[i] as u8));
            assert('A' <= nm[i] <= 'Z');
        }
    }
    assert(ascii_bytes(t));
    assert(prefix_marker(t, |b: u8| is_letter(b), n));
    lemma_prefix_len_marker(t, |b: u8| is_letter(b));
    lemma_prefix_marker_unique(t, |b: u8| is_letter(b), n, letter_run(t));
    assert(crate::command::valid_line_format(t));
    assert(suffix_marker(t, |b: u8| is_ctl(b), 2)) by {
        assert(t[t.len() - 1] == 10 && is_ctl(10));
        assert(t[t.len() - 2] == 13 && is_ctl(13));
        assert(t[t.len() - 3] == (nm[n - 1] as u8));
        assert('A' <= nm[n - 1] <= 'Z');
    }
    lemma_suffix_len_marker(t, |b: u8| is_ctl(b));
    lemma_suffix_marker_unique(t, |b: u8| is_ctl(b), 2, ctl_run(t));
    assert(t.subrange(0, n) =~= nb);
    assert(chars_of(t.subrange(0, n)) == nm);
    assert(chars_of(spec_arg(t)) =~= Seq::<char>::empty());
}

/// Case insensitivity: tokens that agree letter for letter up to case
/// name the same verb. Stated over the parser's verb lookup, which the
/// parse specification applies to the verb token of every line.
pub proof fn lemma_parse_case_insensitive(t1: Seq<char>, t2: Seq<char>)
    requires
        upper_chars(t1) == upper_chars(t2),
    ensures
        crate::verb::spec_verb_of(t1) == crate::verb::spec_verb_of(t2),
{
    crate::verb::lemma_verb_case_insensitive(t1, t2);
}

/// State monotonicity: one executed command never lowers the greeting
/// flag, and the state it leaves stays well formed, so an authenticated
/// session always names its user. The greeting flag itself rises in
/// [`crate::session::handle_session_not_greeted`] alone.
pub proof fn lemma_step_monotone(v: Verb, m: StateModel, arg: Seq<char>, a: AnswerModel)
    requires
        state_wf(m),
    ensures
        ({
            let out = spec_execute(v, m, arg, a);
            let next = StateModel {
                previous_command: Some(v),
                ..match out.new_state {
                    Some(s) => s,
                    None => m,
                }
            };
            &&& next.has_greeted == m.has_greeted
            &&& state_wf(next)
            &&& (next.is_authenticated ==> next.user is Some)
        }),
{
    crate::executor::lemma_execute_preserves(v, m, arg, a);
}

/// PORT and PASV exclusivity: a state PORT leaves carries no passive
/// listener, and a state PASV leaves carries no active target.
pub proof fn lemma_port_pasv_exclusive(m: StateModel, arg: Seq<char>, a: AnswerModel)
    ensures
        spec_execute(Verb::PORT, m, arg, a).new_state matches Some(s) ==> s.data_listener is None,
        spec_execute(Verb::PASV, m, arg, a).new_state matches Some(s) ==> s.port_ip is None,
{
}

/// PWD and CWD agree: the text PWD printed, unquoted and decoded, asks
/// the filesystem for the working directory itself, and taking that
/// resolution leaves the session exactly as it stood, so the PWD that
/// follows prints the original value. The quoting is reversible because
/// a well-formed working directory carries no NUL of its own.
pub proof fn lemma_pwd_cwd_round_trip(m: StateModel)
    requires
        state_wf(m),
    ensures
        ({
            let quoted = spec_pwd(m).message;
            let echoed = quoted.subrange(1, quoted.len() - 1);
            spec_cwd_target(m.name_prefix, echoed) == m.name_prefix
        }),
        spec_cwd(m, Some(m.name_prefix)).new_state == Some(m),
{
    let p = m.name_prefix;
    let quoted = spec_pwd(m).message;
    let echoed = quoted.subrange(1, quoted.len() - 1);
    reveal_strlit("\"");
    assert(echoed =~= replace_char(p, '\n', '\0'));
    lemma_quote_round_trip(p);
    assert(spec_cwd_target(p, echoed) == spec_join(p, p));
    assert(spec_join(p, p) == p);
    assert(StateModel { name_prefix: p, ..m } == m);
}

} // verus!
