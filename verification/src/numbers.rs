//! Decimal rendering and parsing of the unsigned numbers that appear on
//! the wire: status codes, ports, offsets and sizes.
use vstd::prelude::*;

use crate::text::{ascii_bytes, chars_of};

verus! {

/// The decimal digits of a non-negative number, most significant first.
pub open spec fn dec_bytes(n: int) -> Seq<u8>
    decreases n,
{
    if n < 10 {
        seq![(48 + if n >= 0 { n } else { 0 }) as u8]
    } else {
        dec_bytes(n / 10).push((48 + n % 10) as u8)
    }
}

/// The decimal digits of a non-negative number, as characters.
pub open spec fn dec_chars(n: int) -> Seq<char> {
    chars_of(dec_bytes(n))
}

/// Decimal digits are ASCII.
pub proof fn lemma_dec_bytes_ascii(n: int)
    ensures
        ascii_bytes(dec_bytes(n)),
        dec_bytes(n).len() >= 1,
    decreases n,
{
    if n >= 10 {
        lemma_dec_bytes_ascii(n / 10);
    }
}

/// Appends the decimal digits of `n` to `out`.
pub fn push_dec_u64(n: u64, out: &mut Vec<u8>)
    ensures
        final(out)@ == old(out)@ + dec_bytes(n as int),
    decreases n,
{
    let ghost prefix = out@;
    if n >= 10 {
        push_dec_u64(n / 10, out);
    }
    out.push(48 + (n % 10) as u8);
    proof {
        if n >= 10 {
            assert(out@ =~= prefix + dec_bytes(n as int));
        } else {
            assert(out@ =~= prefix + dec_bytes(n as int));
        }
    }
}

/// The decimal digits of a number, as text.
pub fn dec_u64_string(n: u64) -> (r: String)
    ensures
        r@ == dec_chars(n as int),
{
    let mut v: Vec<u8> = Vec::new();
    push_dec_u64(n, &mut v);
    proof {
        lemma_dec_bytes_ascii(n as int);
        assert(v@ =~= dec_bytes(n as int));
    }
    crate::text::ascii_bytes_to_string(v)
}

/// A decimal digit byte.
pub open spec fn is_digit(b: u8) -> bool {
    48 <= b <= 57
}

/// Every byte is a decimal digit.
pub open spec fn all_digits(s: Seq<u8>) -> bool {
    forall|i: int| 0 <= i < s.len() ==> is_digit(#[trigger] s[i])
}

/// The token with an optional leading plus sign removed.
pub open spec fn strip_plus(s: Seq<u8>) -> Seq<u8> {
    if s.len() > 0 && s[0] == 43 {
        s.drop_first()
    } else {
        s
    }
}

/// The token is an unsigned decimal literal: an optional plus sign, then
/// at least one digit and nothing else.
pub open spec fn valid_uint_literal(s: Seq<u8>) -> bool {
    strip_plus(s).len() >= 1 && all_digits(strip_plus(s))
}

/// The number written by a digit sequence.
pub open spec fn dec_value(s: Seq<u8>) -> int
    decreases s.len(),
{
    if s.len() == 0 {
        0
    } else {
        dec_value(s.drop_last()) * 10 + (s.last() - 48)
    }
}

/// Reading one more digit multiplies the value by ten and adds the digit.
proof fn lemma_dec_value_step(s: Seq<u8>, i: int)
    requires
        0 <= i < s.len(),
    ensures
        dec_value(s.take(i + 1)) == dec_value(s.take(i)) * 10 + (s[i] - 48),
{
    assert(s.take(i + 1).drop_last() =~= s.take(i));
    assert(s.take(i + 1).last() == s[i]);
}

/// A digit sequence writes a non-negative number.
proof fn lemma_dec_value_nonneg(s: Seq<u8>)
    requires
        all_digits(s),
    ensures
        dec_value(s) >= 0,
    decreases s.len(),
{
    if s.len() > 0 {
        assert forall|i: int| 0 <= i < s.drop_last().len() implies is_digit(
            #[trigger] s.drop_last()[i],
        ) by {
            assert(s.drop_last()[i] == s[i]);
        }
        lemma_dec_value_nonneg(s.drop_last());
        assert(s.last() >= 48);
    }
}

/// The value of a digit sequence never shrinks as it extends.
proof fn lemma_dec_value_monotone(s: Seq<u8>, i: int, j: int)
    requires
        0 <= i <= j <= s.len(),
        all_digits(s),
    ensures
        dec_value(s.take(i)) <= dec_value(s.take(j)),
    decreases j - i,
{
    if i < j {
        lemma_dec_value_step(s, j - 1);
        lemma_dec_value_monotone(s, i, j - 1);
        assert forall|k: int| 0 <= k < s.take(j - 1).len() implies is_digit(
            #[trigger] s.take(j - 1)[k],
        ) by {
            assert(s.take(j - 1)[k] == s[k]);
        }
        lemma_dec_value_nonneg(s.take(j - 1));
        assert(dec_value(s.take(j - 1)) * 10 + (s[j - 1] - 48) >= dec_value(s.take(j - 1)));
    }
}

/// Parses an unsigned decimal literal of digit bytes, exactly as large
/// as a `u64` allows.
pub fn parse_u64(s: &[u8]) -> (r: Option<u64>)
    ensures
        r is Some <==> valid_uint_literal(s@) && dec_value(strip_plus(s@)) <= u64::MAX,
        r matches Some(v) ==> v == dec_value(strip_plus(s@)),
{
    let start: usize = if s.len() > 0 && s[0] == 43 {
        1
    } else {
        0
    };
    let ghost t = strip_plus(s@);
    proof {
        assert(t =~= s@.subrange(start as int, s@.len() as int));
    }
    if s.len() == start {
        return None;
    }
    let mut acc: u64 = 0;
    let mut i: usize = start;
    while i < s.len()
        invariant
            start <= i <= s.len(),
            s.len() > start,
            t == strip_plus(s@),
            t == s@.subrange(start as int, s@.len() as int),
            all_digits(t.take(i - start)),
            acc == dec_value(t.take(i - start)),
        decreases s.len() - i,
    {
        let b = s[i];
        if b < 48 || b > 57 {
            proof {
                assert(t[i - start] == s@[i as int]);
                assert(!is_digit(t[i - start]));
                assert(!all_digits(t));
            }
            return None;
        }
        let d = b - 48;
        proof {
            assert(t.take(i - start + 1) =~= t.take(i - start).push(s@[i as int]));
            lemma_dec_value_step(t, i - start);
        }
        if acc > (u64::MAX - d as u64) / 10 {
            proof {
                assert(dec_value(t.take(i - start + 1)) > u64::MAX) by {
                    assert(acc * 10 + d > u64::MAX) by (nonlinear_arith)
                        requires
                            acc > (u64::MAX - d as u64) / 10,
                            0 <= d <= 9,
                            acc >= 0,
                    ;
                }
                if all_digits(t) && dec_value(t) <= u64::MAX {
                    lemma_dec_value_monotone(t, i - start + 1, t.len() as int);
                    assert(t.take(t.len() as int) =~= t);
                }
            }
            return None;
        }
        acc = acc * 10 + d as u64;
        i = i + 1;
    }
    proof {
        assert(t.take(t.len() as int) =~= t);
    }
    Some(acc)
}

/// Parses an unsigned decimal literal no larger than a byte holds.
pub fn parse_u8(s: &[u8]) -> (r: Option<u8>)
    ensures
        r is Some <==> valid_uint_literal(s@) && dec_value(strip_plus(s@)) <= u8::MAX,
        r matches Some(v) ==> v == dec_value(strip_plus(s@)),
{
    match parse_u64(s) {
        Some(v) => {
            if v <= 255 {
                Some(v as u8)
            } else {
                None
            }
        },
        None => None,
    }
}

/// Parses an unsigned decimal literal that fits the machine word.
pub fn parse_usize(s: &[u8]) -> (r: Option<usize>)
    ensures
        r is Some <==> valid_uint_literal(s@) && dec_value(strip_plus(s@)) <= usize::MAX,
        r matches Some(v) ==> v == dec_value(strip_plus(s@)),
{
    match parse_u64(s) {
        Some(v) => {
            if v <= usize::MAX as u64 {
                Some(v as usize)
            } else {
                None
            }
        },
        None => None,
    }
}

} // verus!
