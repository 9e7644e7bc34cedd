//! Small helpers for ASCII text handled as bytes.
use vstd::prelude::*;

verus! {

/// The characters of an ASCII byte sequence.
pub open spec fn chars_of(b: Seq<u8>) -> Seq<char> {
    b.map_values(|x: u8| x as char)
}

/// Every byte is ASCII.
pub open spec fn ascii_bytes(b: Seq<u8>) -> bool {
    forall|i: int| 0 <= i < b.len() ==> b[i] < 128
}

/// The bytes of an ASCII character sequence.
pub open spec fn bytes_of_chars(t: Seq<char>) -> Seq<u8> {
    t.map_values(|c: char| c as u8)
}

/// Reading ASCII bytes as characters and back gives the bytes.
pub proof fn lemma_bytes_chars_inverse(b: Seq<u8>)
    requires
        ascii_bytes(b),
    ensures
        bytes_of_chars(chars_of(b)) == b,
{
    assert(bytes_of_chars(chars_of(b)) =~= b);
}

/// Writing ASCII characters as bytes and reading them back gives the
/// characters.
pub proof fn lemma_chars_bytes_inverse(t: Seq<char>)
    requires
        vstd::utf8::is_ascii_chars(t),
    ensures
        chars_of(bytes_of_chars(t)) == t,
{
    assert(chars_of(bytes_of_chars(t)) =~= t);
}

/// The ASCII upper-case image of one byte.
pub open spec fn upper_byte(b: u8) -> u8 {
    if 97 <= b <= 122 {
        (b - 32) as u8
    } else {
        b
    }
}

/// The ASCII upper-case image of one character.
pub open spec fn upper_char(c: char) -> char {
    if 'a' <= c <= 'z' {
        (((c as u32) - 32) as u8) as char
    } else {
        c
    }
}

/// The ASCII upper-case image of a character sequence.
pub open spec fn upper_chars(t: Seq<char>) -> Seq<char> {
    t.map_values(|c: char| upper_char(c))
}

/// Upper-casing commutes with reading an ASCII byte as a character.
pub proof fn lemma_upper_byte_char(b: u8)
    requires
        b < 128,
    ensures
        upper_byte(b) as char == upper_char(b as char),
{
}

/// String equality, decided by value.
pub fn str_eq(a: &str, b: &str) -> (r: bool)
    ensures
        r == (a@ == b@),
{
    let a_owned: String = a.to_owned();
    let b_owned: String = b.to_owned();
    a_owned == b_owned
}

/// Upper-cases an ASCII string; anything outside ASCII is refused.
pub fn to_ascii_upper(s: &str) -> (r: Option<String>)
    ensures
        r matches Some(u) ==> u@ == upper_chars(s@),
        (r is None) == !vstd::utf8::is_ascii_chars(s@),
{
    if !s.is_ascii() {
        return None;
    }
    let bytes = ascii_str_bytes(s);
    let up = upper_bytes(&bytes);
    proof {
        assert forall|i: int| 0 <= i < up@.len() implies up@[i] < 128 && #[trigger] (up@[i] as char)
            == upper_chars(s@)[i] by {
            assert(up@[i] == upper_byte(bytes@[i]));
            lemma_upper_byte_char(bytes@[i]);
            assert(chars_of(bytes@)[i] == s@[i]);
        }
        assert(chars_of(up@) =~= upper_chars(s@));
    }
    Some(ascii_bytes_to_string(up))
}

/// Relies on `String::from_utf8`: ASCII bytes decode to the characters
/// with the same codes. The conversion cannot fail on ASCII input.
#[verifier::external_body]
pub fn ascii_bytes_to_string(v: Vec<u8>) -> (r: String)
    requires
        ascii_bytes(v@),
    ensures
        r@ == chars_of(v@),
{
    String::from_utf8(v).unwrap_or_default()
}

/// The bytes of an ASCII string, with their characters related to the view.
pub fn ascii_str_bytes(s: &str) -> (r: Vec<u8>)
    requires
        s.is_ascii(),
    ensures
        r@.len() == s@.len(),
        chars_of(r@) == s@,
        ascii_bytes(r@),
{
    broadcast use vstd::string::is_ascii_spec_bytes;

    let r = s.as_bytes_vec();
    proof {
        assert forall|i: int| 0 <= i < r@.len() implies r@[i] < 128 by {
            assert(r@[i] == s@[i] as u8);
            assert((s@[i] as u32) < 128);
        }
        assert(chars_of(r@) =~= s@);
    }
    r
}

/// Maps a byte sequence to upper case.
pub fn upper_bytes(v: &Vec<u8>) -> (r: Vec<u8>)
    ensures
        r@ == v@.map_values(|b: u8| upper_byte(b)),
{
    let mut r: Vec<u8> = Vec::new();
    let mut i: usize = 0;
    while i < v.len()
        invariant
            i <= v.len(),
            r@ =~= v@.take(i as int).map_values(|b: u8| upper_byte(b)),
        decreases v.len() - i,
    {
        let b = v[i];
        if 97 <= b && b <= 122 {
            r.push(b - 32);
        } else {
            r.push(b);
        }
        proof {
            assert(v@.take(i + 1) =~= v@.take(i as int).push(v@[i as int]));
            assert(r@ =~= v@.take(i + 1).map_values(|b: u8| upper_byte(b)));
        }
        i = i + 1;
    }
    proof {
        assert(v@.take(v@.len() as int) =~= v@);
    }
    r
}

} // verus!
