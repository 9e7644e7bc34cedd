//! The small path algebra of the session: joining, taking the parent,
//! and the LF/NUL quoting used by PWD and CWD.
use vstd::prelude::*;

use crate::text::{ascii_bytes, ascii_bytes_to_string, ascii_str_bytes, chars_of};

verus! {

/// The shape every session working directory keeps: absolute, ASCII,
/// free of NUL, without a trailing or doubled separator. Every path that
/// a POSIX filesystem resolves satisfies the NUL clause, and it is what
/// lets the PWD quoting be undone.
pub open spec fn clean_abs_path(p: Seq<char>) -> bool {
    &&& p.len() >= 1
    &&& p[0] == '/'
    &&& vstd::utf8::is_ascii_chars(p)
    &&& p.len() > 1 ==> p.last() != '/'
    &&& forall|i: int| 0 <= i < p.len() - 1 ==> !(#[trigger] p[i] == '/' && p[i + 1] == '/')
    &&& forall|i: int| 0 <= i < p.len() ==> #[trigger] p[i] != '\0'
}

/// Decides [`clean_abs_path`].
pub fn is_clean_abs_path(s: &str) -> (r: bool)
    ensures
        r == clean_abs_path(s@),
{
    if !s.is_ascii() {
        return false;
    }
    let b = ascii_str_bytes(s);
    if b.len() == 0 || b[0] != 47 {
        proof {
            if s@.len() > 0 {
                assert(chars_of(b@)[0] == s@[0]);
            }
        }
        return false;
    }
    if b.len() > 1 && b[b.len() - 1] == 47 {
        proof {
            assert(chars_of(b@)[b@.len() - 1] == s@[s@.len() - 1]);
        }
        return false;
    }
    let mut i: usize = 0;
    while i < b.len()
        invariant
            i <= b@.len(),
            b@.len() >= 1,
            chars_of(b@) == s@,
            ascii_bytes(b@),
            forall|j: int| 0 <= j < i ==> #[trigger] s@[j] != '\0',
            forall|j: int| 0 <= j < i && j < b@.len() - 1 ==> !(#[trigger] s@[j] == '/' && s@[j
                + 1] == '/'),
        decreases b@.len() - i,
    {
        if b[i] == 0 {
            proof {
                assert(s@[i as int] == (b@[i as int] as char));
            }
            return false;
        }
        if i + 1 < b.len() && b[i] == 47 && b[i + 1] == 47 {
            proof {
                assert(s@[i as int] == (b@[i as int] as char));
                assert(s@[i + 1] == (b@[i + 1] as char));
            }
            return false;
        }
        proof {
            assert(s@[i as int] == (b@[i as int] as char));
            if i + 1 < b@.len() {
                assert(s@[i + 1] == (b@[i + 1] as char));
            }
        }
        i = i + 1;
    }
    proof {
        assert(s@[0] == (b@[0] as char));
        if s@.len() > 1 {
            assert(s@[s@.len() - 1] == (b@[b@.len() - 1] as char));
        }
    }
    true
}

/// Where a relative name lands under a base directory; an absolute name
/// stands for itself.
pub open spec fn spec_join(base: Seq<char>, arg: Seq<char>) -> Seq<char> {
    if arg.len() > 0 && arg[0] == '/' {
        arg
    } else if base.len() > 0 && base.last() == '/' {
        base + arg
    } else {
        base + "/"@ + arg
    }
}

/// Joins a name onto a base directory.
pub fn join_path(base: &str, arg: &str) -> (r: String)
    requires
        base.is_ascii(),
        arg.is_ascii(),
    ensures
        r@ == spec_join(base@, arg@),
{
    let a = ascii_str_bytes(arg);
    if a.len() > 0 && a[0] == 47 {
        proof {
            assert(arg@[0] == (a@[0] as char));
        }
        return arg.to_owned();
    }
    proof {
        if arg@.len() > 0 {
            assert(arg@[0] == (a@[0] as char));
        }
    }
    let b = ascii_str_bytes(base);
    let mut out = b;
    if out.len() == 0 || out[out.len() - 1] != 47 {
        proof {
            if base@.len() > 0 {
                assert(base@[base@.len() - 1] == (out@[out@.len() - 1] as char));
            }
        }
        out.push(47);
        let mut rest = a;
        out.append(&mut rest);
        proof {
            reveal_strlit("/");
            assert(chars_of(out@) =~= base@ + "/"@ + arg@);
        }
        return ascii_bytes_to_string(out);
    }
    proof {
        assert(base@[base@.len() - 1] == (out@[out@.len() - 1] as char));
    }
    let mut rest = a;
    out.append(&mut rest);
    proof {
        assert(chars_of(out@) =~= base@ + arg@);
    }
    ascii_bytes_to_string(out)
}

/// The index of the last separator, or a negative number when none is
/// there.
pub open spec fn last_slash(p: Seq<char>) -> int
    decreases p.len(),
{
    if p.len() == 0 {
        -1
    } else if p.last() == '/' {
        p.len() - 1
    } else {
        last_slash(p.drop_last())
    }
}

/// The parent directory: the path cut at its last separator, with the
/// root as its own parent.
pub open spec fn spec_parent(p: Seq<char>) -> Seq<char> {
    if p.len() <= 1 {
        p
    } else if last_slash(p) <= 0 {
        p.take(1)
    } else {
        p.take(last_slash(p))
    }
}

/// `j` is the last separator position: a separator with none after it.
spec fn last_slash_marker(p: Seq<char>, j: int) -> bool {
    &&& 0 <= j < p.len()
    &&& p[j] == '/'
    &&& forall|i: int| j < i < p.len() ==> #[trigger] p[i] != '/'
}

/// When a separator occurs at all, `last_slash` finds the final one.
proof fn lemma_last_slash_marker(p: Seq<char>, w: int)
    requires
        0 <= w < p.len(),
        p[w] == '/',
    ensures
        last_slash_marker(p, last_slash(p)),
    decreases p.len(),
{
    if p.last() == '/' {
    } else {
        assert(w < p.len() - 1);
        assert(p.drop_last()[w] == p[w]);
        lemma_last_slash_marker(p.drop_last(), w);
        let j = last_slash(p.drop_last());
        assert(p.drop_last()[j] == p[j]);
        assert forall|i: int| j < i < p.len() implies #[trigger] p[i] != '/' by {
            if i < p.len() - 1 {
                assert(p.drop_last()[i] == p[i]);
            }
        }
    }
}

/// The parent of a clean absolute path is clean and absolute.
pub proof fn lemma_parent_clean(p: Seq<char>)
    requires
        clean_abs_path(p),
    ensures
        clean_abs_path(spec_parent(p)),
{
    if p.len() > 1 {
        lemma_last_slash_marker(p, 0);
        let j = last_slash(p);
        if j <= 0 {
            assert(p.take(1)[0] == p[0]);
            assert forall|i: int| 0 <= i < p.take(1).len() implies '\0' <= #[trigger] p.take(
                1,
            )[i] <= '\u{7f}' && p.take(1)[i] != '\0' by {
                assert(p.take(1)[i] == p[i]);
            }
        } else {
            assert(p.take(j)[0] == p[0]);
            assert(p[j] == '/');
            assert(!(p[j - 1] == '/' && p[j] == '/'));
            if j > 1 {
                assert(p.take(j).last() == p[j - 1]);
            }
            assert forall|i: int| 0 <= i < p.take(j).len() implies '\0' <= #[trigger] p.take(
                j,
            )[i] <= '\u{7f}' && p.take(j)[i] != '\0' by {
                assert(p.take(j)[i] == p[i]);
            }
        }
    }
}

/// The position of the last separator byte, scanning from the end.
fn find_last_slash(b: &Vec<u8>) -> (j: usize)
    requires
        b@.len() >= 1,
        b@[0] == 47,
    ensures
        j < b@.len(),
        b@[j as int] == 47,
        forall|i: int| j < i < b@.len() ==> #[trigger] b@[i] != 47,
{
    let mut j: usize = b.len() - 1;
    while j > 0
        invariant
            j < b@.len(),
            b@[0] == 47,
            forall|i: int| j < i < b@.len() ==> #[trigger] b@[i] != 47,
        decreases j,
    {
        if b[j] == 47 {
            return j;
        }
        j = j - 1;
    }
    j
}

/// Takes the parent of a clean absolute path; the root keeps itself.
pub fn parent_path(p: &str) -> (r: String)
    requires
        clean_abs_path(p@),
    ensures
        r@ == spec_parent(p@),
        clean_abs_path(r@),
{
    let b = ascii_str_bytes(p);
    if b.len() <= 1 {
        proof {
            assert(spec_parent(p@) == p@);
        }
        return p.to_owned();
    }
    proof {
        assert(p@[0] == (b@[0] as char));
    }
    let j = find_last_slash(&b);
    proof {
        assert(p@[j as int] == (b@[j as int] as char));
        assert forall|i: int| j < i < p@.len() implies #[trigger] p@[i] != '/' by {
            assert(p@[i] == (b@[i] as char));
        }
        assert(last_slash_marker(p@, j as int));
        lemma_last_slash_marker(p@, j as int);
        assert(last_slash(p@) == j) by {
            let l = last_slash(p@);
            if l < j {
                assert(p@[j as int] != '/');
            } else if l > j {
                assert(p@[l] != '/');
            }
        }
    }
    if j == 0 {
        proof {
            reveal_strlit("/");
            assert(p@.take(1) =~= "/"@);
        }
        return "/".to_owned();
    }
    let mut out: Vec<u8> = Vec::new();
    let mut k: usize = 0;
    while k < j
        invariant
            k <= j < b@.len(),
            out@ =~= b@.subrange(0, k as int),
        decreases j - k,
    {
        out.push(b[k]);
        proof {
            assert(out@ =~= b@.subrange(0, k + 1));
        }
        k = k + 1;
    }
    proof {
        assert(chars_of(out@) =~= p@.take(j as int));
        lemma_parent_clean(p@);
    }
    ascii_bytes_to_string(out)
}

/// The sequence with one character replaced by another throughout.
pub open spec fn replace_char(t: Seq<char>, from: char, to: char) -> Seq<char> {
    t.map_values(|c: char| if c == from { to } else { c })
}

/// Replaces one ASCII character by another throughout a string.
pub fn replace_ascii_char(s: &str, from: u8, to: u8) -> (r: String)
    requires
        s.is_ascii(),
        from < 128,
        to < 128,
    ensures
        r@ == replace_char(s@, from as char, to as char),
{
    let b = ascii_str_bytes(s);
    let mut out: Vec<u8> = Vec::new();
    let mut i: usize = 0;
    while i < b.len()
        invariant
            i <= b@.len(),
            ascii_bytes(b@),
            chars_of(b@) == s@,
            from < 128,
            to < 128,
            ascii_bytes(out@),
            out@.len() == i,
            forall|k: int| 0 <= k < i ==> #[trigger] out@[k] == (if b@[k] == from {
                to
            } else {
                b@[k]
            }),
        decreases b@.len() - i,
    {
        if b[i] == from {
            out.push(to);
        } else {
            out.push(b[i]);
        }
        i = i + 1;
    }
    proof {
        assert forall|k: int| 0 <= k < out@.len() implies #[trigger] chars_of(out@)[k]
            == replace_char(s@, from as char, to as char)[k] by {
            assert(s@[k] == (b@[k] as char));
        }
        assert(chars_of(out@) =~= replace_char(s@, from as char, to as char));
    }
    ascii_bytes_to_string(out)
}

/// Quoting then unquoting gives the path back, as long as it carried no
/// NUL of its own.
pub proof fn lemma_quote_round_trip(p: Seq<char>)
    requires
        forall|i: int| 0 <= i < p.len() ==> #[trigger] p[i] != '\0',
    ensures
        replace_char(replace_char(p, '\n', '\0'), '\0', '\n') == p,
{
    assert(replace_char(replace_char(p, '\n', '\0'), '\0', '\n') =~= p);
}

} // verus!
