//! Sanitising of user-supplied file names against path traversal, null
//! bytes, control characters and characters that file systems reject.
use vstd::prelude::*;
use vstd::utf8::{encode_scalar, encode_utf8};

use crate::text::{chars_of, slice_chars, string_of, trim, trimmed};

verus! {

broadcast use vstd::utf8::char_is_scalar;

/// The largest sanitised name, in UTF-8 bytes.
pub const MAX_FILENAME_BYTES: usize = 255;

pub open spec fn is_separator(c: char) -> bool {
    c == '/' || c == '\\'
}

/// What follows the last `/` or `\` of `s` (all of `s` where it has none).
pub open spec fn last_component(s: Seq<char>) -> Seq<char>
    decreases s.len(),
{
    if s.len() == 0 {
        s
    } else if is_separator(s.last()) {
        Seq::empty()
    } else {
        last_component(s.drop_last()).push(s.last())
    }
}

/// Characters kept in a file name: no control characters below U+0020, no
/// NUL and none of `< > : " / \ | ? *`.
pub open spec fn is_kept(c: char) -> bool {
    (c as u32) >= 0x20 && c != '\0' && !(c == '<' || c == '>' || c == ':' || c == '"' || c == '/'
        || c == '\\' || c == '|' || c == '?' || c == '*')
}

/// The characters of `s` that are kept, in order.
pub open spec fn kept(s: Seq<char>) -> Seq<char>
    decreases s.len(),
{
    if s.len() == 0 {
        s
    } else if is_kept(s.last()) {
        kept(s.drop_last()).push(s.last())
    } else {
        kept(s.drop_last())
    }
}

/// `s` without its leading dots.
pub open spec fn strip_leading_dots(s: Seq<char>) -> Seq<char>
    decreases s.len(),
{
    if s.len() > 0 && s[0] == '.' {
        strip_leading_dots(s.drop_first())
    } else {
        s
    }
}

/// The number of bytes of `c` in UTF-8.
pub open spec fn utf8_width(c: char) -> nat {
    let u = c as u32;
    if u < 0x80 {
        1
    } else if u < 0x800 {
        2
    } else if u < 0x10000 {
        3
    } else {
        4
    }
}

/// The longest prefix of `s` that fits in `budget` bytes of UTF-8.
pub open spec fn fit_bytes(s: Seq<char>, budget: nat) -> Seq<char>
    decreases s.len(),
{
    if s.len() == 0 || utf8_width(s[0]) > budget {
        Seq::empty()
    } else {
        seq![s[0]] + fit_bytes(s.drop_first(), (budget - utf8_width(s[0])) as nat)
    }
}

pub open spec fn unnamed() -> Seq<char> {
    seq!['u', 'n', 'n', 'a', 'm', 'e', 'd']
}

/// The sanitised form of `name`: its last path component, with unwanted
/// characters removed, leading dots stripped and whitespace trimmed, cut to
/// the longest prefix of whole characters within 255 bytes; `unnamed` where
/// nothing is left.
pub open spec fn sanitized(name: Seq<char>) -> Seq<char> {
    let t = trim(strip_leading_dots(kept(last_component(name))));
    if t.len() == 0 {
        unnamed()
    } else {
        fit_bytes(t, MAX_FILENAME_BYTES as nat)
    }
}

proof fn lemma_encode_len_fit(s: Seq<char>, budget: nat)
    ensures
        encode_utf8(fit_bytes(s, budget)).len() <= budget,
    decreases s.len(),
{
    let f = fit_bytes(s, budget);
    if f.len() > 0 {
        let rest = fit_bytes(s.drop_first(), (budget - utf8_width(s[0])) as nat);
        lemma_encode_len_fit(s.drop_first(), (budget - utf8_width(s[0])) as nat);
        assert(f[0] == s[0]);
        assert(f.drop_first() =~= rest);
        lemma_scalar_width(s[0]);
    }
}

proof fn lemma_scalar_width(c: char)
    ensures
        encode_scalar(c as u32).len() == utf8_width(c),
{
}

fn width_of(c: char) -> (r: usize)
    ensures
        r == utf8_width(c),
{
    let u = c as u32;
    if u < 0x80 {
        1
    } else if u < 0x800 {
        2
    } else if u < 0x10000 {
        3
    } else {
        4
    }
}

fn is_kept_exec(c: char) -> (r: bool)
    ensures
        r == is_kept(c),
{
    (c as u32) >= 0x20 && c != '\0' && !(c == '<' || c == '>' || c == ':' || c == '"' || c == '/'
        || c == '\\' || c == '|' || c == '?' || c == '*')
}

fn component(v: &Vec<char>) -> (r: Vec<char>)
    ensures
        r@ == last_component(v@),
{
    let n = v.len();
    let mut j = n;
    assert(v@.take(n as int) =~= v@);
    assert(v@.subrange(n as int, n as int) =~= Seq::<char>::empty());
    while j > 0 && !(v[j - 1] == '/' || v[j - 1] == '\\')
        invariant
            0 <= j <= n == v.len(),
            last_component(v@) == last_component(v@.take(j as int)) + v@.subrange(
                j as int,
                n as int,
            ),
        decreases j,
    {
        assert(v@.take(j as int).drop_last() =~= v@.take(j - 1));
        assert(v@.take(j as int).last() == v@[j - 1]);
        assert(v@.subrange(j - 1, n as int) =~= seq![v@[j - 1]] + v@.subrange(j as int, n as int));
        assert(last_component(v@.take(j - 1)).push(v@[j - 1]) + v@.subrange(j as int, n as int)
            =~= last_component(v@.take(j - 1)) + v@.subrange(j - 1, n as int));
        j = j - 1;
    }
    assert(last_component(v@.take(j as int)) =~= Seq::<char>::empty());
    assert(Seq::<char>::empty() + v@.subrange(j as int, n as int) =~= v@.subrange(
        j as int,
        n as int,
    ));
    slice_chars(v, j, n)
}

fn kept_chars(v: &Vec<char>) -> (r: Vec<char>)
    ensures
        r@ == kept(v@),
{
    let mut out: Vec<char> = Vec::new();
    let mut i: usize = 0;
    while i < v.len()
        invariant
            0 <= i <= v.len(),
            out@ == kept(v@.take(i as int)),
        decreases v.len() - i,
    {
        assert(v@.take(i + 1).drop_last() =~= v@.take(i as int));
        assert(v@.take(i + 1).last() == v@[i as int]);
        if is_kept_exec(v[i]) {
            out.push(v[i]);
        }
        i = i + 1;
    }
    assert(v@.take(i as int) =~= v@);
    out
}

fn without_leading_dots(v: &Vec<char>) -> (r: Vec<char>)
    ensures
        r@ == strip_leading_dots(v@),
{
    let n = v.len();
    let mut i: usize = 0;
    assert(v@.skip(0) =~= v@);
    while i < n && v[i] == '.'
        invariant
            0 <= i <= n == v.len(),
            strip_leading_dots(v@) == strip_leading_dots(v@.skip(i as int)),
        decreases n - i,
    {
        assert(v@.skip(i as int).drop_first() =~= v@.skip(i + 1));
        i = i + 1;
    }
    assert(v@.skip(i as int) =~= v@.subrange(i as int, n as int));
    slice_chars(v, i, n)
}

fn fit(v: &Vec<char>, budget: usize) -> (r: Vec<char>)
    ensures
        r@ == fit_bytes(v@, budget as nat),
{
    let n = v.len();
    let mut out: Vec<char> = Vec::new();
    let mut left = budget;
    let mut i: usize = 0;
    assert(v@.skip(0) =~= v@);
    while i < n
        invariant
            0 <= i <= n == v.len(),
            left <= budget,
            fit_bytes(v@, budget as nat) == out@ + fit_bytes(v@.skip(i as int), left as nat),
        decreases n - i,
    {
        let w = width_of(v[i]);
        let ghost rest = v@.skip(i as int);
        assert(rest[0] == v@[i as int]);
        if w > left {
            assert(out@ + Seq::<char>::empty() =~= out@);
            return out;
        }
        assert(rest.drop_first() =~= v@.skip(i + 1));
        let ghost prev = out@;
        out.push(v[i]);
        assert(prev + (seq![v@[i as int]] + fit_bytes(v@.skip(i + 1), (left - w) as nat)) =~= out@
            + fit_bytes(v@.skip(i + 1), (left - w) as nat));
        left = left - w;
        i = i + 1;
    }
    assert(out@ + Seq::<char>::empty() =~= out@);
    out
}

/// Sanitises a user-supplied file name (see `sanitized`); the result is
/// never empty and at most 255 bytes long.
pub fn sanitize_filename(name: &str) -> (r: String)
    ensures
        r@ == sanitized(name@),
        r@.len() > 0,
        encode_utf8(r@).len() <= MAX_FILENAME_BYTES,
{
    let v = chars_of(name);
    let comp = component(&v);
    let t = trimmed(&without_leading_dots(&kept_chars(&comp)));
    if t.len() == 0 {
        let u = vec!['u', 'n', 'n', 'a', 'm', 'e', 'd'];
        assert(u@ =~= unnamed());
        assert(encode_utf8(u@).len() <= 255) by {
            reveal_with_fuel(encode_utf8, 8);
        }
        return string_of(&u);
    }
    let r = fit(&t, MAX_FILENAME_BYTES);
    proof {
        lemma_encode_len_fit(t@, MAX_FILENAME_BYTES as nat);
        assert(t@[0] == t@[0]);
        lemma_scalar_width(t@[0]);
        assert(r@.len() > 0);
    }
    string_of(&r)
}

} // verus!
