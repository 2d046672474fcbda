//! Cleaning up model replies before they are decoded: surrounding whitespace
//! and markdown code fences are removed.

use vstd::prelude::*;

use crate::text::chars_of;

verus! {

/// Whether a character has the Unicode `White_Space` property, which is what
/// `char::is_whitespace` and `str::trim` go by.
pub open spec fn is_white_space(c: char) -> bool {
    let u = c as u32;
    ||| 0x09 <= u <= 0x0D
    ||| u == 0x20
    ||| u == 0x85
    ||| u == 0xA0
    ||| u == 0x1680
    ||| 0x2000 <= u <= 0x200A
    ||| u == 0x2028
    ||| u == 0x2029
    ||| u == 0x202F
    ||| u == 0x205F
    ||| u == 0x3000
}

/// `s` without its leading whitespace.
pub open spec fn trim_start(s: Seq<char>) -> Seq<char>
    decreases s.len(),
{
    if s.len() > 0 && is_white_space(s[0]) {
        trim_start(s.skip(1))
    } else {
        s
    }
}

/// `s` without its trailing whitespace.
pub open spec fn trim_end(s: Seq<char>) -> Seq<char>
    decreases s.len(),
{
    if s.len() > 0 && is_white_space(s.last()) {
        trim_end(s.drop_last())
    } else {
        s
    }
}

/// What `str::trim` leaves of a text: the text without leading and trailing
/// whitespace.
pub open spec fn trimmed(s: Seq<char>) -> Seq<char> {
    trim_end(trim_start(s))
}

/// Calls `str::trim` and copies the slice it returns: by its documentation,
/// the input with leading and trailing `White_Space` characters removed.
#[verifier::external_body]
fn trim_text(s: &str) -> (r: String)
    ensures
        r@ == trimmed(s@),
{
    s.trim().to_string()
}

/// `s` begins with `p`.
pub open spec fn has_prefix(s: Seq<char>, p: Seq<char>) -> bool {
    p.len() <= s.len() && s.take(p.len() as int) == p
}

/// `s` ends with `p`.
pub open spec fn has_suffix(s: Seq<char>, p: Seq<char>) -> bool {
    p.len() <= s.len() && s.skip(s.len() - p.len()) == p
}

/// `s` with every leading repetition of a non-empty `p` removed, as
/// `str::trim_start_matches` does.
pub open spec fn strip_leading(s: Seq<char>, p: Seq<char>) -> Seq<char>
    decreases s.len(),
{
    if p.len() > 0 && has_prefix(s, p) {
        strip_leading(s.skip(p.len() as int), p)
    } else {
        s
    }
}

/// `s` with every trailing repetition of a non-empty `p` removed, as
/// `str::trim_end_matches` does.
pub open spec fn strip_trailing(s: Seq<char>, p: Seq<char>) -> Seq<char>
    decreases s.len(),
{
    if p.len() > 0 && has_suffix(s, p) {
        strip_trailing(s.take(s.len() - p.len()), p)
    } else {
        s
    }
}

/// A model reply with surrounding whitespace removed and, when it is wrapped
/// in a markdown code fence (optionally tagged `json`), the fence removed.
pub open spec fn unfenced(reply: Seq<char>) -> Seq<char> {
    let t = trimmed(reply);
    if has_prefix(t, "```"@) {
        trimmed(strip_trailing(strip_leading(strip_leading(t, "```json"@), "```"@), "```"@))
    } else {
        t
    }
}

/// Whether `p` occurs in `s` starting at position `i`.
pub fn matches_at(s: &Vec<char>, i: usize, p: &Vec<char>) -> (r: bool)
    requires
        i <= s@.len(),
    ensures
        r == has_prefix(s@.skip(i as int), p@),
{
    if p.len() > s.len() - i {
        return false;
    }
    let mut k: usize = 0;
    while k < p.len()
        invariant
            k <= p@.len(),
            i + p@.len() <= s.len(),
            forall|m: int| 0 <= m < k ==> s@[i + m] == p@[m],
        decreases p.len() - k,
    {
        if s[i + k] != p[k] {
            assert(s@.skip(i as int).take(p@.len() as int)[k as int] != p@[k as int]);
            return false;
        }
        k += 1;
    }
    assert(s@.skip(i as int).take(p@.len() as int) =~= p@);
    true
}

/// Whether `p` occurs in `s` ending at position `end`.
fn matches_before(s: &Vec<char>, end: usize, p: &Vec<char>) -> (r: bool)
    requires
        end <= s@.len(),
    ensures
        r == has_suffix(s@.take(end as int), p@),
{
    if p.len() > end {
        return false;
    }
    let start = end - p.len();
    let mut k: usize = 0;
    while k < p.len()
        invariant
            k <= p@.len(),
            start + p@.len() == end <= s@.len(),
            forall|m: int| 0 <= m < k ==> s@[start + m] == p@[m],
        decreases p.len() - k,
    {
        if s[start + k] != p[k] {
            assert(s@.take(end as int).skip(start as int)[k as int] != p@[k as int]);
            return false;
        }
        k += 1;
    }
    assert(s@.take(end as int).skip(start as int) =~= p@);
    true
}

/// The position where the leading repetitions of `p` after `from` end.
fn skip_leading(s: &Vec<char>, from: usize, p: &Vec<char>) -> (r: usize)
    requires
        from <= s@.len(),
        p@.len() > 0,
    ensures
        from <= r <= s@.len(),
        s@.skip(r as int) == strip_leading(s@.skip(from as int), p@),
{
    let mut i = from;
    while matches_at(s, i, p)
        invariant
            from <= i <= s@.len(),
            p@.len() > 0,
            strip_leading(s@.skip(i as int), p@) == strip_leading(s@.skip(from as int), p@),
        decreases s@.len() - i,
    {
        assert(s@.skip(i as int).skip(p@.len() as int) =~= s@.skip(i + p@.len()));
        assert(i + p@.len() <= s.len());
        i = i + p.len();
    }
    i
}

/// The position where the text before `to` ends once its trailing
/// repetitions of `p` (not reaching before `from`) are removed.
fn skip_trailing(s: &Vec<char>, from: usize, to: usize, p: &Vec<char>) -> (r: usize)
    requires
        from <= to <= s@.len(),
        p@.len() > 0,
    ensures
        from <= r <= to,
        s@.subrange(from as int, r as int) == strip_trailing(s@.subrange(from as int, to as int), p@),
{
    let mut e = to;
    while e - from >= p.len() && matches_before(s, e, p)
        invariant
            from <= e <= to <= s@.len(),
            p@.len() > 0,
            strip_trailing(s@.subrange(from as int, e as int), p@) == strip_trailing(
                s@.subrange(from as int, to as int),
                p@,
            ),
        decreases e,
    {
        let ghost piece = s@.subrange(from as int, e as int);
        assert(piece.skip(piece.len() - p@.len()) =~= s@.take(e as int).skip(e - p@.len()));
        assert(piece.take(piece.len() - p@.len()) =~= s@.subrange(from as int, e - p@.len()));
        e = e - p.len();
    }
    proof {
        let piece = s@.subrange(from as int, e as int);
        if e - from >= p@.len() {
            assert(piece.skip(piece.len() - p@.len()) =~= s@.take(e as int).skip(e - p@.len()));
        }
    }
    e
}

/// Remove surrounding whitespace and an enclosing markdown code fence from a
/// model reply.
pub fn unfence(reply: &str) -> (r: String)
    ensures
        r@ == unfenced(reply@),
{
    proof {
        reveal_strlit("```");
        reveal_strlit("```json");
    }
    let t = trim_text(reply);
    let cs = chars_of(t.as_str());
    let fence = chars_of("```");
    let tagged = chars_of("```json");
    assert(cs@.skip(0) =~= cs@);
    if matches_at(&cs, 0, &fence) {
        let a = skip_leading(&cs, 0, &tagged);
        let b = skip_leading(&cs, a, &fence);
        let e = skip_trailing(&cs, b, cs.len(), &fence);
        assert(cs@.subrange(b as int, cs@.len() as int) =~= cs@.skip(b as int));
        let middle = t.as_str().substring_char(b, e);
        trim_text(middle)
    } else {
        t
    }
}

} // verus!
