//! Verified helpers over `&str` / `String`, stated against the character
//! sequences that Verus gives as the view of a string.

use vstd::prelude::*;
use vstd::string::*;

verus! {

/// True on the characters with the Unicode `White_Space` property, the set
/// that `str::trim_start` removes from the front of a string.
pub open spec fn spec_is_whitespace(c: char) -> bool {
    ||| c == ' '
    ||| ('\u{9}' <= c && c <= '\u{d}')
    ||| c == '\u{85}'
    ||| c == '\u{a0}'
    ||| c == '\u{1680}'
    ||| ('\u{2000}' <= c && c <= '\u{200a}')
    ||| c == '\u{2028}'
    ||| c == '\u{2029}'
    ||| c == '\u{202f}'
    ||| c == '\u{205f}'
    ||| c == '\u{3000}'
}

/// The number of leading whitespace characters of `s`: what trimming the
/// start of `s` removes.
pub open spec fn ws_prefix_len(s: Seq<char>) -> nat
    decreases s.len(),
{
    if s.len() > 0 && spec_is_whitespace(s[0]) {
        1 + ws_prefix_len(s.drop_first())
    } else {
        0
    }
}

/// Trimming the start of a string drops exactly its leading whitespace.
pub open spec fn trim_start_spec(s: Seq<char>) -> Seq<char> {
    s.skip(ws_prefix_len(s) as int)
}

/// Whether `pat` occurs in `s` at character position `j`.
pub open spec fn is_match_at(s: Seq<char>, pat: Seq<char>, j: int) -> bool {
    0 <= j && j + pat.len() <= s.len() && s.subrange(j, j + pat.len()) == pat
}

/// The first position at or after `from` where `pat` occurs in `s`, if any.
pub open spec fn find_from(s: Seq<char>, pat: Seq<char>, from: int) -> Option<int>
    decreases s.len() - from,
{
    if from < 0 || from + pat.len() > s.len() {
        None
    } else if is_match_at(s, pat, from) {
        Some(from)
    } else if from >= s.len() {
        None
    } else {
        find_from(s, pat, from + 1)
    }
}

pub fn is_whitespace_char(c: char) -> (r: bool)
    ensures
        r == spec_is_whitespace(c),
{
    c == ' ' || ('\u{9}' <= c && c <= '\u{d}') || c == '\u{85}' || c == '\u{a0}'
        || c == '\u{1680}' || ('\u{2000}' <= c && c <= '\u{200a}') || c == '\u{2028}'
        || c == '\u{2029}' || c == '\u{202f}' || c == '\u{205f}' || c == '\u{3000}'
}

pub fn str_starts_with(s: &str, p: &str) -> (r: bool)
    ensures
        r == p@.is_prefix_of(s@),
{
    let sl = s.unicode_len();
    let pl = p.unicode_len();
    if pl > sl {
        return false;
    }
    let mut i: usize = 0;
    while i < pl
        invariant
            sl == s@.len(),
            pl == p@.len(),
            pl <= sl,
            i <= pl,
            forall|j: int| 0 <= j < i ==> s@[j] == p@[j],
        decreases pl - i,
    {
        if s.get_char(i) != p.get_char(i) {
            assert(!p@.is_prefix_of(s@)) by {
                assert(p@.is_prefix_of(s@) ==> s@.subrange(0, pl as int)[i as int] == p@[i as int]);
            }
            return false;
        }
        i += 1;
    }
    proof {
        assert(p@ =~= s@.subrange(0, pl as int));
    }
    true
}

pub fn str_ends_with(s: &str, p: &str) -> (r: bool)
    ensures
        r == p@.is_suffix_of(s@),
{
    let sl = s.unicode_len();
    let pl = p.unicode_len();
    if pl > sl {
        return false;
    }
    let off: usize = sl - pl;
    let mut i: usize = 0;
    while i < pl
        invariant
            sl == s@.len(),
            pl == p@.len(),
            pl <= sl,
            off == sl - pl,
            i <= pl,
            forall|j: int| 0 <= j < i ==> s@[off + j] == p@[j],
        decreases pl - i,
    {
        if s.get_char(off + i) != p.get_char(i) {
            assert(!p@.is_suffix_of(s@)) by {
                assert(p@.is_suffix_of(s@) ==> s@.subrange(off as int, sl as int)[i as int]
                    == p@[i as int]);
            }
            return false;
        }
        i += 1;
    }
    proof {
        assert(p@ =~= s@.subrange(off as int, sl as int));
    }
    true
}

/// The characters of `s` from position `n` on, as an owned string.
pub fn skip_chars(s: &str, n: usize) -> (r: String)
    requires
        n <= s@.len(),
    ensures
        r@ == s@.skip(n as int),
{
    let sl = s.unicode_len();
    let sub = s.substring_char(n, sl);
    proof {
        assert(sub@ =~= s@.skip(n as int));
    }
    sub.to_owned()
}

/// The first `n` characters of `s`, as an owned string.
pub fn take_chars(s: &str, n: usize) -> (r: String)
    requires
        n <= s@.len(),
    ensures
        r@ == s@.take(n as int),
{
    let sub = s.substring_char(0, n);
    proof {
        assert(sub@ =~= s@.take(n as int));
    }
    sub.to_owned()
}

/// The view of an optional borrowed string.
pub open spec fn opt_ref_view(o: Option<&str>) -> Option<Seq<char>> {
    match o {
        Some(s) => Some(s@),
        None => None,
    }
}

/// The concatenation of two string slices.
pub fn str_concat(a: &str, b: &str) -> (r: String)
    ensures
        r@ == a@ + b@,
{
    let owned: String = a.to_owned();
    owned.concat(b)
}

proof fn lemma_ws_prefix_skip(s: Seq<char>, i: int)
    requires
        0 <= i <= s.len(),
        forall|j: int| 0 <= j < i ==> spec_is_whitespace(s[j]),
    ensures
        ws_prefix_len(s) == i + ws_prefix_len(s.skip(i)),
    decreases i,
{
    if i == 0 {
        assert(s.skip(0) =~= s);
    } else {
        assert(spec_is_whitespace(s[0]));
        assert(s.drop_first() =~= s.skip(1));
        lemma_ws_prefix_skip(s.skip(1), i - 1);
        assert(s.skip(1).skip(i - 1) =~= s.skip(i));
    }
}

/// `s` with its leading whitespace removed, as `str::trim_start` does.
pub fn trim_start(s: &str) -> (r: String)
    ensures
        r@ == trim_start_spec(s@),
{
    let sl = s.unicode_len();
    let mut i: usize = 0;
    while i < sl
        invariant
            sl == s@.len(),
            i <= sl,
            forall|j: int| 0 <= j < i ==> spec_is_whitespace(s@[j]),
        decreases sl - i,
    {
        if !is_whitespace_char(s.get_char(i)) {
            proof {
                lemma_ws_prefix_skip(s@, i as int);
                assert(s@.skip(i as int)[0] == s@[i as int]);
            }
            return skip_chars(s, i);
        }
        i += 1;
    }
    proof {
        lemma_ws_prefix_skip(s@, sl as int);
        assert(s@.skip(sl as int).len() == 0);
    }
    skip_chars(s, sl)
}

/// A position that `find_from` returns is a match at or after `from`.
pub proof fn lemma_find_from_some(s: Seq<char>, pat: Seq<char>, from: int, j: int)
    requires
        find_from(s, pat, from) == Some(j),
    ensures
        from <= j,
        is_match_at(s, pat, j),
    decreases s.len() - from,
{
    if !(from < 0 || from + pat.len() > s.len()) {
        if is_match_at(s, pat, from) {
        } else if from >= s.len() {
        } else {
            lemma_find_from_some(s, pat, from + 1, j);
        }
    }
}

proof fn lemma_find_from_step(s: Seq<char>, pat: Seq<char>, from: int, i: int)
    requires
        0 <= from <= i,
        forall|j: int| from <= j < i ==> !is_match_at(s, pat, j),
    ensures
        find_from(s, pat, from) == find_from(s, pat, i),
    decreases i - from,
{
    if from < i {
        if from + pat.len() > s.len() {
            assert(i + pat.len() > s.len());
        } else if from >= s.len() {
            assert(pat.len() == 0);
            assert(s.subrange(from, from + pat.len()) =~= pat);
            assert(false);
        } else {
            lemma_find_from_step(s, pat, from + 1, i);
        }
    }
}

/// The first occurrence of `pat` in `s` at or after character position
/// `from`, by character index.
pub fn find_substring(s: &str, pat: &str, from: usize) -> (r: Option<usize>)
    ensures
        match r {
            Some(i) => find_from(s@, pat@, from as int) == Some(i as int),
            None => find_from(s@, pat@, from as int) is None,
        },
{
    let sl = s.unicode_len();
    let pl = pat.unicode_len();
    if pl > sl || from > sl - pl {
        return None;
    }
    if pl == 0 {
        proof {
            assert(s@.subrange(from as int, from as int) =~= pat@);
        }
        return Some(from);
    }
    let mut i: usize = from;
    while i <= sl - pl
        invariant
            sl == s@.len(),
            pl == pat@.len(),
            pl <= sl,
            1 <= pl,
            from <= i <= sl - pl + 1,
            forall|j: int| from <= j < i ==> !is_match_at(s@, pat@, j),
        decreases sl + 1 - pl - i,
    {
        let window = s.substring_char(i, i + pl);
        if str_eq(window, pat) {
            proof {
                lemma_find_from_step(s@, pat@, from as int, i as int);
                assert(window@ =~= s@.subrange(i as int, i + pl as int));
            }
            return Some(i);
        }
        proof {
            assert(window@ =~= s@.subrange(i as int, i + pl as int));
            assert(!is_match_at(s@, pat@, i as int));
        }
        i += 1;
    }
    proof {
        lemma_find_from_step(s@, pat@, from as int, i as int);
    }
    None
}

/// Whether two string slices hold the same characters.
pub fn str_eq(a: &str, b: &str) -> (r: bool)
    ensures
        r == (a@ == b@),
{
    let al = a.unicode_len();
    let bl = b.unicode_len();
    if al != bl {
        return false;
    }
    let mut i: usize = 0;
    while i < al
        invariant
            al == a@.len(),
            bl == b@.len(),
            al == bl,
            i <= al,
            forall|j: int| 0 <= j < i ==> a@[j] == b@[j],
        decreases al - i,
    {
        if a.get_char(i) != b.get_char(i) {
            assert(a@ != b@) by {
                assert(a@ == b@ ==> a@[i as int] == b@[i as int]);
            }
            return false;
        }
        i += 1;
    }
    proof {
        assert(a@ =~= b@);
    }
    true
}

} // verus!
