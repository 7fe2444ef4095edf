//! Character-level text utilities: substring search and extraction.
//!
//! All functions work on the character sequences (`Seq<char>`) that `&str`
//! and `String` denote, so the contracts are exact statements about text
//! content.

use vstd::prelude::*;
use vstd::string::StrSliceExecFns;

verus! {

/// `needle` occurs in `hay` starting at character index `i`.
pub open spec fn occurs_at(hay: Seq<char>, needle: Seq<char>, i: int) -> bool {
    &&& 0 <= i
    &&& i + needle.len() <= hay.len()
    &&& hay.subrange(i, i + needle.len() as int) == needle
}

/// `needle` occurs somewhere in `hay`.
pub open spec fn contains_seq(hay: Seq<char>, needle: Seq<char>) -> bool {
    exists|i: int| occurs_at(hay, needle, i)
}

/// `i` is the leftmost index at which `needle` occurs in `hay`.
pub open spec fn is_first_occurrence(hay: Seq<char>, needle: Seq<char>, i: int) -> bool {
    &&& occurs_at(hay, needle, i)
    &&& forall|j: int| 0 <= j < i ==> !occurs_at(hay, needle, j)
}

/// `i` is the rightmost index at which `needle` occurs in `hay`.
pub open spec fn is_last_occurrence(hay: Seq<char>, needle: Seq<char>, i: int) -> bool {
    &&& occurs_at(hay, needle, i)
    &&& forall|j: int| j > i ==> !occurs_at(hay, needle, j)
}

/// Whether `needle` matches `hay` at position `i`, by character comparison.
fn matches_at(hay: &str, needle: &str, i: usize) -> (r: bool)
    requires
        i + needle@.len() <= hay@.len(),
    ensures
        r == occurs_at(hay@, needle@, i as int),
{
    let hlen = hay.unicode_len();
    let nlen = needle.unicode_len();
    let mut j: usize = 0;
    while j < nlen
        invariant
            hlen == hay@.len(),
            nlen == needle@.len(),
            0 <= j <= nlen,
            i + nlen <= hlen,
            forall|k: int| 0 <= k < j ==> hay@[i + k] == needle@[k],
        decreases nlen - j,
    {
        let hc = hay.get_char(i + j);
        let nc = needle.get_char(j);
        if hc != nc {
            assert(!occurs_at(hay@, needle@, i as int)) by {
                if occurs_at(hay@, needle@, i as int) {
                    assert(hay@.subrange(i as int, i + needle@.len() as int)[j as int]
                        == needle@[j as int]);
                }
            }
            return false;
        }
        j = j + 1;
    }
    assert(hay@.subrange(i as int, i + needle@.len() as int) =~= needle@);
    true
}

/// Index of the first occurrence of `needle` in `hay`, if any.
pub fn find_first(hay: &str, needle: &str) -> (r: Option<usize>)
    ensures
        match r {
            Some(i) => is_first_occurrence(hay@, needle@, i as int),
            None => !contains_seq(hay@, needle@),
        },
{
    let hlen = hay.unicode_len();
    let nlen = needle.unicode_len();
    if nlen > hlen {
        assert(forall|j: int| !occurs_at(hay@, needle@, j));
        return None;
    }
    let last_start = hlen - nlen;
    let mut i: usize = 0;
    loop
        invariant
            hlen == hay@.len(),
            nlen == needle@.len(),
            nlen <= hlen,
            last_start == hlen - nlen,
            0 <= i <= last_start,
            forall|j: int| 0 <= j < i ==> !occurs_at(hay@, needle@, j),
        decreases last_start - i,
    {
        if matches_at(hay, needle, i) {
            return Some(i);
        }
        if i == last_start {
            assert(forall|j: int| !occurs_at(hay@, needle@, j));
            return None;
        }
        i = i + 1;
    }
}

/// Index of the last occurrence of `needle` in `hay`, if any.
pub fn find_last(hay: &str, needle: &str) -> (r: Option<usize>)
    ensures
        match r {
            Some(i) => is_last_occurrence(hay@, needle@, i as int),
            None => !contains_seq(hay@, needle@),
        },
{
    let hlen = hay.unicode_len();
    let nlen = needle.unicode_len();
    if nlen > hlen {
        assert(forall|j: int| !occurs_at(hay@, needle@, j));
        return None;
    }
    let last_start = hlen - nlen;
    let mut i: usize = last_start;
    loop
        invariant
            hlen == hay@.len(),
            nlen == needle@.len(),
            nlen <= hlen,
            last_start == hlen - nlen,
            0 <= i <= last_start,
            forall|j: int| i < j ==> !occurs_at(hay@, needle@, j),
        decreases i,
    {
        if matches_at(hay, needle, i) {
            return Some(i);
        }
        if i == 0 {
            assert(forall|j: int| !occurs_at(hay@, needle@, j));
            return None;
        }
        i = i - 1;
    }
}

/// Whether `needle` occurs anywhere in `hay`.
pub fn contains_sub(hay: &str, needle: &str) -> (r: bool)
    ensures
        r == contains_seq(hay@, needle@),
{
    match find_first(hay, needle) {
        Some(_) => true,
        None => false,
    }
}

/// The text strictly between the first occurrence of `start` and the first
/// occurrence of `end` that follows it.
pub open spec fn spec_between(
    source: Seq<char>,
    start: Seq<char>,
    end: Seq<char>,
) -> Option<Seq<char>> {
    if !contains_seq(source, start) {
        None
    } else {
        let i = choose|i: int| is_first_occurrence(source, start, i);
        let tail = source.subrange(i + start.len() as int, source.len() as int);
        if !contains_seq(tail, end) {
            None
        } else {
            let j = choose|j: int| is_first_occurrence(tail, end, j);
            Some(tail.subrange(0, j))
        }
    }
}

/// The first occurrence index is unique, so `choose` picks it exactly.
proof fn lemma_first_occurrence_unique(hay: Seq<char>, needle: Seq<char>, i: int)
    requires
        is_first_occurrence(hay, needle, i),
    ensures
        (choose|k: int| is_first_occurrence(hay, needle, k)) == i,
{
    let k = choose|k: int| is_first_occurrence(hay, needle, k);
    assert(is_first_occurrence(hay, needle, k));
    if k < i {
        assert(occurs_at(hay, needle, k));
        assert(false);
    } else if i < k {
        assert(occurs_at(hay, needle, i));
        assert(false);
    }
}

/// Substring of `source` between the first occurrence of `start` and the
/// first following occurrence of `end` (both exclusive).
pub fn between<'a>(source: &'a str, start: &str, end: &str) -> (r: Option<&'a str>)
    ensures
        match r {
            Some(mid) => spec_between(source@, start@, end@) == Some(mid@),
            None => spec_between(source@, start@, end@) is None,
        },
{
    let slen = source.unicode_len();
    match find_first(source, start) {
        None => None,
        Some(i) => {
            proof {
                lemma_first_occurrence_unique(source@, start@, i as int);
            }
            let tail_start = i + start.unicode_len();
            let tail = source.substring_char(tail_start, slen);
            match find_first(tail, end) {
                None => None,
                Some(j) => {
                    proof {
                        lemma_first_occurrence_unique(tail@, end@, j as int);
                    }
                    Some(tail.substring_char(0, j))
                },
            }
        },
    }
}

/// Index of the last occurrence of `c` in `s` at or before `i`, or `-1`.
pub open spec fn last_char_at_or_before(s: Seq<char>, c: char, i: int) -> int
    decreases i + 1 when i >= -1
{
    if i < 0 {
        -1
    } else if s[i] == c {
        i
    } else {
        last_char_at_or_before(s, c, i - 1)
    }
}

/// A witness placement pins down `last_char_at_or_before`.
pub proof fn lemma_last_char_value(s: Seq<char>, c: char, i: int, r: int)
    requires
        -1 <= r <= i,
        r >= 0 ==> s[r] == c,
        forall|j: int| r < j <= i ==> s[j] != c,
    ensures
        last_char_at_or_before(s, c, i) == r,
    decreases i + 1,
{
    if i > r {
        lemma_last_char_value(s, c, i - 1, r);
    }
}

/// Index of the last occurrence of `needle` in `hay` at or before `i`, or
/// `-1` if there is none so placed.
pub open spec fn last_occ_from(hay: Seq<char>, needle: Seq<char>, i: int) -> int
    decreases i + 1 when i >= -1
{
    if i < 0 {
        -1
    } else if occurs_at(hay, needle, i) {
        i
    } else {
        last_occ_from(hay, needle, i - 1)
    }
}

/// Index of the last occurrence of `needle` in `hay`, or `-1` if none.
pub open spec fn last_occ_index(hay: Seq<char>, needle: Seq<char>) -> int {
    if needle.len() > hay.len() {
        -1
    } else {
        last_occ_from(hay, needle, hay.len() - needle.len())
    }
}

proof fn lemma_last_occ_from_value(hay: Seq<char>, needle: Seq<char>, i: int, r: int)
    requires
        -1 <= r <= i,
        r >= 0 ==> occurs_at(hay, needle, r),
        forall|j: int| r < j <= i ==> !occurs_at(hay, needle, j),
    ensures
        last_occ_from(hay, needle, i) == r,
    decreases i + 1,
{
    if i > r {
        lemma_last_occ_from_value(hay, needle, i - 1, r);
    }
}

/// The quantified description of a last occurrence (or of its absence)
/// pins down `last_occ_index`.
pub proof fn lemma_last_occ_value(hay: Seq<char>, needle: Seq<char>, r: int)
    requires
        r >= 0 ==> is_last_occurrence(hay, needle, r),
        r == -1 ==> !contains_seq(hay, needle),
        r >= -1,
    ensures
        last_occ_index(hay, needle) == r,
{
    if needle.len() > hay.len() {
        if r >= 0 {
            assert(occurs_at(hay, needle, r));
            assert(false);
        }
    } else {
        let top = hay.len() - needle.len();
        if r >= 0 {
            assert(r + needle.len() <= hay.len());
            assert(forall|j: int| r < j <= top ==> !occurs_at(hay, needle, j));
            lemma_last_occ_from_value(hay, needle, top as int, r);
        } else {
            assert(forall|j: int| -1 < j <= top ==> !occurs_at(hay, needle, j));
            lemma_last_occ_from_value(hay, needle, top as int, -1);
        }
    }
}

/// Index of the last occurrence of `c` strictly before `upto`, if any.
pub fn rfind_char(s: &str, c: char, upto: usize) -> (r: Option<usize>)
    requires
        upto <= s@.len(),
    ensures
        match r {
            Some(i) => i < upto && s@[i as int] == c && (forall|j: int|
                i < j < upto ==> s@[j] != c),
            None => forall|j: int| 0 <= j < upto ==> s@[j] != c,
        },
{
    if upto == 0 {
        return None;
    }
    let mut i: usize = upto - 1;
    loop
        invariant
            upto <= s@.len(),
            0 <= i < upto,
            forall|j: int| i < j < upto ==> s@[j] != c,
        decreases i,
    {
        if s.get_char(i) == c {
            return Some(i);
        }
        if i == 0 {
            return None;
        }
        i = i - 1;
    }
}

/// One trailing carriage return is dropped from a line body.
pub open spec fn strip_cr(l: Seq<char>) -> Seq<char> {
    if l.len() > 0 && l[l.len() - 1] == '\r' {
        l.subrange(0, l.len() - 1)
    } else {
        l
    }
}

/// Index of the first newline at or after `i`, or `s.len()` if there is none.
pub open spec fn first_newline_from(s: Seq<char>, i: int) -> int
    decreases s.len() - i when 0 <= i <= s.len()
{
    if i >= s.len() {
        s.len() as int
    } else if s[i] == '\n' {
        i
    } else {
        first_newline_from(s, i + 1)
    }
}

proof fn lemma_first_newline_bounds(s: Seq<char>, i: int)
    requires
        0 <= i <= s.len(),
    ensures
        i <= first_newline_from(s, i) <= s.len(),
        first_newline_from(s, i) < s.len() ==> s[first_newline_from(s, i)] == '\n',
        forall|j: int| i <= j < first_newline_from(s, i) ==> s[j] != '\n',
    decreases s.len() - i,
{
    if i < s.len() && s[i] != '\n' {
        lemma_first_newline_bounds(s, i + 1);
    }
}

/// A newline-free prefix ending at a newline (or at the end) pins down
/// `first_newline_from`.
proof fn lemma_first_newline_value(s: Seq<char>, r: int)
    requires
        0 <= r <= s.len(),
        r < s.len() ==> s[r] == '\n',
        forall|j: int| 0 <= j < r ==> s[j] != '\n',
    ensures
        first_newline_from(s, 0) == r,
{
    lemma_first_newline_bounds(s, 0);
    let f = first_newline_from(s, 0);
    if f < r {
        assert(s[f] != '\n');
        assert(false);
    } else if r < f {
        assert(s[r] != '\n');
        assert(false);
    }
}

/// The lines of a text, in the manner of a buffered reader: split at each
/// newline, dropping the newline and one carriage return before it; a final
/// fragment without a newline is a line as it stands; a trailing newline
/// produces no empty final line.
pub open spec fn spec_lines(s: Seq<char>) -> Seq<Seq<char>>
    decreases s.len()
    via spec_lines_decreases
{
    if s.len() == 0 {
        Seq::empty()
    } else {
        let i = first_newline_from(s, 0);
        if i == s.len() {
            seq![s]
        } else {
            seq![strip_cr(s.subrange(0, i))] + spec_lines(s.subrange(i + 1, s.len() as int))
        }
    }
}

#[via_fn]
proof fn spec_lines_decreases(s: Seq<char>) {
    if s.len() > 0 {
        lemma_first_newline_bounds(s, 0);
    }
}

/// Index of the first newline at or after `from`, or `text`'s length if
/// there is none.
fn find_newline(text: &str, from: usize) -> (nl: usize)
    requires
        from <= text@.len(),
    ensures
        from <= nl <= text@.len(),
        nl < text@.len() ==> text@[nl as int] == '\n',
        forall|j: int| from <= j < nl ==> text@[j] != '\n',
{
    let len = text.unicode_len();
    let mut i: usize = from;
    while i < len
        invariant
            len == text@.len(),
            from <= i <= len,
            forall|j: int| from <= j < i ==> text@[j] != '\n',
        decreases len - i,
    {
        if text.get_char(i) == '\n' {
            return i;
        }
        i = i + 1;
    }
    len
}

/// The line with 0-based index `n`, if the text has that many lines.
pub fn nth_line<'a>(text: &'a str, n: usize) -> (r: Option<&'a str>)
    ensures
        match r {
            Some(l) => n < spec_lines(text@).len() && l@ == spec_lines(text@)[n as int],
            None => n >= spec_lines(text@).len(),
        },
{
    let len = text.unicode_len();
    let ghost all = spec_lines(text@);
    let mut pos: usize = 0;
    let mut k: usize = 0;
    proof {
        assert(text@.subrange(0, len as int) =~= text@);
        assert(all.skip(0) =~= all);
    }
    loop
        invariant
            len == text@.len(),
            0 <= pos <= len,
            k <= n,
            all == spec_lines(text@),
            all.skip(k as int) =~= spec_lines(text@.subrange(pos as int, len as int)),
            k <= all.len(),
        decreases len - pos,
    {
        let ghost suffix = text@.subrange(pos as int, len as int);
        if pos == len {
            assert(suffix =~= Seq::<char>::empty());
            assert(all.len() - k == 0);
            return None;
        }
        let nl = find_newline(text, pos);
        proof {
            assert forall|j: int| 0 <= j < nl - pos implies suffix[j] != '\n' by {
                assert(suffix[j] == text@[pos + j]);
            }
            if nl < len {
                assert(suffix[nl - pos] == text@[nl as int]);
            }
            lemma_first_newline_value(suffix, nl - pos);
        }
        if nl == len {
            // The suffix is a final line without a newline.
            proof {
                assert(suffix.len() > 0);
                assert(first_newline_from(suffix, 0) == suffix.len());
                assert(spec_lines(suffix) == seq![suffix]);
            }
            if k == n {
                let line = text.substring_char(pos, len);
                proof {
                    assert(all.skip(k as int).len() == 1);
                    assert(all.len() == k + 1);
                    assert(all[n as int] == all.skip(k as int)[0]);
                }
                assert(line@ == all[n as int]);
                return Some(line);
            }
            pos = len;
            k = k + 1;
            proof {
                assert(text@.subrange(len as int, len as int) =~= Seq::<char>::empty());
                assert(all.skip(k as int) =~= spec_lines(
                    text@.subrange(pos as int, len as int),
                ));
            }
        } else {
            proof {
                assert(suffix.len() > 0);
                assert(first_newline_from(suffix, 0) == nl - pos);
                assert(spec_lines(suffix) == seq![strip_cr(suffix.subrange(0, nl - pos))]
                    + spec_lines(suffix.subrange(nl - pos + 1, suffix.len() as int)));
                assert(all.skip(k as int).len() >= 1);
                assert(all.len() >= k + 1);
            }
            if k == n {
                let line_end = if nl > pos && text.get_char(nl - 1) == '\r' {
                    nl - 1
                } else {
                    nl
                };
                let line = text.substring_char(pos, line_end);
                proof {
                    let body = suffix.subrange(0, nl - pos);
                    assert(body =~= text@.subrange(pos as int, nl as int));
                    if nl > pos && text@[nl - 1] == '\r' {
                        assert(body[body.len() - 1] == text@[nl - 1]);
                        assert(strip_cr(body) =~= text@.subrange(pos as int, nl - 1));
                    } else {
                        if nl > pos {
                            assert(body[body.len() - 1] == text@[nl - 1]);
                        }
                        assert(strip_cr(body) =~= text@.subrange(pos as int, nl as int));
                    }
                    assert(all[n as int] == all.skip(k as int)[0]);
                    assert(all.skip(k as int)[0] == spec_lines(suffix)[0]);
                }
                assert(line@ == all[n as int]);
                return Some(line);
            }
            proof {
                let rest = suffix.subrange(nl - pos + 1, suffix.len() as int);
                assert(rest =~= text@.subrange(nl + 1, len as int));
                assert(spec_lines(suffix).skip(1) =~= spec_lines(rest));
                assert(all.skip(k as int).skip(1) =~= all.skip(k + 1));
            }
            pos = nl + 1;
            k = k + 1;
            assert(all.skip(k as int) =~= spec_lines(text@.subrange(pos as int, len as int)));
        }
    }
}

} // verus!
