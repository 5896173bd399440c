//! Splitting text into lines, fields and words, and reading numbers out of it, as
//! `str::lines`, `str::split`, `str::split_whitespace` and `str::parse` do.
use vstd::prelude::*;
use crate::text::{is_white_space, char_is_white_space, seq_starts_with, occurs_at, matches_at};


verus! {

/// The index of the first `c` in `s`, or `s.len()` when there is none.
pub open spec fn first_index_of(s: Seq<char>, c: char) -> int
    decreases s.len(),
{
    if s.len() == 0 {
        0
    } else if s[0] == c {
        0
    } else {
        1 + first_index_of(s.drop_first(), c)
    }
}

/// `first_index_of` is the index before which `c` does not occur and at which it does
/// (or the end).
pub proof fn lemma_first_index_of_is(s: Seq<char>, c: char, k: int)
    requires
        0 <= k <= s.len(),
        forall|m: int| 0 <= m < k ==> s[m] != c,
        k == s.len() || s[k] == c,
    ensures
        first_index_of(s, c) == k,
    decreases s.len(),
{
    if s.len() > 0 && k > 0 {
        let t = s.drop_first();
        assert forall|m: int| 0 <= m < k - 1 implies t[m] != c by {
            assert(t[m] == s[m + 1]);
        }
        if k < s.len() {
            assert(t[k - 1] == s[k]);
        }
        lemma_first_index_of_is(t, c, k - 1);
    }
}

/// A line with the `\r` of a `\r\n` line ending removed.
pub open spec fn strip_cr(l: Seq<char>) -> Seq<char> {
    if l.len() > 0 && l.last() == '\r' {
        l.drop_last()
    } else {
        l
    }
}

/// The lines of `s` (`str::lines`): split at `\n`, with a `\r` before the `\n` removed;
/// a final line ending is optional, and an empty text has no lines.
pub open spec fn lines(s: Seq<char>) -> Seq<Seq<char>>
    decreases s.len(),
{
    if s.len() == 0 {
        seq![]
    } else {
        let i = first_index_of(s, '\n');
        if 0 <= i < s.len() {
            seq![strip_cr(s.take(i))] + lines(s.skip(i + 1))
        } else {
            seq![s]
        }
    }
}

/// The pieces of `s` between the occurrences of `c` (`str::split` on a character);
/// there is always at least one.
pub open spec fn split_char(s: Seq<char>, c: char) -> Seq<Seq<char>>
    decreases s.len(),
{
    let i = first_index_of(s, c);
    if 0 <= i < s.len() {
        seq![s.take(i)] + split_char(s.skip(i + 1), c)
    } else {
        seq![s]
    }
}

/// The views of a list of character vectors.
pub open spec fn views(v: Seq<Vec<char>>) -> Seq<Seq<char>> {
    v.map_values(|x: Vec<char>| x@)
}

/// The first index at or after `from` holding `c`, or `v.len()`.
fn find_char_from(v: &[char], c: char, from: usize) -> (r: usize)
    requires
        from <= v@.len(),
    ensures
        from <= r <= v@.len(),
        r - from == first_index_of(v@.subrange(from as int, v@.len() as int), c),
{
    let mut j = from;
    while j < v.len() && v[j] != c
        invariant
            from <= j <= v@.len(),
            forall|m: int| from <= m < j ==> v@[m] != c,
        decreases v@.len() - j,
    {
        j += 1;
    }
    proof {
        let sub = v@.subrange(from as int, v@.len() as int);
        assert forall|m: int| 0 <= m < j - from implies sub[m] != c by {
            assert(sub[m] == v@[from + m]);
        }
        if j < v@.len() {
            assert(sub[j - from] == v@[j as int]);
        }
        lemma_first_index_of_is(sub, c, j - from);
    }
    j
}

fn copy_range(v: &[char], lo: usize, hi: usize) -> (r: Vec<char>)
    requires
        lo <= hi <= v@.len(),
    ensures
        r@ == v@.subrange(lo as int, hi as int),
{
    let mut r: Vec<char> = Vec::new();
    let mut i = lo;
    while i < hi
        invariant
            lo <= i <= hi <= v@.len(),
            r@ == v@.subrange(lo as int, i as int),
        decreases hi - i,
    {
        r.push(v[i]);
        assert(v@.subrange(lo as int, i as int).push(v@[i as int]) =~= v@.subrange(lo as int, i + 1));
        i += 1;
    }
    r
}

/// The lines of `v`.
pub fn split_lines(v: &[char]) -> (r: Vec<Vec<char>>)
    ensures
        views(r@) == lines(v@),
{
    let n = v.len();
    let mut r: Vec<Vec<char>> = Vec::new();
    let mut pos: usize = 0;
    assert(v@.subrange(0, n as int) =~= v@);
    while pos < n
        invariant
            n == v@.len(),
            pos <= n,
            lines(v@) == views(r@) + lines(v@.subrange(pos as int, n as int)),
        decreases n - pos,
    {
        let ghost sub = v@.subrange(pos as int, n as int);
        let j = find_char_from(v, '\n', pos);
        let ghost old_r = r@;
        if j < n {
            let mut hi = j;
            if hi > pos && v[hi - 1] == '\r' {
                hi = hi - 1;
            }
            let line = copy_range(v, pos, hi);
            proof {
                assert(sub.take(j - pos) =~= v@.subrange(pos as int, j as int));
                assert(sub.skip(j - pos + 1) =~= v@.subrange(j + 1, n as int));
                assert(line@ =~= strip_cr(sub.take(j - pos)));
            }
            r.push(line);
            pos = j + 1;
            proof {
                assert(views(r@) =~= views(old_r) + seq![line@]);
            }
        } else {
            let line = copy_range(v, pos, n);
            r.push(line);
            pos = n;
            proof {
                assert(views(r@) =~= views(old_r) + seq![line@]);
                assert(v@.subrange(n as int, n as int) =~= Seq::<char>::empty());
            }
        }
    }
    assert(v@.subrange(n as int, n as int) =~= Seq::<char>::empty());
    assert(views(r@) + seq![] =~= views(r@));
    r
}

/// The pieces of `v` between occurrences of `c`.
pub fn split_at_char(v: &[char], c: char) -> (r: Vec<Vec<char>>)
    ensures
        views(r@) == split_char(v@, c),
{
    let n = v.len();
    let mut r: Vec<Vec<char>> = Vec::new();
    let mut pos: usize = 0;
    assert(v@.subrange(0, n as int) =~= v@);
    loop
        invariant
            n == v@.len(),
            pos <= n,
            split_char(v@, c) == views(r@) + split_char(v@.subrange(pos as int, n as int), c),
        decreases n - pos,
    {
        let ghost sub = v@.subrange(pos as int, n as int);
        let j = find_char_from(v, c, pos);
        let ghost old_r = r@;
        let piece = copy_range(v, pos, j);
        r.push(piece);
        proof {
            assert(views(r@) =~= views(old_r) + seq![piece@]);
            assert(sub.take(j - pos) =~= piece@);
        }
        if j < n {
            proof {
                assert(sub.skip(j - pos + 1) =~= v@.subrange(j + 1, n as int));
            }
            pos = j + 1;
        } else {
            proof {
                assert(sub =~= piece@);
                assert(views(r@) =~= views(old_r) + seq![piece@]);
            }
            return r;
        }
    }
}


/// The length of the run of characters at the start of `s` that are not white space.
pub open spec fn first_space(s: Seq<char>) -> nat
    decreases s.len(),
{
    if s.len() == 0 || is_white_space(s[0]) {
        0
    } else {
        1 + first_space(s.drop_first())
    }
}

/// `first_space` stays within `s`, counts only non-white-space characters, and stops at
/// white space.
pub proof fn lemma_first_space(s: Seq<char>)
    ensures
        first_space(s) <= s.len(),
        forall|m: int| 0 <= m < first_space(s) ==> !is_white_space(#[trigger] s[m]),
        first_space(s) < s.len() ==> is_white_space(s[first_space(s) as int]),
    decreases s.len(),
{
    if s.len() > 0 && !is_white_space(s[0]) {
        lemma_first_space(s.drop_first());
        assert forall|m: int| 0 <= m < first_space(s) implies !is_white_space(#[trigger] s[m]) by {
            if m > 0 {
                assert(s[m] == s.drop_first()[m - 1]);
            }
        }
    }
}

/// `first_space` is the length of the non-white-space run that ends at white space or at
/// the end of `s`.
pub proof fn lemma_first_space_is(s: Seq<char>, k: int)
    requires
        0 <= k <= s.len(),
        forall|m: int| 0 <= m < k ==> !is_white_space(#[trigger] s[m]),
        k == s.len() || is_white_space(s[k]),
    ensures
        first_space(s) == k,
    decreases s.len(),
{
    if s.len() > 0 && k > 0 {
        let t = s.drop_first();
        assert(!is_white_space(s[0]));
        assert forall|m: int| 0 <= m < k - 1 implies !is_white_space(#[trigger] t[m]) by {
            assert(t[m] == s[m + 1]);
        }
        if k < s.len() {
            assert(t[k - 1] == s[k]);
        }
        lemma_first_space_is(t, k - 1);
    }
}

/// The white-space separated words of `s`, in order (`str::split_whitespace`).
pub open spec fn words(s: Seq<char>) -> Seq<Seq<char>>
    decreases s.len(),
{
    if s.len() == 0 {
        seq![]
    } else if is_white_space(s[0]) {
        words(s.drop_first())
    } else {
        let k = first_space(s);
        proof {
            lemma_first_space(s);
        }
        seq![s.take(k as int)] + words(s.skip(k as int))
    }
}

/// The words of `v`.
pub fn split_words(v: &[char]) -> (r: Vec<Vec<char>>)
    ensures
        views(r@) == words(v@),
{
    let n = v.len();
    let mut r: Vec<Vec<char>> = Vec::new();
    let mut pos: usize = 0;
    assert(v@.subrange(0, n as int) =~= v@);
    while pos < n
        invariant
            n == v@.len(),
            pos <= n,
            words(v@) == views(r@) + words(v@.subrange(pos as int, n as int)),
        decreases n - pos,
    {
        let ghost sub = v@.subrange(pos as int, n as int);
        if char_is_white_space(v[pos]) {
            assert(sub.drop_first() =~= v@.subrange(pos + 1, n as int));
            pos += 1;
        } else {
            let mut j = pos + 1;
            while j < n && !char_is_white_space(v[j])
                invariant
                    n == v@.len(),
                    pos < j <= n,
                    forall|m: int| pos <= m < j ==> !is_white_space(#[trigger] v@[m]),
                decreases n - j,
            {
                j += 1;
            }
            proof {
                assert forall|m: int| 0 <= m < j - pos implies !is_white_space(#[trigger] sub[m]) by {
                    assert(sub[m] == v@[pos + m]);
                }
                if j < n {
                    assert(sub[j - pos] == v@[j as int]);
                }
                lemma_first_space_is(sub, j - pos);
            }
            let ghost old_r = r@;
            let word = copy_range(v, pos, j);
            r.push(word);
            proof {
                assert(sub.take(j - pos) =~= word@);
                assert(sub.skip(j - pos) =~= v@.subrange(j as int, n as int));
                assert(views(r@) =~= views(old_r) + seq![word@]);
            }
            pos = j;
        }
    }
    assert(v@.subrange(n as int, n as int) =~= Seq::<char>::empty());
    assert(views(r@) + seq![] =~= views(r@));
    r
}


/// Whether `c` is one of the ASCII digits `0`..=`9`.
pub open spec fn is_digit(c: char) -> bool {
    '0' <= c && c <= '9'
}

/// The value of a string of decimal digits.
pub open spec fn digits_value(s: Seq<char>) -> nat
    decreases s.len(),
{
    if s.len() == 0 {
        0
    } else {
        digits_value(s.drop_last()) * 10 + ((s.last() as u32) - ('0' as u32)) as nat
    }
}

/// Whether every character of `s` is an ASCII digit.
pub open spec fn all_digits(s: Seq<char>) -> bool {
    forall|i: int| 0 <= i < s.len() ==> is_digit(#[trigger] s[i])
}

/// The digits that `str::parse` reads as an unsigned number: all of `s`, or all of it
/// after one leading `+`; `None` when that is empty or holds a character that is no
/// ASCII digit.
pub open spec fn unsigned_digits(s: Seq<char>) -> Option<Seq<char>> {
    let d = if s.len() > 0 && s[0] == '+' {
        s.drop_first()
    } else {
        s
    };
    if d.len() > 0 && all_digits(d) {
        Some(d)
    } else {
        None
    }
}

/// What `str::parse` gives for an unsigned integer type whose largest value is `max`.
pub open spec fn parse_unsigned(s: Seq<char>, max: nat) -> Option<nat> {
    match unsigned_digits(s) {
        Some(d) => if digits_value(d) <= max {
            Some(digits_value(d))
        } else {
            None
        },
        None => None,
    }
}

proof fn lemma_digits_value_grows(s: Seq<char>, i: int, j: int)
    requires
        0 <= i <= j <= s.len(),
        forall|m: int| 0 <= m < s.len() ==> is_digit(#[trigger] s[m]),
    ensures
        digits_value(s.take(i)) <= digits_value(s.take(j)),
    decreases j - i,
{
    if i < j {
        lemma_digits_value_grows(s, i, j - 1);
        assert(s.take(j).drop_last() =~= s.take(j - 1));
        assert(is_digit(s[j - 1]));
    }
}

/// `str::parse::<u64>`.
pub fn parse_u64(v: &[char]) -> (r: Option<u64>)
    ensures
        match parse_unsigned(v@, u64::MAX as nat) {
            Some(n) => r == Some(n as u64),
            None => r is None,
        },
{
    let n = v.len();
    if n == 0 || (v[0] == '+' && n == 1) {
        return None;
    }
    let start: usize = if v[0] == '+' {
        1
    } else {
        0
    };
    let ghost d = v@.subrange(start as int, n as int);
    assert(d =~= (if v@.len() > 0 && v@[0] == '+' {
        v@.drop_first()
    } else {
        v@
    }));
    let mut acc: u64 = 0;
    let mut i: usize = start;
    while i < n
        invariant
            n == v@.len(),
            start <= i <= n,
            d == v@.subrange(start as int, n as int),
            d == (if v@.len() > 0 && v@[0] == '+' {
                v@.drop_first()
            } else {
                v@
            }),
            d.len() > 0,
            forall|m: int| 0 <= m < i - start ==> is_digit(#[trigger] d[m]),
            acc == digits_value(d.take(i - start)),
        decreases n - i,
    {
        let c = v[i];
        if !('0' <= c && c <= '9') {
            proof {
                assert(!is_digit(d[i - start]));
                assert(!(forall|m: int| 0 <= m < d.len() ==> is_digit(#[trigger] d[m])));
                assert(unsigned_digits(v@) is None);
            }
            return None;
        }
        assert(d.take(i - start + 1).drop_last() =~= d.take(i - start));
        let dv = (c as u32 - '0' as u32) as u64;
        if acc > (u64::MAX - dv) / 10 {
            proof {
                assert(digits_value(d.take(i - start + 1)) == acc * 10 + dv);
                assert(acc * 10 + dv > u64::MAX) by (nonlinear_arith)
                    requires
                        acc > (u64::MAX - dv) / 10,
                        dv <= 9,
                ;
                if forall|m: int| 0 <= m < d.len() ==> is_digit(#[trigger] d[m]) {
                    lemma_digits_value_grows(d, i - start + 1, d.len() as int);
                    assert(d.take(d.len() as int) =~= d);
                }
            }
            return None;
        }
        acc = acc * 10 + dv;
        i += 1;
    }
    assert(d.take(d.len() as int) =~= d);
    Some(acc)
}

/// `str::parse::<u32>`.
pub fn parse_u32(v: &[char]) -> (r: Option<u32>)
    ensures
        match parse_unsigned(v@, u32::MAX as nat) {
            Some(n) => r == Some(n as u32),
            None => r is None,
        },
{
    match parse_u64(v) {
        Some(x) => if x <= u32::MAX as u64 {
            Some(x as u32)
        } else {
            None
        },
        None => None,
    }
}

/// `str::parse::<usize>`.
pub fn parse_usize(v: &[char]) -> (r: Option<usize>)
    ensures
        match parse_unsigned(v@, usize::MAX as nat) {
            Some(n) => r == Some(n as usize),
            None => r is None,
        },
{
    match parse_u64(v) {
        Some(x) => if x <= usize::MAX as u64 {
            Some(x as usize)
        } else {
            None
        },
        None => None,
    }
}


/// `s` with every leading repetition of `p` removed (`str::trim_start_matches` with a
/// string pattern); an empty `p` removes nothing.
pub open spec fn trim_start_matches(s: Seq<char>, p: Seq<char>) -> Seq<char>
    decreases s.len(),
{
    if p.len() > 0 && seq_starts_with(s, p) {
        trim_start_matches(s.skip(p.len() as int), p)
    } else {
        s
    }
}

/// `s` with every occurrence of `p` removed, scanning left to right
/// (`str::replace(p, "")`); an empty `p` removes nothing.
pub open spec fn remove_all(s: Seq<char>, p: Seq<char>) -> Seq<char>
    decreases s.len(),
{
    if s.len() == 0 {
        s
    } else if p.len() > 0 && seq_starts_with(s, p) {
        remove_all(s.skip(p.len() as int), p)
    } else {
        seq![s[0]] + remove_all(s.drop_first(), p)
    }
}

/// `s` with leading characters equal to `c` removed.
pub open spec fn trim_start_char(s: Seq<char>, c: char) -> Seq<char>
    decreases s.len(),
{
    if s.len() > 0 && s[0] == c {
        trim_start_char(s.drop_first(), c)
    } else {
        s
    }
}

/// `s` with trailing characters equal to `c` removed.
pub open spec fn trim_end_char(s: Seq<char>, c: char) -> Seq<char>
    decreases s.len(),
{
    if s.len() > 0 && s.last() == c {
        trim_end_char(s.drop_last(), c)
    } else {
        s
    }
}

/// `s` with `c` removed from both ends (`str::trim_matches` with a character).
pub open spec fn trim_char(s: Seq<char>, c: char) -> Seq<char> {
    trim_end_char(trim_start_char(s, c), c)
}

proof fn lemma_starts_with_at(v: Seq<char>, p: Seq<char>, i: int)
    requires
        0 <= i <= v.len(),
    ensures
        seq_starts_with(v.subrange(i, v.len() as int), p) == occurs_at(v, p, i),
{
    let sub = v.subrange(i, v.len() as int);
    if i + p.len() <= v.len() {
        assert(sub.subrange(0, p.len() as int) =~= v.subrange(i, i + p.len()));
    }
}

/// `v` with every leading repetition of `p` removed.
pub fn trim_start_matches_chars(v: &[char], p: &[char]) -> (r: Vec<char>)
    ensures
        r@ == trim_start_matches(v@, p@),
{
    let n = v.len();
    let mut i: usize = 0;
    assert(v@.subrange(0, n as int) =~= v@);
    if p.len() > 0 {
        while matches_at(v, p, i)
            invariant
                n == v@.len(),
                i <= n,
                p@.len() > 0,
                trim_start_matches(v@, p@) == trim_start_matches(v@.subrange(i as int, n as int), p@),
            decreases n - i,
        {
            proof {
                lemma_starts_with_at(v@, p@, i as int);
                assert(v@.subrange(i as int, n as int).skip(p@.len() as int) =~= v@.subrange(
                    i + p@.len(),
                    n as int,
                ));
            }
            i = i + p.len();
        }
        proof {
            lemma_starts_with_at(v@, p@, i as int);
        }
    }
    copy_range(v, i, n)
}

/// `v` with every occurrence of `p` removed, scanning left to right.
pub fn remove_all_chars(v: &[char], p: &[char]) -> (r: Vec<char>)
    ensures
        r@ == remove_all(v@, p@),
{
    let n = v.len();
    let mut r: Vec<char> = Vec::new();
    let mut i: usize = 0;
    assert(v@.subrange(0, n as int) =~= v@);
    while i < n
        invariant
            n == v@.len(),
            i <= n,
            remove_all(v@, p@) == r@ + remove_all(v@.subrange(i as int, n as int), p@),
        decreases n - i,
    {
        let ghost sub = v@.subrange(i as int, n as int);
        proof {
            lemma_starts_with_at(v@, p@, i as int);
        }
        if p.len() > 0 && matches_at(v, p, i) {
            assert(sub.skip(p@.len() as int) =~= v@.subrange(i + p@.len(), n as int));
            i = i + p.len();
        } else {
            let ghost old_r = r@;
            r.push(v[i]);
            assert(sub.drop_first() =~= v@.subrange(i + 1, n as int));
            assert(r@ + remove_all(sub.drop_first(), p@) =~= old_r + (seq![sub[0]] + remove_all(
                sub.drop_first(),
                p@,
            )));
            i += 1;
        }
    }
    assert(v@.subrange(n as int, n as int) =~= Seq::<char>::empty());
    assert(r@ + Seq::<char>::empty() =~= r@);
    r
}

/// `v` with `c` removed from both ends.
pub fn trim_char_chars(v: &[char], c: char) -> (r: Vec<char>)
    ensures
        r@ == trim_char(v@, c),
{
    let n = v.len();
    let mut lo: usize = 0;
    assert(v@.subrange(0, n as int) =~= v@);
    while lo < n && v[lo] == c
        invariant
            n == v@.len(),
            lo <= n,
            trim_start_char(v@, c) == trim_start_char(v@.subrange(lo as int, n as int), c),
        decreases n - lo,
    {
        assert(v@.subrange(lo as int, n as int).drop_first() =~= v@.subrange(lo + 1, n as int));
        lo += 1;
    }
    let mut hi: usize = n;
    assert(trim_start_char(v@, c) == v@.subrange(lo as int, n as int));
    while hi > lo && v[hi - 1] == c
        invariant
            n == v@.len(),
            lo <= hi <= n,
            trim_char(v@, c) == trim_end_char(v@.subrange(lo as int, hi as int), c),
        decreases hi,
    {
        assert(v@.subrange(lo as int, hi as int).drop_last() =~= v@.subrange(lo as int, hi - 1));
        hi -= 1;
    }
    copy_range(v, lo, hi)
}

}
