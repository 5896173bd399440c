//! Character-level text handling over the `Seq<char>` view of strings.
use vstd::prelude::*;

verus! {

broadcast use vstd::string::group_string_axioms;

/// `String::push` appends one character.
pub assume_specification[ String::push ](s: &mut String, ch: char)
    ensures
        final(s)@ == old(s)@.push(ch),
;

/// The characters of an optional string.
pub open spec fn opt_view(o: Option<&str>) -> Option<Seq<char>> {
    match o {
        Some(s) => Some(s@),
        None => None,
    }
}

/// The characters of `s`, in order.
pub fn chars_of(s: &str) -> (v: Vec<char>)
    ensures
        v@ == s@,
{
    let mut v: Vec<char> = Vec::new();
    let mut it = s.chars();
    for c in iter: it
        invariant
            v@ == iter.seq().take(iter.index() as int),
            iter.seq() == s@,
    {
        v.push(c);
    }
    v
}

/// A string holding exactly the characters `v[lo..hi]`.
pub fn string_of_range(v: &[char], lo: usize, hi: usize) -> (s: String)
    requires
        lo <= hi <= v@.len(),
    ensures
        s@ == v@.subrange(lo as int, hi as int),
{
    let mut s = String::new();
    let mut i: usize = lo;
    while i < hi
        invariant
            lo <= i <= hi <= v@.len(),
            s@ == v@.subrange(lo as int, i as int),
        decreases hi - i,
    {
        s.push(v[i]);
        assert(v@.subrange(lo as int, i as int).push(v@[i as int]) =~= v@.subrange(lo as int, i + 1));
        i += 1;
    }
    s
}

/// A string holding exactly the given characters.
pub fn string_of(v: &[char]) -> (s: String)
    ensures
        s@ == v@,
{
    let s = string_of_range(v, 0, v.len());
    assert(v@.subrange(0, v@.len() as int) =~= v@);
    s
}

/// Unicode general category `Cc`: the control codes U+0000..=U+001F and U+007F..=U+009F.
pub open spec fn is_control_char(c: char) -> bool {
    (c as u32) <= 0x1F || (0x7F <= (c as u32) && (c as u32) <= 0x9F)
}

/// The Unicode `White_Space` property, which `str::trim` and `split_whitespace` use.
pub open spec fn is_white_space(c: char) -> bool {
    let u = c as u32;
    ||| 0x09 <= u && u <= 0x0D
    ||| u == 0x20
    ||| u == 0x85
    ||| u == 0xA0
    ||| u == 0x1680
    ||| 0x2000 <= u && u <= 0x200A
    ||| u == 0x2028
    ||| u == 0x2029
    ||| u == 0x202F
    ||| u == 0x205F
    ||| u == 0x3000
}

/// The number of bytes of the UTF-8 encoding of `c`.
pub open spec fn utf8_width(c: char) -> nat {
    let u = c as u32;
    if u <= 0x7F {
        1
    } else if u <= 0x7FF {
        2
    } else if u <= 0xFFFF {
        3
    } else {
        4
    }
}

/// The number of bytes of the UTF-8 encoding of `s` (what `str::len` returns).
pub open spec fn byte_len(s: Seq<char>) -> nat
    decreases s.len(),
{
    if s.len() == 0 {
        0
    } else {
        byte_len(s.drop_last()) + utf8_width(s.last())
    }
}

/// `s` with leading white space removed.
pub open spec fn trim_start(s: Seq<char>) -> Seq<char>
    decreases s.len(),
{
    if s.len() > 0 && is_white_space(s[0]) {
        trim_start(s.drop_first())
    } else {
        s
    }
}

/// `s` with trailing white space removed.
pub open spec fn trim_end(s: Seq<char>) -> Seq<char>
    decreases s.len(),
{
    if s.len() > 0 && is_white_space(s.last()) {
        trim_end(s.drop_last())
    } else {
        s
    }
}

/// `s` with leading and trailing white space removed (`str::trim`).
pub open spec fn trim(s: Seq<char>) -> Seq<char> {
    trim_end(trim_start(s))
}

/// Whether `clean_string` keeps the character `c`.
pub open spec fn kept_by_clean(c: char) -> bool {
    !is_control_char(c) && c != '<' && c != '>' && c != '&' && c != '"' && c != '\''
}

/// The characters of `s` that `clean_string` keeps, in order.
pub open spec fn sanitize(s: Seq<char>) -> Seq<char>
    decreases s.len(),
{
    if s.len() == 0 {
        s
    } else if kept_by_clean(s.last()) {
        sanitize(s.drop_last()).push(s.last())
    } else {
        sanitize(s.drop_last())
    }
}

/// The sanitized and trimmed text that `clean_string` then shortens.
pub open spec fn cleaned_untruncated(s: Seq<char>) -> Seq<char> {
    trim(sanitize(s))
}

/// Whether `t` can be cut to `max_len` bytes without splitting a character,
/// or needs no cut at all.
pub open spec fn cut_fits(t: Seq<char>, max_len: nat) -> bool {
    byte_len(t) <= max_len || exists|k: int| 0 <= k <= t.len() && #[trigger] byte_len(t.take(k)) == max_len
}

/// The inputs on which `clean_string` returns rather than panics.
pub open spec fn clean_fits(s: Seq<char>, max_len: nat) -> bool {
    cut_fits(cleaned_untruncated(s), max_len)
}

/// What `clean_string` returns: the cleaned text, cut to its first `max_len` bytes
/// when it is longer than that.
pub open spec fn is_clean_result(s: Seq<char>, max_len: nat, r: Seq<char>) -> bool {
    let t = cleaned_untruncated(s);
    if byte_len(t) <= max_len {
        r == t
    } else {
        r.len() <= t.len() && r == t.take(r.len() as int) && byte_len(r) == max_len
    }
}

/// The text `clean_string` returns (meaningful where `clean_fits` holds).
pub open spec fn cleaned(s: Seq<char>, max_len: nat) -> Seq<char> {
    choose|r: Seq<char>| is_clean_result(s, max_len, r)
}

/// Where `clean_fits` holds, `cleaned` is the one result that `is_clean_result` allows.
pub proof fn lemma_cleaned(s: Seq<char>, max_len: nat)
    requires
        clean_fits(s, max_len),
    ensures
        is_clean_result(s, max_len, cleaned(s, max_len)),
        forall|r: Seq<char>| #[trigger] is_clean_result(s, max_len, r) ==> r == cleaned(s, max_len),
{
    let t = cleaned_untruncated(s);
    if byte_len(t) <= max_len {
        assert(is_clean_result(s, max_len, t));
    } else {
        let k = choose|k: int| 0 <= k <= t.len() && #[trigger] byte_len(t.take(k)) == max_len;
        assert(t.take(k).len() == k);
        assert(is_clean_result(s, max_len, t.take(k)));
    }
    let c = cleaned(s, max_len);
    assert forall|r: Seq<char>| #[trigger] is_clean_result(s, max_len, r) implies r == c by {
        if byte_len(t) > max_len {
            if r.len() < c.len() {
                lemma_byte_len_take_mono(t, r.len() as int, c.len() as int);
            } else if c.len() < r.len() {
                lemma_byte_len_take_mono(t, c.len() as int, r.len() as int);
            }
        }
    }
}

/// One more character adds its UTF-8 width to the byte length of a prefix.
pub proof fn lemma_byte_len_take_step(s: Seq<char>, i: int)
    requires
        0 <= i < s.len(),
    ensures
        byte_len(s.take(i + 1)) == byte_len(s.take(i)) + utf8_width(s[i]),
{
    assert(s.take(i + 1).drop_last() =~= s.take(i));
}

/// Longer prefixes take strictly more bytes.
pub proof fn lemma_byte_len_take_mono(s: Seq<char>, i: int, j: int)
    requires
        0 <= i < j <= s.len(),
    ensures
        byte_len(s.take(i)) < byte_len(s.take(j)),
    decreases j - i,
{
    lemma_byte_len_take_step(s, j - 1);
    if i < j - 1 {
        lemma_byte_len_take_mono(s, i, j - 1);
    }
}

/// The prefix of full length is the whole sequence.
pub proof fn lemma_byte_len_full(s: Seq<char>)
    ensures
        s.take(s.len() as int) == s,
{
    assert(s.take(s.len() as int) =~= s);
}

proof fn lemma_sanitize_kept(s: Seq<char>)
    ensures
        forall|i: int| 0 <= i < sanitize(s).len() ==> kept_by_clean(#[trigger] sanitize(s)[i]),
    decreases s.len(),
{
    if s.len() > 0 {
        let p = sanitize(s.drop_last());
        lemma_sanitize_kept(s.drop_last());
        if kept_by_clean(s.last()) {
            assert forall|i: int| 0 <= i < sanitize(s).len() implies kept_by_clean(
                #[trigger] sanitize(s)[i],
            ) by {
                if i < p.len() {
                    assert(sanitize(s)[i] == p[i]);
                }
            }
        }
    }
}

proof fn lemma_trim_start_is_suffix(s: Seq<char>)
    ensures
        exists|k: int| 0 <= k <= s.len() && trim_start(s) == #[trigger] s.skip(k),
        trim_start(s).len() > 0 ==> !is_white_space(trim_start(s)[0]),
    decreases s.len(),
{
    if s.len() > 0 && is_white_space(s[0]) {
        lemma_trim_start_is_suffix(s.drop_first());
        let k = choose|k: int| 0 <= k <= s.drop_first().len() && trim_start(s.drop_first())
            == #[trigger] s.drop_first().skip(k);
        assert(s.drop_first().skip(k) =~= s.skip(k + 1));
    } else {
        assert(s.skip(0) =~= s);
    }
}

proof fn lemma_trim_end_is_prefix(s: Seq<char>)
    ensures
        exists|j: int| 0 <= j <= s.len() && trim_end(s) == #[trigger] s.take(j),
        trim_end(s).len() > 0 ==> !is_white_space(trim_end(s).last()),
    decreases s.len(),
{
    if s.len() > 0 && is_white_space(s.last()) {
        lemma_trim_end_is_prefix(s.drop_last());
        let j = choose|j: int| 0 <= j <= s.drop_last().len() && trim_end(s.drop_last())
            == #[trigger] s.drop_last().take(j);
        assert(s.drop_last().take(j) =~= s.take(j));
    } else {
        assert(s.take(s.len() as int) =~= s);
    }
}

/// What `clean_string` returns is plain text: it holds no control character and none of
/// `<`, `>`, `&`, `"`, `'`; it takes at most `max_len` bytes; it does not begin with white
/// space; and unless it had to be cut, it does not end with white space either.
pub proof fn law_clean_string_is_plain(s: Seq<char>, max_len: nat, r: Seq<char>)
    requires
        is_clean_result(s, max_len, r),
    ensures
        forall|i: int| 0 <= i < r.len() ==> kept_by_clean(#[trigger] r[i]),
        byte_len(r) <= max_len,
        r.len() > 0 ==> !is_white_space(r[0]),
        byte_len(cleaned_untruncated(s)) <= max_len ==> (r.len() > 0 ==> !is_white_space(r.last())),
{
    let z = sanitize(s);
    let a = trim_start(z);
    let t = trim_end(a);
    lemma_sanitize_kept(s);
    lemma_trim_start_is_suffix(z);
    lemma_trim_end_is_prefix(a);
    let k = choose|k: int| 0 <= k <= z.len() && a == #[trigger] z.skip(k);
    let j = choose|j: int| 0 <= j <= a.len() && t == #[trigger] a.take(j);
    assert forall|i: int| 0 <= i < t.len() implies kept_by_clean(#[trigger] t[i]) by {
        assert(t[i] == a[i]);
        assert(a[i] == z[k + i]);
    }
    if r.len() > 0 {
        assert(r[0] == t[0]);
        assert(t[0] == a[0]);
    }
}

proof fn lemma_sanitize_keeps_clean_text(x: Seq<char>)
    requires
        forall|i: int| 0 <= i < x.len() ==> kept_by_clean(#[trigger] x[i]),
    ensures
        sanitize(x) == x,
    decreases x.len(),
{
    if x.len() > 0 {
        let y = x.drop_last();
        assert forall|i: int| 0 <= i < y.len() implies kept_by_clean(#[trigger] y[i]) by {
            assert(y[i] == x[i]);
        }
        lemma_sanitize_keeps_clean_text(y);
        assert(kept_by_clean(x[x.len() - 1]));
        assert(y.push(x.last()) =~= x);
    }
}

/// Cleaning what `clean_string` returned changes it at most by trimming white space off
/// its end (which a cut may have left there): the second cleaning always succeeds and
/// leaves text that was not cut as it is.
pub proof fn law_clean_string_is_idempotent(s: Seq<char>, max_len: nat, r: Seq<char>)
    requires
        is_clean_result(s, max_len, r),
    ensures
        clean_fits(r, max_len),
        is_clean_result(r, max_len, trim_end(r)),
        byte_len(cleaned_untruncated(s)) <= max_len ==> trim_end(r) == r,
{
    law_clean_string_is_plain(s, max_len, r);
    lemma_sanitize_keeps_clean_text(r);
    assert(trim_start(r) == r);
    lemma_trim_end_is_prefix(r);
    let j = choose|j: int| 0 <= j <= r.len() && trim_end(r) == #[trigger] r.take(j);
    lemma_byte_len_full(r);
    if j < r.len() {
        lemma_byte_len_take_mono(r, j, r.len() as int);
    }
    assert(cleaned_untruncated(r) == trim_end(r));
    if byte_len(cleaned_untruncated(s)) <= max_len && r.len() > 0 {
        assert(!is_white_space(r.last()));
    }
}

/// `clean_string` removes exactly the control characters (U+0000..=U+001F and
/// U+007F..=U+009F) and `<`, `>`, `&`, `"`, `'`: none of them is left in what it
/// returns, and text free of them, without white space at either end and within
/// `max_len` bytes, comes back unchanged.
pub proof fn law_clean_string_removes_markup(s: Seq<char>, max_len: nat, r: Seq<char>)
    requires
        is_clean_result(s, max_len, r),
    ensures
        forall|i: int|
            0 <= i < r.len() ==> {
                let c = #[trigger] r[i];
                &&& c != '<' && c != '>' && c != '&' && c != '"' && c != '\''
                &&& !((c as u32) <= 0x1F) && !(0x7F <= (c as u32) && (c as u32) <= 0x9F)
            },
        ({
            &&& forall|i: int|
                0 <= i < s.len() ==> {
                    let c = #[trigger] s[i];
                    &&& c != '<' && c != '>' && c != '&' && c != '"' && c != '\''
                    &&& !((c as u32) <= 0x1F) && !(0x7F <= (c as u32) && (c as u32) <= 0x9F)
                }
            &&& s.len() > 0 ==> !is_white_space(s[0]) && !is_white_space(s.last())
            &&& byte_len(s) <= max_len
        }) ==> r == s,
{
    law_clean_string_is_plain(s, max_len, r);
    assert forall|i: int| 0 <= i < r.len() implies {
        let c = #[trigger] r[i];
        &&& c != '<' && c != '>' && c != '&' && c != '"' && c != '\''
        &&& !((c as u32) <= 0x1F) && !(0x7F <= (c as u32) && (c as u32) <= 0x9F)
    } by {
        assert(kept_by_clean(r[i]));
    }
    if forall|i: int|
        0 <= i < s.len() ==> {
            let c = #[trigger] s[i];
            &&& c != '<' && c != '>' && c != '&' && c != '"' && c != '\''
            &&& !((c as u32) <= 0x1F) && !(0x7F <= (c as u32) && (c as u32) <= 0x9F)
        } {
        assert forall|i: int| 0 <= i < s.len() implies kept_by_clean(#[trigger] s[i]) by {
            let c = s[i];
            assert(c != '<' && c != '>' && c != '&' && c != '"' && c != '\'');
        }
        lemma_sanitize_keeps_clean_text(s);
        if s.len() > 0 && !is_white_space(s[0]) && !is_white_space(s.last()) {
            assert(trim_start(s) == s);
            assert(trim_end(s) == s);
        }
        if s.len() == 0 {
            assert(trim_start(s) == s);
            assert(trim_end(s) == s);
        }
    }
}

/// The UTF-8 width of `c`, computed.
pub fn char_width(c: char) -> (w: usize)
    ensures
        w == utf8_width(c),
{
    let u = c as u32;
    if u <= 0x7F {
        1
    } else if u <= 0x7FF {
        2
    } else if u <= 0xFFFF {
        3
    } else {
        4
    }
}

/// Whether `c` has the Unicode `White_Space` property.
pub fn char_is_white_space(c: char) -> (b: bool)
    ensures
        b == is_white_space(c),
{
    let u = c as u32;
    (0x09 <= u && u <= 0x0D) || u == 0x20 || u == 0x85 || u == 0xA0 || u == 0x1680 || (0x2000
        <= u && u <= 0x200A) || u == 0x2028 || u == 0x2029 || u == 0x202F || u == 0x205F || u
        == 0x3000
}

/// Leading white space can be dropped before trimming the start.
pub proof fn lemma_trim_start_skip(s: Seq<char>, i: int)
    requires
        0 <= i <= s.len(),
        forall|j: int| 0 <= j < i ==> is_white_space(#[trigger] s[j]),
    ensures
        trim_start(s) == trim_start(s.subrange(i, s.len() as int)),
    decreases i,
{
    if i > 0 {
        assert(is_white_space(s[0]));
        let t = s.drop_first();
        assert forall|j: int| 0 <= j < i - 1 implies is_white_space(#[trigger] t[j]) by {
            assert(t[j] == s[j + 1]);
        }
        lemma_trim_start_skip(t, i - 1);
        assert(t.subrange(i - 1, t.len() as int) =~= s.subrange(i, s.len() as int));
    } else {
        assert(s.subrange(0, s.len() as int) =~= s);
    }
}

/// Trailing white space can be dropped before trimming the end.
pub proof fn lemma_trim_end_skip(s: Seq<char>, k: int)
    requires
        0 <= k <= s.len(),
        forall|j: int| k <= j < s.len() ==> is_white_space(#[trigger] s[j]),
    ensures
        trim_end(s) == trim_end(s.take(k)),
    decreases s.len() - k,
{
    if k < s.len() {
        assert(is_white_space(s.last()));
        let t = s.drop_last();
        assert forall|j: int| k <= j < t.len() implies is_white_space(#[trigger] t[j]) by {
            assert(t[j] == s[j]);
        }
        lemma_trim_end_skip(t, k);
        assert(t.take(k) =~= s.take(k));
    } else {
        assert(s.take(k) =~= s);
    }
}

/// The span `[lo, hi)` of `v` that `str::trim` keeps.
pub fn trim_span(v: &[char]) -> (r: (usize, usize))
    ensures
        r.0 <= r.1 <= v@.len(),
        v@.subrange(r.0 as int, r.1 as int) == trim(v@),
{
    let n = v.len();
    let mut lo: usize = 0;
    while lo < n && char_is_white_space(v[lo])
        invariant
            n == v@.len(),
            0 <= lo <= n,
            forall|j: int| 0 <= j < lo ==> is_white_space(#[trigger] v@[j]),
        decreases n - lo,
    {
        lo += 1;
    }
    proof {
        lemma_trim_start_skip(v@, lo as int);
    }
    let ghost rest = v@.subrange(lo as int, n as int);
    assert(rest.len() == 0 || !is_white_space(rest[0]));
    assert(trim_start(rest) == rest);
    let mut hi: usize = n;
    while hi > lo && char_is_white_space(v[hi - 1])
        invariant
            n == v@.len(),
            lo <= hi <= n,
            rest == v@.subrange(lo as int, n as int),
            forall|j: int| hi <= j < n ==> is_white_space(#[trigger] v@[j]),
        decreases hi,
    {
        hi -= 1;
    }
    proof {
        assert forall|j: int| hi - lo <= j < rest.len() implies is_white_space(#[trigger] rest[j]) by {
            assert(rest[j] == v@[lo + j]);
        }
        lemma_trim_end_skip(rest, hi - lo);
        let kept = rest.take(hi - lo);
        assert(kept =~= v@.subrange(lo as int, hi as int));
        assert(kept.len() == 0 || !is_white_space(kept.last()));
    }
    (lo, hi)
}

/// `str::trim` over a character vector.
pub fn trim_chars(v: &[char]) -> (r: Vec<char>)
    ensures
        r@ == trim(v@),
{
    let (lo, hi) = trim_span(v);
    let mut r: Vec<char> = Vec::new();
    let mut i = lo;
    while i < hi
        invariant
            lo <= i <= hi <= v@.len(),
            r@ == v@.subrange(lo as int, i as int),
        decreases hi - i,
    {
        r.push(v[i]);
        assert(v@.subrange(lo as int, i as int).push(v@[i as int]) =~= v@.subrange(lo as int, i + 1));
        i += 1;
    }
    r
}

/// Whether `clean_string(s, max_len)` returns (rather than panics on a cut inside a character).
pub fn clean_string_fits(s: &str, max_len: usize) -> (b: bool)
    ensures
        b == clean_fits(s@, max_len as nat),
{
    let t = trim_chars(&sanitized(s));
    cut_point(&t, max_len).is_some()
}

/// The characters of `s` that `clean_string` keeps.
fn sanitized(s: &str) -> (v: Vec<char>)
    ensures
        v@ == sanitize(s@),
{
    let cs = chars_of(s);
    let mut v: Vec<char> = Vec::new();
    let mut i: usize = 0;
    while i < cs.len()
        invariant
            0 <= i <= cs@.len(),
            cs@ == s@,
            v@ == sanitize(cs@.take(i as int)),
        decreases cs@.len() - i,
    {
        let c = cs[i];
        assert(cs@.take(i + 1).drop_last() =~= cs@.take(i as int));
        let u = c as u32;
        let control = u <= 0x1F || (0x7F <= u && u <= 0x9F);
        if !control && c != '<' && c != '>' && c != '&' && c != '"' && c != '\'' {
            v.push(c);
        }
        i += 1;
    }
    assert(cs@.take(cs@.len() as int) =~= cs@);
    v
}

/// Where `t` is cut to at most `max_len` bytes: `Some(t.len())` when it needs no cut,
/// `Some(k)` when its first `k` characters take exactly `max_len` bytes, and `None`
/// when the cut would fall inside a character.
fn cut_point(t: &Vec<char>, max_len: usize) -> (r: Option<usize>)
    ensures
        r is Some <==> cut_fits(t@, max_len as nat),
        r matches Some(k) ==> k <= t@.len() && (if byte_len(t@) <= max_len {
            k == t@.len()
        } else {
            byte_len(t@.take(k as int)) == max_len
        }),
{
    let mut acc: usize = 0;
    let mut i: usize = 0;
    while i < t.len() && acc < max_len
        invariant
            0 <= i <= t@.len(),
            acc == byte_len(t@.take(i as int)),
            acc <= max_len,
        decreases t@.len() - i,
    {
        proof {
            lemma_byte_len_take_step(t@, i as int);
        }
        let w = char_width(t[i]);
        if w > max_len - acc {
            proof {
                // Every longer prefix overshoots and every shorter one falls short.
                assert forall|k: int| 0 <= k <= t@.len() implies #[trigger] byte_len(t@.take(k))
                    != max_len by {
                    if k < i {
                        lemma_byte_len_take_mono(t@, k, i as int);
                    } else if k > i + 1 {
                        lemma_byte_len_take_mono(t@, i + 1, k);
                    }
                }
                lemma_byte_len_full(t@);
                if i + 1 < t@.len() {
                    lemma_byte_len_take_mono(t@, i + 1, t@.len() as int);
                }
            }
            return None;
        }
        acc = acc + w;
        i += 1;
    }
    proof {
        lemma_byte_len_full(t@);
    }
    if i == t.len() {
        if acc == max_len {
            assert(byte_len(t@) <= max_len);
        }
        Some(i)
    } else {
        proof {
            if i < t@.len() {
                lemma_byte_len_take_mono(t@, i as int, t@.len() as int);
            }
        }
        Some(i)
    }
}

/// Strips control characters and `<`, `>`, `&`, `"`, `'` from `s`, trims white space,
/// and cuts the result to its first `max_len` bytes when it is longer.
pub fn clean_string(s: &str, max_len: usize) -> (r: String)
    requires
        clean_fits(s@, max_len as nat),
    ensures
        is_clean_result(s@, max_len as nat, r@),
        r@ == cleaned(s@, max_len as nat),
{
    let t = trim_chars(&sanitized(s));
    let k = match cut_point(&t, max_len) {
        Some(k) => k,
        None => 0,
    };
    proof {
        lemma_byte_len_full(t@);
    }
    let r = string_of_range(t.as_slice(), 0, k);
    assert(t@.subrange(0, k as int) =~= t@.take(k as int));
    proof {
        lemma_cleaned(s@, max_len as nat);
    }
    r
}


/// Whether `p` occurs in `h` starting at index `i`.
pub open spec fn occurs_at(h: Seq<char>, p: Seq<char>, i: int) -> bool {
    0 <= i && i + p.len() <= h.len() && h.subrange(i, i + p.len()) == p
}

/// Whether `p` occurs anywhere in `h` (`str::contains`).
pub open spec fn seq_contains(h: Seq<char>, p: Seq<char>) -> bool {
    exists|i: int| #[trigger] occurs_at(h, p, i)
}

/// Whether `h` begins with `p` (`str::starts_with`).
pub open spec fn seq_starts_with(h: Seq<char>, p: Seq<char>) -> bool {
    occurs_at(h, p, 0)
}

/// Whether `h` ends with `p` (`str::ends_with`).
pub open spec fn seq_ends_with(h: Seq<char>, p: Seq<char>) -> bool {
    p.len() <= h.len() && occurs_at(h, p, h.len() - p.len())
}

/// Whether `p` occurs in `h` at index `i`.
pub fn matches_at(h: &[char], p: &[char], i: usize) -> (b: bool)
    ensures
        b == occurs_at(h@, p@, i as int),
{
    if i > h.len() || p.len() > h.len() - i {
        return false;
    }
    let hl = h.len();
    let mut j: usize = 0;
    while j < p.len()
        invariant
            hl == h@.len(),
            i + p@.len() <= h@.len(),
            0 <= j <= p@.len(),
            forall|k: int| 0 <= k < j ==> h@[i + k] == p@[k],
        decreases p@.len() - j,
    {
        if h[i + j] != p[j] {
            assert(h@.subrange(i as int, i + p@.len())[j as int] != p@[j as int]);
            return false;
        }
        j += 1;
    }
    assert(h@.subrange(i as int, i + p@.len()) =~= p@);
    true
}

/// The first index at which `p` occurs in `h` (`str::find`, counted in characters).
pub open spec fn first_occurrence(h: Seq<char>, p: Seq<char>, i: int) -> bool {
    occurs_at(h, p, i) && forall|j: int| 0 <= j < i ==> !#[trigger] occurs_at(h, p, j)
}

/// The first index at which `p` occurs in `h`, if it occurs.
pub fn find_chars(h: &[char], p: &[char]) -> (r: Option<usize>)
    ensures
        r is None <==> !seq_contains(h@, p@),
        r matches Some(i) ==> first_occurrence(h@, p@, i as int),
{
    let mut i: usize = 0;
    while i < h.len()
        invariant
            0 <= i <= h@.len(),
            forall|j: int| 0 <= j < i ==> !#[trigger] occurs_at(h@, p@, j),
        decreases h@.len() - i,
    {
        if matches_at(h, p, i) {
            return Some(i);
        }
        i += 1;
    }
    if matches_at(h, p, i) {
        return Some(i);
    }
    assert forall|j: int| #![trigger occurs_at(h@, p@, j)] !occurs_at(h@, p@, j) by {
        if 0 <= j && j >= i && occurs_at(h@, p@, j) {
        }
    }
    None
}

/// Whether `p` occurs in `h`.
pub fn contains_chars(h: &[char], p: &[char]) -> (b: bool)
    ensures
        b == seq_contains(h@, p@),
{
    find_chars(h, p).is_some()
}

/// Whether the literal `p` occurs in `h`.
pub fn contains_str(h: &[char], p: &str) -> (b: bool)
    ensures
        b == seq_contains(h@, p@),
{
    let pv = chars_of(p);
    contains_chars(h, &pv)
}

/// Whether `h` begins with the literal `p`.
pub fn starts_with_str(h: &[char], p: &str) -> (b: bool)
    ensures
        b == seq_starts_with(h@, p@),
{
    let pv = chars_of(p);
    matches_at(h, &pv, 0)
}

/// Whether `h` ends with the literal `p`.
pub fn ends_with_str(h: &[char], p: &str) -> (b: bool)
    ensures
        b == seq_ends_with(h@, p@),
{
    let pv = chars_of(p);
    if pv.len() > h.len() {
        false
    } else {
        matches_at(h, &pv, h.len() - pv.len())
    }
}

/// Whether `a` and `b` hold the same characters.
pub fn chars_eq(a: &[char], b: &[char]) -> (r: bool)
    ensures
        r == (a@ == b@),
{
    if a.len() != b.len() {
        return false;
    }
    let r = matches_at(a, b, 0);
    if r {
        assert(a@.subrange(0, a@.len() as int) =~= a@);
    } else {
        assert(a@.subrange(0, a@.len() as int) =~= a@);
    }
    r
}

/// Whether `a` holds exactly the characters of the literal `b`.
pub fn eq_str(a: &[char], b: &str) -> (r: bool)
    ensures
        r == (a@ == b@),
{
    let bv = chars_of(b);
    chars_eq(a, &bv)
}


/// The ASCII digit for `d` (0..=9).
pub open spec fn digit_char(d: nat) -> char {
    if d == 0 { '0' } else if d == 1 { '1' } else if d == 2 { '2' } else if d == 3 { '3' }
    else if d == 4 { '4' } else if d == 5 { '5' } else if d == 6 { '6' } else if d == 7 { '7' }
    else if d == 8 { '8' } else { '9' }
}

/// The decimal digits of `n`, without sign or leading zeros (`"0"` for zero).
pub open spec fn decimal(n: nat) -> Seq<char>
    decreases n,
{
    if n < 10 {
        seq![digit_char(n)]
    } else {
        decimal(n / 10).push(digit_char(n % 10))
    }
}

fn digit(d: u128) -> (c: char)
    requires
        d < 10,
    ensures
        c == digit_char(d as nat),
{
    if d == 0 { '0' } else if d == 1 { '1' } else if d == 2 { '2' } else if d == 3 { '3' }
    else if d == 4 { '4' } else if d == 5 { '5' } else if d == 6 { '6' } else if d == 7 { '7' }
    else if d == 8 { '8' } else { '9' }
}

/// Appends the decimal digits of `n` to `s` (what `{}` formatting writes for an integer).
pub fn push_decimal(s: &mut String, n: u128)
    ensures
        final(s)@ == old(s)@ + decimal(n as nat),
    decreases n,
{
    if n < 10 {
        s.push(digit(n));
        assert(seq![digit_char(n as nat)] =~= decimal(n as nat));
    } else {
        push_decimal(s, n / 10);
        s.push(digit(n % 10));
        assert(old(s)@ + decimal((n / 10) as nat) + seq![digit_char((n % 10) as nat)] =~= old(s)@
            + decimal(n as nat));
    }
}

/// Appends the characters of `t` to `s`.
pub fn push_str(s: &mut String, t: &str)
    ensures
        final(s)@ == old(s)@ + t@,
{
    let v = chars_of(t);
    let mut i: usize = 0;
    while i < v.len()
        invariant
            0 <= i <= v@.len(),
            v@ == t@,
            s@ == old(s)@ + v@.take(i as int),
        decreases v@.len() - i,
    {
        s.push(v[i]);
        assert(old(s)@ + v@.take(i as int) + seq![v@[i as int]] =~= old(s)@ + v@.take(i + 1));
        i += 1;
    }
    assert(v@.take(v@.len() as int) =~= v@);
}

}
