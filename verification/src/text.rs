//! Character-sequence helpers shared by the parsers and writers.
//!
//! Text is handled as a sequence of Unicode scalar values (`Vec<char>`),
//! which is exactly what the view `@` of a `str` or `String` is; positions are
//! therefore character positions.
use vstd::prelude::*;

verus! {

/// The Unicode `White_Space` property, which is what `char::is_whitespace`
/// tests.
pub open spec fn is_unicode_whitespace(c: char) -> bool {
    let u = c as u32;
    (0x09 <= u && u <= 0x0d) || u == 0x20 || u == 0x85 || u == 0xa0 || u == 0x1680
        || (0x2000 <= u && u <= 0x200a) || u == 0x2028 || u == 0x2029 || u == 0x202f
        || u == 0x205f || u == 0x3000
}

pub fn is_whitespace(c: char) -> (r: bool)
    ensures
        r == is_unicode_whitespace(c),
{
    let u = c as u32;
    (0x09 <= u && u <= 0x0d) || u == 0x20 || u == 0x85 || u == 0xa0 || u == 0x1680 || (0x2000
        <= u && u <= 0x200a) || u == 0x2028 || u == 0x2029 || u == 0x202f || u == 0x205f || u
        == 0x3000
}

pub open spec fn is_ascii_digit(c: char) -> bool {
    '0' <= c && c <= '9'
}

pub open spec fn is_ascii_hexdigit(c: char) -> bool {
    ('0' <= c && c <= '9') || ('a' <= c && c <= 'f') || ('A' <= c && c <= 'F')
}

/// The characters of `s`, in order.
pub fn chars_of(s: &str) -> (v: Vec<char>)
    ensures
        v@ == s@,
{
    let mut v: Vec<char> = Vec::new();
    for c in it: s.chars()
        invariant
            v@ == it.seq().take(it.index() as int),
    {
        v.push(c);
    }
    v
}

/// `String::push`: appends one character.
#[verifier::external_body]
pub(crate) fn push_char(s: &mut String, c: char)
    ensures
        final(s)@ == old(s)@.push(c),
{
    s.push(c);
}

/// Appends the characters of `v` to `s`.
pub fn push_chars(s: &mut String, v: &[char])
    ensures
        final(s)@ == old(s)@ + v@,
{
    let mut i: usize = 0;
    while i < v.len()
        invariant
            i <= v.len(),
            s@ == old(s)@ + v@.take(i as int),
        decreases v.len() - i,
    {
        push_char(s, v[i]);
        assert(v@.take(i + 1) == v@.take(i as int).push(v@[i as int]));
        i += 1;
    }
    assert(v@.take(v.len() as int) == v@);
}

/// Whether `c` has the Unicode Alphabetic property, as `char::is_alphabetic`
/// reports it.
pub uninterp spec fn unicode_alphabetic(c: char) -> bool;

/// `char::is_alphabetic`; its result is named [`unicode_alphabetic`].
#[verifier::external_body]
pub(crate) fn is_alphabetic(c: char) -> (r: bool)
    ensures
        r == unicode_alphabetic(c),
{
    c.is_alphabetic()
}

/// Appends the characters of `t` to `s`.
pub fn push_str(s: &mut String, t: &str)
    ensures
        final(s)@ == old(s)@ + t@,
{
    let c = chars_of(t);
    push_chars(s, &c);
}

/// The string made of the characters of `v`.
pub fn string_of(v: &[char]) -> (s: String)
    ensures
        s@ == v@,
{
    let mut s = String::new();
    push_chars(&mut s, v);
    s
}

/// The string made of `v[from..to]`.
pub fn string_of_range(v: &[char], from: usize, to: usize) -> (s: String)
    requires
        from <= to <= v.len(),
    ensures
        s@ == v@.subrange(from as int, to as int),
{
    let mut s = String::new();
    let mut i = from;
    while i < to
        invariant
            from <= i <= to,
            to <= v.len(),
            s@ == v@.subrange(from as int, i as int),
        decreases to - i,
    {
        push_char(&mut s, v[i]);
        assert(v@.subrange(from as int, i + 1) == v@.subrange(from as int, i as int).push(
            v@[i as int],
        ));
        i += 1;
    }
    s
}

/// The elements `v[from..to]` as a vector.
pub fn copy_range<T: Copy>(v: &[T], from: usize, to: usize) -> (r: Vec<T>)
    requires
        from <= to <= v.len(),
    ensures
        r@ == v@.subrange(from as int, to as int),
{
    let mut r: Vec<T> = Vec::new();
    let mut i = from;
    while i < to
        invariant
            from <= i <= to,
            to <= v.len(),
            r@ == v@.subrange(from as int, i as int),
        decreases to - i,
    {
        r.push(v[i]);
        assert(v@.subrange(from as int, i + 1) == v@.subrange(from as int, i as int).push(
            v@[i as int],
        ));
        i += 1;
    }
    r
}

/// `pat` stands in `s` at position `i`.
pub open spec fn occurs_at<A>(s: Seq<A>, pat: Seq<A>, i: int) -> bool {
    0 <= i && i + pat.len() <= s.len() && s.subrange(i, i + pat.len()) == pat
}

/// The first position of `s` at which `pat` stands, as `str::find` reports it.
#[verifier::opaque]
pub open spec fn find_spec<A>(s: Seq<A>, pat: Seq<A>) -> Option<int> {
    if exists|i: int| #[trigger] occurs_at(s, pat, i) {
        Some(
            choose|i: int|
                occurs_at(s, pat, i) && forall|j: int| 0 <= j < i ==> !occurs_at(s, pat, j),
        )
    } else {
        None
    }
}

/// `i` is the first position of `s` at which `pat` stands.
pub proof fn lemma_find_spec_first<A>(s: Seq<A>, pat: Seq<A>, i: int)
    requires
        occurs_at(s, pat, i),
        forall|j: int| 0 <= j < i ==> !occurs_at(s, pat, j),
    ensures
        find_spec(s, pat) == Some(i),
{
    reveal(find_spec);
    let k = choose|k: int|
        occurs_at(s, pat, k) && forall|j: int| 0 <= j < k ==> !occurs_at(s, pat, j);
    assert(occurs_at(s, pat, k));
    if k < i {
        assert(!occurs_at(s, pat, k));
    }
    if i < k {
        assert(!occurs_at(s, pat, i));
    }
}

/// What [`find_spec`] reports stands there, and nothing stands earlier.
pub proof fn lemma_find_spec_some<A>(s: Seq<A>, pat: Seq<A>)
    ensures
        match find_spec(s, pat) {
            Some(i) => occurs_at(s, pat, i) && forall|j: int| 0 <= j < i ==> !occurs_at(s, pat, j),
            None => forall|j: int| !occurs_at(s, pat, j),
        },
{
    reveal(find_spec);
    if exists|i: int| #[trigger] occurs_at(s, pat, i) {
        let i = choose|i: int| #[trigger] occurs_at(s, pat, i);
        lemma_min_occurrence(s, pat, i);
    }
}

proof fn lemma_min_occurrence<A>(s: Seq<A>, pat: Seq<A>, i: int)
    requires
        occurs_at(s, pat, i),
    ensures
        exists|k: int| occurs_at(s, pat, k) && forall|j: int| 0 <= j < k ==> !occurs_at(s, pat, j),
    decreases i,
{
    if exists|j: int| 0 <= j < i && #[trigger] occurs_at(s, pat, j) {
        let j = choose|j: int| 0 <= j < i && #[trigger] occurs_at(s, pat, j);
        lemma_min_occurrence(s, pat, j);
    } else {
        assert(forall|j: int| 0 <= j < i ==> !occurs_at(s, pat, j));
    }
}

proof fn lemma_max_occurrence<A>(s: Seq<A>, pat: Seq<A>, i: int)
    requires
        occurs_at(s, pat, i),
    ensures
        exists|k: int| occurs_at(s, pat, k) && forall|j: int| k < j ==> !occurs_at(s, pat, j),
    decreases s.len() - i,
{
    if exists|j: int| i < j && #[trigger] occurs_at(s, pat, j) {
        let j = choose|j: int| i < j && #[trigger] occurs_at(s, pat, j);
        lemma_max_occurrence(s, pat, j);
    } else {
        assert(forall|j: int| i < j ==> !occurs_at(s, pat, j));
    }
}

/// The first position at or after `from` at which `pat` stands, found by
/// searching `s.skip(from)` (as `s[from..].find(pat)` does).
pub open spec fn find_after<A>(s: Seq<A>, pat: Seq<A>, from: int) -> Option<int> {
    match find_spec(s.skip(from), pat) {
        Some(i) => Some(from + i),
        None => None,
    }
}

pub proof fn lemma_find_after<A>(s: Seq<A>, pat: Seq<A>, from: int, r: Option<int>)
    requires
        0 <= from <= s.len(),
        match r {
            Some(i) => from <= i && occurs_at(s, pat, i) && forall|j: int| from <= j < i ==> !occurs_at(s, pat, j),
            None => forall|j: int| from <= j ==> !occurs_at(s, pat, j),
        },
    ensures
        find_after(s, pat, from) == r,
{
    let t = s.skip(from);
    assert forall|j: int| 0 <= j implies occurs_at(t, pat, j) == occurs_at(s, pat, from + j) by {
        if j + pat.len() <= t.len() {
            assert(t.subrange(j, j + pat.len()) =~= s.subrange(from + j, from + j + pat.len()));
        }
    }
    match r {
        Some(i) => {
            assert(occurs_at(t, pat, i - from));
            lemma_find_spec_first(t, pat, i - from);
        },
        None => {
            assert forall|j: int| !occurs_at(t, pat, j) by {
                if j >= 0 {
                    assert(!occurs_at(s, pat, from + j));
                }
            }
            lemma_find_spec_none(t, pat);
        },
    }
}

/// The last position of `s` at which `pat` stands, as `str::rfind` reports
/// it.
#[verifier::opaque]
pub open spec fn rfind_spec<A>(s: Seq<A>, pat: Seq<A>) -> Option<int> {
    if exists|i: int| #[trigger] occurs_at(s, pat, i) {
        Some(
            choose|i: int|
                occurs_at(s, pat, i) && forall|j: int| i < j ==> !occurs_at(s, pat, j),
        )
    } else {
        None
    }
}

/// `str::rfind`: the last position of `pat` in `s`.
pub fn rfind(s: &[char], pat: &[char]) -> (r: Option<usize>)
    ensures
        match r {
            Some(i) => rfind_spec(s@, pat@) == Some(i as int) && occurs_at(s@, pat@, i as int),
            None => rfind_spec(s@, pat@) is None,
        },
{
    reveal(rfind_spec);
    if pat.len() > s.len() {
        assert forall|j: int| !occurs_at(s@, pat@, j) by {}
        return None;
    }
    let n = s.len() - pat.len();
    let mut i: usize = n;
    let mut found = matches_at(s, pat, n);
    while !found && i > 0
        invariant
            i <= n,
            n == s@.len() - pat@.len(),
            found ==> occurs_at(s@, pat@, i as int),
            forall|j: int| i < j ==> !occurs_at(s@, pat@, j),
            !found ==> !occurs_at(s@, pat@, i as int),
        decreases i,
    {
        i -= 1;
        found = matches_at(s, pat, i);
    }
    if found {
        proof {
            lemma_max_occurrence(s@, pat@, i as int);
            let k = choose|k: int|
                occurs_at(s@, pat@, k) && forall|j: int| k < j ==> !occurs_at(s@, pat@, j);
            assert(occurs_at(s@, pat@, k));
            if k < i {
                assert(!occurs_at(s@, pat@, i as int));
            }
            if i < k {
                assert(!occurs_at(s@, pat@, k));
            }
        }
        return Some(i);
    }
    assert forall|j: int| !occurs_at(s@, pat@, j) by {
        if j < 0 {
        }
    }
    None
}

/// `pat` stands nowhere in `s`.
pub proof fn lemma_find_spec_none<A>(s: Seq<A>, pat: Seq<A>)
    requires
        forall|j: int| !occurs_at(s, pat, j),
    ensures
        find_spec(s, pat) is None,
{
    reveal(find_spec);
}

/// Whether `pat` stands at position `i` of `s`.
pub fn matches_at(s: &[char], pat: &[char], i: usize) -> (r: bool)
    ensures
        r == occurs_at(s@, pat@, i as int),
{
    if i > s.len() || pat.len() > s.len() - i {
        return false;
    }
    let mut k: usize = 0;
    while k < pat.len()
        invariant
            i + pat.len() <= s.len(),
            k <= pat.len(),
            forall|m: int| 0 <= m < k ==> s@[i + m] == pat@[m],
        decreases pat.len() - k,
    {
        if s[i + k] != pat[k] {
            assert(s@.subrange(i as int, i + pat.len())[k as int] != pat@[k as int]);
            return false;
        }
        k += 1;
    }
    assert(s@.subrange(i as int, i + pat.len()) =~= pat@);
    true
}

/// Whether byte string `pat` stands at position `i` of `s`.
pub fn bytes_match_at(s: &[u8], pat: &[u8], i: usize) -> (r: bool)
    ensures
        r == occurs_at(s@, pat@, i as int),
{
    if i > s.len() || pat.len() > s.len() - i {
        return false;
    }
    let mut k: usize = 0;
    while k < pat.len()
        invariant
            i + pat.len() <= s.len(),
            k <= pat.len(),
            forall|m: int| 0 <= m < k ==> s@[i + m] == pat@[m],
        decreases pat.len() - k,
    {
        if s[i + k] != pat[k] {
            assert(s@.subrange(i as int, i + pat.len())[k as int] != pat@[k as int]);
            return false;
        }
        k += 1;
    }
    assert(s@.subrange(i as int, i + pat.len()) =~= pat@);
    true
}

/// Whether byte string `s` begins with `pat`.
pub fn bytes_start_with(s: &[u8], pat: &[u8]) -> (r: bool)
    ensures
        r == pat@.is_prefix_of(s@),
{
    let r = bytes_match_at(s, pat, 0);
    proof {
        if r {
            assert(s@.subrange(0, pat@.len() as int) == pat@);
        }
        if pat@.is_prefix_of(s@) {
            assert(s@.subrange(0, pat@.len() as int) =~= pat@);
        }
    }
    r
}

/// `pat` stands somewhere within the first `limit` elements of `s`.
pub open spec fn contains_within<A>(s: Seq<A>, pat: Seq<A>, limit: int) -> bool {
    exists|i: int| #[trigger] occurs_at(s.take(min_int(s.len() as int, limit)), pat, i)
}

pub open spec fn min_int(a: int, b: int) -> int {
    if a <= b {
        a
    } else {
        b
    }
}

/// Whether `pat` stands anywhere within the first `limit` bytes of `s`.
pub fn bytes_contain(s: &[u8], pat: &[u8], limit: usize) -> (r: bool)
    ensures
        r == contains_within(s@, pat@, limit as int),
{
    let n = if s.len() <= limit {
        s.len()
    } else {
        limit
    };
    let h = copy_range(s, 0, n);
    assert(h@ == s@.take(n as int));
    assert(n == min_int(s@.len() as int, limit as int));
    let mut i: usize = 0;
    while i < n
        invariant
            i <= n,
            n == h@.len(),
            h@ == s@.take(min_int(s@.len() as int, limit as int)),
            forall|j: int| 0 <= j < i ==> !occurs_at(h@, pat@, j),
        decreases n - i,
    {
        if bytes_match_at(&h, pat, i) {
            assert(occurs_at(s@.take(min_int(s@.len() as int, limit as int)), pat@, i as int));
            return true;
        }
        i += 1;
    }
    if bytes_match_at(&h, pat, n) {
        assert(occurs_at(s@.take(min_int(s@.len() as int, limit as int)), pat@, n as int));
        return true;
    }
    assert forall|j: int| !occurs_at(h@, pat@, j) by {
        if 0 <= j && j <= n {
            assert(j < i || j == n);
        }
    }
    false
}

/// Whether `s` begins with `pat`.
pub fn starts_with(s: &[char], pat: &[char]) -> (r: bool)
    ensures
        r == pat@.is_prefix_of(s@),
{
    let r = matches_at(s, pat, 0);
    assert(r == occurs_at(s@, pat@, 0));
    if r {
        assert(s@.subrange(0, pat@.len() as int) == pat@);
        assert(pat@.is_prefix_of(s@));
    }
    proof {
        if pat@.is_prefix_of(s@) {
            assert(s@.subrange(0, pat@.len() as int) =~= pat@);
        }
    }
    r
}

/// Whether `s` ends with `pat`.
pub fn ends_with(s: &[char], pat: &[char]) -> (r: bool)
    ensures
        r == pat@.is_suffix_of(s@),
{
    if pat.len() > s.len() {
        return false;
    }
    let r = matches_at(s, pat, s.len() - pat.len());
    proof {
        if r {
            assert(s@.subrange(s@.len() - pat@.len(), s@.len() as int) == pat@);
        }
        if pat@.is_suffix_of(s@) {
            assert(s@.subrange(s@.len() - pat@.len(), s@.len() as int) =~= pat@);
        }
    }
    r
}

/// The first position at or after `from` at which `pat` stands in `s`.
pub fn find_from(s: &[char], pat: &[char], from: usize) -> (r: Option<usize>)
    requires
        from <= s.len(),
    ensures
        match r {
            Some(i) => from <= i && occurs_at(s@, pat@, i as int) && forall|j: int|
                from <= j < i ==> !occurs_at(s@, pat@, j),
            None => forall|j: int| from <= j ==> !occurs_at(s@, pat@, j),
        },
{
    let mut i = from;
    while i <= s.len()
        invariant
            from <= i <= s.len() + 1,
            from <= s.len(),
            forall|j: int| from <= j < i ==> !occurs_at(s@, pat@, j),
        decreases s.len() + 1 - i,
    {
        if matches_at(s, pat, i) {
            return Some(i);
        }
        if i == s.len() {
            assert forall|j: int| from <= j implies !occurs_at(s@, pat@, j) by {
                if j > s.len() {
                }
            }
            return None;
        }
        i += 1;
    }
    None
}

/// `str::find`: the first position of `pat` in `s`.
pub fn find(s: &[char], pat: &[char]) -> (r: Option<usize>)
    ensures
        match r {
            Some(i) => find_spec(s@, pat@) == Some(i as int) && occurs_at(s@, pat@, i as int),
            None => find_spec(s@, pat@) is None,
        },
{
    let r = find_from(s, pat, 0);
    proof {
        match r {
            Some(i) => lemma_find_spec_first(s@, pat@, i as int),
            None => {
                assert forall|j: int| !occurs_at(s@, pat@, j) by {
                    if j < 0 {
                    }
                }
                lemma_find_spec_none(s@, pat@);
            },
        }
    }
    r
}

/// The characters of `s` with leading whitespace removed (`str::trim_start`).
pub open spec fn trim_start_spec(s: Seq<char>) -> Seq<char>
    decreases s.len(),
{
    if s.len() > 0 && is_unicode_whitespace(s[0]) {
        trim_start_spec(s.drop_first())
    } else {
        s
    }
}

/// The characters of `s` with trailing whitespace removed (`str::trim_end`).
pub open spec fn trim_end_spec(s: Seq<char>) -> Seq<char>
    decreases s.len(),
{
    if s.len() > 0 && is_unicode_whitespace(s.last()) {
        trim_end_spec(s.drop_last())
    } else {
        s
    }
}

/// `str::trim_end`: trailing whitespace removed.
pub fn trim_end(s: &[char]) -> (r: Vec<char>)
    ensures
        r@ == trim_end_spec(s@),
{
    let mut e = s.len();
    assert(s@.take(s@.len() as int) =~= s@);
    while e > 0 && is_whitespace(s[e - 1])
        invariant
            e <= s@.len(),
            trim_end_spec(s@.take(e as int)) == trim_end_spec(s@),
        decreases e,
    {
        proof {
            assert(s@.take(e as int).drop_last() =~= s@.take(e - 1));
        }
        e -= 1;
    }
    let r = copy_range(s, 0, e);
    proof {
        assert(r@ =~= s@.take(e as int));
    }
    r
}

/// `str::trim`: leading and trailing whitespace removed.
pub open spec fn trim_spec(s: Seq<char>) -> Seq<char> {
    trim_end_spec(trim_start_spec(s))
}

proof fn lemma_trim_start_skip(s: Seq<char>, k: int)
    requires
        0 <= k <= s.len(),
        forall|j: int| 0 <= j < k ==> is_unicode_whitespace(#[trigger] s[j]),
    ensures
        trim_start_spec(s) == trim_start_spec(s.skip(k)),
    decreases k,
{
    if k == 0 {
        assert(s.skip(0) == s);
    } else {
        assert(is_unicode_whitespace(s[0]));
        assert(s.drop_first().skip(k - 1) == s.skip(k));
        assert forall|j: int| 0 <= j < k - 1 implies is_unicode_whitespace(
            #[trigger] s.drop_first()[j],
        ) by {
            assert(s.drop_first()[j] == s[j + 1]);
        }
        lemma_trim_start_skip(s.drop_first(), k - 1);
    }
}

proof fn lemma_trim_end_take(s: Seq<char>, k: int)
    requires
        0 <= k <= s.len(),
        forall|j: int| k <= j < s.len() ==> is_unicode_whitespace(#[trigger] s[j]),
    ensures
        trim_end_spec(s) == trim_end_spec(s.take(k)),
    decreases s.len() - k,
{
    if k < s.len() {
        assert(is_unicode_whitespace(s[s.len() - 1]));
        assert(s.drop_last().take(k) == s.take(k));
        assert forall|j: int| k <= j < s.len() - 1 implies is_unicode_whitespace(
            #[trigger] s.drop_last()[j],
        ) by {
            assert(s.drop_last()[j] == s[j]);
        }
        lemma_trim_end_take(s.drop_last(), k);
    } else {
        assert(s.take(k) == s);
    }
}

/// The bounds `(start, end)` of `s` with surrounding whitespace removed.
pub fn trim_bounds(s: &[char]) -> (r: (usize, usize))
    ensures
        r.0 <= r.1 <= s.len(),
        s@.subrange(r.0 as int, r.1 as int) == trim_spec(s@),
        trim_start_spec(s@) == s@.skip(r.0 as int),
{
    let mut a: usize = 0;
    while a < s.len() && is_whitespace(s[a])
        invariant
            a <= s.len(),
            forall|j: int| 0 <= j < a ==> is_unicode_whitespace(#[trigger] s@[j]),
        decreases s.len() - a,
    {
        a += 1;
    }
    proof {
        lemma_trim_start_skip(s@, a as int);
        if a < s.len() {
            assert(trim_start_spec(s@.skip(a as int)) == s@.skip(a as int));
        } else {
            assert(s@.skip(a as int).len() == 0);
        }
    }
    let mut b: usize = s.len();
    while b > a && is_whitespace(s[b - 1])
        invariant
            a <= b <= s.len(),
            forall|j: int| b <= j < s.len() ==> is_unicode_whitespace(#[trigger] s@[j]),
        decreases b,
    {
        b -= 1;
    }
    proof {
        let t = s@.skip(a as int);
        let k = b - a;
        assert forall|j: int| k <= j < t.len() implies is_unicode_whitespace(#[trigger] t[j]) by {
            assert(t[j] == s@[j + a]);
        }
        lemma_trim_end_take(t, k);
        assert(t.take(k) == s@.subrange(a as int, b as int));
        if b > a {
            assert(t.take(k).last() == s@[b - 1]);
        }
    }
    (a, b)
}

/// `str::trim`.
pub fn trim(s: &[char]) -> (r: Vec<char>)
    ensures
        r@ == trim_spec(s@),
{
    let (a, b) = trim_bounds(s);
    copy_range(s, a, b)
}

/// `s` with one `'\r'` removed from its end, where it has one.
pub open spec fn strip_cr(s: Seq<char>) -> Seq<char> {
    if s.len() > 0 && s.last() == '\r' {
        s.drop_last()
    } else {
        s
    }
}

/// The first position at or after `from` of character `c` in `s`.
pub open spec fn next_char_at(s: Seq<char>, c: char, from: int) -> int
    decreases s.len() - from,
{
    if from < 0 || from >= s.len() {
        s.len() as int
    } else if s[from] == c {
        from
    } else {
        next_char_at(s, c, from + 1)
    }
}

/// `str::lines` applied to `s.skip(from)`: pieces separated by `'\n'`, each
/// without a `'\r'` that stood just before its `'\n'`; a final `'\n'` ends
/// the last line rather than starting an empty one.
pub open spec fn lines_from(s: Seq<char>, from: int) -> Seq<Seq<char>>
    decreases s.len() - from,
{
    if from < 0 || from >= s.len() {
        seq![]
    } else {
        let e = next_char_at(s, '\n', from);
        if e < s.len() {
            proof {
                lemma_next_char_at_range(s, '\n', from);
            }
            seq![strip_cr(s.subrange(from, e))] + lines_from(s, e + 1)
        } else {
            seq![s.subrange(from, s.len() as int)]
        }
    }
}

/// `str::lines`.
pub open spec fn lines_spec(s: Seq<char>) -> Seq<Seq<char>> {
    lines_from(s, 0)
}

pub proof fn lemma_next_char_at_range(s: Seq<char>, c: char, from: int)
    requires
        0 <= from <= s.len(),
    ensures
        from <= next_char_at(s, c, from) <= s.len(),
        next_char_at(s, c, from) < s.len() ==> s[next_char_at(s, c, from)] == c,
        forall|j: int| from <= j < next_char_at(s, c, from) ==> s[j] != c,
    decreases s.len() - from,
{
    if from < s.len() && s[from] != c {
        lemma_next_char_at_range(s, c, from + 1);
    }
}

/// The position of the next `c` in `s` at or after `from` (or `s.len()`).
pub fn next_char(s: &[char], c: char, from: usize) -> (r: usize)
    requires
        from <= s.len(),
    ensures
        r as int == next_char_at(s@, c, from as int),
{
    let mut i = from;
    while i < s.len() && s[i] != c
        invariant
            from <= i <= s.len(),
            next_char_at(s@, c, from as int) == next_char_at(s@, c, i as int),
        decreases s.len() - i,
    {
        i += 1;
    }
    i
}

/// `str::lines`: the lines of `s`.
pub fn lines(s: &[char]) -> (r: Vec<Vec<char>>)
    ensures
        r@.len() == lines_spec(s@).len(),
        forall|i: int| 0 <= i < r@.len() ==> #[trigger] r@[i]@ == lines_spec(s@)[i],
{
    let mut r: Vec<Vec<char>> = Vec::new();
    let mut from: usize = 0;
    let ghost mut acc: Seq<Seq<char>> = seq![];
    while from < s.len()
        invariant
            from <= s.len(),
            acc.len() == r@.len(),
            forall|i: int| 0 <= i < r@.len() ==> #[trigger] r@[i]@ == acc[i],
            acc + lines_from(s@, from as int) == lines_spec(s@),
        decreases s.len() - from,
    {
        let e = next_char(s, '\n', from);
        proof {
            lemma_next_char_at_range(s@, '\n', from as int);
        }
        let ghost rest = lines_from(s@, from as int);
        if e < s.len() {
            let mut line = copy_range(s, from, e);
            if line.len() > 0 && line[line.len() - 1] == '\r' {
                line.pop();
            }
            assert(line@ == rest[0]);
            r.push(line);
            proof {
                assert(rest == seq![line@] + lines_from(s@, e + 1));
                assert(acc + rest == acc.push(line@) + lines_from(s@, e + 1));
                acc = acc.push(line@);
            }
            from = e + 1;
        } else {
            let line = copy_range(s, from, s.len());
            assert(line@ == rest[0]);
            r.push(line);
            proof {
                assert(lines_from(s@, s.len() as int) == Seq::<Seq<char>>::empty());
                assert(acc + rest == acc.push(line@) + lines_from(s@, s.len() as int));
                acc = acc.push(line@);
            }
            from = s.len();
        }
    }
    proof {
        assert(lines_from(s@, from as int) == Seq::<Seq<char>>::empty());
        assert(acc == lines_spec(s@));
    }
    r
}

/// The first position at or after `p` whose character `white` does not hold
/// of (`white` true: skipping whitespace; false: skipping a word).
pub open spec fn skip_class(s: Seq<char>, p: int, white: bool) -> int
    decreases s.len() - p,
{
    if 0 <= p < s.len() && is_unicode_whitespace(s[p]) == white {
        skip_class(s, p + 1, white)
    } else {
        p
    }
}

pub proof fn lemma_skip_class(s: Seq<char>, p: int, white: bool)
    requires
        0 <= p <= s.len(),
    ensures
        p <= skip_class(s, p, white) <= s.len(),
        skip_class(s, p, white) < s.len() ==> is_unicode_whitespace(s[skip_class(s, p, white)]) != white,
    decreases s.len() - p,
{
    if p < s.len() && is_unicode_whitespace(s[p]) == white {
        lemma_skip_class(s, p + 1, white);
    }
}

/// The first position at or after `p` whose character `white` does not hold
/// of (see [`skip_class`]).
pub fn skip_class_at(s: &[char], p: usize, white: bool) -> (r: usize)
    requires
        p <= s.len(),
    ensures
        r as int == skip_class(s@, p as int, white),
        p <= r <= s.len(),
{
    let mut i = p;
    while i < s.len() && is_whitespace(s[i]) == white
        invariant
            p <= i <= s.len(),
            skip_class(s@, i as int, white) == skip_class(s@, p as int, white),
        decreases s.len() - i,
    {
        i += 1;
    }
    i
}

/// The words of `s` from position `p` on: the maximal runs of
/// non-whitespace characters (`str::split_whitespace`).
pub open spec fn words_from(s: Seq<char>, p: int) -> Seq<Seq<char>>
    decreases s.len() - p,
{
    if p < 0 || p > s.len() {
        seq![]
    } else {
        let q = skip_class(s, p, true);
        proof {
            lemma_skip_class(s, p, true);
        }
        if q >= s.len() {
            seq![]
        } else {
            let e = skip_class(s, q, false);
            proof {
                lemma_skip_class(s, q, false);
            }
            seq![s.subrange(q, e)] + words_from(s, e)
        }
    }
}

pub open spec fn words_spec(s: Seq<char>) -> Seq<Seq<char>> {
    words_from(s, 0)
}

/// `str::split_whitespace`.
pub fn split_whitespace(s: &[char]) -> (r: Vec<Vec<char>>)
    ensures
        views(r@) == words_spec(s@),
{
    let mut r: Vec<Vec<char>> = Vec::new();
    let mut p: usize = 0;
    let n = s.len();
    loop
        invariant
            p <= n,
            n == s@.len(),
            views(r@) + words_from(s@, p as int) == words_spec(s@),
        ensures
            views(r@) == words_spec(s@),
        decreases n - p,
    {
        let ghost before = views(r@);
        let ghost p0 = p as int;
        while p < n && is_whitespace(s[p])
            invariant
                p0 <= p <= n,
                n == s@.len(),
                skip_class(s@, p as int, true) == skip_class(s@, p0, true),
            decreases n - p,
        {
            p += 1;
        }
        if p >= n {
            proof {
                assert(words_from(s@, p0) == Seq::<Seq<char>>::empty());
                assert(before + Seq::<Seq<char>>::empty() =~= before);
            }
            break;
        }
        let q = p;
        while p < n && !is_whitespace(s[p])
            invariant
                q <= p <= n,
                n == s@.len(),
                skip_class(s@, p as int, false) == skip_class(s@, q as int, false),
            decreases n - p,
        {
            p += 1;
        }
        let w = copy_range(s, q, p);
        r.push(w);
        proof {
            assert(views(r@) =~= before.push(w@));
            assert(words_from(s@, p0) == seq![w@] + words_from(s@, p as int));
            assert(before + (seq![w@] + words_from(s@, p as int)) =~= before.push(w@) + words_from(s@, p as int));
        }
    }
    r
}

/// `s` without the characters `(` and `)` at either end
/// (`trim_matches(|c| c == '(' || c == ')')`).
pub open spec fn trim_parens_spec(s: Seq<char>) -> Seq<char>
    decreases s.len(),
{
    if s.len() > 0 && (s[0] == '(' || s[0] == ')') {
        trim_parens_spec(s.drop_first())
    } else if s.len() > 0 && (s.last() == '(' || s.last() == ')') {
        trim_parens_spec(s.drop_last())
    } else {
        s
    }
}

pub fn trim_parens(s: &[char]) -> (r: Vec<char>)
    ensures
        r@ == trim_parens_spec(s@),
{
    let mut a: usize = 0;
    let mut b: usize = s.len();
    assert(s@.subrange(0, s@.len() as int) =~= s@);
    while a < b && (s[a] == '(' || s[a] == ')')
        invariant
            a <= b <= s@.len(),
            b == s@.len(),
            trim_parens_spec(s@.subrange(a as int, b as int)) == trim_parens_spec(s@),
        decreases b - a,
    {
        assert(s@.subrange(a as int, b as int).drop_first() =~= s@.subrange(a + 1, b as int));
        a += 1;
    }
    while a < b && (s[b - 1] == '(' || s[b - 1] == ')')
        invariant
            a <= b <= s@.len(),
            a < b ==> s@[a as int] != '(' && s@[a as int] != ')',
            trim_parens_spec(s@.subrange(a as int, b as int)) == trim_parens_spec(s@),
        decreases b - a,
    {
        let ghost t = s@.subrange(a as int, b as int);
        assert(t.drop_last() =~= s@.subrange(a as int, b - 1));
        assert(t[0] == s@[a as int]);
        b -= 1;
    }
    let r = copy_range(s, a, b);
    proof {
        let t = s@.subrange(a as int, b as int);
        if t.len() > 0 {
            assert(t[0] == s@[a as int]);
            assert(t.last() == s@[b - 1]);
        }
    }
    r
}

/// The second field of `s` split at `:` (`s.split(':').nth(1)`).
pub open spec fn second_field_spec(s: Seq<char>) -> Option<Seq<char>> {
    let i = next_char_at(s, ':', 0);
    if i >= s.len() {
        None
    } else {
        let j = next_char_at(s, ':', i + 1);
        Some(s.subrange(i + 1, j))
    }
}

pub fn second_field(s: &[char]) -> (r: Option<Vec<char>>)
    ensures
        match r {
            Some(v) => second_field_spec(s@) == Some(v@),
            None => second_field_spec(s@) is None,
        },
{
    let i = next_char(s, ':', 0);
    if i >= s.len() {
        return None;
    }
    proof {
        lemma_next_char_at_range(s@, ':', 0);
    }
    let j = next_char(s, ':', i + 1);
    proof {
        lemma_next_char_at_range(s@, ':', i + 1);
    }
    Some(copy_range(s, i + 1, j))
}

/// Joins the texts of `parts`, placing `sep` between neighbours.
pub fn join(parts: &Vec<Vec<char>>, sep: &[char]) -> (r: Vec<char>)
    ensures
        r@ == join_spec(views(parts@), sep@),
{
    let mut r: Vec<char> = Vec::new();
    let mut i: usize = 0;
    while i < parts.len()
        invariant
            i <= parts@.len(),
            r@ == join_spec(views(parts@).take(i as int), sep@),
        decreases parts.len() - i,
    {
        let ghost before = r@;
        if i > 0 {
            let mut k: usize = 0;
            while k < sep.len()
                invariant
                    k <= sep@.len(),
                    r@ == before + sep@.take(k as int),
                decreases sep.len() - k,
            {
                r.push(sep[k]);
                assert(sep@.take(k + 1) =~= sep@.take(k as int).push(sep@[k as int]));
                assert(before + sep@.take(k + 1) =~= (before + sep@.take(k as int)).push(sep@[k as int]));
                k += 1;
            }
            assert(sep@.take(sep@.len() as int) =~= sep@);
        }
        let ghost mid = r@;
        let part = &parts[i];
        let mut k: usize = 0;
        while k < part.len()
            invariant
                k <= part@.len(),
                r@ == mid + part@.take(k as int),
            decreases part.len() - k,
        {
            r.push(part[k]);
            assert(part@.take(k + 1) =~= part@.take(k as int).push(part@[k as int]));
            assert(mid + part@.take(k + 1) =~= (mid + part@.take(k as int)).push(part@[k as int]));
            k += 1;
        }
        proof {
            assert(part@.take(part@.len() as int) =~= part@);
            let t = views(parts@).take(i + 1);
            assert(t.drop_last() =~= views(parts@).take(i as int));
            assert(t.last() == part@);
            if i == 0 {
                assert(t.len() == 1);
                assert(r@ =~= join_spec(t, sep@));
            } else {
                assert(r@ =~= join_spec(t, sep@));
            }
        }
        i += 1;
    }
    assert(views(parts@).take(parts@.len() as int) =~= views(parts@));
    r
}

/// The texts of a list of strings.
pub open spec fn string_views(v: Seq<String>) -> Seq<Seq<char>> {
    v.map_values(|s: String| s@)
}

/// The texts held by a vector of character vectors.
pub open spec fn views(v: Seq<Vec<char>>) -> Seq<Seq<char>> {
    Seq::new(v.len(), |i: int| v[i]@)
}

/// Joins `parts`, placing `sep` between neighbours (`[T]::join`).
pub open spec fn join_spec(parts: Seq<Seq<char>>, sep: Seq<char>) -> Seq<char>
    decreases parts.len(),
{
    if parts.len() == 0 {
        seq![]
    } else if parts.len() == 1 {
        parts[0]
    } else {
        join_spec(parts.drop_last(), sep) + sep + parts.last()
    }
}

/// The character of decimal digit `d`.
pub open spec fn digit_char(d: int) -> char {
    (d + 48) as char
}

/// The decimal numeral of `n`, without leading zeros.
pub open spec fn decimal_spec(n: nat) -> Seq<char>
    decreases n,
{
    if n < 10 {
        seq![digit_char(n as int)]
    } else {
        decimal_spec(n / 10).push(digit_char((n % 10) as int))
    }
}

/// The decimal numeral of `v`, with a `-` sign when it is negative.
pub open spec fn signed_decimal_spec(v: int) -> Seq<char> {
    if v < 0 {
        seq!['-'] + decimal_spec((-v) as nat)
    } else {
        decimal_spec(v as nat)
    }
}

/// Appends the decimal numeral of `v`, signed.
pub fn push_signed_decimal(s: &mut String, v: i64)
    ensures
        final(s)@ == old(s)@ + signed_decimal_spec(v as int),
{
    if v < 0 {
        push_char(s, '-');
        let m: u64 = ((-(v + 1)) as u64) + 1;
        assert(m as int == -(v as int));
        push_decimal(s, m);
        assert(final(s)@ =~= old(s)@ + signed_decimal_spec(v as int));
    } else {
        push_decimal(s, v as u64);
    }
}

/// Appends the decimal numeral of `n` to `s`.
pub fn push_decimal(s: &mut String, n: u64)
    ensures
        final(s)@ == old(s)@ + decimal_spec(n as nat),
    decreases n,
{
    if n >= 10 {
        push_decimal(s, n / 10);
    }
    let d = (n % 10) as u8;
    let c = (d + 48) as char;
    push_char(s, c);
    proof {
        if n >= 10 {
            assert(old(s)@ + decimal_spec(n as nat) =~= old(s)@ + decimal_spec((n / 10) as nat)
                + seq![c]);
        }
    }
}

/// What `Debug` prints for a list of bytes: `[1, 2, 3]`.
pub open spec fn byte_list_text(b: Seq<u8>) -> Seq<char> {
    seq!['['] + join_spec(Seq::new(b.len(), |i: int| decimal_spec(b[i] as nat)), seq![',', ' '])
        + seq![']']
}

/// `format!("{:?}", bytes)`.
pub fn byte_list(b: &[u8]) -> (s: String)
    ensures
        s@ == byte_list_text(b@),
{
    let mut s = String::new();
    push_char(&mut s, '[');
    let ghost parts = Seq::new(b@.len(), |i: int| decimal_spec(b@[i] as nat));
    let mut i: usize = 0;
    while i < b.len()
        invariant
            i <= b.len(),
            parts == Seq::new(b@.len(), |i: int| decimal_spec(b@[i] as nat)),
            s@ == seq!['['] + join_spec(parts.take(i as int), seq![',', ' ']),
        decreases b.len() - i,
    {
        let ghost before = s@;
        if i > 0 {
            push_char(&mut s, ',');
            push_char(&mut s, ' ');
        }
        push_decimal(&mut s, b[i] as u64);
        proof {
            let t = parts.take(i + 1);
            assert(t.drop_last() =~= parts.take(i as int));
            assert(t.last() == decimal_spec(b@[i as int] as nat));
            if i == 0 {
                assert(t.len() == 1);
                assert(s@ =~= seq!['['] + join_spec(t, seq![',', ' ']));
            } else {
                assert(s@ =~= seq!['['] + join_spec(t, seq![',', ' ']));
            }
        }
        i += 1;
    }
    push_char(&mut s, ']');
    proof {
        assert(parts.take(b@.len() as int) =~= parts);
    }
    s
}

/// What `String::from_utf8_lossy` makes of `bytes`: the UTF-8 text they
/// spell, each invalid sequence replaced by U+FFFD.
pub uninterp spec fn lossy_utf8(bytes: Seq<u8>) -> Seq<char>;

/// `String::from_utf8_lossy`. Its result is named [`lossy_utf8`]; the
/// standard library documents that valid UTF-8 is decoded unchanged.
#[verifier::external_body]
pub(crate) fn utf8_lossy(bytes: &[u8]) -> (s: String)
    ensures
        s@ == lossy_utf8(bytes@),
        vstd::utf8::valid_utf8(bytes@) ==> s@ == vstd::utf8::decode_utf8(bytes@),
{
    String::from_utf8_lossy(bytes).into_owned()
}

// ---------------------------------------------------------------------------
// The order of texts.
// ---------------------------------------------------------------------------
/// `a` sorts before `b`: the first differing character is smaller, or `a`
/// is a proper prefix of `b`. Comparing by code point gives the order of
/// the UTF-8 bytes, which is how strings compare.
pub open spec fn lex_lt(a: Seq<char>, b: Seq<char>) -> bool
    decreases a.len(),
{
    if a.len() == 0 {
        b.len() > 0
    } else if b.len() == 0 {
        false
    } else if a[0] != b[0] {
        (a[0] as int) < (b[0] as int)
    } else {
        lex_lt(a.drop_first(), b.drop_first())
    }
}

pub proof fn lemma_lex_irreflexive(a: Seq<char>)
    ensures
        !lex_lt(a, a),
    decreases a.len(),
{
    if a.len() > 0 {
        lemma_lex_irreflexive(a.drop_first());
    }
}

pub proof fn lemma_lex_transitive(a: Seq<char>, b: Seq<char>, c: Seq<char>)
    requires
        lex_lt(a, b),
        lex_lt(b, c),
    ensures
        lex_lt(a, c),
    decreases a.len(),
{
    if a.len() > 0 && b.len() > 0 && c.len() > 0 && a[0] == b[0] && b[0] == c[0] {
        lemma_lex_transitive(a.drop_first(), b.drop_first(), c.drop_first());
    }
}

pub proof fn lemma_lex_total(a: Seq<char>, b: Seq<char>)
    ensures
        a == b || lex_lt(a, b) || lex_lt(b, a),
    decreases a.len(),
{
    if a.len() > 0 && b.len() > 0 && a[0] == b[0] {
        lemma_lex_total(a.drop_first(), b.drop_first());
        if a.drop_first() == b.drop_first() {
            assert(a =~= seq![a[0]] + a.drop_first());
            assert(b =~= seq![b[0]] + b.drop_first());
        }
    } else if a.len() > 0 && b.len() > 0 {
        assert((a[0] as int) != (b[0] as int));
    } else if a.len() == 0 && b.len() == 0 {
        assert(a =~= b);
    }
}

pub proof fn lemma_lex_asymmetric(a: Seq<char>, b: Seq<char>)
    requires
        lex_lt(a, b),
    ensures
        !lex_lt(b, a),
{
    if lex_lt(b, a) {
        lemma_lex_transitive(a, b, a);
        lemma_lex_irreflexive(a);
    }
}

/// Whether `a` sorts before `b` (see [`lex_lt`]).
pub fn lex_less(a: &[char], b: &[char]) -> (r: bool)
    ensures
        r == lex_lt(a@, b@),
{
    let mut i: usize = 0;
    assert(a@.skip(0) =~= a@ && b@.skip(0) =~= b@);
    while i < a.len() && i < b.len()
        invariant
            i <= a@.len(),
            i <= b@.len(),
            lex_lt(a@, b@) == lex_lt(a@.skip(i as int), b@.skip(i as int)),
        decreases a.len() - i,
    {
        if a[i] != b[i] {
            return a[i] < b[i];
        }
        proof {
            assert(a@.skip(i as int).drop_first() =~= a@.skip(i + 1));
            assert(b@.skip(i as int).drop_first() =~= b@.skip(i + 1));
        }
        i += 1;
    }
    i == a.len() && i < b.len()
}

/// `s` is in increasing order, with no text twice.
pub open spec fn strictly_sorted(s: Seq<Seq<char>>) -> bool {
    forall|i: int, j: int| 0 <= i < j < s.len() ==> lex_lt(#[trigger] s[i], #[trigger] s[j])
}

/// Two strictly sorted lists of the same texts are the same list.
pub proof fn lemma_sorted_unique(a: Seq<Seq<char>>, b: Seq<Seq<char>>)
    requires
        strictly_sorted(a),
        strictly_sorted(b),
        a.to_set() == b.to_set(),
    ensures
        a == b,
    decreases a.len(),
{
    if a.len() == 0 {
        if b.len() > 0 {
            assert(b.to_set().contains(b[0]));
        }
        assert(a =~= b);
    } else if b.len() == 0 {
        assert(a.to_set().contains(a[0]));
    } else {
        assert(a.to_set().contains(a[0]));
        assert(b.to_set().contains(b[0]));
        let k = choose|k: int| 0 <= k < b.len() && b[k] == a[0];
        let m = choose|m: int| 0 <= m < a.len() && a[m] == b[0];
        if k > 0 {
            assert(lex_lt(b[0], b[k]));
            if m > 0 {
                assert(lex_lt(a[0], a[m]));
                lemma_lex_asymmetric(b[0], a[0]);
            } else {
                lemma_lex_irreflexive(a[0]);
            }
        }
        assert(a[0] == b[0]);
        let a1 = a.drop_first();
        let b1 = b.drop_first();
        assert forall|x: Seq<char>| a1.to_set().contains(x) <==> b1.to_set().contains(x) by {
            if a1.to_set().contains(x) {
                let i = choose|i: int| 0 <= i < a1.len() && a1[i] == x;
                assert(a[i + 1] == x);
                assert(lex_lt(a[0], x));
                assert(a.to_set().contains(x));
                let j = choose|j: int| 0 <= j < b.len() && b[j] == x;
                if j == 0 {
                    lemma_lex_irreflexive(x);
                }
                assert(b1[j - 1] == x);
            }
            if b1.to_set().contains(x) {
                let i = choose|i: int| 0 <= i < b1.len() && b1[i] == x;
                assert(b[i + 1] == x);
                assert(lex_lt(b[0], x));
                assert(b.to_set().contains(x));
                let j = choose|j: int| 0 <= j < a.len() && a[j] == x;
                if j == 0 {
                    lemma_lex_irreflexive(x);
                }
                assert(a1[j - 1] == x);
            }
        }
        assert(a1.to_set() =~= b1.to_set());
        assert(strictly_sorted(a1)) by {
            assert forall|i: int, j: int| 0 <= i < j < a1.len() implies lex_lt(#[trigger] a1[i], #[trigger] a1[j]) by {
                assert(a1[i] == a[i + 1] && a1[j] == a[j + 1]);
            }
        }
        assert(strictly_sorted(b1)) by {
            assert forall|i: int, j: int| 0 <= i < j < b1.len() implies lex_lt(#[trigger] b1[i], #[trigger] b1[j]) by {
                assert(b1[i] == b[i + 1] && b1[j] == b[j + 1]);
            }
        }
        lemma_sorted_unique(a1, b1);
        assert(a =~= seq![a[0]] + a1);
        assert(b =~= seq![b[0]] + b1);
    }
}

/// Adds `x` to the strictly sorted list `r` at its place, unless it is
/// there already.
pub fn insert_sorted(r: &mut Vec<String>, x: String)
    requires
        strictly_sorted(string_views(old(r)@)),
    ensures
        strictly_sorted(string_views(final(r)@)),
        string_views(final(r)@).to_set() == string_views(old(r)@).to_set().insert(x@),
{
    let ghost old_v = string_views(r@);
    let xc = chars_of(x.as_str());
    let mut p: usize = 0;
    loop
        invariant
            p <= r@.len(),
            r@ == old(r)@,
            old_v == string_views(r@),
            xc@ == x@,
            forall|q: int| 0 <= q < p ==> lex_lt(#[trigger] old_v[q], x@),
        ensures
            p == r@.len() || !lex_lt(old_v[p as int], x@),
        decreases r@.len() - p,
    {
        if p >= r.len() {
            break;
        }
        let rc = chars_of(r[p].as_str());
        if !lex_less(&rc, &xc) {
            break;
        }
        p += 1;
    }
    if p < r.len() && r[p] == x {
        proof {
            assert(string_views(r@).to_set() =~= old_v.to_set().insert(x@)) by {
                assert(old_v[p as int] == x@);
            }
        }
        return;
    }
    proof {
        if p < old_v.len() {
            lemma_lex_total(old_v[p as int], x@);
        }
    }
    r.insert(p, x);
    proof {
        let nv = string_views(r@);
        assert(nv =~= old_v.take(p as int).push(x@) + old_v.skip(p as int));
        assert forall|i: int, j: int| 0 <= i < j < nv.len() implies lex_lt(#[trigger] nv[i], #[trigger] nv[j]) by {
            if j < p {
                assert(nv[i] == old_v[i] && nv[j] == old_v[j]);
            } else if j == p {
                assert(nv[i] == old_v[i]);
            } else if i < p {
                assert(nv[i] == old_v[i] && nv[j] == old_v[j - 1]);
                assert(lex_lt(old_v[i], x@));
                assert(lex_lt(x@, old_v[p as int]));
                if j - 1 > p {
                    lemma_lex_transitive(x@, old_v[p as int], old_v[j - 1]);
                }
                lemma_lex_transitive(old_v[i], x@, old_v[j - 1]);
            } else if i == p {
                assert(nv[j] == old_v[j - 1]);
                if j - 1 > p {
                    lemma_lex_transitive(x@, old_v[p as int], old_v[j - 1]);
                }
            } else {
                assert(nv[i] == old_v[i - 1] && nv[j] == old_v[j - 1]);
            }
        }
        assert forall|y: Seq<char>| nv.to_set().contains(y) <==> old_v.to_set().insert(x@).contains(y) by {
            if nv.to_set().contains(y) {
                let i = choose|i: int| 0 <= i < nv.len() && nv[i] == y;
                if i < p {
                    assert(old_v[i] == y);
                } else if i > p {
                    assert(old_v[i - 1] == y);
                }
            }
            if old_v.to_set().contains(y) {
                let i = choose|i: int| 0 <= i < old_v.len() && old_v[i] == y;
                if i < p {
                    assert(nv[i] == y);
                } else {
                    assert(nv[i + 1] == y);
                }
            }
            if y == x@ {
                assert(nv[p as int] == y);
            }
        }
        assert(nv.to_set() =~= old_v.to_set().insert(x@));
    }
}

} // verus!
