//! The kinds of path segment, and what each needs and is written as; the
//! grammar of SVG transform lists.
use vstd::prelude::*;

use crate::text::{chars_of, copy_range, is_alphabetic, is_unicode_whitespace, is_whitespace, string_of, string_views, unicode_alphabetic};

verus! {

/// The kind of one segment of a path.
#[derive(Clone, Copy, Debug, PartialEq, Eq, Structural)]
pub enum SegmentType {
    Moveto,
    Lineto,
    Curveto,
    Closepath,
}

/// The SVG command letter of a segment kind.
pub open spec fn svg_letter_spec(t: SegmentType) -> char {
    match t {
        SegmentType::Moveto => 'M',
        SegmentType::Lineto => 'L',
        SegmentType::Curveto => 'C',
        SegmentType::Closepath => 'Z',
    }
}

/// The number of points a segment of kind `t` carries: one end point, or two
/// control points and an end point for a curve, none for a close.
pub open spec fn points_needed_spec(t: SegmentType) -> nat {
    match t {
        SegmentType::Moveto => 1,
        SegmentType::Lineto => 1,
        SegmentType::Curveto => 3,
        SegmentType::Closepath => 0,
    }
}

/// The PGF painting operator of a segment: `m`, `l`/`L` and `c`/`C`, the
/// lower-case forms for smooth points; a close is written by the painting
/// operator of the path, not by a segment.
pub open spec fn pgf_operator_spec(t: SegmentType, smooth: bool) -> Option<char> {
    match t {
        SegmentType::Moveto => Some('m'),
        SegmentType::Lineto => Some(if smooth { 'l' } else { 'L' }),
        SegmentType::Curveto => Some(if smooth { 'c' } else { 'C' }),
        SegmentType::Closepath => None,
    }
}

impl SegmentType {
    pub fn svg_letter(&self) -> (c: char)
        ensures
            c == svg_letter_spec(*self),
    {
        match self {
            SegmentType::Moveto => 'M',
            SegmentType::Lineto => 'L',
            SegmentType::Curveto => 'C',
            SegmentType::Closepath => 'Z',
        }
    }

    pub fn points_needed(&self) -> (n: usize)
        ensures
            n == points_needed_spec(*self),
    {
        match self {
            SegmentType::Moveto => 1,
            SegmentType::Lineto => 1,
            SegmentType::Curveto => 3,
            SegmentType::Closepath => 0,
        }
    }

    pub fn pgf_operator(&self, smooth: bool) -> (r: Option<char>)
        ensures
            r == pgf_operator_spec(*self, smooth),
    {
        match self {
            SegmentType::Moveto => Some('m'),
            SegmentType::Lineto => Some(if smooth { 'l' } else { 'L' }),
            SegmentType::Curveto => Some(if smooth { 'c' } else { 'C' }),
            SegmentType::Closepath => None,
        }
    }
}

// ---------------------------------------------------------------------------
// SVG transform lists: `name(args) name(args) ...`.
// ---------------------------------------------------------------------------
/// A separator between transform arguments: a comma or whitespace.
pub open spec fn arg_sep(c: char) -> bool {
    c == ',' || is_unicode_whitespace(c)
}

/// The first position at or after `p` where `arg_sep` is not `sep`.
pub open spec fn skip_sep(s: Seq<char>, p: int, sep: bool) -> int
    decreases s.len() - p,
{
    if 0 <= p < s.len() && arg_sep(s[p]) == sep {
        skip_sep(s, p + 1, sep)
    } else {
        p
    }
}

pub proof fn lemma_skip_sep(s: Seq<char>, p: int, sep: bool)
    requires
        0 <= p <= s.len(),
    ensures
        p <= skip_sep(s, p, sep) <= s.len(),
        skip_sep(s, p, sep) < s.len() ==> arg_sep(s[skip_sep(s, p, sep)]) != sep,
    decreases s.len() - p,
{
    if p < s.len() && arg_sep(s[p]) == sep {
        lemma_skip_sep(s, p + 1, sep);
    }
}

/// The arguments in `s` from `p` on: the maximal runs of characters other
/// than commas and whitespace.
pub open spec fn args_from(s: Seq<char>, p: int) -> Seq<Seq<char>>
    decreases s.len() - p,
{
    if p < 0 || p > s.len() {
        seq![]
    } else {
        let q = skip_sep(s, p, true);
        proof {
            lemma_skip_sep(s, p, true);
        }
        if q >= s.len() {
            seq![]
        } else {
            let e = skip_sep(s, q, false);
            proof {
                lemma_skip_sep(s, q, false);
            }
            seq![s.subrange(q, e)] + args_from(s, e)
        }
    }
}

/// The first position at or after `p` that is not alphabetic.
pub open spec fn skip_alpha(s: Seq<char>, p: int) -> int
    decreases s.len() - p,
{
    if 0 <= p < s.len() && unicode_alphabetic(s[p]) {
        skip_alpha(s, p + 1)
    } else {
        p
    }
}

/// The first position at or after `p` that is not whitespace.
pub open spec fn skip_space(s: Seq<char>, p: int) -> int
    decreases s.len() - p,
{
    if 0 <= p < s.len() && is_unicode_whitespace(s[p]) {
        skip_space(s, p + 1)
    } else {
        p
    }
}

/// The first `)` at or after `p`, or the end.
pub open spec fn close_at(s: Seq<char>, p: int) -> int
    decreases s.len() - p,
{
    if 0 <= p < s.len() && s[p] != ')' {
        close_at(s, p + 1)
    } else {
        p
    }
}

pub proof fn lemma_scans(s: Seq<char>, p: int)
    requires
        0 <= p <= s.len(),
    ensures
        p <= skip_alpha(s, p) <= s.len(),
        p <= skip_space(s, p) <= s.len(),
        p <= close_at(s, p) <= s.len(),
        skip_space(s, p) < s.len() ==> !is_unicode_whitespace(s[skip_space(s, p)]),
        close_at(s, p) < s.len() ==> s[close_at(s, p)] == ')',
    decreases s.len() - p,
{
    if p < s.len() {
        lemma_scans(s, p + 1);
    }
}

/// The calls of a transform list from `i` on, each as its name and its
/// arguments as written. Reading stops where no name starts or no `(`
/// follows the name; an unclosed list of arguments runs to the end.
pub open spec fn transform_calls_from(s: Seq<char>, i: int) -> Seq<(Seq<char>, Seq<Seq<char>>)>
    decreases s.len() - i,
{
    if i < 0 || i >= s.len() {
        seq![]
    } else {
        let a = skip_space(s, i);
        let b = skip_alpha(s, a);
        proof {
            lemma_scans(s, i);
        }
        if b == a {
            seq![]
        } else {
            proof {
                lemma_scans(s, a);
            }
            let c = skip_space(s, b);
            proof {
                lemma_scans(s, b);
            }
            if c >= s.len() || s[c] != '(' {
                seq![]
            } else {
                let d = close_at(s, c + 1);
                proof {
                    lemma_scans(s, c + 1);
                }
                let next = if d < s.len() {
                    d + 1
                } else {
                    d
                };
                seq![(s.subrange(a, b), args_from(s.subrange(c + 1, d), 0))] + transform_calls_from(
                    s,
                    next,
                )
            }
        }
    }
}

/// The calls of a whole transform list.
pub open spec fn transform_calls_spec(s: Seq<char>) -> Seq<(Seq<char>, Seq<Seq<char>>)> {
    transform_calls_from(s, 0)
}

/// One call of a transform list: its name and arguments as written.
pub struct TransformCall {
    pub name: String,
    pub args: Vec<String>,
}

impl TransformCall {
    pub open spec fn model(&self) -> (Seq<char>, Seq<Seq<char>>) {
        (self.name@, string_views(self.args@))
    }
}

pub open spec fn calls_model(v: Seq<TransformCall>) -> Seq<(Seq<char>, Seq<Seq<char>>)> {
    v.map_values(|c: TransformCall| c.model())
}

/// The arguments of `s` (see [`args_from`]).
pub fn split_args(s: &[char]) -> (r: Vec<String>)
    ensures
        string_views(r@) == args_from(s@, 0),
{
    let mut r: Vec<String> = Vec::new();
    let mut p: usize = 0;
    let n = s.len();
    loop
        invariant
            p <= n,
            n == s@.len(),
            string_views(r@) + args_from(s@, p as int) == args_from(s@, 0),
        ensures
            string_views(r@) == args_from(s@, 0),
        decreases n - p,
    {
        let ghost before = string_views(r@);
        let ghost p0 = p as int;
        while p < n && (s[p] == ',' || is_whitespace(s[p]))
            invariant
                p0 <= p <= n,
                n == s@.len(),
                skip_sep(s@, p as int, true) == skip_sep(s@, p0, true),
            decreases n - p,
        {
            p += 1;
        }
        if p >= n {
            proof {
                assert(args_from(s@, p0) == Seq::<Seq<char>>::empty());
                assert(before + Seq::<Seq<char>>::empty() =~= before);
            }
            break;
        }
        let q = p;
        while p < n && !(s[p] == ',' || is_whitespace(s[p]))
            invariant
                q <= p <= n,
                n == s@.len(),
                skip_sep(s@, p as int, false) == skip_sep(s@, q as int, false),
            decreases n - p,
        {
            p += 1;
        }
        let w = string_of(&copy_range(s, q, p));
        let ghost r0 = r@;
        r.push(w);
        proof {
            assert(string_views(r@) =~= string_views(r0).push(w@));
            assert(args_from(s@, p0) == seq![w@] + args_from(s@, p as int));
            assert(before + (seq![w@] + args_from(s@, p as int)) =~= before.push(w@) + args_from(
                s@,
                p as int,
            ));
        }
    }
    r
}

/// Splits an SVG `transform` attribute into its calls (see
/// [`transform_calls_from`]).
pub fn transform_calls(text: &str) -> (r: Vec<TransformCall>)
    ensures
        calls_model(r@) == transform_calls_spec(text@),
{
    let s = chars_of(text);
    let n = s.len();
    let mut r: Vec<TransformCall> = Vec::new();
    let mut i: usize = 0;
    proof {
        assert(calls_model(r@) + transform_calls_from(s@, 0) =~= transform_calls_from(s@, 0));
    }
    loop
        invariant
            i <= n,
            n == s@.len(),
            s@ == text@,
            calls_model(r@) + transform_calls_from(s@, i as int) == transform_calls_spec(text@),
        ensures
            calls_model(r@) == transform_calls_spec(text@),
        decreases n - i,
    {
        let ghost i0 = i as int;
        let ghost before = calls_model(r@);
        if i >= n {
            proof {
                assert(before + Seq::<(Seq<char>, Seq<Seq<char>>)>::empty() =~= before);
            }
            break;
        }
        proof {
            lemma_scans(s@, i0);
        }
        let mut a = i;
        while a < n && is_whitespace(s[a])
            invariant
                i <= a <= n,
                n == s@.len(),
                skip_space(s@, a as int) == skip_space(s@, i0),
            decreases n - a,
        {
            a += 1;
        }
        let mut b = a;
        while b < n && is_alphabetic(s[b])
            invariant
                a <= b <= n,
                n == s@.len(),
                skip_alpha(s@, b as int) == skip_alpha(s@, a as int),
            decreases n - b,
        {
            b += 1;
        }
        if b == a {
            proof {
                assert(before + Seq::<(Seq<char>, Seq<Seq<char>>)>::empty() =~= before);
            }
            break;
        }
        let mut c = b;
        while c < n && is_whitespace(s[c])
            invariant
                b <= c <= n,
                n == s@.len(),
                skip_space(s@, c as int) == skip_space(s@, b as int),
            decreases n - c,
        {
            c += 1;
        }
        if c >= n || s[c] != '(' {
            proof {
                assert(before + Seq::<(Seq<char>, Seq<Seq<char>>)>::empty() =~= before);
            }
            break;
        }
        let mut d = c + 1;
        while d < n && s[d] != ')'
            invariant
                c + 1 <= d <= n,
                n == s@.len(),
                close_at(s@, d as int) == close_at(s@, c + 1),
            decreases n - d,
        {
            d += 1;
        }
        let name = string_of(&copy_range(&s, a, b));
        let inner = copy_range(&s, c + 1, d);
        let args = split_args(&inner);
        let call = TransformCall { name, args };
        let ghost r0 = r@;
        r.push(call);
        let next = if d < n {
            d + 1
        } else {
            d
        };
        proof {
            assert(inner@ =~= s@.subrange(c + 1, d as int));
            assert(calls_model(r@) =~= calls_model(r0).push(call.model()));
            assert(transform_calls_from(s@, i0) == seq![call.model()] + transform_calls_from(s@, next as int));
            assert(before + (seq![call.model()] + transform_calls_from(s@, next as int)) =~= calls_model(r@)
                + transform_calls_from(s@, next as int));
        }
        i = next;
    }
    r
}

} // verus!
