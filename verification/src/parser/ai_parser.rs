//! Decisions of the PGF interpreter that depend on operator names alone.
use vstd::prelude::*;

use crate::parser::operators::str_equals;
use crate::text::{chars_of, copy_range, lemma_next_char_at_range, lemma_skip_class, next_char, next_char_at, skip_class, skip_class_at, find, find_spec, insert_sorted, join, join_spec, push_chars, second_field, second_field_spec, split_whitespace, starts_with, strictly_sorted, string_of, string_views, trim, trim_parens, trim_parens_spec, trim_spec, views, words_spec};
use crate::writer::pgf::render_op_spec;

verus! {

/// What a painting operator does: whether it closes the path, fills it,
/// strokes it, or only ends it without painting.
pub struct RenderFlags {
    pub closed: bool,
    pub fill: bool,
    pub stroke: bool,
    pub noop: bool,
}

/// The meaning of painting operator `op`: `n f s b` close the path,
/// `F f B b` fill it, `S s B b` stroke it, `N n` paint nothing.
pub open spec fn render_flags_spec(op: Seq<char>) -> (bool, bool, bool, bool) {
    let is = |c: char| op == seq![c];
    (
        is('n') || is('f') || is('s') || is('b'),
        is('F') || is('f') || is('B') || is('b'),
        is('S') || is('s') || is('B') || is('b'),
        is('N') || is('n'),
    )
}

fn is_one(op: &str, lit: &str, c: char) -> (r: bool)
    requires
        lit@ == seq![c],
    ensures
        r == (op@ == seq![c]),
{
    str_equals(op, lit)
}

pub fn render_flags(op: &str) -> (f: RenderFlags)
    ensures
        (f.closed, f.fill, f.stroke, f.noop) == render_flags_spec(op@),
{
    proof {
        reveal_strlit("n");
        assert("n"@ =~= seq!['n']);
        reveal_strlit("f");
        assert("f"@ =~= seq!['f']);
        reveal_strlit("s");
        assert("s"@ =~= seq!['s']);
        reveal_strlit("b");
        assert("b"@ =~= seq!['b']);
        reveal_strlit("N");
        assert("N"@ =~= seq!['N']);
        reveal_strlit("F");
        assert("F"@ =~= seq!['F']);
        reveal_strlit("S");
        assert("S"@ =~= seq!['S']);
        reveal_strlit("B");
        assert("B"@ =~= seq!['B']);
    }
    let n = is_one(op, "n", 'n');
    let f = is_one(op, "f", 'f');
    let s = is_one(op, "s", 's');
    let b = is_one(op, "b", 'b');
    let cn = is_one(op, "N", 'N');
    let cf = is_one(op, "F", 'F');
    let cs = is_one(op, "S", 'S');
    let cb = is_one(op, "B", 'B');
    RenderFlags {
        closed: n || f || s || b,
        fill: cf || f || cb || b,
        stroke: cs || s || cb || b,
        noop: cn || n,
    }
}

/// The operator that the writer chooses for a path is read back with the
/// same fill, stroke and closing, and paints nothing exactly when the path
/// has neither fill nor stroke.
pub proof fn render_op_round_trip(has_fill: bool, has_stroke: bool, closed: bool)
    ensures
        render_flags_spec(seq![render_op_spec(has_fill, has_stroke, closed)]) == (
            closed,
            has_fill,
            has_stroke,
            !has_fill && !has_stroke,
        ),
{
    let c = render_op_spec(has_fill, has_stroke, closed);
    assert(seq![c] == seq!['n'] <==> c == 'n') by {
        if seq![c] == seq!['n'] {
            assert(seq![c][0] == seq!['n'][0]);
        }
    }
    assert(seq![c] == seq!['f'] <==> c == 'f') by {
        if seq![c] == seq!['f'] {
            assert(seq![c][0] == seq!['f'][0]);
        }
    }
    assert(seq![c] == seq!['s'] <==> c == 's') by {
        if seq![c] == seq!['s'] {
            assert(seq![c][0] == seq!['s'][0]);
        }
    }
    assert(seq![c] == seq!['b'] <==> c == 'b') by {
        if seq![c] == seq!['b'] {
            assert(seq![c][0] == seq!['b'][0]);
        }
    }
    assert(seq![c] == seq!['N'] <==> c == 'N') by {
        if seq![c] == seq!['N'] {
            assert(seq![c][0] == seq!['N'][0]);
        }
    }
    assert(seq![c] == seq!['F'] <==> c == 'F') by {
        if seq![c] == seq!['F'] {
            assert(seq![c][0] == seq!['F'][0]);
        }
    }
    assert(seq![c] == seq!['S'] <==> c == 'S') by {
        if seq![c] == seq!['S'] {
            assert(seq![c][0] == seq!['S'][0]);
        }
    }
    assert(seq![c] == seq!['B'] <==> c == 'B') by {
        if seq![c] == seq!['B'] {
            assert(seq![c][0] == seq!['B'][0]);
        }
    }
}

// ---------------------------------------------------------------------------
// Document structuring comments.
// ---------------------------------------------------------------------------
/// What a `%%` comment tells the interpreter.
pub enum CommentAction<S> {
    /// The prolog or setup begins: objects seen until its end are ignored.
    BeginSetup,
    /// The setup ends: pending state is dropped.
    EndSetup,
    /// The bounding box; its numbers follow the tag.
    BoundingBox,
    Title(S),
    Creator(S),
    /// The file format, as `AI <version>`.
    Version(S),
    /// A list of named CMYK custom colours follows the tag.
    CustomColor,
    ColorMode(S),
    Ignored,
}

impl CommentAction<String> {
    pub open spec fn model(&self) -> CommentAction<Seq<char>> {
        match self {
            CommentAction::BeginSetup => CommentAction::BeginSetup,
            CommentAction::EndSetup => CommentAction::EndSetup,
            CommentAction::BoundingBox => CommentAction::BoundingBox,
            CommentAction::Title(x) => CommentAction::Title(x@),
            CommentAction::Creator(x) => CommentAction::Creator(x@),
            CommentAction::Version(x) => CommentAction::Version(x@),
            CommentAction::CustomColor => CommentAction::CustomColor,
            CommentAction::ColorMode(x) => CommentAction::ColorMode(x@),
            CommentAction::Ignored => CommentAction::Ignored,
        }
    }
}

/// The meaning of comment `t`.
pub open spec fn comment_action_spec(t: Seq<char>) -> CommentAction<Seq<char>> {
    if "%%BeginProlog"@.is_prefix_of(t) || "%%BeginSetup"@.is_prefix_of(t) {
        CommentAction::BeginSetup
    } else if "%%EndSetup"@.is_prefix_of(t) {
        CommentAction::EndSetup
    } else if "%%BoundingBox:"@.is_prefix_of(t) {
        CommentAction::BoundingBox
    } else if "%%Title:"@.is_prefix_of(t) {
        CommentAction::Title(trim_parens_spec(trim_spec(t.skip("%%Title:"@.len() as int))))
    } else if "%%Creator:"@.is_prefix_of(t) {
        CommentAction::Creator(trim_spec(t.skip("%%Creator:"@.len() as int)))
    } else if "%AI5_FileFormat"@.is_prefix_of(t) {
        let w = words_spec(t);
        if w.len() >= 2 {
            CommentAction::Version("AI "@ + w[1])
        } else {
            CommentAction::Ignored
        }
    } else if "%%CMYKCustomColor:"@.is_prefix_of(t) || "%%+ "@.is_prefix_of(t) {
        CommentAction::CustomColor
    } else if "%%DocumentCustomColors:"@.is_prefix_of(t) {
        CommentAction::Ignored
    } else if "%%DocumentProcessColors:"@.is_prefix_of(t) {
        let rest = t.skip("%%DocumentProcessColors:"@.len() as int);
        if find_spec(rest, "Cyan"@) is Some {
            CommentAction::ColorMode("CMYK"@)
        } else if find_spec(rest, "Red"@) is Some {
            CommentAction::ColorMode("RGB"@)
        } else {
            CommentAction::Ignored
        }
    } else {
        CommentAction::Ignored
    }
}

fn has_prefix(t: &[char], lit: &str) -> (r: bool)
    ensures
        r == lit@.is_prefix_of(t@),
{
    starts_with(t, &chars_of(lit))
}

/// The characters of `t` after literal `lit`.
fn after(t: &[char], lit: &str) -> (r: Vec<char>)
    requires
        lit@.is_prefix_of(t@),
    ensures
        r@ == t@.skip(lit@.len() as int),
{
    let n = chars_of(lit).len();
    let r = copy_range(t, n, t.len());
    assert(r@ =~= t@.skip(n as int));
    r
}

/// `"AI "` followed by `v`.
fn ai_version(v: &[char]) -> (r: String)
    ensures
        r@ == "AI "@ + v@,
{
    let mut s = "AI ".to_owned();
    push_chars(&mut s, v);
    s
}

/// Reads a `%%` comment (see [`comment_action_spec`]).
pub fn classify_comment(text: &str) -> (r: CommentAction<String>)
    ensures
        r.model() == comment_action_spec(text@),
{
    let t = chars_of(text);
    if has_prefix(&t, "%%BeginProlog") || has_prefix(&t, "%%BeginSetup") {
        CommentAction::BeginSetup
    } else if has_prefix(&t, "%%EndSetup") {
        CommentAction::EndSetup
    } else if has_prefix(&t, "%%BoundingBox:") {
        CommentAction::BoundingBox
    } else if has_prefix(&t, "%%Title:") {
        let rest = after(&t, "%%Title:");
        CommentAction::Title(string_of(&trim_parens(&trim(&rest))))
    } else if has_prefix(&t, "%%Creator:") {
        let rest = after(&t, "%%Creator:");
        CommentAction::Creator(string_of(&trim(&rest)))
    } else if has_prefix(&t, "%AI5_FileFormat") {
        let w = split_whitespace(&t);
        if w.len() >= 2 {
            proof {
                assert(views(w@)[1] == w@[1]@);
            }
            CommentAction::Version(ai_version(&w[1]))
        } else {
            CommentAction::Ignored
        }
    } else if has_prefix(&t, "%%CMYKCustomColor:") || has_prefix(&t, "%%+ ") {
        CommentAction::CustomColor
    } else if has_prefix(&t, "%%DocumentCustomColors:") {
        CommentAction::Ignored
    } else if has_prefix(&t, "%%DocumentProcessColors:") {
        let rest = after(&t, "%%DocumentProcessColors:");
        if find(&rest, &chars_of("Cyan")).is_some() {
            CommentAction::ColorMode("CMYK".to_owned())
        } else if find(&rest, &chars_of("Red")).is_some() {
            CommentAction::ColorMode("RGB".to_owned())
        } else {
            CommentAction::Ignored
        }
    } else {
        CommentAction::Ignored
    }
}

/// What a pseudo-comment (`%_...` or `%AI...`) tells the interpreter.
pub enum PseudoAction<S> {
    /// A layer begins: pending state is dropped.
    BeginLayer,
    /// The file format, as `AI <version>`.
    Version(S),
    CreatorVersion(S),
    ColorMode(S),
    /// A gradient stop: offset (percent) and CMYK components, as written.
    GradientStop { offset: S, c: S, m: S, y: S, k: S },
    /// A gradient definition begins, with this name.
    GradientName(S),
    /// A gradient definition ends.
    GradientEnd,
    /// Known, and nothing to do.
    Handled,
    Ignored,
}

impl PseudoAction<String> {
    pub open spec fn model(&self) -> PseudoAction<Seq<char>> {
        match self {
            PseudoAction::BeginLayer => PseudoAction::BeginLayer,
            PseudoAction::Version(x) => PseudoAction::Version(x@),
            PseudoAction::CreatorVersion(x) => PseudoAction::CreatorVersion(x@),
            PseudoAction::ColorMode(x) => PseudoAction::ColorMode(x@),
            PseudoAction::GradientStop { offset, c, m, y, k } => PseudoAction::GradientStop {
                offset: offset@,
                c: c@,
                m: m@,
                y: y@,
                k: k@,
            },
            PseudoAction::GradientName(x) => PseudoAction::GradientName(x@),
            PseudoAction::GradientEnd => PseudoAction::GradientEnd,
            PseudoAction::Handled => PseudoAction::Handled,
            PseudoAction::Ignored => PseudoAction::Ignored,
        }
    }
}

/// The meaning of pseudo-comment `t`.
pub open spec fn pseudo_action_spec(t: Seq<char>) -> PseudoAction<Seq<char>> {
    if "%AI5_BeginLayer"@.is_prefix_of(t) {
        PseudoAction::BeginLayer
    } else if "%AI5_FileFormat"@.is_prefix_of(t) {
        let w = words_spec(t.skip("%AI5_FileFormat"@.len() as int));
        if w.len() >= 1 {
            PseudoAction::Version("AI "@ + w[0])
        } else {
            PseudoAction::Handled
        }
    } else if "%AI8_CreatorVersion:"@.is_prefix_of(t) {
        match second_field_spec(t) {
            Some(v) => PseudoAction::CreatorVersion(trim_spec(v)),
            None => PseudoAction::Handled,
        }
    } else if "%AI5_NumLayers:"@.is_prefix_of(t) {
        PseudoAction::Handled
    } else if "%AI9_ColorModel:"@.is_prefix_of(t) {
        match second_field_spec(t) {
            Some(v) => if trim_spec(v) == "2"@ {
                PseudoAction::ColorMode("CMYK"@)
            } else if trim_spec(v) == "1"@ {
                PseudoAction::ColorMode("RGB"@)
            } else {
                PseudoAction::Handled
            },
            None => PseudoAction::Handled,
        }
    } else if "%_"@.is_prefix_of(t) {
        let w = words_spec(t.skip("%_"@.len() as int));
        if w.len() == 0 {
            PseudoAction::Handled
        } else if (w[0] == "Bs"@ || w[0] == "BS"@) && w.len() >= 7 {
            PseudoAction::GradientStop { offset: w[1], c: w[3], m: w[4], y: w[5], k: w[6] }
        } else if w[0] == "Bd"@ && w.len() >= 2 {
            PseudoAction::GradientName(trim_parens_spec(w[1]))
        } else if w[0] == "BD"@ {
            PseudoAction::GradientEnd
        } else {
            PseudoAction::Ignored
        }
    } else {
        PseudoAction::Ignored
    }
}

fn chars_equal(a: &[char], lit: &str) -> (r: bool)
    ensures
        r == (a@ == lit@),
{
    let b = chars_of(lit);
    if a.len() != b.len() {
        assert(a@.len() != lit@.len());
        return false;
    }
    let mut i: usize = 0;
    while i < a.len()
        invariant
            i <= a@.len(),
            a@.len() == b@.len(),
            b@ == lit@,
            forall|j: int| 0 <= j < i ==> a@[j] == b@[j],
        decreases a.len() - i,
    {
        if a[i] != b[i] {
            assert(a@[i as int] != lit@[i as int]);
            return false;
        }
        i += 1;
    }
    assert(a@ =~= b@);
    true
}

/// Reads a pseudo-comment (see [`pseudo_action_spec`]).
pub fn classify_pseudo_comment(text: &str) -> (r: PseudoAction<String>)
    ensures
        r.model() == pseudo_action_spec(text@),
{
    let t = chars_of(text);
    if has_prefix(&t, "%AI5_BeginLayer") {
        return PseudoAction::BeginLayer;
    }
    if has_prefix(&t, "%AI5_FileFormat") {
        let rest = after(&t, "%AI5_FileFormat");
        let w = split_whitespace(&rest);
        if w.len() >= 1 {
            proof {
                assert(views(w@)[0] == w@[0]@);
            }
            return PseudoAction::Version(ai_version(&w[0]));
        }
        return PseudoAction::Handled;
    }
    if has_prefix(&t, "%AI8_CreatorVersion:") {
        return match second_field(&t) {
            Some(v) => PseudoAction::CreatorVersion(string_of(&trim(&v))),
            None => PseudoAction::Handled,
        };
    }
    if has_prefix(&t, "%AI5_NumLayers:") {
        return PseudoAction::Handled;
    }
    if has_prefix(&t, "%AI9_ColorModel:") {
        return match second_field(&t) {
            Some(v) => {
                let model = trim(&v);
                if chars_equal(&model, "2") {
                    PseudoAction::ColorMode("CMYK".to_owned())
                } else if chars_equal(&model, "1") {
                    PseudoAction::ColorMode("RGB".to_owned())
                } else {
                    PseudoAction::Handled
                }
            },
            None => PseudoAction::Handled,
        };
    }
    if has_prefix(&t, "%_") {
        let body = after(&t, "%_");
        let w = split_whitespace(&body);
        if w.len() == 0 {
            return PseudoAction::Handled;
        }
        proof {
            assert(forall|i: int| 0 <= i < w@.len() ==> views(w@)[i] == #[trigger] w@[i]@);
        }
        let op = &w[0];
        if (chars_equal(op, "Bs") || chars_equal(op, "BS")) && w.len() >= 7 {
            return PseudoAction::GradientStop {
                offset: string_of(&w[1]),
                c: string_of(&w[3]),
                m: string_of(&w[4]),
                y: string_of(&w[5]),
                k: string_of(&w[6]),
            };
        } else if chars_equal(op, "Bd") && w.len() >= 2 {
            return PseudoAction::GradientName(string_of(&trim_parens(&w[1])));
        } else if chars_equal(op, "BD") {
            return PseudoAction::GradientEnd;
        }
        return PseudoAction::Ignored;
    }
    PseudoAction::Ignored
}

// ---------------------------------------------------------------------------
// Operators the table does not know.
// ---------------------------------------------------------------------------
/// The list of unknown operators after `name` is met: unchanged where it is
/// listed already, else with `name` added at the end.
pub open spec fn noted(list: Seq<Seq<char>>, name: Seq<char>) -> Seq<Seq<char>> {
    if list.contains(name) {
        list
    } else {
        list.push(name)
    }
}

/// Recording unknown operators never lists a name twice, and never loses
/// one: a list without repeats stays without repeats, and it then holds
/// the name.
pub proof fn noted_distinct_law(list: Seq<Seq<char>>, name: Seq<char>)
    requires
        list.no_duplicates(),
    ensures
        noted(list, name).no_duplicates(),
        noted(list, name).contains(name),
        forall|x: Seq<char>| list.contains(x) ==> #[trigger] noted(list, name).contains(x),
{
    if !list.contains(name) {
        let r = list.push(name);
        assert(r[list.len() as int] == name);
        assert forall|i: int, j: int| 0 <= i < r.len() && 0 <= j < r.len() && i != j implies r[i] != r[j] by {
            if i < list.len() && j < list.len() {
                assert(r[i] == list[i] && r[j] == list[j]);
            } else if i < list.len() {
                assert(r[i] == list[i]);
            } else {
                assert(r[j] == list[j]);
            }
        }
        assert forall|x: Seq<char>| list.contains(x) implies #[trigger] r.contains(x) by {
            let k = choose|k: int| 0 <= k < list.len() && list[k] == x;
            assert(r[k] == x);
        }
    }
}

/// Records `name` among the unknown operators, unless it is listed already.
pub fn note_unknown(list: &mut Vec<String>, name: &str)
    ensures
        string_views(old(list)@).contains(name@) ==> final(list)@ == old(list)@,
        string_views(final(list)@) == noted(string_views(old(list)@), name@),
{
    let n = name.to_owned();
    let mut i: usize = 0;
    while i < list.len()
        invariant
            i <= list@.len(),
            n@ == name@,
            list@ == old(list)@,
            forall|j: int| 0 <= j < i ==> (#[trigger] list@[j])@ != name@,
        decreases list.len() - i,
    {
        if list[i] == n {
            proof {
                assert(string_views(list@)[i as int] == name@);
            }
            return;
        }
        i += 1;
    }
    let ghost before = list@;
    list.push(n);
    proof {
        assert(!string_views(before).contains(name@)) by {
            if string_views(before).contains(name@) {
                let j = choose|j: int| 0 <= j < before.len() && string_views(before)[j] == name@;
                assert(before[j]@ == name@);
            }
        }
        assert(string_views(list@) =~= string_views(before).push(name@));
    }
}

/// The unknown operators for the document metadata: each name once, in
/// sorted order, separated by `", "`; `None` when there are none.
pub fn unknown_summary(list: &Vec<String>) -> (r: Option<String>)
    ensures
        list@.len() == 0 ==> r is None,
        list@.len() > 0 ==> (r matches Some(s) && exists|sorted: Seq<Seq<char>>|
            strictly_sorted(sorted) && sorted.to_set() == string_views(list@).to_set() && s@
                == join_spec(sorted, ", "@)),
{
    if list.len() == 0 {
        return None;
    }
    let mut sorted: Vec<String> = Vec::new();
    let mut i: usize = 0;
    proof {
        assert(string_views(sorted@).to_set() =~= string_views(list@).take(0).to_set());
    }
    while i < list.len()
        invariant
            i <= list@.len(),
            strictly_sorted(string_views(sorted@)),
            string_views(sorted@).to_set() == string_views(list@).take(i as int).to_set(),
        decreases list.len() - i,
    {
        insert_sorted(&mut sorted, list[i].clone());
        proof {
            let lv = string_views(list@);
            assert(lv.take(i + 1) =~= lv.take(i as int).push(lv[i as int]));
            lv.take(i as int).lemma_push_to_set_commute(lv[i as int]);
        }
        i += 1;
    }
    let mut parts: Vec<Vec<char>> = Vec::new();
    let mut k: usize = 0;
    while k < sorted.len()
        invariant
            k <= sorted@.len(),
            views(parts@) == string_views(sorted@).take(k as int),
        decreases sorted.len() - k,
    {
        let c = chars_of(sorted[k].as_str());
        let ghost before = parts@;
        parts.push(c);
        proof {
            assert(views(parts@) =~= views(before).push(c@));
            assert(string_views(sorted@).take(k + 1) =~= string_views(sorted@).take(k as int).push(
                sorted@[k as int]@,
            ));
        }
        k += 1;
    }
    let sep = chars_of(", ");
    let joined = join(&parts, &sep);
    proof {
        assert(string_views(list@).take(list@.len() as int) =~= string_views(list@));
        assert(string_views(sorted@).take(sorted@.len() as int) =~= string_views(sorted@));
    }
    Some(string_of(&joined))
}


// ---------------------------------------------------------------------------
// Custom colour comments.
// ---------------------------------------------------------------------------
/// A named CMYK custom colour as a comment lists it: its four components,
/// as written, and its name.
pub struct CustomColor<S> {
    pub cyan: S,
    pub magenta: S,
    pub yellow: S,
    pub black: S,
    pub name: S,
}

impl CustomColor<String> {
    pub open spec fn model(&self) -> CustomColor<Seq<char>> {
        CustomColor {
            cyan: self.cyan@,
            magenta: self.magenta@,
            yellow: self.yellow@,
            black: self.black@,
            name: self.name@,
        }
    }
}

pub open spec fn custom_colors_model(v: Seq<CustomColor<String>>) -> Seq<CustomColor<Seq<char>>> {
    v.map_values(|c: CustomColor<String>| c.model())
}

/// The end of the field that starts at `p`: the next whitespace character.
pub open spec fn field_end(s: Seq<char>, p: int) -> int {
    skip_class(s, p, false)
}

/// The custom colours listed in `s` from position `p` on. An entry skips
/// leading whitespace, then takes four fields, each ended by a single
/// whitespace character (as `splitn(5, char::is_whitespace)` cuts them),
/// then the name between the first `(` after them and the first `)` after
/// that; the next entry starts after the `)`. The list ends at the end of
/// `s`, or where an entry lacks a field or a parenthesised name.
pub open spec fn custom_colors_from(s: Seq<char>, p: int) -> Seq<CustomColor<Seq<char>>>
    decreases s.len() - p,
{
    if p < 0 || p >= s.len() {
        seq![]
    } else {
        let q = skip_class(s, p, true);
        let e1 = field_end(s, q);
        let e2 = field_end(s, e1 + 1);
        let e3 = field_end(s, e2 + 1);
        let e4 = field_end(s, e3 + 1);
        proof {
            lemma_skip_class(s, p, true);
            lemma_skip_class(s, q, false);
        }
        if e4 >= s.len() {
            seq![]
        } else {
            proof {
                lemma_skip_class(s, e1 + 1, false);
                lemma_skip_class(s, e2 + 1, false);
                lemma_skip_class(s, e3 + 1, false);
            }
            let open = next_char_at(s, '(', e4 + 1);
            let close = next_char_at(s, ')', open);
            proof {
                lemma_next_char_at_range(s, '(', e4 + 1);
            }
            if close >= s.len() {
                seq![]
            } else {
                proof {
                    lemma_next_char_at_range(s, ')', open);
                }
                seq![
                    CustomColor {
                        cyan: s.subrange(q, e1),
                        magenta: s.subrange(e1 + 1, e2),
                        yellow: s.subrange(e2 + 1, e3),
                        black: s.subrange(e3 + 1, e4),
                        name: s.subrange(open + 1, close),
                    },
                ] + custom_colors_from(s, close + 1)
            }
        }
    }
}

/// The custom colours of a `%%CMYKCustomColor:` comment or of its `%%+ `
/// continuation: the list after the tag, trimmed (see
/// [`custom_colors_from`]); none for another comment.
pub open spec fn custom_colors_spec(text: Seq<char>) -> Seq<CustomColor<Seq<char>>> {
    if "%%CMYKCustomColor:"@.is_prefix_of(text) {
        custom_colors_from(trim_spec(text.skip("%%CMYKCustomColor:"@.len() as int)), 0)
    } else if "%%+ "@.is_prefix_of(text) {
        custom_colors_from(trim_spec(text.skip("%%+ "@.len() as int)), 0)
    } else {
        seq![]
    }
}

/// Reads the custom colours a comment lists (see [`custom_colors_spec`]).
pub fn custom_colors(text: &str) -> (r: Vec<CustomColor<String>>)
    ensures
        custom_colors_model(r@) == custom_colors_spec(text@),
{
    let t = chars_of(text);
    let body = if has_prefix(&t, "%%CMYKCustomColor:") {
        trim(&after(&t, "%%CMYKCustomColor:"))
    } else if has_prefix(&t, "%%+ ") {
        trim(&after(&t, "%%+ "))
    } else {
        proof {
            assert(custom_colors_model(Seq::<CustomColor<String>>::empty()) =~= Seq::<CustomColor<Seq<char>>>::empty());
        }
        return Vec::new();
    };
    let ghost b = body@;
    let n = body.len();
    let mut r: Vec<CustomColor<String>> = Vec::new();
    let mut p: usize = 0;
    proof {
        assert(custom_colors_model(r@) =~= Seq::<CustomColor<Seq<char>>>::empty());
        assert(custom_colors_spec(text@) == custom_colors_from(b, 0));
    }
    loop
        invariant_except_break
            p <= n,
        invariant
            n == b.len(),
            b == body@,
            custom_colors_model(r@) + custom_colors_from(b, p as int) == custom_colors_from(b, 0),
        ensures
            custom_colors_model(r@) == custom_colors_from(b, 0),
        decreases n - p,
    {
        let ghost before = custom_colors_model(r@);
        if p >= n {
            proof {
                assert(before + Seq::<CustomColor<Seq<char>>>::empty() =~= before);
            }
            break;
        }
        let q = skip_class_at(&body, p, true);
        let e1 = skip_class_at(&body, q, false);
        if e1 >= n {
            proof {
                lemma_stops(b, p as int);
                assert(before + Seq::<CustomColor<Seq<char>>>::empty() =~= before);
            }
            break;
        }
        let e2 = skip_class_at(&body, e1 + 1, false);
        if e2 >= n {
            proof {
                lemma_stops(b, p as int);
                assert(before + Seq::<CustomColor<Seq<char>>>::empty() =~= before);
            }
            break;
        }
        let e3 = skip_class_at(&body, e2 + 1, false);
        if e3 >= n {
            proof {
                lemma_stops(b, p as int);
                assert(before + Seq::<CustomColor<Seq<char>>>::empty() =~= before);
            }
            break;
        }
        let e4 = skip_class_at(&body, e3 + 1, false);
        if e4 >= n {
            proof {
                assert(before + Seq::<CustomColor<Seq<char>>>::empty() =~= before);
            }
            break;
        }
        let open = next_char(&body, '(', e4 + 1);
        if open >= n {
            proof {
                lemma_next_char_at_range(b, '(', e4 + 1);
                assert(before + Seq::<CustomColor<Seq<char>>>::empty() =~= before);
            }
            break;
        }
        let close = next_char(&body, ')', open);
        if close >= n {
            proof {
                assert(before + Seq::<CustomColor<Seq<char>>>::empty() =~= before);
            }
            break;
        }
        proof {
            lemma_next_char_at_range(b, '(', e4 + 1);
            lemma_next_char_at_range(b, ')', open as int);
        }
        let c = CustomColor {
            cyan: string_of(&copy_range(&body, q, e1)),
            magenta: string_of(&copy_range(&body, e1 + 1, e2)),
            yellow: string_of(&copy_range(&body, e2 + 1, e3)),
            black: string_of(&copy_range(&body, e3 + 1, e4)),
            name: string_of(&copy_range(&body, open + 1, close)),
        };
        r.push(c);
        proof {
            assert(custom_colors_model(r@) =~= before.push(c.model()));
            assert(custom_colors_from(b, p as int) == seq![c.model()] + custom_colors_from(b, close + 1));
            assert(before + (seq![c.model()] + custom_colors_from(b, close + 1)) =~= before.push(c.model())
                + custom_colors_from(b, close + 1));
        }
        p = close + 1;
    }
    r
}

/// Where a field is missing, so is the fourth.
proof fn lemma_stops(s: Seq<char>, p: int)
    requires
        0 <= p < s.len(),
        field_end(s, field_end(s, field_end(s, skip_class(s, p, true)) + 1) + 1) >= s.len()
            || field_end(s, field_end(s, skip_class(s, p, true)) + 1) >= s.len()
            || field_end(s, skip_class(s, p, true)) >= s.len(),
    ensures
        custom_colors_from(s, p) == Seq::<CustomColor<Seq<char>>>::empty(),
{
    let q = skip_class(s, p, true);
    lemma_skip_class(s, p, true);
    lemma_skip_class(s, q, false);
    let e1 = field_end(s, q);
    let e2 = field_end(s, e1 + 1);
    let e3 = field_end(s, e2 + 1);
    if e1 < s.len() {
        lemma_skip_class(s, e1 + 1, false);
        if e2 < s.len() {
            lemma_skip_class(s, e2 + 1, false);
        }
    }
}

} // verus!
