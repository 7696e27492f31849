//! The text of the PGF writer: PostScript string escaping, sanitizing of
//! untrusted PostScript sections, version numbers, painting operators, and
//! the header, layer and trailer lines of the program.
use vstd::prelude::*;

use crate::parser::lexer::{col_at, escape_char, lex_from, line_at, octal_end, octal_value, skip_space, string_body, token_at, TokenModel, TokenType};
use crate::export::svg::{ascii_alphanumeric, is_alphanumeric, unicode_alphanumeric};
use crate::parser::operators::str_equals;
use crate::text::{chars_of, copy_range, decimal_spec, find, find_spec, is_ascii_digit, join, join_spec, lines, lines_spec, push_char, push_decimal, push_signed_decimal, push_str, signed_decimal_spec, string_of, string_views, trim, trim_end, trim_end_spec, trim_spec, views};

verus! {

/// What one character becomes inside a PostScript `( ... )` string.
pub open spec fn ps_char_escape(c: char) -> Seq<char> {
    if c == '\\' {
        seq!['\\', '\\']
    } else if c == '(' {
        seq!['\\', '(']
    } else if c == ')' {
        seq!['\\', ')']
    } else if c == '\n' {
        seq!['\\', 'n']
    } else if c == '\r' {
        seq!['\\', 'r']
    } else if c == '\t' {
        seq!['\\', 't']
    } else if c == '\x08' {
        seq!['\\', 'b']
    } else if c == '\x0c' {
        seq!['\\', 'f']
    } else if (c as u32) < 0x20 {
        let code = c as u32 as int;
        seq!['\\', '0', ((code / 8) % 8 + 48) as char, (code % 8 + 48) as char]
    } else {
        seq![c]
    }
}

/// `s` escaped for a PostScript string literal.
pub open spec fn ps_escape_spec(s: Seq<char>) -> Seq<char>
    decreases s.len(),
{
    if s.len() == 0 {
        s
    } else {
        ps_escape_spec(s.drop_last()) + ps_char_escape(s.last())
    }
}

pub fn ps_escape(s: &str) -> (r: String)
    ensures
        r@ == ps_escape_spec(s@),
{
    let chars = chars_of(s);
    let mut result = String::new();
    let mut i: usize = 0;
    while i < chars.len()
        invariant
            i <= chars@.len(),
            result@ == ps_escape_spec(chars@.take(i as int)),
        decreases chars.len() - i,
    {
        let c = chars[i];
        let ghost before = result@;
        if c == '\\' {
            push_char(&mut result, '\\');
            push_char(&mut result, '\\');
        } else if c == '(' {
            push_char(&mut result, '\\');
            push_char(&mut result, '(');
        } else if c == ')' {
            push_char(&mut result, '\\');
            push_char(&mut result, ')');
        } else if c == '\n' {
            push_char(&mut result, '\\');
            push_char(&mut result, 'n');
        } else if c == '\r' {
            push_char(&mut result, '\\');
            push_char(&mut result, 'r');
        } else if c == '\t' {
            push_char(&mut result, '\\');
            push_char(&mut result, 't');
        } else if c == '\x08' {
            push_char(&mut result, '\\');
            push_char(&mut result, 'b');
        } else if c == '\x0c' {
            push_char(&mut result, '\\');
            push_char(&mut result, 'f');
        } else if (c as u32) < 0x20 {
            let code = c as u32;
            push_char(&mut result, '\\');
            push_char(&mut result, '0');
            push_char(&mut result, (((code / 8) % 8) as u8 + 48) as char);
            push_char(&mut result, ((code % 8) as u8 + 48) as char);
        } else {
            push_char(&mut result, c);
        }
        proof {
            let t = chars@.take(i + 1);
            assert(t.drop_last() =~= chars@.take(i as int));
            assert(t.last() == c);
            assert(result@ =~= before + ps_char_escape(c));
        }
        i += 1;
    }
    proof {
        assert(chars@.take(chars@.len() as int) =~= chars@);
    }
    result
}

/// A line that a sanitized PostScript section keeps: blank, or a comment.
pub open spec fn safe_ps_line(line: Seq<char>) -> bool {
    let t = trim_spec(line);
    t.len() == 0 || t[0] == '%'
}

/// The lines of `ls` (the first `n`) that are blank or comments.
pub open spec fn safe_lines(ls: Seq<Seq<char>>, n: int) -> Seq<Seq<char>>
    decreases n,
{
    if n <= 0 {
        seq![]
    } else if safe_ps_line(ls[n - 1]) {
        safe_lines(ls, n - 1).push(ls[n - 1])
    } else {
        safe_lines(ls, n - 1)
    }
}

/// A PostScript section from an untrusted source, reduced to its blank and
/// comment lines.
pub open spec fn validate_ps_section_spec(data: Seq<char>) -> Seq<char> {
    let ls = lines_spec(data);
    join_spec(safe_lines(ls, ls.len() as int), seq!['\n'])
}

/// Every line that [`safe_lines`] keeps is blank or a comment.
pub proof fn lemma_safe_lines(ls: Seq<Seq<char>>, n: int)
    requires
        0 <= n <= ls.len(),
    ensures
        forall|i: int|
            0 <= i < safe_lines(ls, n).len() ==> safe_ps_line(#[trigger] safe_lines(ls, n)[i]),
    decreases n,
{
    if n > 0 {
        lemma_safe_lines(ls, n - 1);
        let prev = safe_lines(ls, n - 1);
        if safe_ps_line(ls[n - 1]) {
            assert forall|i: int| 0 <= i < prev.push(ls[n - 1]).len() implies safe_ps_line(
                #[trigger] prev.push(ls[n - 1])[i],
            ) by {
                if i < prev.len() {
                    assert(prev.push(ls[n - 1])[i] == prev[i]);
                }
            }
        }
    }
}

/// Keeps only the blank and comment lines of a PostScript section: no
/// operator of an untrusted section reaches the output.
pub fn validate_ps_section(data: &str) -> (r: String)
    ensures
        r@ == validate_ps_section_spec(data@),
        ({
            let ls = lines_spec(data@);
            let kept = safe_lines(ls, ls.len() as int);
            &&& r@ == join_spec(kept, seq!['\n'])
            &&& forall|i: int| 0 <= i < kept.len() ==> safe_ps_line(#[trigger] kept[i])
        }),
{
    let d = chars_of(data);
    let ls = lines(&d);
    let ghost lv = lines_spec(d@);
    let mut safe: Vec<Vec<char>> = Vec::new();
    let mut i: usize = 0;
    while i < ls.len()
        invariant
            i <= ls@.len(),
            ls@.len() == lv.len(),
            forall|j: int| 0 <= j < ls@.len() ==> #[trigger] ls@[j]@ == lv[j],
            views(safe@) == safe_lines(lv, i as int),
        decreases ls.len() - i,
    {
        let line = &ls[i];
        let stripped = trim(line);
        let ghost before = views(safe@);
        if stripped.len() == 0 || stripped[0] == '%' {
            let kept = copy_range(line, 0, line.len());
            assert(kept@ =~= line@);
            safe.push(kept);
            assert(views(safe@) =~= before.push(lv[i as int]));
        }
        i += 1;
    }
    let nl = ['\n'];
    assert(nl@ =~= seq!['\n']);
    let joined = join(&safe, &nl);
    proof {
        lemma_safe_lines(lv, lv.len() as int);
    }
    string_of(&joined)
}

/// The version number within a version text: the first run of digits and
/// dots, or `14.0` where there is none.
pub open spec fn version_char(c: char) -> bool {
    is_ascii_digit(c) || c == '.'
}

/// The first position at or after `p` that holds no version character.
pub open spec fn version_run_end(s: Seq<char>, p: int) -> int
    decreases s.len() - p,
{
    if 0 <= p < s.len() && version_char(s[p]) {
        version_run_end(s, p + 1)
    } else {
        p
    }
}

/// The first position at or after `p` that holds a version character.
pub open spec fn version_start(s: Seq<char>, p: int) -> int
    decreases s.len() - p,
{
    if 0 <= p < s.len() && !version_char(s[p]) {
        version_start(s, p + 1)
    } else {
        p
    }
}

pub open spec fn extract_version_num_spec(version: Seq<char>) -> Seq<char> {
    let i = version_start(version, 0);
    if i >= version.len() {
        "14.0"@
    } else {
        version.subrange(i, version_run_end(version, i))
    }
}

pub fn extract_version_num(version: &str) -> (r: String)
    ensures
        r@ == extract_version_num_spec(version@),
{
    let v = chars_of(version);
    let mut i: usize = 0;
    while i < v.len() && !(('0' <= v[i] && v[i] <= '9') || v[i] == '.')
        invariant
            i <= v@.len(),
            version_start(v@, i as int) == version_start(v@, 0),
        decreases v.len() - i,
    {
        i += 1;
    }
    if i >= v.len() {
        return string_of(&chars_of("14.0"));
    }
    let mut e = i;
    while e < v.len() && (('0' <= v[e] && v[e] <= '9') || v[e] == '.')
        invariant
            i <= e <= v@.len(),
            version_run_end(v@, e as int) == version_run_end(v@, i as int),
        decreases v.len() - e,
    {
        e += 1;
    }
    let r = copy_range(&v, i, e);
    string_of(&r)
}

/// A character that a font name in a PostScript comment keeps.
pub open spec fn font_comment_char(c: char) -> bool {
    ascii_alphanumeric(c) || unicode_alphanumeric(c) || c == '-' || c == '+' || c == '.'
}

/// The characters of `s` that a font name in a PostScript comment keeps.
pub open spec fn font_comment_name_spec(s: Seq<char>) -> Seq<char>
    decreases s.len(),
{
    if s.len() == 0 {
        s
    } else if font_comment_char(s.last()) {
        font_comment_name_spec(s.drop_last()).push(s.last())
    } else {
        font_comment_name_spec(s.drop_last())
    }
}

/// A font name reduced to alphanumeric characters, `-`, `+` and `.`, as the
/// `%%DocumentFonts` comment lists it.
pub fn font_comment_name(f: &str) -> (r: String)
    ensures
        r@ == font_comment_name_spec(f@),
{
    let chars = chars_of(f);
    let mut safe = String::new();
    let mut i: usize = 0;
    while i < chars.len()
        invariant
            i <= chars@.len(),
            safe@ == font_comment_name_spec(chars@.take(i as int)),
        decreases chars.len() - i,
    {
        let c = chars[i];
        proof {
            let t = chars@.take(i + 1);
            assert(t.drop_last() =~= chars@.take(i as int));
            assert(t.last() == c);
        }
        if is_alphanumeric(c) || c == '-' || c == '+' || c == '.' {
            push_char(&mut safe, c);
        }
        i += 1;
    }
    proof {
        assert(chars@.take(chars@.len() as int) =~= chars@);
    }
    safe
}

/// The painting operator for a path: `b`/`B` fill and stroke, `f`/`F` fill,
/// `s`/`S` stroke, `n`/`N` neither; lower case closes the path.
pub open spec fn render_op_spec(has_fill: bool, has_stroke: bool, closed: bool) -> char {
    if has_fill && has_stroke {
        if closed { 'b' } else { 'B' }
    } else if has_fill {
        if closed { 'f' } else { 'F' }
    } else if has_stroke {
        if closed { 's' } else { 'S' }
    } else {
        if closed { 'n' } else { 'N' }
    }
}

pub fn render_op(has_fill: bool, has_stroke: bool, closed: bool) -> (op: String)
    ensures
        op@ == seq![render_op_spec(has_fill, has_stroke, closed)],
{
    let c = match (has_fill, has_stroke, closed) {
        (true, true, true) => 'b',
        (true, true, false) => 'B',
        (true, false, true) => 'f',
        (true, false, false) => 'F',
        (false, true, true) => 's',
        (false, true, false) => 'S',
        (false, false, true) => 'n',
        (false, false, false) => 'N',
    };
    let mut op = String::new();
    push_char(&mut op, c);
    op
}

// ---------------------------------------------------------------------------
// Escaped strings read back.
// ---------------------------------------------------------------------------
/// Characters that an escaped string gives back unchanged: all but
/// backspace and form feed, which the writer escapes as `\b` and `\f` and
/// the lexer reads back as `b` and `f`.
pub open spec fn round_trips(s: Seq<char>) -> bool {
    forall|i: int| 0 <= i < s.len() ==> #[trigger] s[i] != '\x08' && s[i] != '\x0c'
}

/// Reading one escaped character back.
proof fn lemma_read_escaped_char(x: Seq<char>, q: int, d: int, c: char)
    requires
        0 <= q,
        d >= 1,
        c != '\x08' && c != '\x0c',
        q + ps_char_escape(c).len() <= x.len(),
        x.subrange(q, q + ps_char_escape(c).len()) == ps_char_escape(c),
    ensures
        ({
            let n = q + ps_char_escape(c).len();
            string_body(x, q, d) == (seq![c] + string_body(x, n, d).0, string_body(x, n, d).1)
        }),
{
    let e = ps_char_escape(c);
    assert forall|k: int| 0 <= k < e.len() implies x[q + k] == #[trigger] e[k] by {
        assert(x.subrange(q, q + e.len())[k] == x[q + k]);
    }
    if c == '\\' || c == '(' || c == ')' || c == '\n' || c == '\r' || c == '\t' {
        assert(x[q] == '\\');
        assert(escape_char(x[q + 1]) == c);
    } else if (c as u32) < 0x20 {
        let code = c as u32 as int;
        assert(x[q] == '\\');
        assert(x[q + 1] == '0');
        assert(x[q + 2] == ((code / 8) % 8 + 48) as char);
        assert(x[q + 3] == (code % 8 + 48) as char);
        assert(octal_end(x, q + 4, 0) == q + 4);
        assert(octal_end(x, q + 3, 1) == q + 4);
        assert(octal_end(x, q + 2, 2) == q + 4);
        let digits = x.subrange(q + 1, q + 4);
        assert(digits.drop_last().drop_last().drop_last() =~= Seq::<char>::empty());
        assert(digits.drop_last().drop_last() =~= seq!['0']);
        assert(octal_value(seq!['0']) == 0) by {
            assert(seq!['0'].drop_last() =~= Seq::<char>::empty());
            assert(octal_value(Seq::<char>::empty()) == 0);
        }
        assert(octal_value(digits.drop_last().drop_last()) == 0);
        assert(octal_value(digits.drop_last()) == (code / 8) % 8);
        assert(octal_value(digits) == code);
        assert((code as char) == c);
    } else {
        assert(e[0] == c);
        assert(x[q] == c);
    }
}

/// Reading a whole escaped text back, from position `p` of `x`.
proof fn lemma_read_escaped(x: Seq<char>, p: int, d: int, s: Seq<char>)
    requires
        0 <= p,
        d >= 1,
        round_trips(s),
        p + ps_escape_spec(s).len() <= x.len(),
        x.subrange(p, p + ps_escape_spec(s).len()) == ps_escape_spec(s),
    ensures
        ({
            let n = p + ps_escape_spec(s).len();
            string_body(x, p, d) == (s + string_body(x, n, d).0, string_body(x, n, d).1)
        }),
    decreases s.len(),
{
    if s.len() == 0 {
        assert(s + string_body(x, p, d).0 =~= string_body(x, p, d).0);
    } else {
        let init = s.drop_last();
        let c = s.last();
        let ei = ps_escape_spec(init);
        let ec = ps_char_escape(c);
        assert(ps_escape_spec(s) == ei + ec);
        assert(round_trips(init)) by {
            assert forall|i: int| 0 <= i < init.len() implies #[trigger] init[i] != '\x08' && init[i] != '\x0c' by {
                assert(init[i] == s[i]);
            }
        }
        assert(s[s.len() - 1] == c);
        assert((ei + ec).subrange(0, ei.len() as int) =~= ei);
        assert((ei + ec).subrange(ei.len() as int, (ei + ec).len() as int) =~= ec);
        assert(x.subrange(p, p + ei.len()) =~= x.subrange(p, p + ps_escape_spec(s).len()).subrange(0, ei.len() as int));
        lemma_read_escaped(x, p, d, init);
        let m = p + ei.len();
        assert(x.subrange(m, m + ec.len()) =~= x.subrange(p, p + ps_escape_spec(s).len()).subrange(ei.len() as int, ps_escape_spec(s).len() as int));
        lemma_read_escaped_char(x, m, d, c);
        let n = m + ec.len();
        assert(init + (seq![c] + string_body(x, n, d).0) =~= s + string_body(x, n, d).0);
    }
}

/// A string that the writer escapes and puts in parentheses, `(` + escaped +
/// `)`, is read back by the lexer as one string token holding exactly that
/// string, for every string without backspace or form feed.
pub proof fn ps_string_round_trip(s: Seq<char>)
    requires
        round_trips(s),
    ensures
        ({
            let written = seq!['('] + ps_escape_spec(s) + seq![')'];
            lex_from(written, 0) == seq![(TokenType::String, s, 1int, 1int)]
        }),
{
    let e = ps_escape_spec(s);
    let x = seq!['('] + e + seq![')'];
    let end: int = 1 + e.len() as int;
    assert(x.subrange(1, end) =~= e);
    lemma_read_escaped(x, 1, 1, s);
    assert(x[end] == ')');
    assert(string_body(x, end + 1, 0) == (Seq::<char>::empty(), end + 1));
    assert(string_body(x, end, 1) == (Seq::<char>::empty(), end + 1));
    assert(s + Seq::<char>::empty() =~= s);
    assert(string_body(x, 1, 1) == (s, end + 1));
    assert(x[0] == '(');
    assert(skip_space(x, 0) == 0);
    assert(token_at(x, 0) == (Some((TokenType::String, s)), end + 1));
    assert(line_at(x, 0) == 1);
    assert(col_at(x, 0) == 1);
    assert(skip_space(x, end + 1) == end + 1);
    assert(lex_from(x, end + 1) == Seq::<TokenModel>::empty());
    assert(lex_from(x, 0) =~= seq![(TokenType::String, s, 1int, 1int)]);
}

// ---------------------------------------------------------------------------
// The sections of the program.
// ---------------------------------------------------------------------------
/// What the header of a written program says, the numbers of the page
/// already in text where they are not integers.
pub struct HeaderFields {
    pub title: String,
    pub creator: String,
    /// The page corners, rounded toward zero.
    pub bbox: (i64, i64, i64, i64),
    /// The page corners as written in the high-resolution bounding box.
    pub hires: String,
    pub color_mode: String,
    /// Each spot colour: its name and its CMYK values as written.
    pub spot_colors: Vec<(String, String)>,
    pub fonts: Vec<String>,
    pub version: String,
    pub layer_count: usize,
}

/// The `(name)` entries of the custom colours, separated by spaces.
pub open spec fn custom_color_names(spots: Seq<(String, String)>) -> Seq<char>
    decreases spots.len(),
{
    if spots.len() == 0 {
        seq![]
    } else if spots.len() == 1 {
        "("@ + ps_escape_spec(spots[0].0@) + ")"@
    } else {
        custom_color_names(spots.drop_last()) + " "@ + "("@ + ps_escape_spec(spots.last().0@) + ")"@
    }
}

/// One `%%CMYKCustomColor` line per spot colour.
pub open spec fn custom_color_lines(spots: Seq<(String, String)>) -> Seq<Seq<char>> {
    Seq::new(
        spots.len(),
        |i: int| "%%CMYKCustomColor: "@ + spots[i].1@ + " ("@ + ps_escape_spec(spots[i].0@) + ")"@,
    )
}

/// The names of the fonts as the `%%DocumentFonts` line lists them.
pub open spec fn font_names(fonts: Seq<String>) -> Seq<Seq<char>> {
    Seq::new(fonts.len(), |i: int| font_comment_name_spec(fonts[i]@))
}

/// The spot-colour section of the header: the `%%DocumentCustomColors`
/// line, then a `%%CMYKCustomColor` line per colour; nothing without spot
/// colours.
pub open spec fn spot_section(spots: Seq<(String, String)>) -> Seq<Seq<char>> {
    if spots.len() > 0 {
        seq!["%%DocumentCustomColors: "@ + custom_color_names(spots)] + custom_color_lines(spots)
    } else {
        Seq::<Seq<char>>::empty()
    }
}

/// The `%%DocumentFonts` line; nothing without fonts.
pub open spec fn font_section(fonts: Seq<String>) -> Seq<Seq<char>> {
    if fonts.len() > 0 {
        seq!["%%DocumentFonts: "@ + join_spec(font_names(fonts), " "@)]
    } else {
        Seq::<Seq<char>>::empty()
    }
}

/// The `%%BoundingBox` line.
pub open spec fn bbox_line_spec(b: (i64, i64, i64, i64)) -> Seq<char> {
    "%%BoundingBox: "@ + signed_decimal_spec(b.0 as int) + " "@ + signed_decimal_spec(b.1 as int) + " "@
        + signed_decimal_spec(b.2 as int) + " "@ + signed_decimal_spec(b.3 as int)
}

/// The header comments of a program written from scratch.
pub open spec fn header_spec(h: HeaderFields) -> Seq<Seq<char>> {
    let cmyk = h.color_mode@ == "CMYK"@;
    let version = if h.version@.len() == 0 {
        "14.0"@
    } else {
        h.version@
    };
    seq!["%!PS-Adobe-3.0"@] + (if h.title@.len() > 0 {
        seq!["%%Title: ("@ + ps_escape_spec(h.title@) + ")"@]
    } else {
        Seq::<Seq<char>>::empty()
    }) + seq![
        "%%Creator: "@ + (if h.creator@.len() == 0 {
            "ai-exporter"@
        } else {
            h.creator@
        }),
        bbox_line_spec(h.bbox),
        "%%HiResBoundingBox: "@ + h.hires@,
        if cmyk {
            "%%DocumentProcessColors: Cyan Magenta Yellow Black"@
        } else {
            "%%DocumentProcessColors: Red Green Blue"@
        },
    ] + spot_section(h.spot_colors@) + font_section(h.fonts@) + seq![
        "%AI5_FileFormat "@ + extract_version_num_spec(version),
        if cmyk {
            "%AI9_ColorModel: 2"@
        } else {
            "%AI9_ColorModel: 1"@
        },
        "%AI5_NumLayers: "@ + decimal_spec(h.layer_count as nat),
        "%%EndComments"@,
    ]
}

fn push_line(lines: &mut Vec<String>, line: String)
    ensures
        string_views(final(lines)@) == string_views(old(lines)@).push(line@),
{
    let ghost before = lines@;
    lines.push(line);
    proof {
        assert(string_views(lines@) =~= string_views(before).push(line@));
    }
}

fn push_lines(lines: &mut Vec<String>, more: Vec<String>)
    ensures
        string_views(final(lines)@) == string_views(old(lines)@) + string_views(more@),
{
    let mut i: usize = 0;
    while i < more.len()
        invariant
            i <= more@.len(),
            string_views(lines@) == string_views(old(lines)@) + string_views(more@).take(i as int),
        decreases more.len() - i,
    {
        push_line(lines, more[i].clone());
        proof {
            assert(string_views(more@).take(i + 1) =~= string_views(more@).take(i as int).push(more@[i as int]@));
        }
        i += 1;
    }
    proof {
        assert(string_views(more@).take(more@.len() as int) =~= string_views(more@));
    }
}

fn push_chars_vec(s: &mut String, v: &Vec<char>)
    ensures
        final(s)@ == old(s)@ + v@,
{
    let mut i: usize = 0;
    while i < v.len()
        invariant
            i <= v@.len(),
            s@ == old(s)@ + v@.take(i as int),
        decreases v.len() - i,
    {
        push_char(s, v[i]);
        assert(v@.take(i + 1) =~= v@.take(i as int).push(v@[i as int]));
        i += 1;
    }
    assert(v@.take(v@.len() as int) =~= v@);
}

fn bbox_line(b: (i64, i64, i64, i64)) -> (r: String)
    ensures
        r@ == bbox_line_spec(b),
{
    proof {
        reveal_strlit("%%BoundingBox: ");
        reveal_strlit(" ");
    }
    let mut s = "%%BoundingBox: ".to_owned();
    push_signed_decimal(&mut s, b.0);
    push_str(&mut s, " ");
    push_signed_decimal(&mut s, b.1);
    push_str(&mut s, " ");
    push_signed_decimal(&mut s, b.2);
    push_str(&mut s, " ");
    push_signed_decimal(&mut s, b.3);
    assert(s@ =~= bbox_line_spec(b));
    s
}

fn spot_lines(spots: &Vec<(String, String)>) -> (r: Vec<String>)
    ensures
        string_views(r@) == spot_section(spots@),
{
    let mut r: Vec<String> = Vec::new();
    if spots.len() == 0 {
        assert(string_views(r@) =~= spot_section(spots@));
        return r;
    }
    proof {
        reveal_strlit("%%DocumentCustomColors: ");
    }
    let mut names = "%%DocumentCustomColors: ".to_owned();
    let ghost base = names@;
    let mut i: usize = 0;
    while i < spots.len()
        invariant
            i <= spots@.len(),
            names@ == base + custom_color_names(spots@.take(i as int)),
        decreases spots.len() - i,
    {
        proof {
            reveal_strlit("(");
            reveal_strlit(")");
            reveal_strlit(" ");
            let t = spots@.take(i + 1);
            assert(t.drop_last() =~= spots@.take(i as int));
            assert(t.last() == spots@[i as int]);
        }
        if i > 0 {
            push_str(&mut names, " ");
        }
        push_str(&mut names, "(");
        push_str(&mut names, ps_escape(spots[i].0.as_str()).as_str());
        push_str(&mut names, ")");
        proof {
            let t = spots@.take(i + 1);
            if i == 0 {
                assert(t[0] == spots@[0]);
            }
            assert(names@ =~= base + custom_color_names(t));
        }
        i += 1;
    }
    proof {
        assert(spots@.take(spots@.len() as int) =~= spots@);
    }
    push_line(&mut r, names);
    let ghost mid = string_views(r@);
    let mut j: usize = 0;
    while j < spots.len()
        invariant
            j <= spots@.len(),
            string_views(r@) == mid + custom_color_lines(spots@).take(j as int),
        decreases spots.len() - j,
    {
        proof {
            reveal_strlit("%%CMYKCustomColor: ");
            reveal_strlit(" (");
            reveal_strlit(")");
        }
        let mut line = "%%CMYKCustomColor: ".to_owned();
        push_str(&mut line, spots[j].1.as_str());
        push_str(&mut line, " (");
        push_str(&mut line, ps_escape(spots[j].0.as_str()).as_str());
        push_str(&mut line, ")");
        push_line(&mut r, line);
        proof {
            assert(custom_color_lines(spots@).take(j + 1) =~= custom_color_lines(spots@).take(j as int).push(
                line@,
            ));
        }
        j += 1;
    }
    proof {
        assert(custom_color_lines(spots@).take(spots@.len() as int) =~= custom_color_lines(spots@));
        assert(string_views(r@) =~= spot_section(spots@));
    }
    r
}

fn font_lines(fonts: &Vec<String>) -> (r: Vec<String>)
    ensures
        string_views(r@) == font_section(fonts@),
{
    let mut r: Vec<String> = Vec::new();
    if fonts.len() == 0 {
        assert(string_views(r@) =~= font_section(fonts@));
        return r;
    }
    let mut parts: Vec<Vec<char>> = Vec::new();
    let mut i: usize = 0;
    while i < fonts.len()
        invariant
            i <= fonts@.len(),
            views(parts@) == font_names(fonts@).take(i as int),
        decreases fonts.len() - i,
    {
        let f = font_comment_name(fonts[i].as_str());
        let ghost before = views(parts@);
        parts.push(chars_of(f.as_str()));
        proof {
            assert(views(parts@) =~= before.push(f@));
            assert(font_names(fonts@).take(i + 1) =~= font_names(fonts@).take(i as int).push(f@));
        }
        i += 1;
    }
    proof {
        assert(font_names(fonts@).take(fonts@.len() as int) =~= font_names(fonts@));
        reveal_strlit(" ");
        reveal_strlit("%%DocumentFonts: ");
    }
    let sp = chars_of(" ");
    let joined = join(&parts, &sp);
    let mut line = "%%DocumentFonts: ".to_owned();
    push_chars_vec(&mut line, &joined);
    push_line(&mut r, line);
    proof {
        assert(string_views(r@) =~= font_section(fonts@));
    }
    r
}

/// The header comments of a program written from scratch (see
/// [`header_spec`]).
pub fn header_lines(h: &HeaderFields) -> (r: Vec<String>)
    ensures
        string_views(r@) == header_spec(*h),
{
    proof {
        reveal_strlit("CMYK");
        reveal_strlit("14.0");
        reveal_strlit("%%Title: (");
        reveal_strlit(")");
        reveal_strlit("%%Creator: ");
        reveal_strlit("ai-exporter");
        reveal_strlit("%%HiResBoundingBox: ");
        reveal_strlit("%AI5_FileFormat ");
        reveal_strlit("%AI5_NumLayers: ");
    }
    let ghost cmyk_s = h.color_mode@ == "CMYK"@;
    let ghost version_s = if h.version@.len() == 0 {
        "14.0"@
    } else {
        h.version@
    };
    let ghost title_part = if h.title@.len() > 0 {
        seq!["%%Title: ("@ + ps_escape_spec(h.title@) + ")"@]
    } else {
        Seq::<Seq<char>>::empty()
    };
    let ghost mid_part = seq![
        "%%Creator: "@ + (if h.creator@.len() == 0 {
            "ai-exporter"@
        } else {
            h.creator@
        }),
        bbox_line_spec(h.bbox),
        "%%HiResBoundingBox: "@ + h.hires@,
        if cmyk_s {
            "%%DocumentProcessColors: Cyan Magenta Yellow Black"@
        } else {
            "%%DocumentProcessColors: Red Green Blue"@
        },
    ];
    let ghost end_part = seq![
        "%AI5_FileFormat "@ + extract_version_num_spec(version_s),
        if cmyk_s {
            "%AI9_ColorModel: 2"@
        } else {
            "%AI9_ColorModel: 1"@
        },
        "%AI5_NumLayers: "@ + decimal_spec(h.layer_count as nat),
        "%%EndComments"@,
    ];
    let mut r: Vec<String> = Vec::new();
    push_line(&mut r, "%!PS-Adobe-3.0".to_owned());
    if !h.title.as_str().is_empty() {
        let mut t = "%%Title: (".to_owned();
        push_str(&mut t, ps_escape(h.title.as_str()).as_str());
        push_str(&mut t, ")");
        push_line(&mut r, t);
    }
    let ghost s1 = string_views(r@);
    assert(s1 =~= seq!["%!PS-Adobe-3.0"@] + title_part);
    let mut c = "%%Creator: ".to_owned();
    if h.creator.as_str().is_empty() {
        push_str(&mut c, "ai-exporter");
    } else {
        push_str(&mut c, h.creator.as_str());
    }
    push_line(&mut r, c);
    push_line(&mut r, bbox_line(h.bbox));
    let mut hr = "%%HiResBoundingBox: ".to_owned();
    push_str(&mut hr, h.hires.as_str());
    push_line(&mut r, hr);
    let cmyk = str_equals(h.color_mode.as_str(), "CMYK");
    if cmyk {
        push_line(&mut r, "%%DocumentProcessColors: Cyan Magenta Yellow Black".to_owned());
    } else {
        push_line(&mut r, "%%DocumentProcessColors: Red Green Blue".to_owned());
    }
    let ghost s2 = string_views(r@);
    assert(s2 =~= s1 + mid_part);
    push_lines(&mut r, spot_lines(&h.spot_colors));
    push_lines(&mut r, font_lines(&h.fonts));
    let ghost s3 = string_views(r@);
    assert(s3 =~= s1 + mid_part + spot_section(h.spot_colors@) + font_section(h.fonts@));
    let version = if h.version.as_str().is_empty() {
        "14.0".to_owned()
    } else {
        h.version.clone()
    };
    let mut v = "%AI5_FileFormat ".to_owned();
    push_str(&mut v, extract_version_num(version.as_str()).as_str());
    push_line(&mut r, v);
    if cmyk {
        push_line(&mut r, "%AI9_ColorModel: 2".to_owned());
    } else {
        push_line(&mut r, "%AI9_ColorModel: 1".to_owned());
    }
    let mut nl = "%AI5_NumLayers: ".to_owned();
    push_decimal(&mut nl, h.layer_count as u64);
    push_line(&mut r, nl);
    push_line(&mut r, "%%EndComments".to_owned());
    assert(string_views(r@) =~= s3 + end_part);
    proof {
        assert(string_views(r@) =~= header_spec(*h));
    }
    r
}

/// The two lines that open a layer: its flags and colour (`Lb`), then its
/// name (`Ln`).
pub open spec fn layer_open_spec(visible: bool, locked: bool, printable: bool, color: (u8, u8, u8), name: Seq<char>) -> (
    Seq<char>,
    Seq<char>,
) {
    let flag = |b: bool| if b {
        "1"@
    } else {
        "0"@
    };
    (
        flag(visible) + " 1 "@ + flag(!locked) + " "@ + flag(printable) + " 0 0 1 0 "@ + decimal_spec(
            color.0 as nat,
        ) + " "@ + decimal_spec(color.1 as nat) + " "@ + decimal_spec(color.2 as nat) + " 0 50 0 Lb"@,
        "("@ + ps_escape_spec(name) + ") Ln"@,
    )
}

pub fn layer_open_lines(visible: bool, locked: bool, printable: bool, color: (u8, u8, u8), name: &str) -> (r: (
    String,
    String,
))
    ensures
        (r.0@, r.1@) == layer_open_spec(visible, locked, printable, color, name@),
{
    proof {
        reveal_strlit("1");
        reveal_strlit("0");
        reveal_strlit(" 1 ");
        reveal_strlit(" ");
        reveal_strlit(" 0 0 1 0 ");
        reveal_strlit(" 0 50 0 Lb");
        reveal_strlit("(");
        reveal_strlit(") Ln");
    }
    let mut a = String::new();
    push_str(&mut a, if visible { "1" } else { "0" });
    push_str(&mut a, " 1 ");
    push_str(&mut a, if locked { "0" } else { "1" });
    push_str(&mut a, " ");
    push_str(&mut a, if printable { "1" } else { "0" });
    push_str(&mut a, " 0 0 1 0 ");
    push_decimal(&mut a, color.0 as u64);
    push_str(&mut a, " ");
    push_decimal(&mut a, color.1 as u64);
    push_str(&mut a, " ");
    push_decimal(&mut a, color.2 as u64);
    push_str(&mut a, " 0 50 0 Lb");
    let mut b = "(".to_owned();
    push_str(&mut b, ps_escape(name).as_str());
    push_str(&mut b, ") Ln");
    proof {
        let e = layer_open_spec(visible, locked, printable, color, name@);
        assert(a@ =~= e.0);
        assert(b@ =~= e.1);
    }
    (a, b)
}

/// The lines that end a program: the trailer kept from the original file
/// (checked by [`validate_ps_section`] unless trusted), else the standard
/// page trailer.
pub open spec fn trailer_spec(trailer: Option<Seq<char>>, trusted: bool) -> Seq<Seq<char>> {
    match trailer {
        Some(t) => if trusted {
            seq![t]
        } else {
            seq![validate_ps_section_spec(t)]
        },
        None => seq![
            "%%PageTrailer"@,
            "gsave annotatepage grestore showpage"@,
            "%%Trailer"@,
            "%%EOF"@,
        ],
    }
}

pub fn trailer_lines(trailer: Option<&str>, trusted: bool) -> (r: Vec<String>)
    ensures
        string_views(r@) == trailer_spec(
            match trailer {
                Some(t) => Some(t@),
                None => None,
            },
            trusted,
        ),
{
    let mut r: Vec<String> = Vec::new();
    match trailer {
        Some(t) => {
            if trusted {
                push_line(&mut r, t.to_owned());
            } else {
                push_line(&mut r, validate_ps_section(t));
            }
        },
        None => {
            push_line(&mut r, "%%PageTrailer".to_owned());
            push_line(&mut r, "gsave annotatepage grestore showpage".to_owned());
            push_line(&mut r, "%%Trailer".to_owned());
            push_line(&mut r, "%%EOF".to_owned());
        },
    }
    proof {
        assert(string_views(r@) =~= trailer_spec(
            match trailer {
                Some(t) => Some(t@),
                None => None,
            },
            trusted,
        ));
    }
    r
}

/// The prolog kept from the original file, checked by
/// [`validate_ps_section`] unless trusted, without trailing whitespace.
pub open spec fn kept_prolog_spec(prolog: Seq<char>, trusted: bool) -> Seq<char> {
    trim_end_spec(
        if trusted {
            prolog
        } else {
            validate_ps_section_spec(prolog)
        },
    )
}

pub fn kept_prolog(prolog: &str, trusted: bool) -> (r: String)
    ensures
        r@ == kept_prolog_spec(prolog@, trusted),
{
    let text = if trusted {
        prolog.to_owned()
    } else {
        validate_ps_section(prolog)
    };
    string_of(&trim_end(&chars_of(text.as_str())))
}

/// How a program is written: `lossless` where the layers are copied as the
/// sidecar holds them (a trusted sidecar with at least one layer), and
/// `trusted` where the sidecar's prolog and trailer are taken as they are.
pub struct WritePlan {
    pub lossless: bool,
    pub trusted: bool,
}

/// The plan for a document with a sidecar (`Some`, with whether it is
/// trusted and how many layer programs it holds) or without one.
pub fn write_plan(sidecar: Option<(bool, usize)>) -> (r: WritePlan)
    ensures
        r.lossless == (sidecar matches Some((trusted, layers)) && trusted && layers > 0),
        r.trusted == (sidecar matches Some((trusted, _)) && trusted),
{
    match sidecar {
        Some((trusted, layers)) => WritePlan { lossless: trusted && layers > 0, trusted },
        None => WritePlan { lossless: false, trusted: false },
    }
}

/// An untrusted sidecar reaches the program only through its blank and
/// comment lines: what is kept of its prolog and trailer is such lines
/// joined by line breaks, and two sidecars that agree on those lines give
/// the same program text there, whatever else they hold.
pub proof fn untrusted_sidecar_is_inert(p: Seq<char>, q: Seq<char>)
    ensures
        forall|i: int|
            0 <= i < safe_lines(lines_spec(p), lines_spec(p).len() as int).len() ==> safe_ps_line(
                #[trigger] safe_lines(lines_spec(p), lines_spec(p).len() as int)[i],
            ),
        kept_prolog_spec(p, false) == trim_end_spec(
            join_spec(safe_lines(lines_spec(p), lines_spec(p).len() as int), seq!['\n']),
        ),
        trailer_spec(Some(p), false) == seq![
            join_spec(safe_lines(lines_spec(p), lines_spec(p).len() as int), seq!['\n']),
        ],
        safe_lines(lines_spec(p), lines_spec(p).len() as int) == safe_lines(
            lines_spec(q),
            lines_spec(q).len() as int,
        ) ==> kept_prolog_spec(p, false) == kept_prolog_spec(q, false) && trailer_spec(Some(p), false)
            == trailer_spec(Some(q), false),
{
    lemma_safe_lines(lines_spec(p), lines_spec(p).len() as int);
}

/// The line ending of a written program: `"\r\n"` where the layers are
/// copied as they were and the kept prolog uses it, else `"\n"`.
pub open spec fn line_ending_spec(lossless: bool, prolog: Option<Seq<char>>) -> Seq<char> {
    match prolog {
        Some(p) => if lossless && find_spec(p, "\r\n"@) is Some {
            "\r\n"@
        } else {
            "\n"@
        },
        None => "\n"@,
    }
}

/// The program text: every line followed by the line ending.
pub open spec fn program_text_spec(lines: Seq<Seq<char>>, ending: Seq<char>) -> Seq<char> {
    join_spec(lines, ending) + ending
}

pub fn program_text(lines: &Vec<String>, lossless: bool, prolog: Option<&str>) -> (r: String)
    ensures
        r@ == program_text_spec(
            string_views(lines@),
            line_ending_spec(
                lossless,
                match prolog {
                    Some(p) => Some(p@),
                    None => None,
                },
            ),
        ),
{
    proof {
        reveal_strlit("\r\n");
        reveal_strlit("\n");
    }
    let crlf = match prolog {
        Some(p) => lossless && find(&chars_of(p), &chars_of("\r\n")).is_some(),
        None => false,
    };
    let ending = if crlf {
        chars_of("\r\n")
    } else {
        chars_of("\n")
    };
    let mut parts: Vec<Vec<char>> = Vec::new();
    let mut i: usize = 0;
    while i < lines.len()
        invariant
            i <= lines@.len(),
            views(parts@) == string_views(lines@).take(i as int),
        decreases lines.len() - i,
    {
        let ghost before = views(parts@);
        let c = chars_of(lines[i].as_str());
        parts.push(c);
        proof {
            assert(views(parts@) =~= before.push(c@));
            assert(string_views(lines@).take(i + 1) =~= string_views(lines@).take(i as int).push(lines@[i as int]@));
        }
        i += 1;
    }
    proof {
        assert(string_views(lines@).take(lines@.len() as int) =~= string_views(lines@));
    }
    let joined = join(&parts, &ending);
    let mut out = string_of(&joined);
    push_chars_vec(&mut out, &ending);
    out
}

} // verus!
