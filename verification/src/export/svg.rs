//! Text helpers of the SVG exporter: identifiers, font names and XML
//! escaping.
use vstd::prelude::*;

use crate::importer::svg::{linecap_spec, linejoin_spec};
use crate::text::{chars_of, occurs_at, push_char, push_chars, string_of};

verus! {

/// Whether `c` is alphabetic or numeric in the Unicode sense, as
/// `char::is_alphanumeric` reports it.
pub uninterp spec fn unicode_alphanumeric(c: char) -> bool;

/// The ASCII letters and digits.
pub open spec fn ascii_alphanumeric(c: char) -> bool {
    ('a' <= c && c <= 'z') || ('A' <= c && c <= 'Z') || ('0' <= c && c <= '9')
}

/// `char::is_alphanumeric`. Its result is named [`unicode_alphanumeric`];
/// on ASCII characters it is documented to accept exactly the letters and
/// digits.
#[verifier::external_body]
pub(crate) fn is_alphanumeric(c: char) -> (r: bool)
    ensures
        r == unicode_alphanumeric(c),
        (c as u32) < 128 ==> (r <==> ascii_alphanumeric(c)),
{
    c.is_alphanumeric()
}

/// A character that may stand in an element id as it is: an alphanumeric
/// character (the ASCII letters and digits among them), `-` or `_`.
pub open spec fn id_char(c: char) -> bool {
    ascii_alphanumeric(c) || unicode_alphanumeric(c) || c == '-' || c == '_'
}

/// `name` made usable as an element id: every other character becomes `-`;
/// an empty name becomes `unnamed`.
pub open spec fn sanitize_id_spec(name: Seq<char>) -> Seq<char> {
    if name.len() == 0 {
        "unnamed"@
    } else {
        name.map_values(|c: char| if id_char(c) { c } else { '-' })
    }
}

pub fn sanitize_id(name: &str) -> (r: String)
    ensures
        r@ == sanitize_id_spec(name@),
        r@.len() > 0,
        forall|i: int| 0 <= i < r@.len() ==> id_char(#[trigger] r@[i]),
{
    let chars = chars_of(name);
    let mut result = String::new();
    let mut i: usize = 0;
    while i < chars.len()
        invariant
            i <= chars@.len(),
            result@ == chars@.take(i as int).map_values(
                |c: char| if id_char(c) { c } else { '-' },
            ),
        decreases chars.len() - i,
    {
        let ch = chars[i];
        let ghost before = result@;
        if is_alphanumeric(ch) || ch == '-' || ch == '_' {
            push_char(&mut result, ch);
        } else {
            push_char(&mut result, '-');
        }
        proof {
            assert(result@ =~= chars@.take(i + 1).map_values(
                |c: char| if id_char(c) { c } else { '-' },
            ));
        }
        i += 1;
    }
    proof {
        assert(chars@.take(chars@.len() as int) =~= chars@);
    }
    if result.as_str().is_empty() {
        let unnamed = chars_of("unnamed");
        push_chars(&mut result, &unnamed);
        proof {
            reveal_strlit("unnamed");
            assert(result@ =~= "unnamed"@);
            assert forall|i: int| 0 <= i < result@.len() implies id_char(#[trigger] result@[i]) by {
                assert(ascii_alphanumeric(result@[i]));
            }
        }
    }
    result
}

/// Sanitizing an id changes nothing more: a sanitized id is its own
/// sanitization.
pub proof fn sanitize_id_idempotent(name: Seq<char>)
    ensures
        sanitize_id_spec(sanitize_id_spec(name)) == sanitize_id_spec(name),
{
    let once = sanitize_id_spec(name);
    if name.len() == 0 {
        reveal_strlit("unnamed");
        assert forall|i: int| 0 <= i < once.len() implies id_char(#[trigger] once[i]) by {
            assert(ascii_alphanumeric(once[i]));
            assert((once[i] as u32) < 128);
        }
    }
    assert(sanitize_id_spec(once) =~= once);
}

/// A printable ASCII character: ASCII and no control character.
pub open spec fn printable_ascii(c: char) -> bool {
    (c as u32) < 0x80 && (c as u32) >= 0x20 && c != '\x7f'
}

/// The printable ASCII characters of `s`, in order.
pub open spec fn printable_only(s: Seq<char>) -> Seq<char>
    decreases s.len(),
{
    if s.len() == 0 {
        s
    } else if printable_ascii(s.last()) {
        printable_only(s.drop_last()).push(s.last())
    } else {
        printable_only(s.drop_last())
    }
}

proof fn lemma_printable_only_len(s: Seq<char>)
    ensures
        printable_only(s).len() <= s.len(),
    decreases s.len(),
{
    if s.len() > 0 {
        lemma_printable_only_len(s.drop_last());
    }
}

/// A font name safe to put in an attribute: its first 128 printable ASCII
/// characters, or `Helvetica` where there are none.
pub open spec fn safe_font_name_spec(font: Seq<char>) -> Seq<char> {
    let p = printable_only(font);
    if p.len() == 0 {
        "Helvetica"@
    } else if p.len() > 128 {
        p.take(128)
    } else {
        p
    }
}

pub fn safe_font_name(font: &str) -> (r: String)
    ensures
        r@ == safe_font_name_spec(font@),
{
    let chars = chars_of(font);
    let mut cleaned: Vec<char> = Vec::new();
    let mut i: usize = 0;
    while i < chars.len()
        invariant
            i <= chars@.len(),
            cleaned@ == (if printable_only(chars@.take(i as int)).len() > 128 {
                printable_only(chars@.take(i as int)).take(128)
            } else {
                printable_only(chars@.take(i as int))
            }),
        decreases chars.len() - i,
    {
        let c = chars[i];
        let ghost p = printable_only(chars@.take(i as int));
        proof {
            assert(chars@.take(i + 1).drop_last() =~= chars@.take(i as int));
            assert(chars@.take(i + 1).last() == c);
        }
        if (c as u32) < 0x80 && (c as u32) >= 0x20 && c != '\x7f' {
            if cleaned.len() < 128 {
                cleaned.push(c);
            }
            proof {
                let q = printable_only(chars@.take(i + 1));
                assert(q == p.push(c));
                if p.len() >= 128 {
                    assert(q.take(128) =~= p.take(128));
                    if p.len() == 128 {
                        assert(p.take(128) =~= p);
                    }
                } else {
                    assert(cleaned@ =~= q);
                }
            }
        }
        i += 1;
    }
    proof {
        assert(chars@.take(chars@.len() as int) =~= chars@);
    }
    if cleaned.len() == 0 {
        let helvetica = chars_of("Helvetica");
        string_of(&helvetica)
    } else {
        string_of(&cleaned)
    }
}

/// What one character becomes inside an XML attribute value.
pub open spec fn attr_char_escape(c: char) -> Seq<char> {
    if c == '&' {
        "&amp;"@
    } else if c == '"' {
        "&quot;"@
    } else if c == '<' {
        "&lt;"@
    } else if c == '>' {
        "&gt;"@
    } else {
        seq![c]
    }
}

/// What one character becomes inside XML text content.
pub open spec fn text_char_escape(c: char) -> Seq<char> {
    if c == '&' {
        "&amp;"@
    } else if c == '<' {
        "&lt;"@
    } else if c == '>' {
        "&gt;"@
    } else {
        seq![c]
    }
}

/// `s` with every character escaped for an attribute value (`attr` true)
/// or for text content.
pub open spec fn xml_escape_spec(s: Seq<char>, attr: bool) -> Seq<char>
    decreases s.len(),
{
    if s.len() == 0 {
        s
    } else {
        xml_escape_spec(s.drop_last(), attr) + if attr {
            attr_char_escape(s.last())
        } else {
            text_char_escape(s.last())
        }
    }
}

/// Escaped text holds no markup: no `<`, no `>` and, in an attribute value,
/// no `"`.
pub proof fn lemma_escape_no_markup(s: Seq<char>, attr: bool)
    ensures
        forall|i: int|
            0 <= i < xml_escape_spec(s, attr).len() ==> {
                let c = #[trigger] xml_escape_spec(s, attr)[i];
                c != '<' && c != '>' && (attr ==> c != '"')
            },
    decreases s.len(),
{
    reveal_strlit("&amp;");
    reveal_strlit("&quot;");
    reveal_strlit("&lt;");
    reveal_strlit("&gt;");
    if s.len() > 0 {
        lemma_escape_no_markup(s.drop_last(), attr);
        let prev = xml_escape_spec(s.drop_last(), attr);
        let tail = if attr {
            attr_char_escape(s.last())
        } else {
            text_char_escape(s.last())
        };
        assert forall|i: int| 0 <= i < (prev + tail).len() implies {
            let c = #[trigger] (prev + tail)[i];
            c != '<' && c != '>' && (attr ==> c != '"')
        } by {
            if i >= prev.len() {
                let k = i - prev.len();
                assert((prev + tail)[i] == tail[k]);
            } else {
                assert((prev + tail)[i] == prev[i]);
            }
        }
    }
}

/// What one character becomes, in an attribute value (`attr`) or in text.
pub open spec fn char_escape(c: char, attr: bool) -> Seq<char> {
    if attr {
        attr_char_escape(c)
    } else {
        text_char_escape(c)
    }
}

/// XML unescaping of the entities that escaping writes: `&amp;`, `&quot;`,
/// `&lt;` and `&gt;` each stand for their character, read from the front;
/// every other character stands for itself.
pub open spec fn xml_unescape_spec(t: Seq<char>) -> Seq<char>
    decreases t.len(),
{
    if t.len() == 0 {
        t
    } else if "&amp;"@.is_prefix_of(t) {
        proof {
            reveal_strlit("&amp;");
        }
        seq!['&'] + xml_unescape_spec(t.skip(5))
    } else if "&quot;"@.is_prefix_of(t) {
        proof {
            reveal_strlit("&quot;");
        }
        seq!['"'] + xml_unescape_spec(t.skip(6))
    } else if "&lt;"@.is_prefix_of(t) {
        proof {
            reveal_strlit("&lt;");
        }
        seq!['<'] + xml_unescape_spec(t.skip(4))
    } else if "&gt;"@.is_prefix_of(t) {
        proof {
            reveal_strlit("&gt;");
        }
        seq!['>'] + xml_unescape_spec(t.skip(4))
    } else {
        seq![t[0]] + xml_unescape_spec(t.skip(1))
    }
}

/// One of the four entities that escaping writes stands in `t` at `i`.
pub open spec fn entity_at(t: Seq<char>, i: int) -> bool {
    ||| occurs_at(t, "&amp;"@, i)
    ||| occurs_at(t, "&quot;"@, i)
    ||| occurs_at(t, "&lt;"@, i)
    ||| occurs_at(t, "&gt;"@, i)
}

proof fn lemma_escape_front(s: Seq<char>, attr: bool)
    requires
        s.len() > 0,
    ensures
        xml_escape_spec(s, attr) == char_escape(s[0], attr) + xml_escape_spec(s.skip(1), attr),
    decreases s.len(),
{
    if s.len() == 1 {
        assert(s.drop_last() =~= Seq::<char>::empty());
        assert(s.skip(1) =~= Seq::<char>::empty());
        assert(xml_escape_spec(s.drop_last(), attr) =~= Seq::<char>::empty());
        assert(xml_escape_spec(s, attr) =~= char_escape(s[0], attr));
        assert(char_escape(s[0], attr) + Seq::<char>::empty() =~= char_escape(s[0], attr));
    } else {
        lemma_escape_front(s.drop_last(), attr);
        assert(s.drop_last().skip(1) =~= s.skip(1).drop_last());
        assert(s.skip(1).last() == s.last());
        assert(s.drop_last()[0] == s[0]);
        let a = char_escape(s[0], attr);
        let m = xml_escape_spec(s.skip(1).drop_last(), attr);
        let z = char_escape(s.last(), attr);
        assert(a + m + z =~= a + (m + z));
    }
}

proof fn lemma_unescape_char(c: char, rest: Seq<char>, attr: bool)
    ensures
        xml_unescape_spec(char_escape(c, attr) + rest) == seq![c] + xml_unescape_spec(rest),
{
    reveal_strlit("&amp;");
    reveal_strlit("&quot;");
    reveal_strlit("&lt;");
    reveal_strlit("&gt;");
    let e = char_escape(c, attr);
    let t = e + rest;
    assert(t.skip(e.len() as int) =~= rest);
    assert(t[0] == e[0]);
    if e.len() > 1 {
        assert(t[1] == e[1]);
        assert(t.take(e.len() as int) =~= e);
        assert(e.is_prefix_of(t));
        if c == '&' {
            assert(xml_unescape_spec(t) == seq!['&'] + xml_unescape_spec(t.skip(5)));
        } else if c == '"' {
            assert(!"&amp;"@.is_prefix_of(t));
            assert(xml_unescape_spec(t) == seq!['"'] + xml_unescape_spec(t.skip(6)));
        } else if c == '<' {
            assert(!"&amp;"@.is_prefix_of(t));
            assert(!"&quot;"@.is_prefix_of(t));
            assert(xml_unescape_spec(t) == seq!['<'] + xml_unescape_spec(t.skip(4)));
        } else {
            assert(!"&amp;"@.is_prefix_of(t));
            assert(!"&quot;"@.is_prefix_of(t));
            assert(!"&lt;"@.is_prefix_of(t));
            assert(xml_unescape_spec(t) == seq!['>'] + xml_unescape_spec(t.skip(4)));
        }
    } else {
        assert(e == seq![c]);
        assert(t[0] != '&');
        if "&amp;"@.is_prefix_of(t) {
            assert(t.subrange(0, 5)[0] == t[0]);
        }
        if "&quot;"@.is_prefix_of(t) {
            assert(t.subrange(0, 6)[0] == t[0]);
        }
        if "&lt;"@.is_prefix_of(t) {
            assert(t.subrange(0, 4)[0] == t[0]);
        }
        if "&gt;"@.is_prefix_of(t) {
            assert(t.subrange(0, 4)[0] == t[0]);
        }
    }
}

proof fn lemma_entity_shift(p: Seq<char>, rest: Seq<char>, j: int)
    requires
        entity_at(rest, j),
    ensures
        entity_at(p + rest, j + p.len()),
{
    let t = p + rest;
    let k = p.len() as int;
    assert forall|e: Seq<char>| #[trigger] occurs_at(rest, e, j) implies occurs_at(t, e, j + k) by {
        assert(t.subrange(j + k, j + k + e.len()) =~= rest.subrange(j, j + e.len()));
    }
}

/// Escaping can be undone: unescaping the escaped text gives back `s`, and
/// every `&` of the escaped text begins one of the four entities.
pub proof fn escape_round_trip(s: Seq<char>, attr: bool)
    ensures
        xml_unescape_spec(xml_escape_spec(s, attr)) == s,
        forall|i: int|
            0 <= i < xml_escape_spec(s, attr).len() && #[trigger] xml_escape_spec(s, attr)[i] == '&'
                ==> entity_at(xml_escape_spec(s, attr), i),
    decreases s.len(),
{
    reveal_strlit("&amp;");
    reveal_strlit("&quot;");
    reveal_strlit("&lt;");
    reveal_strlit("&gt;");
    if s.len() == 0 {
        assert(xml_escape_spec(s, attr) =~= Seq::<char>::empty());
    } else {
        let rest = xml_escape_spec(s.skip(1), attr);
        let e = char_escape(s[0], attr);
        lemma_escape_front(s, attr);
        lemma_unescape_char(s[0], rest, attr);
        escape_round_trip(s.skip(1), attr);
        assert(seq![s[0]] + s.skip(1) =~= s);
        let t = e + rest;
        assert forall|i: int| 0 <= i < t.len() && #[trigger] t[i] == '&' implies entity_at(t, i) by {
            if i < e.len() {
                assert(t[i] == e[i]);
                assert(i == 0);
                assert(t.subrange(0, e.len() as int) =~= e);
            } else {
                assert(t[i] == rest[i - e.len()]);
                lemma_entity_shift(e, rest, i - e.len());
            }
        }
    }
}

fn xml_escape(s: &str, attr: bool) -> (r: String)
    ensures
        r@ == xml_escape_spec(s@, attr),
{
    let chars = chars_of(s);
    let mut escaped = String::new();
    let amp = chars_of("&amp;");
    let quot = chars_of("&quot;");
    let lt = chars_of("&lt;");
    let gt = chars_of("&gt;");
    let mut i: usize = 0;
    while i < chars.len()
        invariant
            i <= chars@.len(),
            amp@ == "&amp;"@,
            quot@ == "&quot;"@,
            lt@ == "&lt;"@,
            gt@ == "&gt;"@,
            escaped@ == xml_escape_spec(chars@.take(i as int), attr),
        decreases chars.len() - i,
    {
        let ch = chars[i];
        if ch == '&' {
            push_chars(&mut escaped, &amp);
        } else if ch == '"' && attr {
            push_chars(&mut escaped, &quot);
        } else if ch == '<' {
            push_chars(&mut escaped, &lt);
        } else if ch == '>' {
            push_chars(&mut escaped, &gt);
        } else {
            push_char(&mut escaped, ch);
        }
        proof {
            let t = chars@.take(i + 1);
            assert(t.drop_last() =~= chars@.take(i as int));
            assert(t.last() == ch);
            assert(escaped@ =~= xml_escape_spec(t, attr));
        }
        i += 1;
    }
    proof {
        assert(chars@.take(chars@.len() as int) =~= chars@);
    }
    escaped
}

/// Escapes `s` for use inside a double-quoted XML attribute value.
pub fn attr_escape(s: &str) -> (r: String)
    ensures
        r@ == xml_escape_spec(s@, true),
        forall|i: int| 0 <= i < r@.len() ==> #[trigger] r@[i] != '<' && r@[i] != '>' && r@[i] != '"',
        forall|i: int| 0 <= i < r@.len() && #[trigger] r@[i] == '&' ==> entity_at(r@, i),
        xml_unescape_spec(r@) == s@,
{
    let r = xml_escape(s, true);
    proof {
        lemma_escape_no_markup(s@, true);
        escape_round_trip(s@, true);
    }
    r
}

/// Escapes `s` for use as XML text content.
pub fn text_content_escape(s: &str) -> (r: String)
    ensures
        r@ == xml_escape_spec(s@, false),
        forall|i: int| 0 <= i < r@.len() ==> #[trigger] r@[i] != '<' && r@[i] != '>',
        forall|i: int| 0 <= i < r@.len() && #[trigger] r@[i] == '&' ==> entity_at(r@, i),
        xml_unescape_spec(r@) == s@,
{
    let r = xml_escape(s, false);
    proof {
        lemma_escape_no_markup(s@, false);
        escape_round_trip(s@, false);
    }
    r
}

/// The `stroke-linecap` keyword of a line cap: butt, round or square.
pub open spec fn linecap_keyword_spec(cap: u8) -> Seq<char> {
    if cap == 0 {
        "butt"@
    } else if cap == 1 {
        "round"@
    } else {
        "square"@
    }
}

/// The `stroke-linejoin` keyword of a line join: miter, round or bevel.
pub open spec fn linejoin_keyword_spec(join: u8) -> Seq<char> {
    if join == 0 {
        "miter"@
    } else if join == 1 {
        "round"@
    } else {
        "bevel"@
    }
}

/// The keyword of a line cap (see [`linecap_keyword_spec`]); there are
/// three.
pub fn linecap_keyword(cap: u8) -> (r: &'static str)
    requires
        cap < 3,
    ensures
        r@ == linecap_keyword_spec(cap),
{
    if cap == 0 {
        "butt"
    } else if cap == 1 {
        "round"
    } else {
        "square"
    }
}

/// The keyword of a line join (see [`linejoin_keyword_spec`]); there are
/// three.
pub fn linejoin_keyword(join: u8) -> (r: &'static str)
    requires
        join < 3,
    ensures
        r@ == linejoin_keyword_spec(join),
{
    if join == 0 {
        "miter"
    } else if join == 1 {
        "round"
    } else {
        "bevel"
    }
}

/// A line cap or join written as its keyword reads back as itself.
pub proof fn line_style_round_trip_law(cap: u8, join: u8)
    requires
        cap < 3,
        join < 3,
    ensures
        linecap_spec(linecap_keyword_spec(cap)) == cap,
        linejoin_spec(linejoin_keyword_spec(join)) == join,
{
    reveal_strlit("butt");
    reveal_strlit("round");
    reveal_strlit("square");
    reveal_strlit("miter");
    reveal_strlit("bevel");
    assert("butt"@.len() == 4 && "round"@.len() == 5 && "square"@.len() == 6);
    assert("miter"@.len() == 5 && "bevel"@.len() == 5);
    assert("miter"@[0] != "round"@[0]);
    assert("bevel"@[0] != "round"@[0]);
    assert("butt"@ != "round"@ && "butt"@ != "square"@ && "round"@ != "square"@);
    assert("miter"@ != "round"@ && "miter"@ != "bevel"@ && "round"@ != "bevel"@);
}

} // verus!
