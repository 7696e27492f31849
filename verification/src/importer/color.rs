//! Solid paint as SVG writes it: a color name, or `#` and hex digits.
//!
//! Functional notation such as `rgb(..)` goes through floating point and is
//! read by the caller from the trimmed text handed back here.
use vstd::prelude::*;

use crate::importer::pattern::{first_group, first_group_spec, groups_view, opt_captures_view, opt_opt_view, regex_captures, regex_captures_spec};
use crate::parser::operators::str_equals;
use crate::text::{chars_of, is_ascii_hexdigit, push_char, string_of, trim, trim_spec};

verus! {

/// `#` followed by three to eight hex digits, and nothing else.
pub const HEX_COLOR_PATTERN: &'static str = r"^#([0-9a-fA-F]{3,8})$";

/// What `str::to_lowercase` gives for a text (Unicode lower case).
pub uninterp spec fn lowercase_spec(s: Seq<char>) -> Seq<char>;

/// Calls `str::to_lowercase`; the contract claims only that the result is
/// the one named by [`lowercase_spec`].
#[verifier::external_body]
fn to_lowercase(s: &str) -> (r: String)
    ensures
        r@ == lowercase_spec(s@),
{
    s.to_lowercase()
}

/// The color names that are read, with their `#rrggbb` value; `none` has
/// an empty value.
pub open spec fn named_color_spec(name: Seq<char>) -> Option<Seq<char>> {
    if name == "black"@ {
        Some("#000000"@)
    } else if name == "white"@ {
        Some("#ffffff"@)
    } else if name == "red"@ {
        Some("#ff0000"@)
    } else if name == "green"@ {
        Some("#008000"@)
    } else if name == "blue"@ {
        Some("#0000ff"@)
    } else if name == "yellow"@ {
        Some("#ffff00"@)
    } else if name == "cyan"@ {
        Some("#00ffff"@)
    } else if name == "magenta"@ {
        Some("#ff00ff"@)
    } else if name == "orange"@ {
        Some("#ffa500"@)
    } else if name == "gray"@ {
        Some("#808080"@)
    } else if name == "grey"@ {
        Some("#808080"@)
    } else if name == "none"@ {
        Some(""@)
    } else {
        None
    }
}

/// Looks a color name up (see [`named_color_spec`]); the name is compared
/// as given.
pub fn named_color(name: &str) -> (r: Option<&'static str>)
    ensures
        match r {
            Some(h) => named_color_spec(name@) == Some(h@),
            None => named_color_spec(name@) is None,
        },
{
    if str_equals(name, "black") {
        Some("#000000")
    } else if str_equals(name, "white") {
        Some("#ffffff")
    } else if str_equals(name, "red") {
        Some("#ff0000")
    } else if str_equals(name, "green") {
        Some("#008000")
    } else if str_equals(name, "blue") {
        Some("#0000ff")
    } else if str_equals(name, "yellow") {
        Some("#ffff00")
    } else if str_equals(name, "cyan") {
        Some("#00ffff")
    } else if str_equals(name, "magenta") {
        Some("#ff00ff")
    } else if str_equals(name, "orange") {
        Some("#ffa500")
    } else if str_equals(name, "gray") {
        Some("#808080")
    } else if str_equals(name, "grey") {
        Some("#808080")
    } else if str_equals(name, "none") {
        Some("")
    } else {
        None
    }
}

/// A hex digit in lower case.
pub open spec fn lower_hex(c: char) -> char {
    if c == 'A' {
        'a'
    } else if c == 'B' {
        'b'
    } else if c == 'C' {
        'c'
    } else if c == 'D' {
        'd'
    } else if c == 'E' {
        'e'
    } else if c == 'F' {
        'f'
    } else {
        c
    }
}

fn lower_hex_char(c: char) -> (r: char)
    ensures
        r == lower_hex(c),
{
    if c == 'A' {
        'a'
    } else if c == 'B' {
        'b'
    } else if c == 'C' {
        'c'
    } else if c == 'D' {
        'd'
    } else if c == 'E' {
        'e'
    } else if c == 'F' {
        'f'
    } else {
        c
    }
}

fn is_hex_digit(c: char) -> (r: bool)
    ensures
        r == is_ascii_hexdigit(c),
{
    ('0' <= c && c <= '9') || ('a' <= c && c <= 'f') || ('A' <= c && c <= 'F')
}

/// The digits of a hex color: three are doubled one by one (`#abc` is
/// `#aabbcc`); other counts stay as written.
pub open spec fn expanded_digits(d: Seq<char>) -> Seq<char> {
    if d.len() == 3 {
        seq![d[0], d[0], d[1], d[1], d[2], d[2]]
    } else {
        d
    }
}

/// `#rrggbb` in lower case from the first six expanded digits (an alpha
/// pair after them is ignored), or `None` where there are fewer than six
/// or one of them is not a hex digit.
pub open spec fn hex_key_spec(d: Seq<char>) -> Option<Seq<char>> {
    let e = expanded_digits(d);
    if e.len() >= 6 && (forall|i: int| 0 <= i < 6 ==> is_ascii_hexdigit(#[trigger] e[i])) {
        Some(seq!['#'] + e.take(6).map_values(|c: char| lower_hex(c)))
    } else {
        None
    }
}

/// The `#rrggbb` key of the hex digits `d` (see [`hex_key_spec`]).
pub fn hex_key(d: &[char]) -> (r: Option<String>)
    ensures
        match r {
            Some(k) => hex_key_spec(d@) == Some(k@),
            None => hex_key_spec(d@) is None,
        },
{
    let mut e: Vec<char> = Vec::new();
    if d.len() == 3 {
        e.push(d[0]);
        e.push(d[0]);
        e.push(d[1]);
        e.push(d[1]);
        e.push(d[2]);
        e.push(d[2]);
        proof {
            assert(e@ =~= expanded_digits(d@));
        }
    } else {
        let mut i: usize = 0;
        while i < d.len()
            invariant
                i <= d.len(),
                e@ =~= d@.take(i as int),
            decreases d.len() - i,
        {
            e.push(d[i]);
            i += 1;
        }
        proof {
            assert(e@ =~= expanded_digits(d@));
        }
    }
    if e.len() < 6 {
        return None;
    }
    let mut k = String::new();
    push_char(&mut k, '#');
    let mut i: usize = 0;
    while i < 6
        invariant
            6 <= e@.len(),
            e@ == expanded_digits(d@),
            i <= 6,
            forall|j: int| 0 <= j < i ==> is_ascii_hexdigit(#[trigger] e@[j]),
            k@ =~= seq!['#'] + e@.take(i as int).map_values(|c: char| lower_hex(c)),
        decreases 6 - i,
    {
        if !is_hex_digit(e[i]) {
            proof {
                assert(!is_ascii_hexdigit(e@[i as int]));
            }
            return None;
        }
        let ghost before = k@;
        push_char(&mut k, lower_hex_char(e[i]));
        proof {
            assert(e@.take(i + 1) =~= e@.take(i as int).push(e@[i as int]));
        }
        i += 1;
    }
    Some(k)
}

/// What the hex pattern's captures say: `None` where it did not match,
/// else the key of the digits in group 1 of the first match (`Some(None)`
/// where they give none).
pub open spec fn hex_match_spec(c: Option<Seq<Seq<Option<Seq<char>>>>>) -> Option<Option<Seq<char>>> {
    match first_group_spec(c) {
        Some(Some(d)) => Some(hex_key_spec(d)),
        Some(None) => Some(None),
        None => None,
    }
}

/// The key of a hex color from what [`HEX_COLOR_PATTERN`] captured (see
/// [`hex_match_spec`]).
pub fn hex_match(c: Option<Vec<Vec<Option<String>>>>) -> (r: Option<Option<String>>)
    ensures
        opt_opt_view(r) == hex_match_spec(opt_captures_view(c)),
{
    match first_group(c) {
        Some(Some(digits)) => {
            let d = chars_of(digits.as_str());
            Some(hex_key(&d))
        },
        Some(None) => Some(None),
        None => None,
    }
}

/// Solid paint as written in an attribute, or text to read otherwise.
pub enum SolidColor<S> {
    /// No paint: empty, `none`, a name without a value, or a hex form
    /// that does not give three bytes.
    Absent,
    /// A color as `#rrggbb`.
    Hex(S),
    /// Anything else, trimmed.
    Other(S),
}

impl SolidColor<String> {
    pub open spec fn model(&self) -> SolidColor<Seq<char>> {
        match self {
            SolidColor::Absent => SolidColor::Absent,
            SolidColor::Hex(s) => SolidColor::Hex(s@),
            SolidColor::Other(s) => SolidColor::Other(s@),
        }
    }
}

/// How a paint value reads: trimmed; empty or `none` is no paint; then its
/// lower case is looked up among the names; then the trimmed text, as
/// written, is matched against [`HEX_COLOR_PATTERN`].
pub open spec fn solid_color_spec(v: Seq<char>) -> SolidColor<Seq<char>> {
    let t = trim_spec(v);
    if t.len() == 0 || t == "none"@ {
        SolidColor::Absent
    } else {
        match named_color_spec(lowercase_spec(t)) {
            Some(h) => if h.len() == 0 {
                SolidColor::Absent
            } else {
                SolidColor::Hex(h)
            },
            None => match hex_match_spec(regex_captures_spec(HEX_COLOR_PATTERN@, t)) {
                Some(Some(k)) => SolidColor::Hex(k),
                Some(None) => SolidColor::Absent,
                None => SolidColor::Other(t),
            },
        }
    }
}

/// Reads a paint value (see [`solid_color_spec`]).
pub fn solid_color(value: &str) -> (r: SolidColor<String>)
    ensures
        r.model() == solid_color_spec(value@),
{
    let cs = chars_of(value);
    let t = trim(&cs);
    let ts = string_of(&t);
    if t.len() == 0 || str_equals(ts.as_str(), "none") {
        return SolidColor::Absent;
    }
    let low = to_lowercase(ts.as_str());
    match named_color(low.as_str()) {
        Some(h) => {
            if h.is_empty() {
                SolidColor::Absent
            } else {
                SolidColor::Hex(h.to_owned())
            }
        },
        None => {
            let c = regex_captures(HEX_COLOR_PATTERN, ts.as_str());
            match hex_match(c) {
                Some(Some(k)) => SolidColor::Hex(k),
                Some(None) => SolidColor::Absent,
                None => SolidColor::Other(ts),
            }
        },
    }
}

/// `rgb(` three decimal numbers separated by commas `)`, spaces allowed
/// around them.
pub const RGB_FUNCTION_PATTERN: &'static str = r"rgb\(\s*(\d+)\s*,\s*(\d+)\s*,\s*(\d+)\s*\)";

/// The three numbers of the first match, as written: groups 1 to 3 of the
/// first match, `None` where nothing matched.
pub open spec fn rgb_arguments_spec(c: Option<Seq<Seq<Option<Seq<char>>>>>) -> Option<
    (Seq<char>, Seq<char>, Seq<char>),
> {
    match c {
        Some(ms) => if ms.len() > 0 && ms[0].len() > 3 && ms[0][1] is Some && ms[0][2] is Some
            && ms[0][3] is Some {
            Some((ms[0][1]->0, ms[0][2]->0, ms[0][3]->0))
        } else {
            None
        },
        None => None,
    }
}

/// The three numbers from what [`RGB_FUNCTION_PATTERN`] captured (see
/// [`rgb_arguments_spec`]).
pub fn rgb_arguments_from(c: Option<Vec<Vec<Option<String>>>>) -> (r: Option<(String, String, String)>)
    ensures
        rgb_arguments_spec(opt_captures_view(c)) == match r {
            Some((a, b, d)) => Some((a@, b@, d@)),
            None => None,
        },
{
    let ghost cv = opt_captures_view(c);
    match c {
        Some(ms) => {
            if ms.len() == 0 {
                return None;
            }
            let first = &ms[0];
            proof {
                assert(cv->0[0] == groups_view(first@));
            }
            if first.len() <= 3 {
                return None;
            }
            match (&first[1], &first[2], &first[3]) {
                (Some(a), Some(b), Some(d)) => Some((a.clone(), b.clone(), d.clone())),
                _ => None,
            }
        },
        None => None,
    }
}

/// The three numbers of an `rgb(..)` colour in `text`, as written.
pub fn rgb_arguments(text: &str) -> (r: Option<(String, String, String)>)
    ensures
        rgb_arguments_spec(regex_captures_spec(RGB_FUNCTION_PATTERN@, text@)) == match r {
            Some((a, b, d)) => Some((a@, b@, d@)),
            None => None,
        },
{
    rgb_arguments_from(regex_captures(RGB_FUNCTION_PATTERN, text))
}

} // verus!
