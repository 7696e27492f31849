//! Image data embedded in SVG as a `data:` URI, in standard base64 with
//! padding.
use base64::Engine;
use vstd::prelude::*;

use crate::text::{chars_of, next_char, next_char_at, lemma_next_char_at_range, push_str, string_of, copy_range};

verus! {

/// The largest embedded image, in bytes, that is decoded.
pub const MAX_EMBEDDED_IMAGE_BYTES: u64 = 50 * 1024 * 1024;

/// The standard base64 alphabet: `A`–`Z`, `a`–`z`, `0`–`9`, `+`, `/`.
pub open spec fn b64_digit(v: int) -> char {
    if v < 26 {
        (65 + v) as char
    } else if v < 52 {
        (97 + v - 26) as char
    } else if v < 62 {
        (48 + v - 52) as char
    } else if v == 62 {
        '+'
    } else {
        '/'
    }
}

/// Standard base64 with padding: each three bytes become four digits of six
/// bits, high bits first; a last group of one or two bytes is filled with
/// zero bits and padded with `=` to four characters.
pub open spec fn base64_spec(d: Seq<u8>) -> Seq<char>
    decreases d.len(),
{
    if d.len() == 0 {
        seq![]
    } else {
        let a = d[0] as int;
        let b = if d.len() > 1 { d[1] as int } else { 0 };
        let c = if d.len() > 2 { d[2] as int } else { 0 };
        if d.len() == 1 {
            seq![b64_digit(a / 4), b64_digit((a % 4) * 16), '=', '=']
        } else if d.len() == 2 {
            seq![b64_digit(a / 4), b64_digit((a % 4) * 16 + b / 16), b64_digit((b % 16) * 4), '=']
        } else {
            seq![
                b64_digit(a / 4),
                b64_digit((a % 4) * 16 + b / 16),
                b64_digit((b % 16) * 4 + c / 64),
                b64_digit(c % 64),
            ] + base64_spec(d.skip(3))
        }
    }
}

/// Encodes `data` with `base64::engine::general_purpose::STANDARD`
/// (`Engine::encode`); the contract claims the standard alphabet with
/// padding, as [`base64_spec`] writes it out. The engine panics where the
/// length of the result overflows, which `requires` leaves out.
#[verifier::external_body]
fn base64_encode(data: &[u8]) -> (r: String)
    requires
        data@.len() / 3 * 4 + 4 <= usize::MAX,
    ensures
        r@ == base64_spec(data@),
{
    base64::engine::general_purpose::STANDARD.encode(data)
}

/// Decodes `text` with `base64::engine::general_purpose::STANDARD`
/// (`Engine::decode`), whose configuration requires canonical padding and
/// rejects nonzero trailing bits and any byte outside the alphabet; the
/// contract claims that it succeeds exactly on the texts that
/// [`base64_spec`] writes, giving back bytes that encode to the text.
#[verifier::external_body]
fn base64_decode(text: &str) -> (r: Option<Vec<u8>>)
    ensures
        match r {
            Some(d) => base64_spec(d@) == text@,
            None => forall|d: Seq<u8>| base64_spec(d) != text@,
        },
{
    base64::engine::general_purpose::STANDARD.decode(text).ok()
}

proof fn lemma_digit_injective(v: int, w: int)
    requires
        0 <= v < 64,
        0 <= w < 64,
        b64_digit(v) == b64_digit(w),
    ensures
        v == w,
{
    assert(b64_digit(v) as int == if v < 26 {
        65 + v
    } else if v < 52 {
        71 + v
    } else if v < 62 {
        v - 4
    } else if v == 62 {
        43
    } else {
        47
    });
    assert(b64_digit(w) as int == if w < 26 {
        65 + w
    } else if w < 52 {
        71 + w
    } else if w < 62 {
        w - 4
    } else if w == 62 {
        43
    } else {
        47
    });
}

proof fn lemma_digit_not_pad(v: int)
    requires
        0 <= v < 64,
    ensures
        b64_digit(v) != '=',
        b64_digit(v) != ',',
{
    assert(b64_digit(v) as int == if v < 26 {
        65 + v
    } else if v < 52 {
        71 + v
    } else if v < 62 {
        v - 4
    } else if v == 62 {
        43
    } else {
        47
    });
}

proof fn lemma_base64_shape(d: Seq<u8>)
    ensures
        base64_spec(d).len() == if d.len() == 0 {
            0
        } else if d.len() < 3 {
            4
        } else {
            4 + base64_spec(d.skip(3)).len()
        },
        d.len() == 0 <==> base64_spec(d).len() == 0,
        d.len() >= 1 ==> base64_spec(d)[0] != '=' && base64_spec(d)[1] != '=',
        d.len() == 1 ==> base64_spec(d)[2] == '=' && base64_spec(d)[3] == '=',
        d.len() == 2 ==> base64_spec(d)[2] != '=' && base64_spec(d)[3] == '=',
        d.len() >= 3 ==> base64_spec(d)[2] != '=' && base64_spec(d)[3] != '=',
        forall|i: int| 0 <= i < base64_spec(d).len() ==> #[trigger] base64_spec(d)[i] != ',',
    decreases d.len(),
{
    if d.len() > 0 {
        let a = d[0] as int;
        let b = if d.len() > 1 { d[1] as int } else { 0 };
        let c = if d.len() > 2 { d[2] as int } else { 0 };
        lemma_digit_not_pad(a / 4);
        lemma_digit_not_pad((a % 4) * 16 + b / 16);
        lemma_digit_not_pad((b % 16) * 4 + c / 64);
        lemma_digit_not_pad((a % 4) * 16);
        lemma_digit_not_pad((b % 16) * 4);
        lemma_digit_not_pad(c % 64);
        if d.len() >= 3 {
            lemma_base64_shape(d.skip(3));
            let head = seq![
                b64_digit(a / 4),
                b64_digit((a % 4) * 16 + b / 16),
                b64_digit((b % 16) * 4 + c / 64),
                b64_digit(c % 64),
            ];
            assert forall|i: int| 0 <= i < base64_spec(d).len() implies #[trigger] base64_spec(d)[i] != ',' by {
                if i >= 4 {
                    assert(base64_spec(d)[i] == base64_spec(d.skip(3))[i - 4]);
                } else {
                    assert(base64_spec(d)[i] == head[i]);
                }
            }
        } else {
            assert forall|i: int| 0 <= i < base64_spec(d).len() implies #[trigger] base64_spec(d)[i] != ',' by {
                if i == 0 {
                } else if i == 1 {
                } else if i == 2 {
                } else {
                }
            }
        }
    }
}

/// Base64 keeps every byte: two byte strings with the same encoding are
/// the same.
pub proof fn base64_injective_law(x: Seq<u8>, y: Seq<u8>)
    requires
        base64_spec(x) == base64_spec(y),
    ensures
        x == y,
    decreases x.len(),
{
    lemma_base64_shape(x);
    lemma_base64_shape(y);
    if x.len() == 0 {
        assert(x =~= y);
    } else {
        let s = base64_spec(x);
        assert(y.len() > 0);
        assert(x.len() == 1 <==> y.len() == 1);
        assert(x.len() == 2 <==> y.len() == 2);
        let a = x[0] as int;
        let b = if x.len() > 1 { x[1] as int } else { 0 };
        let c = if x.len() > 2 { x[2] as int } else { 0 };
        let a2 = y[0] as int;
        let b2 = if y.len() > 1 { y[1] as int } else { 0 };
        let c2 = if y.len() > 2 { y[2] as int } else { 0 };
        lemma_digit_injective(a / 4, a2 / 4);
        if x.len() == 1 {
            lemma_digit_injective((a % 4) * 16, (a2 % 4) * 16);
            assert(x =~= y);
        } else if x.len() == 2 {
            lemma_digit_injective((a % 4) * 16 + b / 16, (a2 % 4) * 16 + b2 / 16);
            lemma_digit_injective((b % 16) * 4, (b2 % 16) * 4);
            assert(x =~= y);
        } else {
            lemma_digit_injective((a % 4) * 16 + b / 16, (a2 % 4) * 16 + b2 / 16);
            lemma_digit_injective((b % 16) * 4 + c / 64, (b2 % 16) * 4 + c2 / 64);
            lemma_digit_injective(c % 64, c2 % 64);
            assert(base64_spec(x.skip(3)) =~= s.skip(4));
            assert(base64_spec(y.skip(3)) =~= s.skip(4));
            base64_injective_law(x.skip(3), y.skip(3));
            assert forall|i: int| 0 <= i < x.len() implies x[i] == y[i] by {
                if i >= 3 {
                    assert(x[i] == x.skip(3)[i - 3]);
                    assert(y[i] == y.skip(3)[i - 3]);
                }
            }
            assert(x =~= y);
        }
    }
}

/// The URI that [`image_data_uri`] writes carries exactly the base64 of
/// the data as its payload.
pub proof fn data_uri_payload_law(d: Seq<u8>)
    ensures
        data_uri_payload("data:image/png;base64,"@ + base64_spec(d)) == Some(base64_spec(d)),
{
    reveal_strlit("data:image/png;base64,");
    reveal_strlit("data:");
    let pre = "data:image/png;base64,"@;
    let h = pre + base64_spec(d);
    assert("data:"@.is_prefix_of(h)) by {
        assert(h.subrange(0, 5) =~= "data:"@);
    }
    lemma_next_char_at_range(h, ',', 0);
    assert(h[21] == ',');
    assert forall|j: int| 0 <= j < 21 implies h[j] != ',' by {
        assert(h[j] == pre[j]);
    }
    lemma_first_comma(h, 21);
    assert(h.skip(22) =~= base64_spec(d));
}

proof fn lemma_first_comma(h: Seq<char>, k: int)
    requires
        0 <= k < h.len(),
        h[k] == ',',
        forall|j: int| 0 <= j < k ==> h[j] != ',',
    ensures
        next_char_at(h, ',', 0) == k,
{
    lemma_next_char_at_range(h, ',', 0);
}

/// The `href` of an embedded PNG image: `data:image/png;base64,` and the
/// data in base64.
pub fn image_data_uri(data: &[u8]) -> (r: String)
    requires
        data@.len() / 3 * 4 + 4 <= usize::MAX,
    ensures
        r@ == "data:image/png;base64,"@ + base64_spec(data@),
{
    let mut r = String::new();
    push_str(&mut r, "data:image/png;base64,");
    let e = base64_encode(data);
    push_str(&mut r, e.as_str());
    r
}

/// The base64 text of a `data:` URI: what follows its first comma.
pub open spec fn data_uri_payload(href: Seq<char>) -> Option<Seq<char>> {
    if "data:"@.is_prefix_of(href) && next_char_at(href, ',', 0) < href.len() {
        Some(href.skip(next_char_at(href, ',', 0) + 1))
    } else {
        None
    }
}

/// The payload is decoded only up to this many bytes of base64 text.
pub open spec fn payload_limit() -> int {
    MAX_EMBEDDED_IMAGE_BYTES * 4 / 3
}

/// The bytes of an image embedded in `href`: for a `data:` URI whose
/// payload is at most [`payload_limit`] bytes of text and is base64 as
/// [`base64_spec`] writes it, the bytes it encodes; else none.
pub fn embedded_image_data(href: &str) -> (r: Vec<u8>)
    ensures
        match data_uri_payload(href@) {
            Some(p) => if vstd::utf8::encode_utf8(p).len() <= payload_limit() && exists|d: Seq<u8>|
                base64_spec(d) == p {
                base64_spec(r@) == p
            } else {
                r@.len() == 0
            },
            None => r@.len() == 0,
        },
{
    let h = chars_of(href);
    let prefix = chars_of("data:");
    if !crate::text::starts_with(&h, &prefix) {
        return Vec::new();
    }
    let comma = next_char(&h, ',', 0);
    if comma >= h.len() {
        return Vec::new();
    }
    proof {
        lemma_next_char_at_range(h@, ',', 0);
    }
    let payload = string_of(&copy_range(&h, comma + 1, h.len()));
    proof {
        assert(payload@ =~= h@.skip(comma + 1));
    }
    let n = payload.as_str().as_bytes().len();
    if n as u64 > MAX_EMBEDDED_IMAGE_BYTES * 4 / 3 {
        return Vec::new();
    }
    match base64_decode(payload.as_str()) {
        Some(d) => d,
        None => Vec::new(),
    }
}

} // verus!
