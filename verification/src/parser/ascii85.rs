//! ASCII85 encoding as a specification, and the law that decoding undoes
//! it.
use vstd::prelude::*;

use vstd::utf8::{encode_utf8, is_ascii_chars, is_ascii_chars_encode_utf8};

use crate::text::{min_int, trim_end_spec, trim_spec, trim_start_spec};
use crate::parser::container::{A85Fault, a85_acc, a85_value, a85_clean, remove_whitespace, a85_from, a85_group_out, a85_pad, be_bytes, first_bad, is_a85_digit};

verus! {

/// The five ASCII85 digits of `v` (below 2^32), most significant first.
pub open spec fn a85_digits(v: int) -> Seq<u8> {
    seq![
        ((v / 52200625) % 85 + 33) as u8,
        ((v / 614125) % 85 + 33) as u8,
        ((v / 7225) % 85 + 33) as u8,
        ((v / 85) % 85 + 33) as u8,
        (v % 85 + 33) as u8,
    ]
}

/// The big-endian value of four bytes.
pub open spec fn be_value(g: Seq<u8>) -> int {
    g[0] * 0x100_0000 + g[1] * 0x1_0000 + g[2] * 0x100 + g[3]
}

/// Standard ASCII85 encoding of `b`: each group of four bytes becomes its
/// five digits, or `z` where all four are zero; a final group of `n < 4`
/// bytes, padded with zeros, becomes the first `n + 1` digits of the padded
/// group.
pub open spec fn a85_encode(b: Seq<u8>) -> Seq<u8>
    decreases b.len(),
{
    if b.len() == 0 {
        seq![]
    } else if b.len() >= 4 {
        let g = b.take(4);
        let unit = if g == seq![0u8, 0u8, 0u8, 0u8] {
            seq![0x7au8]
        } else {
            a85_digits(be_value(g))
        };
        unit + a85_encode(b.skip(4))
    } else {
        a85_digits(be_value(padded(b))).take(b.len() + 1int)
    }
}

proof fn lemma_digits_valid(v: int)
    requires
        0 <= v < 0x1_0000_0000,
    ensures
        forall|k: int| 0 <= k < 5 ==> #[trigger] is_a85_digit(a85_digits(v)[k]),
        a85_digits(v)[0] == v / 52200625 + 33,
        a85_digits(v)[1] == (v / 614125) % 85 + 33,
        a85_digits(v)[2] == (v / 7225) % 85 + 33,
        a85_digits(v)[3] == (v / 85) % 85 + 33,
        a85_digits(v)[4] == v % 85 + 33,
{
    assert(v / 52200625 < 85) by (nonlinear_arith)
        requires
            0 <= v < 0x1_0000_0000,
    ;
    assert(0 <= v / 52200625) by (nonlinear_arith)
        requires
            0 <= v,
    ;
}

proof fn lemma_digits_value(v: int)
    requires
        0 <= v < 0x1_0000_0000,
    ensures
        a85_acc(a85_digits(v), 1) == v / 52200625,
        a85_acc(a85_digits(v), 2) == v / 614125,
        a85_acc(a85_digits(v), 3) == v / 7225,
        a85_acc(a85_digits(v), 4) == v / 85,
        a85_acc(a85_digits(v), 5) == v,
{
    lemma_digits_valid(v);
    let c = a85_digits(v);
    assert((v / 52200625) * 85 + (v / 614125) % 85 == v / 614125) by (nonlinear_arith)
        requires
            0 <= v,
    ;
    assert((v / 614125) * 85 + (v / 7225) % 85 == v / 7225) by (nonlinear_arith)
        requires
            0 <= v,
    ;
    assert((v / 7225) * 85 + (v / 85) % 85 == v / 85) by (nonlinear_arith)
        requires
            0 <= v,
    ;
    assert((v / 85) * 85 + v % 85 == v) by (nonlinear_arith)
        requires
            0 <= v,
    ;
    assert(v / 614125 <= v / 7225 <= v / 85 <= v) by (nonlinear_arith)
        requires
            0 <= v,
    ;
    assert(a85_acc(c, 0) == 0);
    assert(a85_acc(c, 1) == v / 52200625);
    assert(a85_acc(c, 2) == v / 614125);
    assert(a85_acc(c, 3) == v / 7225);
    assert(a85_acc(c, 4) == v / 85);
}

proof fn lemma_be_bytes(g: Seq<u8>)
    requires
        g.len() == 4,
    ensures
        0 <= be_value(g) < 0x1_0000_0000,
        be_bytes(be_value(g)) == g,
{
    let v = be_value(g);
    let (a, b, c, d) = (g[0] as int, g[1] as int, g[2] as int, g[3] as int);
    assert(v / 0x100_0000 == a && (v / 0x1_0000) % 256 == b && (v / 0x100) % 256 == c && v % 256 == d)
        by (nonlinear_arith)
        requires
            v == a * 0x100_0000 + b * 0x1_0000 + c * 0x100 + d,
            0 <= a < 256,
            0 <= b < 256,
            0 <= c < 256,
            0 <= d < 256,
    ;
    assert(be_bytes(v) =~= g);
}

proof fn lemma_all_digits(c: Seq<u8>)
    requires
        forall|k: int| 0 <= k < c.len() ==> #[trigger] is_a85_digit(c[k]),
    ensures
        first_bad(c) is None,
    decreases c.len(),
{
    if c.len() > 0 {
        assert forall|k: int| 0 <= k < c.drop_first().len() implies #[trigger] is_a85_digit(
            c.drop_first()[k],
        ) by {
            assert(c.drop_first()[k] == c[k + 1]);
        }
        lemma_all_digits(c.drop_first());
    }
}

proof fn lemma_acc_prefix(x: Seq<u8>, y: Seq<u8>, k: int)
    requires
        0 <= k <= x.len(),
        k <= y.len(),
        forall|j: int| 0 <= j < k ==> x[j] == y[j],
    ensures
        a85_acc(x, k) == a85_acc(y, k),
    decreases k,
{
    if k > 0 {
        lemma_acc_prefix(x, y, k - 1);
    }
}

/// Decoding from position `i` reads only what stands from `i` on.
proof fn lemma_from_suffix(x: Seq<u8>, i: int)
    requires
        0 <= i <= x.len(),
    ensures
        a85_from(x, i) == a85_from(x.skip(i), 0),
    decreases x.len() - i,
{
    reveal(a85_from);
    let y = x.skip(i);
    if i < x.len() {
        assert(y[0] == x[i]);
        if x[i] == 0x7a {
            lemma_from_suffix(x, i + 1);
            lemma_from_suffix(y, 1);
            assert(y.skip(1) =~= x.skip(i + 1));
        } else if x[i] != 0x7e {
            let n = if 5 < x.len() - i {
                5
            } else {
                x.len() - i
            };
            assert(x.subrange(i, i + n) =~= y.subrange(0, n));
            lemma_from_suffix(x, i + n);
            lemma_from_suffix(y, n);
            assert(y.skip(n) =~= x.skip(i + n));
        }
    }
}

/// The bytes `b` padded with zeros to a group of four.
pub open spec fn padded(b: Seq<u8>) -> Seq<u8> {
    b + Seq::new((4 - b.len()) as nat, |i: int| 0u8)
}

proof fn lemma_padded(b: Seq<u8>)
    requires
        0 < b.len() < 4,
    ensures
        padded(b).len() == 4,
        forall|j: int| 0 <= j < b.len() ==> padded(b)[j] == b[j],
        forall|j: int| b.len() <= j < 4 ==> padded(b)[j] == 0,
        0 <= be_value(padded(b)) < 0x1_0000_0000,
        a85_acc(a85_digits(be_value(padded(b))).take(b.len() + 1int), b.len() + 1int) == a85_acc(
            a85_digits(be_value(padded(b))),
            b.len() + 1int,
        ),
{
    lemma_be_bytes(padded(b));
    let d = a85_digits(be_value(padded(b)));
    lemma_acc_prefix(d.take(b.len() + 1int), d, b.len() + 1int);
}

proof fn lemma_pad1(acc: int)
    requires
        0 <= acc,
        acc * 85 + 84 < 0x1_0000_0000,
    ensures
        a85_pad(acc, 1) == acc * 85 + 84,
{
    let w = acc * 85 + 84;
    assert(w % 0x1_0000_0000 == w);
    assert(a85_pad(w, 0) == w);
}

proof fn arith3(b0: int, b1: int, b2: int)
    requires
        0 <= b0 < 256,
        0 <= b1 < 256,
        0 <= b2 < 256,
    ensures
        ({
            let v = b0 * 0x100_0000 + b1 * 0x1_0000 + b2 * 0x100;
            let w = (v / 85) * 85 + 84;
            &&& 0 <= v / 85
            &&& w < 0x1_0000_0000
            &&& w / 0x100_0000 == b0
            &&& (w / 0x1_0000) % 256 == b1
            &&& (w / 0x100) % 256 == b2
        }),
{
    let v = b0 * 0x100_0000 + b1 * 0x1_0000 + b2 * 0x100;
    let w = (v / 85) * 85 + 84;
    assert(0 <= v / 85 && v <= w < v + 256) by (nonlinear_arith)
        requires
            w == (v / 85) * 85 + 84,
            0 <= v,
    ;
    assert(w < 0x1_0000_0000 && w / 0x100_0000 == b0 && (w / 0x1_0000) % 256 == b1 && (w / 0x100) % 256
        == b2) by (nonlinear_arith)
        requires
            v <= w < v + 256,
            v == b0 * 0x100_0000 + b1 * 0x1_0000 + b2 * 0x100,
            0 <= b0 < 256,
            0 <= b1 < 256,
            0 <= b2 < 256,
    ;
}

proof fn lemma_partial3(b: Seq<u8>)
    requires
        b.len() == 3,
    ensures
        a85_group_out(a85_digits(be_value(padded(b))).take(4), 4) == b,
        a85_value(a85_digits(be_value(padded(b))).take(4), 4) < 0x1_0000_0000,
{
    let v = be_value(padded(b));
    let (b0, b1, b2) = (b[0] as int, b[1] as int, b[2] as int);
    assert(v == b0 * 0x100_0000 + b1 * 0x1_0000 + b2 * 0x100) by {
        lemma_padded(b);
    }
    let acc = v / 85;
    assert(a85_acc(a85_digits(v).take(4), 4) == acc) by {
        lemma_padded(b);
        lemma_digits_value(v);
    }
    let w = acc * 85 + 84;
    assert(a85_pad(acc, 1) == w) by {
        arith3(b0, b1, b2);
        lemma_pad1(acc);
    }
    assert(w < 0x1_0000_0000) by {
        arith3(b0, b1, b2);
    }
    assert(be_bytes(w).take(3) =~= b) by {
        arith3(b0, b1, b2);
    }
}

proof fn lemma_pad2(acc: int)
    requires
        0 <= acc,
        (acc * 85 + 84) * 85 + 84 < 0x1_0000_0000,
    ensures
        a85_pad(acc, 2) == (acc * 85 + 84) * 85 + 84,
{
    let w1 = acc * 85 + 84;
    let w = w1 * 85 + 84;
    assert(w1 < w);
    assert(w1 % 0x1_0000_0000 == w1);
    assert(w % 0x1_0000_0000 == w);
    assert(a85_pad(w, 0) == w);
    assert(a85_pad(w1, 1) == w);
}

proof fn lemma_pad3(acc: int)
    requires
        0 <= acc,
        ((acc * 85 + 84) * 85 + 84) * 85 + 84 < 0x1_0000_0000,
    ensures
        a85_pad(acc, 3) == ((acc * 85 + 84) * 85 + 84) * 85 + 84,
{
    let w1 = acc * 85 + 84;
    assert(w1 % 0x1_0000_0000 == w1);
    lemma_pad2(w1);
}

proof fn arith2(b0: int, b1: int)
    requires
        0 <= b0 < 256,
        0 <= b1 < 256,
    ensures
        ({
            let v = b0 * 0x100_0000 + b1 * 0x1_0000;
            let w = ((v / 7225) * 85 + 84) * 85 + 84;
            &&& 0 <= v / 7225
            &&& w < 0x1_0000_0000
            &&& w / 0x100_0000 == b0
            &&& (w / 0x1_0000) % 256 == b1
        }),
{
    let v = b0 * 0x100_0000 + b1 * 0x1_0000;
    let w = ((v / 7225) * 85 + 84) * 85 + 84;
    assert(0 <= v / 7225 && v <= w < v + 0x1_0000) by (nonlinear_arith)
        requires
            w == ((v / 7225) * 85 + 84) * 85 + 84,
            0 <= v,
    ;
    assert(w < 0x1_0000_0000 && w / 0x100_0000 == b0 && (w / 0x1_0000) % 256 == b1) by (nonlinear_arith)
        requires
            v <= w < v + 0x1_0000,
            v == b0 * 0x100_0000 + b1 * 0x1_0000,
            0 <= b0 < 256,
            0 <= b1 < 256,
    ;
}

proof fn lemma_partial2(b: Seq<u8>)
    requires
        b.len() == 2,
    ensures
        a85_group_out(a85_digits(be_value(padded(b))).take(3), 3) == b,
        a85_value(a85_digits(be_value(padded(b))).take(3), 3) < 0x1_0000_0000,
{
    let v = be_value(padded(b));
    let (b0, b1) = (b[0] as int, b[1] as int);
    assert(v == b0 * 0x100_0000 + b1 * 0x1_0000) by {
        lemma_padded(b);
    }
    let acc = v / 7225;
    assert(a85_acc(a85_digits(v).take(3), 3) == acc) by {
        lemma_padded(b);
        lemma_digits_value(v);
    }
    let w = (acc * 85 + 84) * 85 + 84;
    assert(a85_pad(acc, 2) == w) by {
        arith2(b0, b1);
        lemma_pad2(acc);
    }
    assert(w < 0x1_0000_0000) by {
        arith2(b0, b1);
    }
    assert(be_bytes(w).take(2) =~= b) by {
        arith2(b0, b1);
    }
}

proof fn arith1(b0: int)
    requires
        0 <= b0 < 256,
    ensures
        ({
            let v = b0 * 0x100_0000;
            let w = (((v / 614125) * 85 + 84) * 85 + 84) * 85 + 84;
            &&& 0 <= v / 614125
            &&& w < 0x1_0000_0000
            &&& w / 0x100_0000 == b0
        }),
{
    let v = b0 * 0x100_0000;
    let w = (((v / 614125) * 85 + 84) * 85 + 84) * 85 + 84;
    assert(0 <= v / 614125 && v <= w < v + 0x100_0000) by (nonlinear_arith)
        requires
            w == (((v / 614125) * 85 + 84) * 85 + 84) * 85 + 84,
            0 <= v,
    ;
    assert(w < 0x1_0000_0000 && w / 0x100_0000 == b0) by (nonlinear_arith)
        requires
            v <= w < v + 0x100_0000,
            v == b0 * 0x100_0000,
            0 <= b0 < 256,
    ;
}

proof fn lemma_partial1(b: Seq<u8>)
    requires
        b.len() == 1,
    ensures
        a85_group_out(a85_digits(be_value(padded(b))).take(2), 2) == b,
        a85_value(a85_digits(be_value(padded(b))).take(2), 2) < 0x1_0000_0000,
{
    let v = be_value(padded(b));
    let b0 = b[0] as int;
    assert(v == b0 * 0x100_0000) by {
        lemma_padded(b);
    }
    let acc = v / 614125;
    assert(a85_acc(a85_digits(v).take(2), 2) == acc) by {
        lemma_padded(b);
        lemma_digits_value(v);
    }
    let w = ((acc * 85 + 84) * 85 + 84) * 85 + 84;
    assert(a85_pad(acc, 3) == w) by {
        arith1(b0);
        lemma_pad3(acc);
    }
    assert(w < 0x1_0000_0000) by {
        arith1(b0);
    }
    assert(be_bytes(w).take(1) =~= b) by {
        arith1(b0);
    }
}

proof fn lemma_zero_group(b: Seq<u8>)
    requires
        b.len() >= 4,
        b.take(4) == seq![0u8, 0u8, 0u8, 0u8],
        a85_from(a85_encode(b.skip(4)), 0) == std::result::Result::<Seq<u8>, A85Fault>::Ok(b.skip(4)),
    ensures
        a85_from(a85_encode(b), 0) == std::result::Result::<Seq<u8>, A85Fault>::Ok(b),
{
    reveal(a85_from);
    let e = a85_encode(b);
    let rest = a85_encode(b.skip(4));
    assert(e == seq![0x7au8] + rest);
    assert(e[0] == 0x7a);
    lemma_from_suffix(e, 1);
    assert(e.skip(1) =~= rest);
    assert(seq![0u8, 0u8, 0u8, 0u8] + b.skip(4) =~= b);
}

proof fn lemma_full_group(b: Seq<u8>)
    requires
        b.len() >= 4,
        b.take(4) != seq![0u8, 0u8, 0u8, 0u8],
        a85_from(a85_encode(b.skip(4)), 0) == std::result::Result::<Seq<u8>, A85Fault>::Ok(b.skip(4)),
    ensures
        a85_from(a85_encode(b), 0) == std::result::Result::<Seq<u8>, A85Fault>::Ok(b),
{
    let e = a85_encode(b);
    let g = b.take(4);
    let rest = a85_encode(b.skip(4));
    let v = be_value(g);
    lemma_be_bytes(g);
    lemma_digits_valid(v);
    lemma_digits_value(v);
    let d = a85_digits(v);
    assert(e == d + rest);
    assert(e.subrange(0, 5) =~= d);
    assert(e[0] == d[0]);
    lemma_all_digits(d);
    lemma_from_suffix(e, 5);
    assert(e.skip(5) =~= rest);
    assert(a85_pad(v, 0) == v);
    assert(a85_value(d, 5) == v);
    assert(a85_group_out(d, 5) == g);
    assert(g + b.skip(4) =~= b);
    reveal(a85_from);
}

/// Decoding of a last group `c` of `k` digits, given what it decodes to.
proof fn lemma_decode_last(c: Seq<u8>, k: int, out: Seq<u8>)
    requires
        2 <= k <= 4,
        c.len() == k,
        forall|j: int| 0 <= j < c.len() ==> #[trigger] is_a85_digit(c[j]),
        a85_group_out(c, k) == out,
        a85_value(c, k) < 0x1_0000_0000,
    ensures
        a85_from(c, 0) == std::result::Result::<Seq<u8>, A85Fault>::Ok(out),
{
    lemma_all_digits(c);
    assert(c.subrange(0, k) =~= c);
    assert(is_a85_digit(c[0]));
    assert(out + Seq::<u8>::empty() =~= out);
    reveal(a85_from);
    assert(a85_from(c, k) == std::result::Result::<Seq<u8>, A85Fault>::Ok(Seq::<u8>::empty()));
    assert(min_int(5, c.len() - 0) == k);
}

proof fn lemma_last_group(b: Seq<u8>)
    requires
        0 < b.len() < 4,
    ensures
        a85_from(a85_encode(b), 0) == std::result::Result::<Seq<u8>, A85Fault>::Ok(b),
{
    let n = b.len() as int;
    let v = be_value(padded(b));
    lemma_padded(b);
    lemma_digits_valid(v);
    let d = a85_digits(v);
    let c = d.take(n + 1);
    assert(a85_encode(b) == c);
    assert forall|k: int| 0 <= k < c.len() implies #[trigger] is_a85_digit(c[k]) by {
        assert(c[k] == d[k]);
    }
    if n == 1 {
        lemma_partial1(b);
    } else if n == 2 {
        lemma_partial2(b);
    } else {
        lemma_partial3(b);
    }
    lemma_decode_last(c, n + 1, b);
}

/// One group of four bytes, then the rest.
proof fn lemma_group(b: Seq<u8>)
    requires
        b.len() >= 4,
        a85_from(a85_encode(b.skip(4)), 0) == std::result::Result::<Seq<u8>, A85Fault>::Ok(b.skip(4)),
    ensures
        a85_from(a85_encode(b), 0) == std::result::Result::<Seq<u8>, A85Fault>::Ok(b),
{
    if b.take(4) == seq![0u8, 0u8, 0u8, 0u8] {
        lemma_zero_group(b);
    } else {
        lemma_full_group(b);
    }
}

/// Decoding undoes encoding: the ASCII85 digits of any bytes `b` decode to
/// `b`.
pub proof fn a85_decode_encode(b: Seq<u8>)
    ensures
        a85_from(a85_encode(b), 0) == std::result::Result::<Seq<u8>, A85Fault>::Ok(b),
    decreases b.len(),
{
    if b.len() == 0 {
        reveal(a85_from);
        assert(a85_encode(b) == Seq::<u8>::empty());
        assert(b =~= Seq::<u8>::empty());
    } else if b.len() >= 4 {
        a85_decode_encode(b.skip(4));
        lemma_group(b);
    } else {
        lemma_last_group(b);
    }
}

/// The encoding of `b` as text.
pub open spec fn a85_text(b: Seq<u8>) -> Seq<char> {
    a85_encode(b).map_values(|x: u8| x as char)
}

proof fn lemma_encode_ascii(b: Seq<u8>)
    ensures
        forall|i: int| 0 <= i < a85_encode(b).len() ==> #[trigger] a85_encode(b)[i] <= 0x7a,
    decreases b.len(),
{
    if b.len() >= 4 {
        lemma_encode_ascii(b.skip(4));
        let g = b.take(4);
        if g != seq![0u8, 0u8, 0u8, 0u8] {
            lemma_be_bytes(g);
            lemma_digits_valid(be_value(g));
        }
        let unit = if g == seq![0u8, 0u8, 0u8, 0u8] {
            seq![0x7au8]
        } else {
            a85_digits(be_value(g))
        };
        assert forall|i: int| 0 <= i < a85_encode(b).len() implies #[trigger] a85_encode(b)[i] <= 0x7a by {
            if i >= unit.len() {
                assert(a85_encode(b)[i] == a85_encode(b.skip(4))[i - unit.len()]);
            } else {
                assert(a85_encode(b)[i] == unit[i]);
            }
        }
    } else if b.len() > 0 {
        lemma_padded(b);
        lemma_digits_valid(be_value(padded(b)));
    }
}

/// The bytes of the text of an encoding are the encoding.
proof fn lemma_text_bytes(b: Seq<u8>)
    ensures
        encode_utf8(a85_text(b)) == a85_encode(b),
{
    lemma_encode_ascii(b);
    let t = a85_text(b);
    assert(is_ascii_chars(t));
    is_ascii_chars_encode_utf8(t);
    assert(encode_utf8(t) =~= a85_encode(b));
}

/// ASCII85 text round trip: `<~`, the encoding of any bytes `b` with any
/// whitespace inserted, and `~>` decode to `b` (the decoder's contract is
/// stated over [`a85_from`] and [`a85_clean`]).
pub proof fn ascii85_round_trip(b: Seq<u8>, s: Seq<char>)
    requires
        remove_whitespace(s) == a85_text(b),
    ensures
        a85_from(a85_clean("<~"@ + s + "~>"@), 0) == std::result::Result::<Seq<u8>, A85Fault>::Ok(b),
{
    reveal_strlit("<~");
    reveal_strlit("~>");
    let t = "<~"@ + s + "~>"@;
    assert(t[0] == '<');
    assert(t.last() == '>');
    assert(trim_start_spec(t) == t);
    assert(trim_end_spec(t) == t);
    assert(trim_spec(t) == t);
    assert("<~"@.is_prefix_of(t)) by {
        assert(t.subrange(0, 2) =~= "<~"@);
    }
    let t1 = t.skip(2);
    assert(t1 =~= s + "~>"@);
    assert("~>"@.is_suffix_of(t1)) by {
        assert(t1.subrange(t1.len() - 2, t1.len() as int) =~= "~>"@);
    }
    assert(t1.take(t1.len() - 2) =~= s);
    lemma_text_bytes(b);
    a85_decode_encode(b);
}

} // verus!
