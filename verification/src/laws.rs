//! The library's tables and formats, each stated against the values and
//! shapes it is meant to have, independently of how the library writes
//! them down.
use vstd::prelude::*;

use crate::export::metadata::layer_pgf_from;
use crate::importer::color::named_color_spec;
use crate::parser::operators::operator_spec;
use crate::parser::lexer::{comment_type, lemma_line_end, lemma_skip_space, lemma_token_at, lex_from, lex_spec, line_end, skip_space, token_at, TokenType};
use crate::text::{find_after, join_spec, lemma_find_spec_some};
use crate::writer::pgf::{custom_color_names, ps_escape_spec, spot_section};

verus! {

// ---------------------------------------------------------------------------
// Colour names.
// ---------------------------------------------------------------------------
/// The colour names the importer reads are the CSS colour keywords with
/// their CSS values (`none` reads as no colour, an empty value), and no
/// other name is read.
pub proof fn css_color_names_law(n: Seq<char>)
    ensures
        named_color_spec("black"@) == Some(seq!['#', '0', '0', '0', '0', '0', '0']),
        named_color_spec("white"@) == Some(seq!['#', 'f', 'f', 'f', 'f', 'f', 'f']),
        named_color_spec("red"@) == Some(seq!['#', 'f', 'f', '0', '0', '0', '0']),
        named_color_spec("green"@) == Some(seq!['#', '0', '0', '8', '0', '0', '0']),
        named_color_spec("blue"@) == Some(seq!['#', '0', '0', '0', '0', 'f', 'f']),
        named_color_spec("yellow"@) == Some(seq!['#', 'f', 'f', 'f', 'f', '0', '0']),
        named_color_spec("cyan"@) == Some(seq!['#', '0', '0', 'f', 'f', 'f', 'f']),
        named_color_spec("magenta"@) == Some(seq!['#', 'f', 'f', '0', '0', 'f', 'f']),
        named_color_spec("orange"@) == Some(seq!['#', 'f', 'f', 'a', '5', '0', '0']),
        named_color_spec("gray"@) == Some(seq!['#', '8', '0', '8', '0', '8', '0']),
        named_color_spec("grey"@) == Some(seq!['#', '8', '0', '8', '0', '8', '0']),
        named_color_spec("none"@) == Some(Seq::<char>::empty()),
        named_color_spec(n) is Some <==> (n == "black"@ || n == "white"@ || n == "red"@ || n
            == "green"@ || n == "blue"@ || n == "yellow"@ || n == "cyan"@ || n == "magenta"@ || n
            == "orange"@ || n == "gray"@ || n == "grey"@ || n == "none"@),
{
    reveal_strlit("black");
    reveal_strlit("white");
    reveal_strlit("red");
    reveal_strlit("green");
    reveal_strlit("blue");
    reveal_strlit("yellow");
    reveal_strlit("cyan");
    reveal_strlit("magenta");
    reveal_strlit("orange");
    reveal_strlit("gray");
    reveal_strlit("grey");
    reveal_strlit("none");
    reveal_strlit("#000000");
    reveal_strlit("#ffffff");
    reveal_strlit("#ff0000");
    reveal_strlit("#008000");
    reveal_strlit("#0000ff");
    reveal_strlit("#ffff00");
    reveal_strlit("#00ffff");
    reveal_strlit("#ff00ff");
    reveal_strlit("#ffa500");
    reveal_strlit("#808080");
    reveal_strlit("");
    assert("black"@[0] == 'b' && "white"@[0] == 'w' && "red"@[0] == 'r' && "green"@[0] == 'g');
    assert("blue"@[0] == 'b' && "blue"@[1] == 'l' && "black"@[1] == 'l' && "black"@[2] == 'a');
    assert("blue"@[2] == 'u' && "yellow"@[0] == 'y' && "cyan"@[0] == 'c' && "magenta"@[0] == 'm');
    assert("orange"@[0] == 'o' && "gray"@[0] == 'g' && "grey"@[0] == 'g' && "none"@[0] == 'n');
    assert("gray"@[2] == 'a' && "grey"@[2] == 'e' && "green"@[2] == 'e' && "green"@[3] == 'e');
    assert("grey"@[3] == 'y');
    assert("#000000"@ =~= seq!['#', '0', '0', '0', '0', '0', '0']);
    assert("#ffffff"@ =~= seq!['#', 'f', 'f', 'f', 'f', 'f', 'f']);
    assert("#ff0000"@ =~= seq!['#', 'f', 'f', '0', '0', '0', '0']);
    assert("#008000"@ =~= seq!['#', '0', '0', '8', '0', '0', '0']);
    assert("#0000ff"@ =~= seq!['#', '0', '0', '0', '0', 'f', 'f']);
    assert("#ffff00"@ =~= seq!['#', 'f', 'f', 'f', 'f', '0', '0']);
    assert("#00ffff"@ =~= seq!['#', '0', '0', 'f', 'f', 'f', 'f']);
    assert("#ff00ff"@ =~= seq!['#', 'f', 'f', '0', '0', 'f', 'f']);
    assert("#ffa500"@ =~= seq!['#', 'f', 'f', 'a', '5', '0', '0']);
    assert("#808080"@ =~= seq!['#', '8', '0', '8', '0', '8', '0']);
    assert(""@ =~= Seq::<char>::empty());
}

// ---------------------------------------------------------------------------
// Comments and pseudo-comments.
// ---------------------------------------------------------------------------
/// Text that begins with `%_` or `%AI`: an Illustrator pseudo-comment.
pub open spec fn pseudo_prefixed(t: Seq<char>) -> bool {
    ||| (t.len() >= 2 && t[0] == '%' && t[1] == '_')
    ||| (t.len() >= 3 && t[0] == '%' && t[1] == 'A' && t[2] == 'I')
}

/// The kind a token of comment text has.
pub open spec fn is_comment_kind(k: TokenType) -> bool {
    k == TokenType::Comment || k == TokenType::PseudoComment
}

/// Every comment token of any source begins with `%`, and it is a
/// pseudo-comment exactly when it begins with `%_` or `%AI`.
pub proof fn comment_kind_law(s: Seq<char>, p: int)
    ensures
        forall|i: int|
            #![trigger lex_from(s, p)[i]]
            0 <= i < lex_from(s, p).len() && is_comment_kind(lex_from(s, p)[i].0) ==> {
                let t = lex_from(s, p)[i];
                &&& t.1.len() >= 1
                &&& t.1[0] == '%'
                &&& (t.0 == TokenType::PseudoComment <==> pseudo_prefixed(t.1))
            },
    decreases s.len() - p,
{
    if 0 <= p <= s.len() {
        let q = skip_space(s, p);
        lemma_skip_space(s, p);
        if q < s.len() {
            lemma_token_at(s, q);
            let (t, n) = token_at(s, q);
            comment_kind_law(s, n);
            if s[q] == '%' {
                lemma_line_end(s, q + 1);
                let e = line_end(s, q + 1);
                let text = s.subrange(q, e);
                assert(text[0] == '%');
                if text.len() >= 2 {
                    assert(seq!['%', '_'].is_prefix_of(text) <==> (text[0] == '%' && text[1] == '_')) by {
                        if text[0] == '%' && text[1] == '_' {
                            assert(text.subrange(0, 2) =~= seq!['%', '_']);
                        }
                    }
                }
                if text.len() >= 3 {
                    assert(seq!['%', 'A', 'I'].is_prefix_of(text) <==> (text[0] == '%' && text[1] == 'A'
                        && text[2] == 'I')) by {
                        if text[0] == '%' && text[1] == 'A' && text[2] == 'I' {
                            assert(text.subrange(0, 3) =~= seq!['%', 'A', 'I']);
                        }
                    }
                }
                assert(comment_type(text) == TokenType::PseudoComment <==> pseudo_prefixed(text));
            }
        }
    }
}

/// The same for all tokens of a source, the end-of-input token included.
pub proof fn comment_kind_tokens_law(s: Seq<char>)
    ensures
        forall|i: int|
            #![trigger lex_spec(s, 0)[i]]
            0 <= i < lex_spec(s, 0).len() && is_comment_kind(lex_spec(s, 0)[i].0) ==> {
                let t = lex_spec(s, 0)[i];
                &&& t.1.len() >= 1
                &&& t.1[0] == '%'
                &&& (t.0 == TokenType::PseudoComment <==> pseudo_prefixed(t.1))
            },
{
    comment_kind_law(s, 0);
    let l = lex_from(s, 0);
    assert forall|i: int| 0 <= i < lex_spec(s, 0).len() && is_comment_kind(lex_spec(s, 0)[i].0) implies {
        let t = lex_spec(s, 0)[i];
        &&& t.1.len() >= 1
        &&& t.1[0] == '%'
        &&& (t.0 == TokenType::PseudoComment <==> pseudo_prefixed(t.1))
    } by {
        if i < l.len() {
            assert(lex_spec(s, 0)[i] == l[i]);
        }
    }
}

// ---------------------------------------------------------------------------
// Layer sections of the metadata sidecar.
// ---------------------------------------------------------------------------
/// The name that the layer section of rank `k` is recorded under: the
/// layer name of the same rank, or an empty name past the list.
pub open spec fn name_of_rank(names: Seq<Seq<char>>, k: int) -> Seq<char> {
    if 0 <= k < names.len() {
        names[k]
    } else {
        Seq::<char>::empty()
    }
}

proof fn lemma_layer_names(s: Seq<char>, pos: int, idx: int, names: Seq<Seq<char>>)
    requires
        idx >= 0,
    ensures
        forall|k: int|
            0 <= k < layer_pgf_from(s, pos, idx, names).len() ==> (#[trigger] layer_pgf_from(
                s,
                pos,
                idx,
                names,
            )[k]).0 == name_of_rank(names, idx + k),
    decreases s.len() - pos,
{
    let all = layer_pgf_from(s, pos, idx, names);
    if 0 <= pos <= s.len() {
        match find_after(s, "%AI5_BeginLayer"@, pos) {
            None => {},
            Some(start) => {
                lemma_find_spec_some(s.skip(pos), "%AI5_BeginLayer"@);
                match find_after(s, "%AI5_EndLayer--"@, start) {
                    None => {},
                    Some(e) => {
                        reveal_strlit("%AI5_EndLayer--");
                        lemma_find_spec_some(s.skip(start), "%AI5_EndLayer--"@);
                        let end = e + "%AI5_EndLayer--"@.len();
                        let rest = layer_pgf_from(s, end, idx + 1, names);
                        lemma_layer_names(s, end, idx + 1, names);
                        assert forall|k: int| 0 <= k < all.len() implies (#[trigger] all[k]).0
                            == name_of_rank(names, idx + k) by {
                            if k > 0 {
                                assert(all[k] == rest[k - 1]);
                            }
                        }
                    },
                }
            },
        }
    }
}

/// The layer sections are recorded in order, each under the layer name of
/// the same rank (an empty name once the names run out).
pub proof fn layer_names_law(s: Seq<char>, names: Seq<Seq<char>>)
    ensures
        forall|k: int|
            0 <= k < layer_pgf_from(s, 0, 0, names).len() ==> (#[trigger] layer_pgf_from(
                s,
                0,
                0,
                names,
            )[k]).0 == name_of_rank(names, k),
{
    lemma_layer_names(s, 0, 0, names);
}

// ---------------------------------------------------------------------------
// Spot colours in the header.
// ---------------------------------------------------------------------------
/// Each spot colour's name, escaped and in parentheses.
pub open spec fn spot_name_entries(spots: Seq<(String, String)>) -> Seq<Seq<char>> {
    Seq::new(spots.len(), |i: int| seq!['('] + ps_escape_spec(spots[i].0@) + seq![')'])
}

proof fn lemma_custom_color_names(spots: Seq<(String, String)>)
    ensures
        custom_color_names(spots) == join_spec(spot_name_entries(spots), seq![' ']),
    decreases spots.len(),
{
    reveal_strlit("(");
    reveal_strlit(")");
    reveal_strlit(" ");
    if spots.len() > 1 {
        lemma_custom_color_names(spots.drop_last());
        assert(spot_name_entries(spots).drop_last() =~= spot_name_entries(spots.drop_last()));
        assert(custom_color_names(spots) =~= join_spec(spot_name_entries(spots), seq![' ']));
    } else if spots.len() == 1 {
        assert(custom_color_names(spots) =~= join_spec(spot_name_entries(spots), seq![' ']));
    }
}

/// The spot-colour section of a header lists every spot colour, in order:
/// its first line is `%%DocumentCustomColors: ` and each colour's escaped
/// name in parentheses, separated by single spaces, and one more line
/// follows for each colour.
pub proof fn spot_colors_listed_law(spots: Seq<(String, String)>)
    ensures
        spots.len() > 0 ==> spot_section(spots).len() == spots.len() + 1 && spot_section(spots)[0]
            == "%%DocumentCustomColors: "@ + join_spec(spot_name_entries(spots), seq![' ']),
        spots.len() == 0 ==> spot_section(spots).len() == 0,
{
    lemma_custom_color_names(spots);
}

// ---------------------------------------------------------------------------
// The PGF operator table.
// ---------------------------------------------------------------------------
proof fn lemma_operators_0()
    ensures
        operator_spec("m"@) == Some(("moveto"@, Some(2usize), "handle_moveto"@)),
        operator_spec("l"@) == Some(("lineto_smooth"@, Some(2usize), "handle_lineto"@)),
        operator_spec("L"@) == Some(("lineto_corner"@, Some(2usize), "handle_lineto"@)),
        operator_spec("c"@) == Some(("curveto_smooth"@, Some(6usize), "handle_curveto"@)),
        operator_spec("C"@) == Some(("curveto_corner"@, Some(6usize), "handle_curveto"@)),
        operator_spec("v"@) == Some(("curveto_v_smooth"@, Some(4usize), "handle_curveto_v"@)),
        operator_spec("V"@) == Some(("curveto_v_corner"@, Some(4usize), "handle_curveto_v"@)),
        operator_spec("y"@) == Some(("curveto_y_smooth"@, Some(4usize), "handle_curveto_y"@)),
        operator_spec("Y"@) == Some(("curveto_y_corner"@, Some(4usize), "handle_curveto_y"@)),
        operator_spec("H"@) == Some(("closepath"@, Some(0usize), "handle_closepath"@)),
        operator_spec("N"@) == Some(("path_noop_open"@, Some(0usize), "handle_render"@)),
        operator_spec("n"@) == Some(("path_noop_closed"@, Some(0usize), "handle_render"@)),
        operator_spec("F"@) == Some(("fill_open"@, Some(0usize), "handle_render"@)),
{
    reveal_strlit("m");
    assert("m"@.len() == 1 && "m"@[0] == 'm');
    reveal_strlit("l");
    assert("l"@.len() == 1 && "l"@[0] == 'l');
    reveal_strlit("L");
    assert("L"@.len() == 1 && "L"@[0] == 'L');
    reveal_strlit("c");
    assert("c"@.len() == 1 && "c"@[0] == 'c');
    reveal_strlit("C");
    assert("C"@.len() == 1 && "C"@[0] == 'C');
    reveal_strlit("v");
    assert("v"@.len() == 1 && "v"@[0] == 'v');
    reveal_strlit("V");
    assert("V"@.len() == 1 && "V"@[0] == 'V');
    reveal_strlit("y");
    assert("y"@.len() == 1 && "y"@[0] == 'y');
    reveal_strlit("Y");
    assert("Y"@.len() == 1 && "Y"@[0] == 'Y');
    reveal_strlit("H");
    assert("H"@.len() == 1 && "H"@[0] == 'H');
    reveal_strlit("N");
    assert("N"@.len() == 1 && "N"@[0] == 'N');
    reveal_strlit("n");
    assert("n"@.len() == 1 && "n"@[0] == 'n');
    reveal_strlit("F");
    assert("F"@.len() == 1 && "F"@[0] == 'F');
}

proof fn lemma_operators_1()
    ensures
        operator_spec("f"@) == Some(("fill_closed"@, Some(0usize), "handle_render"@)),
        operator_spec("S"@) == Some(("stroke_open"@, Some(0usize), "handle_render"@)),
        operator_spec("s"@) == Some(("stroke_closed"@, Some(0usize), "handle_render"@)),
        operator_spec("B"@) == Some(("fill_stroke_open"@, Some(0usize), "handle_render"@)),
        operator_spec("b"@) == Some(("fill_stroke_closed"@, Some(0usize), "handle_render"@)),
        operator_spec("g"@) == Some(("gray_fill"@, Some(1usize), "handle_gray_fill"@)),
        operator_spec("G"@) == Some(("gray_stroke"@, Some(1usize), "handle_gray_stroke"@)),
        operator_spec("k"@) == Some(("cmyk_fill"@, Some(4usize), "handle_cmyk_fill"@)),
        operator_spec("K"@) == Some(("cmyk_stroke"@, Some(4usize), "handle_cmyk_stroke"@)),
        operator_spec("Xa"@) == Some(("rgb_fill"@, Some(3usize), "handle_rgb_fill"@)),
        operator_spec("XA"@) == Some(("rgb_stroke"@, Some(3usize), "handle_rgb_stroke"@)),
        operator_spec("x"@) == Some(("spot_fill"@, None::<usize>, "handle_spot_fill"@)),
        operator_spec("X"@) == Some(("spot_stroke"@, None::<usize>, "handle_spot_stroke"@)),
{
    reveal_strlit("m");
    assert("m"@.len() == 1 && "m"@[0] == 'm');
    reveal_strlit("l");
    assert("l"@.len() == 1 && "l"@[0] == 'l');
    reveal_strlit("L");
    assert("L"@.len() == 1 && "L"@[0] == 'L');
    reveal_strlit("c");
    assert("c"@.len() == 1 && "c"@[0] == 'c');
    reveal_strlit("C");
    assert("C"@.len() == 1 && "C"@[0] == 'C');
    reveal_strlit("v");
    assert("v"@.len() == 1 && "v"@[0] == 'v');
    reveal_strlit("V");
    assert("V"@.len() == 1 && "V"@[0] == 'V');
    reveal_strlit("y");
    assert("y"@.len() == 1 && "y"@[0] == 'y');
    reveal_strlit("Y");
    assert("Y"@.len() == 1 && "Y"@[0] == 'Y');
    reveal_strlit("H");
    assert("H"@.len() == 1 && "H"@[0] == 'H');
    reveal_strlit("N");
    assert("N"@.len() == 1 && "N"@[0] == 'N');
    reveal_strlit("n");
    assert("n"@.len() == 1 && "n"@[0] == 'n');
    reveal_strlit("F");
    assert("F"@.len() == 1 && "F"@[0] == 'F');
    reveal_strlit("f");
    assert("f"@.len() == 1 && "f"@[0] == 'f');
    reveal_strlit("S");
    assert("S"@.len() == 1 && "S"@[0] == 'S');
    reveal_strlit("s");
    assert("s"@.len() == 1 && "s"@[0] == 's');
    reveal_strlit("B");
    assert("B"@.len() == 1 && "B"@[0] == 'B');
    reveal_strlit("b");
    assert("b"@.len() == 1 && "b"@[0] == 'b');
    reveal_strlit("g");
    assert("g"@.len() == 1 && "g"@[0] == 'g');
    reveal_strlit("G");
    assert("G"@.len() == 1 && "G"@[0] == 'G');
    reveal_strlit("k");
    assert("k"@.len() == 1 && "k"@[0] == 'k');
    reveal_strlit("K");
    assert("K"@.len() == 1 && "K"@[0] == 'K');
    reveal_strlit("Xa");
    assert("Xa"@.len() == 2 && "Xa"@[0] == 'X' && "Xa"@[1] == 'a');
    reveal_strlit("XA");
    assert("XA"@.len() == 2 && "XA"@[0] == 'X' && "XA"@[1] == 'A');
    reveal_strlit("x");
    assert("x"@.len() == 1 && "x"@[0] == 'x');
    reveal_strlit("X");
    assert("X"@.len() == 1 && "X"@[0] == 'X');
}

proof fn lemma_operators_2()
    ensures
        operator_spec("Xx"@) == Some(("custom_fill"@, None::<usize>, "handle_custom_fill"@)),
        operator_spec("XX"@) == Some(("custom_stroke"@, None::<usize>, "handle_custom_stroke"@)),
        operator_spec("w"@) == Some(("line_width"@, Some(1usize), "handle_line_width"@)),
        operator_spec("J"@) == Some(("line_cap"@, Some(1usize), "handle_line_cap"@)),
        operator_spec("j"@) == Some(("line_join"@, Some(1usize), "handle_line_join"@)),
        operator_spec("M"@) == Some(("miter_limit"@, Some(1usize), "handle_miter_limit"@)),
        operator_spec("d"@) == Some(("dash"@, None::<usize>, "handle_dash"@)),
        operator_spec("i"@) == Some(("flatness"@, Some(1usize), "handle_noop"@)),
        operator_spec("D"@) == Some(("setdash_ai"@, None::<usize>, "handle_dash"@)),
        operator_spec("q"@) == Some(("gsave"@, Some(0usize), "handle_gsave"@)),
        operator_spec("Q"@) == Some(("grestore"@, Some(0usize), "handle_grestore"@)),
        operator_spec("W"@) == Some(("clip"@, Some(0usize), "handle_clip"@)),
        operator_spec("cm"@) == Some(("concat_matrix"@, Some(6usize), "handle_concat_matrix"@)),
{
    reveal_strlit("m");
    assert("m"@.len() == 1 && "m"@[0] == 'm');
    reveal_strlit("l");
    assert("l"@.len() == 1 && "l"@[0] == 'l');
    reveal_strlit("L");
    assert("L"@.len() == 1 && "L"@[0] == 'L');
    reveal_strlit("c");
    assert("c"@.len() == 1 && "c"@[0] == 'c');
    reveal_strlit("C");
    assert("C"@.len() == 1 && "C"@[0] == 'C');
    reveal_strlit("v");
    assert("v"@.len() == 1 && "v"@[0] == 'v');
    reveal_strlit("V");
    assert("V"@.len() == 1 && "V"@[0] == 'V');
    reveal_strlit("y");
    assert("y"@.len() == 1 && "y"@[0] == 'y');
    reveal_strlit("Y");
    assert("Y"@.len() == 1 && "Y"@[0] == 'Y');
    reveal_strlit("H");
    assert("H"@.len() == 1 && "H"@[0] == 'H');
    reveal_strlit("N");
    assert("N"@.len() == 1 && "N"@[0] == 'N');
    reveal_strlit("n");
    assert("n"@.len() == 1 && "n"@[0] == 'n');
    reveal_strlit("F");
    assert("F"@.len() == 1 && "F"@[0] == 'F');
    reveal_strlit("f");
    assert("f"@.len() == 1 && "f"@[0] == 'f');
    reveal_strlit("S");
    assert("S"@.len() == 1 && "S"@[0] == 'S');
    reveal_strlit("s");
    assert("s"@.len() == 1 && "s"@[0] == 's');
    reveal_strlit("B");
    assert("B"@.len() == 1 && "B"@[0] == 'B');
    reveal_strlit("b");
    assert("b"@.len() == 1 && "b"@[0] == 'b');
    reveal_strlit("g");
    assert("g"@.len() == 1 && "g"@[0] == 'g');
    reveal_strlit("G");
    assert("G"@.len() == 1 && "G"@[0] == 'G');
    reveal_strlit("k");
    assert("k"@.len() == 1 && "k"@[0] == 'k');
    reveal_strlit("K");
    assert("K"@.len() == 1 && "K"@[0] == 'K');
    reveal_strlit("Xa");
    assert("Xa"@.len() == 2 && "Xa"@[0] == 'X' && "Xa"@[1] == 'a');
    reveal_strlit("XA");
    assert("XA"@.len() == 2 && "XA"@[0] == 'X' && "XA"@[1] == 'A');
    reveal_strlit("x");
    assert("x"@.len() == 1 && "x"@[0] == 'x');
    reveal_strlit("X");
    assert("X"@.len() == 1 && "X"@[0] == 'X');
    reveal_strlit("Xx");
    assert("Xx"@.len() == 2 && "Xx"@[0] == 'X' && "Xx"@[1] == 'x');
    reveal_strlit("XX");
    assert("XX"@.len() == 2 && "XX"@[0] == 'X' && "XX"@[1] == 'X');
    reveal_strlit("w");
    assert("w"@.len() == 1 && "w"@[0] == 'w');
    reveal_strlit("J");
    assert("J"@.len() == 1 && "J"@[0] == 'J');
    reveal_strlit("j");
    assert("j"@.len() == 1 && "j"@[0] == 'j');
    reveal_strlit("M");
    assert("M"@.len() == 1 && "M"@[0] == 'M');
    reveal_strlit("d");
    assert("d"@.len() == 1 && "d"@[0] == 'd');
    reveal_strlit("i");
    assert("i"@.len() == 1 && "i"@[0] == 'i');
    reveal_strlit("D");
    assert("D"@.len() == 1 && "D"@[0] == 'D');
    reveal_strlit("q");
    assert("q"@.len() == 1 && "q"@[0] == 'q');
    reveal_strlit("Q");
    assert("Q"@.len() == 1 && "Q"@[0] == 'Q');
    reveal_strlit("W");
    assert("W"@.len() == 1 && "W"@[0] == 'W');
    reveal_strlit("cm");
    assert("cm"@.len() == 2 && "cm"@[0] == 'c' && "cm"@[1] == 'm');
}

proof fn lemma_operators_3()
    ensures
        operator_spec("u"@) == Some(("begin_group"@, Some(0usize), "handle_begin_group"@)),
        operator_spec("U"@) == Some(("end_group"@, Some(0usize), "handle_end_group"@)),
        operator_spec("*u"@) == Some(("begin_compound"@, Some(0usize), "handle_begin_compound"@)),
        operator_spec("*U"@) == Some(("end_compound"@, Some(0usize), "handle_end_compound"@)),
        operator_spec("Lb"@) == Some(("begin_layer"@, None::<usize>, "handle_begin_layer"@)),
        operator_spec("LB"@) == Some(("end_layer"@, Some(0usize), "handle_end_layer"@)),
        operator_spec("Ln"@) == Some(("layer_name"@, Some(1usize), "handle_layer_name"@)),
        operator_spec("To"@) == Some(("begin_text"@, Some(1usize), "handle_begin_text"@)),
        operator_spec("TO"@) == Some(("end_text"@, Some(0usize), "handle_end_text"@)),
        operator_spec("Tp"@) == Some(("text_path"@, Some(6usize), "handle_text_path"@)),
        operator_spec("TP"@) == Some(("end_text_path"@, Some(0usize), "handle_end_text_path"@)),
        operator_spec("Tx"@) == Some(("text_render"@, Some(1usize), "handle_text_render"@)),
        operator_spec("TX"@) == Some(("text_render_end"@, Some(0usize), "handle_noop"@)),
{
    reveal_strlit("m");
    assert("m"@.len() == 1 && "m"@[0] == 'm');
    reveal_strlit("l");
    assert("l"@.len() == 1 && "l"@[0] == 'l');
    reveal_strlit("L");
    assert("L"@.len() == 1 && "L"@[0] == 'L');
    reveal_strlit("c");
    assert("c"@.len() == 1 && "c"@[0] == 'c');
    reveal_strlit("C");
    assert("C"@.len() == 1 && "C"@[0] == 'C');
    reveal_strlit("v");
    assert("v"@.len() == 1 && "v"@[0] == 'v');
    reveal_strlit("V");
    assert("V"@.len() == 1 && "V"@[0] == 'V');
    reveal_strlit("y");
    assert("y"@.len() == 1 && "y"@[0] == 'y');
    reveal_strlit("Y");
    assert("Y"@.len() == 1 && "Y"@[0] == 'Y');
    reveal_strlit("H");
    assert("H"@.len() == 1 && "H"@[0] == 'H');
    reveal_strlit("N");
    assert("N"@.len() == 1 && "N"@[0] == 'N');
    reveal_strlit("n");
    assert("n"@.len() == 1 && "n"@[0] == 'n');
    reveal_strlit("F");
    assert("F"@.len() == 1 && "F"@[0] == 'F');
    reveal_strlit("f");
    assert("f"@.len() == 1 && "f"@[0] == 'f');
    reveal_strlit("S");
    assert("S"@.len() == 1 && "S"@[0] == 'S');
    reveal_strlit("s");
    assert("s"@.len() == 1 && "s"@[0] == 's');
    reveal_strlit("B");
    assert("B"@.len() == 1 && "B"@[0] == 'B');
    reveal_strlit("b");
    assert("b"@.len() == 1 && "b"@[0] == 'b');
    reveal_strlit("g");
    assert("g"@.len() == 1 && "g"@[0] == 'g');
    reveal_strlit("G");
    assert("G"@.len() == 1 && "G"@[0] == 'G');
    reveal_strlit("k");
    assert("k"@.len() == 1 && "k"@[0] == 'k');
    reveal_strlit("K");
    assert("K"@.len() == 1 && "K"@[0] == 'K');
    reveal_strlit("Xa");
    assert("Xa"@.len() == 2 && "Xa"@[0] == 'X' && "Xa"@[1] == 'a');
    reveal_strlit("XA");
    assert("XA"@.len() == 2 && "XA"@[0] == 'X' && "XA"@[1] == 'A');
    reveal_strlit("x");
    assert("x"@.len() == 1 && "x"@[0] == 'x');
    reveal_strlit("X");
    assert("X"@.len() == 1 && "X"@[0] == 'X');
    reveal_strlit("Xx");
    assert("Xx"@.len() == 2 && "Xx"@[0] == 'X' && "Xx"@[1] == 'x');
    reveal_strlit("XX");
    assert("XX"@.len() == 2 && "XX"@[0] == 'X' && "XX"@[1] == 'X');
    reveal_strlit("w");
    assert("w"@.len() == 1 && "w"@[0] == 'w');
    reveal_strlit("J");
    assert("J"@.len() == 1 && "J"@[0] == 'J');
    reveal_strlit("j");
    assert("j"@.len() == 1 && "j"@[0] == 'j');
    reveal_strlit("M");
    assert("M"@.len() == 1 && "M"@[0] == 'M');
    reveal_strlit("d");
    assert("d"@.len() == 1 && "d"@[0] == 'd');
    reveal_strlit("i");
    assert("i"@.len() == 1 && "i"@[0] == 'i');
    reveal_strlit("D");
    assert("D"@.len() == 1 && "D"@[0] == 'D');
    reveal_strlit("q");
    assert("q"@.len() == 1 && "q"@[0] == 'q');
    reveal_strlit("Q");
    assert("Q"@.len() == 1 && "Q"@[0] == 'Q');
    reveal_strlit("W");
    assert("W"@.len() == 1 && "W"@[0] == 'W');
    reveal_strlit("cm");
    assert("cm"@.len() == 2 && "cm"@[0] == 'c' && "cm"@[1] == 'm');
    reveal_strlit("u");
    assert("u"@.len() == 1 && "u"@[0] == 'u');
    reveal_strlit("U");
    assert("U"@.len() == 1 && "U"@[0] == 'U');
    reveal_strlit("*u");
    assert("*u"@.len() == 2 && "*u"@[0] == '*' && "*u"@[1] == 'u');
    reveal_strlit("*U");
    assert("*U"@.len() == 2 && "*U"@[0] == '*' && "*U"@[1] == 'U');
    reveal_strlit("Lb");
    assert("Lb"@.len() == 2 && "Lb"@[0] == 'L' && "Lb"@[1] == 'b');
    reveal_strlit("LB");
    assert("LB"@.len() == 2 && "LB"@[0] == 'L' && "LB"@[1] == 'B');
    reveal_strlit("Ln");
    assert("Ln"@.len() == 2 && "Ln"@[0] == 'L' && "Ln"@[1] == 'n');
    reveal_strlit("To");
    assert("To"@.len() == 2 && "To"@[0] == 'T' && "To"@[1] == 'o');
    reveal_strlit("TO");
    assert("TO"@.len() == 2 && "TO"@[0] == 'T' && "TO"@[1] == 'O');
    reveal_strlit("Tp");
    assert("Tp"@.len() == 2 && "Tp"@[0] == 'T' && "Tp"@[1] == 'p');
    reveal_strlit("TP");
    assert("TP"@.len() == 2 && "TP"@[0] == 'T' && "TP"@[1] == 'P');
    reveal_strlit("Tx");
    assert("Tx"@.len() == 2 && "Tx"@[0] == 'T' && "Tx"@[1] == 'x');
    reveal_strlit("TX");
    assert("TX"@.len() == 2 && "TX"@[0] == 'T' && "TX"@[1] == 'X');
}

proof fn lemma_operators_4()
    ensures
        operator_spec("Tf"@) == Some(("text_font"@, Some(2usize), "handle_text_font"@)),
        operator_spec("Tj"@) == Some(("text_show"@, Some(1usize), "handle_text_render"@)),
        operator_spec("TJ"@) == Some(("text_show_kerned"@, None::<usize>, "handle_noop"@)),
        operator_spec("Tk"@) == Some(("text_tracking"@, Some(2usize), "handle_noop"@)),
        operator_spec("Tc"@) == Some(("text_char_spacing"@, Some(1usize), "handle_noop"@)),
        operator_spec("Tw"@) == Some(("text_word_spacing"@, Some(1usize), "handle_noop"@)),
        operator_spec("Ts"@) == Some(("text_rise"@, Some(1usize), "handle_noop"@)),
        operator_spec("Ti"@) == Some(("text_indent"@, Some(1usize), "handle_noop"@)),
        operator_spec("Tz"@) == Some(("text_horiz_scale"@, Some(1usize), "handle_noop"@)),
        operator_spec("TA"@) == Some(("text_alignment"@, None::<usize>, "handle_noop"@)),
        operator_spec("Tq"@) == Some(("text_hanging_punct"@, None::<usize>, "handle_noop"@)),
        operator_spec("Bb"@) == Some(("begin_gradient"@, Some(1usize), "handle_begin_gradient"@)),
        operator_spec("BB"@) == Some(("end_gradient"@, Some(0usize), "handle_end_gradient"@)),
{
    reveal_strlit("m");
    assert("m"@.len() == 1 && "m"@[0] == 'm');
    reveal_strlit("l");
    assert("l"@.len() == 1 && "l"@[0] == 'l');
    reveal_strlit("L");
    assert("L"@.len() == 1 && "L"@[0] == 'L');
    reveal_strlit("c");
    assert("c"@.len() == 1 && "c"@[0] == 'c');
    reveal_strlit("C");
    assert("C"@.len() == 1 && "C"@[0] == 'C');
    reveal_strlit("v");
    assert("v"@.len() == 1 && "v"@[0] == 'v');
    reveal_strlit("V");
    assert("V"@.len() == 1 && "V"@[0] == 'V');
    reveal_strlit("y");
    assert("y"@.len() == 1 && "y"@[0] == 'y');
    reveal_strlit("Y");
    assert("Y"@.len() == 1 && "Y"@[0] == 'Y');
    reveal_strlit("H");
    assert("H"@.len() == 1 && "H"@[0] == 'H');
    reveal_strlit("N");
    assert("N"@.len() == 1 && "N"@[0] == 'N');
    reveal_strlit("n");
    assert("n"@.len() == 1 && "n"@[0] == 'n');
    reveal_strlit("F");
    assert("F"@.len() == 1 && "F"@[0] == 'F');
    reveal_strlit("f");
    assert("f"@.len() == 1 && "f"@[0] == 'f');
    reveal_strlit("S");
    assert("S"@.len() == 1 && "S"@[0] == 'S');
    reveal_strlit("s");
    assert("s"@.len() == 1 && "s"@[0] == 's');
    reveal_strlit("B");
    assert("B"@.len() == 1 && "B"@[0] == 'B');
    reveal_strlit("b");
    assert("b"@.len() == 1 && "b"@[0] == 'b');
    reveal_strlit("g");
    assert("g"@.len() == 1 && "g"@[0] == 'g');
    reveal_strlit("G");
    assert("G"@.len() == 1 && "G"@[0] == 'G');
    reveal_strlit("k");
    assert("k"@.len() == 1 && "k"@[0] == 'k');
    reveal_strlit("K");
    assert("K"@.len() == 1 && "K"@[0] == 'K');
    reveal_strlit("Xa");
    assert("Xa"@.len() == 2 && "Xa"@[0] == 'X' && "Xa"@[1] == 'a');
    reveal_strlit("XA");
    assert("XA"@.len() == 2 && "XA"@[0] == 'X' && "XA"@[1] == 'A');
    reveal_strlit("x");
    assert("x"@.len() == 1 && "x"@[0] == 'x');
    reveal_strlit("X");
    assert("X"@.len() == 1 && "X"@[0] == 'X');
    reveal_strlit("Xx");
    assert("Xx"@.len() == 2 && "Xx"@[0] == 'X' && "Xx"@[1] == 'x');
    reveal_strlit("XX");
    assert("XX"@.len() == 2 && "XX"@[0] == 'X' && "XX"@[1] == 'X');
    reveal_strlit("w");
    assert("w"@.len() == 1 && "w"@[0] == 'w');
    reveal_strlit("J");
    assert("J"@.len() == 1 && "J"@[0] == 'J');
    reveal_strlit("j");
    assert("j"@.len() == 1 && "j"@[0] == 'j');
    reveal_strlit("M");
    assert("M"@.len() == 1 && "M"@[0] == 'M');
    reveal_strlit("d");
    assert("d"@.len() == 1 && "d"@[0] == 'd');
    reveal_strlit("i");
    assert("i"@.len() == 1 && "i"@[0] == 'i');
    reveal_strlit("D");
    assert("D"@.len() == 1 && "D"@[0] == 'D');
    reveal_strlit("q");
    assert("q"@.len() == 1 && "q"@[0] == 'q');
    reveal_strlit("Q");
    assert("Q"@.len() == 1 && "Q"@[0] == 'Q');
    reveal_strlit("W");
    assert("W"@.len() == 1 && "W"@[0] == 'W');
    reveal_strlit("cm");
    assert("cm"@.len() == 2 && "cm"@[0] == 'c' && "cm"@[1] == 'm');
    reveal_strlit("u");
    assert("u"@.len() == 1 && "u"@[0] == 'u');
    reveal_strlit("U");
    assert("U"@.len() == 1 && "U"@[0] == 'U');
    reveal_strlit("*u");
    assert("*u"@.len() == 2 && "*u"@[0] == '*' && "*u"@[1] == 'u');
    reveal_strlit("*U");
    assert("*U"@.len() == 2 && "*U"@[0] == '*' && "*U"@[1] == 'U');
    reveal_strlit("Lb");
    assert("Lb"@.len() == 2 && "Lb"@[0] == 'L' && "Lb"@[1] == 'b');
    reveal_strlit("LB");
    assert("LB"@.len() == 2 && "LB"@[0] == 'L' && "LB"@[1] == 'B');
    reveal_strlit("Ln");
    assert("Ln"@.len() == 2 && "Ln"@[0] == 'L' && "Ln"@[1] == 'n');
    reveal_strlit("To");
    assert("To"@.len() == 2 && "To"@[0] == 'T' && "To"@[1] == 'o');
    reveal_strlit("TO");
    assert("TO"@.len() == 2 && "TO"@[0] == 'T' && "TO"@[1] == 'O');
    reveal_strlit("Tp");
    assert("Tp"@.len() == 2 && "Tp"@[0] == 'T' && "Tp"@[1] == 'p');
    reveal_strlit("TP");
    assert("TP"@.len() == 2 && "TP"@[0] == 'T' && "TP"@[1] == 'P');
    reveal_strlit("Tx");
    assert("Tx"@.len() == 2 && "Tx"@[0] == 'T' && "Tx"@[1] == 'x');
    reveal_strlit("TX");
    assert("TX"@.len() == 2 && "TX"@[0] == 'T' && "TX"@[1] == 'X');
    reveal_strlit("Tf");
    assert("Tf"@.len() == 2 && "Tf"@[0] == 'T' && "Tf"@[1] == 'f');
    reveal_strlit("Tj");
    assert("Tj"@.len() == 2 && "Tj"@[0] == 'T' && "Tj"@[1] == 'j');
    reveal_strlit("TJ");
    assert("TJ"@.len() == 2 && "TJ"@[0] == 'T' && "TJ"@[1] == 'J');
    reveal_strlit("Tk");
    assert("Tk"@.len() == 2 && "Tk"@[0] == 'T' && "Tk"@[1] == 'k');
    reveal_strlit("Tc");
    assert("Tc"@.len() == 2 && "Tc"@[0] == 'T' && "Tc"@[1] == 'c');
    reveal_strlit("Tw");
    assert("Tw"@.len() == 2 && "Tw"@[0] == 'T' && "Tw"@[1] == 'w');
    reveal_strlit("Ts");
    assert("Ts"@.len() == 2 && "Ts"@[0] == 'T' && "Ts"@[1] == 's');
    reveal_strlit("Ti");
    assert("Ti"@.len() == 2 && "Ti"@[0] == 'T' && "Ti"@[1] == 'i');
    reveal_strlit("Tz");
    assert("Tz"@.len() == 2 && "Tz"@[0] == 'T' && "Tz"@[1] == 'z');
    reveal_strlit("TA");
    assert("TA"@.len() == 2 && "TA"@[0] == 'T' && "TA"@[1] == 'A');
    reveal_strlit("Tq");
    assert("Tq"@.len() == 2 && "Tq"@[0] == 'T' && "Tq"@[1] == 'q');
    reveal_strlit("Bb");
    assert("Bb"@.len() == 2 && "Bb"@[0] == 'B' && "Bb"@[1] == 'b');
    reveal_strlit("BB");
    assert("BB"@.len() == 2 && "BB"@[0] == 'B' && "BB"@[1] == 'B');
}

proof fn lemma_operators_5()
    ensures
        operator_spec("Bd"@) == Some(("begin_gradient_def"@, None::<usize>, "handle_begin_gradient_def"@)),
        operator_spec("BD"@) == Some(("end_gradient_def"@, Some(0usize), "handle_end_gradient_def"@)),
        operator_spec("Bg"@) == Some(("gradient_geometry"@, None::<usize>, "handle_gradient_geometry"@)),
        operator_spec("Bs"@) == Some(("gradient_stop"@, None::<usize>, "handle_gradient_stop"@)),
        operator_spec("BR"@) == Some(("gradient_ramp"@, None::<usize>, "handle_noop"@)),
        operator_spec("Bm"@) == Some(("gradient_midpoint"@, None::<usize>, "handle_noop"@)),
        operator_spec("E"@) == Some(("begin_pattern"@, None::<usize>, "handle_noop"@)),
        operator_spec("e"@) == Some(("end_pattern"@, Some(0usize), "handle_noop"@)),
        operator_spec("AI5_SetPalette"@) == Some(("set_palette"@, None::<usize>, "handle_noop"@)),
        operator_spec("XI"@) == Some(("raster_image"@, None::<usize>, "handle_raster_image"@)),
        operator_spec("'"@) == Some(("placed_file"@, None::<usize>, "handle_noop"@)),
        operator_spec("Adobe_Illustrator_AI5"@) == Some(("ai5_procset"@, Some(1usize), "handle_noop"@)),
        operator_spec("Adobe_ctte"@) == Some(("ctte_procset"@, None::<usize>, "handle_noop"@)),
{
    reveal_strlit("m");
    assert("m"@.len() == 1 && "m"@[0] == 'm');
    reveal_strlit("l");
    assert("l"@.len() == 1 && "l"@[0] == 'l');
    reveal_strlit("L");
    assert("L"@.len() == 1 && "L"@[0] == 'L');
    reveal_strlit("c");
    assert("c"@.len() == 1 && "c"@[0] == 'c');
    reveal_strlit("C");
    assert("C"@.len() == 1 && "C"@[0] == 'C');
    reveal_strlit("v");
    assert("v"@.len() == 1 && "v"@[0] == 'v');
    reveal_strlit("V");
    assert("V"@.len() == 1 && "V"@[0] == 'V');
    reveal_strlit("y");
    assert("y"@.len() == 1 && "y"@[0] == 'y');
    reveal_strlit("Y");
    assert("Y"@.len() == 1 && "Y"@[0] == 'Y');
    reveal_strlit("H");
    assert("H"@.len() == 1 && "H"@[0] == 'H');
    reveal_strlit("N");
    assert("N"@.len() == 1 && "N"@[0] == 'N');
    reveal_strlit("n");
    assert("n"@.len() == 1 && "n"@[0] == 'n');
    reveal_strlit("F");
    assert("F"@.len() == 1 && "F"@[0] == 'F');
    reveal_strlit("f");
    assert("f"@.len() == 1 && "f"@[0] == 'f');
    reveal_strlit("S");
    assert("S"@.len() == 1 && "S"@[0] == 'S');
    reveal_strlit("s");
    assert("s"@.len() == 1 && "s"@[0] == 's');
    reveal_strlit("B");
    assert("B"@.len() == 1 && "B"@[0] == 'B');
    reveal_strlit("b");
    assert("b"@.len() == 1 && "b"@[0] == 'b');
    reveal_strlit("g");
    assert("g"@.len() == 1 && "g"@[0] == 'g');
    reveal_strlit("G");
    assert("G"@.len() == 1 && "G"@[0] == 'G');
    reveal_strlit("k");
    assert("k"@.len() == 1 && "k"@[0] == 'k');
    reveal_strlit("K");
    assert("K"@.len() == 1 && "K"@[0] == 'K');
    reveal_strlit("Xa");
    assert("Xa"@.len() == 2 && "Xa"@[0] == 'X' && "Xa"@[1] == 'a');
    reveal_strlit("XA");
    assert("XA"@.len() == 2 && "XA"@[0] == 'X' && "XA"@[1] == 'A');
    reveal_strlit("x");
    assert("x"@.len() == 1 && "x"@[0] == 'x');
    reveal_strlit("X");
    assert("X"@.len() == 1 && "X"@[0] == 'X');
    reveal_strlit("Xx");
    assert("Xx"@.len() == 2 && "Xx"@[0] == 'X' && "Xx"@[1] == 'x');
    reveal_strlit("XX");
    assert("XX"@.len() == 2 && "XX"@[0] == 'X' && "XX"@[1] == 'X');
    reveal_strlit("w");
    assert("w"@.len() == 1 && "w"@[0] == 'w');
    reveal_strlit("J");
    assert("J"@.len() == 1 && "J"@[0] == 'J');
    reveal_strlit("j");
    assert("j"@.len() == 1 && "j"@[0] == 'j');
    reveal_strlit("M");
    assert("M"@.len() == 1 && "M"@[0] == 'M');
    reveal_strlit("d");
    assert("d"@.len() == 1 && "d"@[0] == 'd');
    reveal_strlit("i");
    assert("i"@.len() == 1 && "i"@[0] == 'i');
    reveal_strlit("D");
    assert("D"@.len() == 1 && "D"@[0] == 'D');
    reveal_strlit("q");
    assert("q"@.len() == 1 && "q"@[0] == 'q');
    reveal_strlit("Q");
    assert("Q"@.len() == 1 && "Q"@[0] == 'Q');
    reveal_strlit("W");
    assert("W"@.len() == 1 && "W"@[0] == 'W');
    reveal_strlit("cm");
    assert("cm"@.len() == 2 && "cm"@[0] == 'c' && "cm"@[1] == 'm');
    reveal_strlit("u");
    assert("u"@.len() == 1 && "u"@[0] == 'u');
    reveal_strlit("U");
    assert("U"@.len() == 1 && "U"@[0] == 'U');
    reveal_strlit("*u");
    assert("*u"@.len() == 2 && "*u"@[0] == '*' && "*u"@[1] == 'u');
    reveal_strlit("*U");
    assert("*U"@.len() == 2 && "*U"@[0] == '*' && "*U"@[1] == 'U');
    reveal_strlit("Lb");
    assert("Lb"@.len() == 2 && "Lb"@[0] == 'L' && "Lb"@[1] == 'b');
    reveal_strlit("LB");
    assert("LB"@.len() == 2 && "LB"@[0] == 'L' && "LB"@[1] == 'B');
    reveal_strlit("Ln");
    assert("Ln"@.len() == 2 && "Ln"@[0] == 'L' && "Ln"@[1] == 'n');
    reveal_strlit("To");
    assert("To"@.len() == 2 && "To"@[0] == 'T' && "To"@[1] == 'o');
    reveal_strlit("TO");
    assert("TO"@.len() == 2 && "TO"@[0] == 'T' && "TO"@[1] == 'O');
    reveal_strlit("Tp");
    assert("Tp"@.len() == 2 && "Tp"@[0] == 'T' && "Tp"@[1] == 'p');
    reveal_strlit("TP");
    assert("TP"@.len() == 2 && "TP"@[0] == 'T' && "TP"@[1] == 'P');
    reveal_strlit("Tx");
    assert("Tx"@.len() == 2 && "Tx"@[0] == 'T' && "Tx"@[1] == 'x');
    reveal_strlit("TX");
    assert("TX"@.len() == 2 && "TX"@[0] == 'T' && "TX"@[1] == 'X');
    reveal_strlit("Tf");
    assert("Tf"@.len() == 2 && "Tf"@[0] == 'T' && "Tf"@[1] == 'f');
    reveal_strlit("Tj");
    assert("Tj"@.len() == 2 && "Tj"@[0] == 'T' && "Tj"@[1] == 'j');
    reveal_strlit("TJ");
    assert("TJ"@.len() == 2 && "TJ"@[0] == 'T' && "TJ"@[1] == 'J');
    reveal_strlit("Tk");
    assert("Tk"@.len() == 2 && "Tk"@[0] == 'T' && "Tk"@[1] == 'k');
    reveal_strlit("Tc");
    assert("Tc"@.len() == 2 && "Tc"@[0] == 'T' && "Tc"@[1] == 'c');
    reveal_strlit("Tw");
    assert("Tw"@.len() == 2 && "Tw"@[0] == 'T' && "Tw"@[1] == 'w');
    reveal_strlit("Ts");
    assert("Ts"@.len() == 2 && "Ts"@[0] == 'T' && "Ts"@[1] == 's');
    reveal_strlit("Ti");
    assert("Ti"@.len() == 2 && "Ti"@[0] == 'T' && "Ti"@[1] == 'i');
    reveal_strlit("Tz");
    assert("Tz"@.len() == 2 && "Tz"@[0] == 'T' && "Tz"@[1] == 'z');
    reveal_strlit("TA");
    assert("TA"@.len() == 2 && "TA"@[0] == 'T' && "TA"@[1] == 'A');
    reveal_strlit("Tq");
    assert("Tq"@.len() == 2 && "Tq"@[0] == 'T' && "Tq"@[1] == 'q');
    reveal_strlit("Bb");
    assert("Bb"@.len() == 2 && "Bb"@[0] == 'B' && "Bb"@[1] == 'b');
    reveal_strlit("BB");
    assert("BB"@.len() == 2 && "BB"@[0] == 'B' && "BB"@[1] == 'B');
    reveal_strlit("Bd");
    assert("Bd"@.len() == 2 && "Bd"@[0] == 'B' && "Bd"@[1] == 'd');
    reveal_strlit("BD");
    assert("BD"@.len() == 2 && "BD"@[0] == 'B' && "BD"@[1] == 'D');
    reveal_strlit("Bg");
    assert("Bg"@.len() == 2 && "Bg"@[0] == 'B' && "Bg"@[1] == 'g');
    reveal_strlit("Bs");
    assert("Bs"@.len() == 2 && "Bs"@[0] == 'B' && "Bs"@[1] == 's');
    reveal_strlit("BR");
    assert("BR"@.len() == 2 && "BR"@[0] == 'B' && "BR"@[1] == 'R');
    reveal_strlit("Bm");
    assert("Bm"@.len() == 2 && "Bm"@[0] == 'B' && "Bm"@[1] == 'm');
    reveal_strlit("E");
    assert("E"@.len() == 1 && "E"@[0] == 'E');
    reveal_strlit("e");
    assert("e"@.len() == 1 && "e"@[0] == 'e');
    reveal_strlit("AI5_SetPalette");
    assert("AI5_SetPalette"@.len() == 14 && "AI5_SetPalette"@[0] == 'A' && "AI5_SetPalette"@[1] == 'I' && "AI5_SetPalette"@[2] == '5' && "AI5_SetPalette"@[3] == '_' && "AI5_SetPalette"@[4] == 'S' && "AI5_SetPalette"@[5] == 'e' && "AI5_SetPalette"@[6] == 't' && "AI5_SetPalette"@[7] == 'P' && "AI5_SetPalette"@[8] == 'a' && "AI5_SetPalette"@[9] == 'l' && "AI5_SetPalette"@[10] == 'e' && "AI5_SetPalette"@[11] == 't' && "AI5_SetPalette"@[12] == 't' && "AI5_SetPalette"@[13] == 'e');
    reveal_strlit("XI");
    assert("XI"@.len() == 2 && "XI"@[0] == 'X' && "XI"@[1] == 'I');
    reveal_strlit("'");
    assert("'"@.len() == 1 && "'"@[0] == '\'');
    reveal_strlit("Adobe_Illustrator_AI5");
    assert("Adobe_Illustrator_AI5"@.len() == 21 && "Adobe_Illustrator_AI5"@[0] == 'A' && "Adobe_Illustrator_AI5"@[1] == 'd' && "Adobe_Illustrator_AI5"@[2] == 'o' && "Adobe_Illustrator_AI5"@[3] == 'b' && "Adobe_Illustrator_AI5"@[4] == 'e' && "Adobe_Illustrator_AI5"@[5] == '_' && "Adobe_Illustrator_AI5"@[6] == 'I' && "Adobe_Illustrator_AI5"@[7] == 'l' && "Adobe_Illustrator_AI5"@[8] == 'l' && "Adobe_Illustrator_AI5"@[9] == 'u' && "Adobe_Illustrator_AI5"@[10] == 's' && "Adobe_Illustrator_AI5"@[11] == 't' && "Adobe_Illustrator_AI5"@[12] == 'r' && "Adobe_Illustrator_AI5"@[13] == 'a' && "Adobe_Illustrator_AI5"@[14] == 't' && "Adobe_Illustrator_AI5"@[15] == 'o' && "Adobe_Illustrator_AI5"@[16] == 'r' && "Adobe_Illustrator_AI5"@[17] == '_' && "Adobe_Illustrator_AI5"@[18] == 'A' && "Adobe_Illustrator_AI5"@[19] == 'I' && "Adobe_Illustrator_AI5"@[20] == '5');
    reveal_strlit("Adobe_ctte");
    assert("Adobe_ctte"@.len() == 10 && "Adobe_ctte"@[0] == 'A' && "Adobe_ctte"@[1] == 'd' && "Adobe_ctte"@[2] == 'o' && "Adobe_ctte"@[3] == 'b' && "Adobe_ctte"@[4] == 'e' && "Adobe_ctte"@[5] == '_' && "Adobe_ctte"@[6] == 'c' && "Adobe_ctte"@[7] == 't' && "Adobe_ctte"@[8] == 't' && "Adobe_ctte"@[9] == 'e');
}

proof fn lemma_operators_6()
    ensures
        operator_spec("Adobe_level2_AI5"@) == Some(("level2_procset"@, None::<usize>, "handle_noop"@)),
        operator_spec("Adobe_ColorImage_AI6"@) == Some(("colorimage_procset"@, None::<usize>, "handle_noop"@)),
        operator_spec("Adobe_shading_AI8"@) == Some(("shading_procset"@, None::<usize>, "handle_noop"@)),
        operator_spec("pop"@) == Some(("pop"@, Some(0usize), "handle_pop"@)),
        operator_spec("def"@) == Some(("define"@, Some(0usize), "handle_noop"@)),
        operator_spec("exec"@) == Some(("exec"@, Some(0usize), "handle_noop"@)),
        operator_spec("null"@) == Some(("null"@, Some(0usize), "handle_null"@)),
        operator_spec("true"@) == Some(("true"@, Some(0usize), "handle_true"@)),
        operator_spec("false"@) == Some(("false"@, Some(0usize), "handle_false"@)),
        operator_spec("bind"@) == Some(("bind"@, Some(0usize), "handle_noop"@)),
        operator_spec("dup"@) == Some(("dup"@, Some(0usize), "handle_dup"@)),
        operator_spec("exch"@) == Some(("exch"@, Some(0usize), "handle_exch"@)),
        operator_spec("copy"@) == Some(("copy"@, Some(1usize), "handle_noop"@)),
{
    reveal_strlit("m");
    assert("m"@.len() == 1 && "m"@[0] == 'm');
    reveal_strlit("l");
    assert("l"@.len() == 1 && "l"@[0] == 'l');
    reveal_strlit("L");
    assert("L"@.len() == 1 && "L"@[0] == 'L');
    reveal_strlit("c");
    assert("c"@.len() == 1 && "c"@[0] == 'c');
    reveal_strlit("C");
    assert("C"@.len() == 1 && "C"@[0] == 'C');
    reveal_strlit("v");
    assert("v"@.len() == 1 && "v"@[0] == 'v');
    reveal_strlit("V");
    assert("V"@.len() == 1 && "V"@[0] == 'V');
    reveal_strlit("y");
    assert("y"@.len() == 1 && "y"@[0] == 'y');
    reveal_strlit("Y");
    assert("Y"@.len() == 1 && "Y"@[0] == 'Y');
    reveal_strlit("H");
    assert("H"@.len() == 1 && "H"@[0] == 'H');
    reveal_strlit("N");
    assert("N"@.len() == 1 && "N"@[0] == 'N');
    reveal_strlit("n");
    assert("n"@.len() == 1 && "n"@[0] == 'n');
    reveal_strlit("F");
    assert("F"@.len() == 1 && "F"@[0] == 'F');
    reveal_strlit("f");
    assert("f"@.len() == 1 && "f"@[0] == 'f');
    reveal_strlit("S");
    assert("S"@.len() == 1 && "S"@[0] == 'S');
    reveal_strlit("s");
    assert("s"@.len() == 1 && "s"@[0] == 's');
    reveal_strlit("B");
    assert("B"@.len() == 1 && "B"@[0] == 'B');
    reveal_strlit("b");
    assert("b"@.len() == 1 && "b"@[0] == 'b');
    reveal_strlit("g");
    assert("g"@.len() == 1 && "g"@[0] == 'g');
    reveal_strlit("G");
    assert("G"@.len() == 1 && "G"@[0] == 'G');
    reveal_strlit("k");
    assert("k"@.len() == 1 && "k"@[0] == 'k');
    reveal_strlit("K");
    assert("K"@.len() == 1 && "K"@[0] == 'K');
    reveal_strlit("Xa");
    assert("Xa"@.len() == 2 && "Xa"@[0] == 'X' && "Xa"@[1] == 'a');
    reveal_strlit("XA");
    assert("XA"@.len() == 2 && "XA"@[0] == 'X' && "XA"@[1] == 'A');
    reveal_strlit("x");
    assert("x"@.len() == 1 && "x"@[0] == 'x');
    reveal_strlit("X");
    assert("X"@.len() == 1 && "X"@[0] == 'X');
    reveal_strlit("Xx");
    assert("Xx"@.len() == 2 && "Xx"@[0] == 'X' && "Xx"@[1] == 'x');
    reveal_strlit("XX");
    assert("XX"@.len() == 2 && "XX"@[0] == 'X' && "XX"@[1] == 'X');
    reveal_strlit("w");
    assert("w"@.len() == 1 && "w"@[0] == 'w');
    reveal_strlit("J");
    assert("J"@.len() == 1 && "J"@[0] == 'J');
    reveal_strlit("j");
    assert("j"@.len() == 1 && "j"@[0] == 'j');
    reveal_strlit("M");
    assert("M"@.len() == 1 && "M"@[0] == 'M');
    reveal_strlit("d");
    assert("d"@.len() == 1 && "d"@[0] == 'd');
    reveal_strlit("i");
    assert("i"@.len() == 1 && "i"@[0] == 'i');
    reveal_strlit("D");
    assert("D"@.len() == 1 && "D"@[0] == 'D');
    reveal_strlit("q");
    assert("q"@.len() == 1 && "q"@[0] == 'q');
    reveal_strlit("Q");
    assert("Q"@.len() == 1 && "Q"@[0] == 'Q');
    reveal_strlit("W");
    assert("W"@.len() == 1 && "W"@[0] == 'W');
    reveal_strlit("cm");
    assert("cm"@.len() == 2 && "cm"@[0] == 'c' && "cm"@[1] == 'm');
    reveal_strlit("u");
    assert("u"@.len() == 1 && "u"@[0] == 'u');
    reveal_strlit("U");
    assert("U"@.len() == 1 && "U"@[0] == 'U');
    reveal_strlit("*u");
    assert("*u"@.len() == 2 && "*u"@[0] == '*' && "*u"@[1] == 'u');
    reveal_strlit("*U");
    assert("*U"@.len() == 2 && "*U"@[0] == '*' && "*U"@[1] == 'U');
    reveal_strlit("Lb");
    assert("Lb"@.len() == 2 && "Lb"@[0] == 'L' && "Lb"@[1] == 'b');
    reveal_strlit("LB");
    assert("LB"@.len() == 2 && "LB"@[0] == 'L' && "LB"@[1] == 'B');
    reveal_strlit("Ln");
    assert("Ln"@.len() == 2 && "Ln"@[0] == 'L' && "Ln"@[1] == 'n');
    reveal_strlit("To");
    assert("To"@.len() == 2 && "To"@[0] == 'T' && "To"@[1] == 'o');
    reveal_strlit("TO");
    assert("TO"@.len() == 2 && "TO"@[0] == 'T' && "TO"@[1] == 'O');
    reveal_strlit("Tp");
    assert("Tp"@.len() == 2 && "Tp"@[0] == 'T' && "Tp"@[1] == 'p');
    reveal_strlit("TP");
    assert("TP"@.len() == 2 && "TP"@[0] == 'T' && "TP"@[1] == 'P');
    reveal_strlit("Tx");
    assert("Tx"@.len() == 2 && "Tx"@[0] == 'T' && "Tx"@[1] == 'x');
    reveal_strlit("TX");
    assert("TX"@.len() == 2 && "TX"@[0] == 'T' && "TX"@[1] == 'X');
    reveal_strlit("Tf");
    assert("Tf"@.len() == 2 && "Tf"@[0] == 'T' && "Tf"@[1] == 'f');
    reveal_strlit("Tj");
    assert("Tj"@.len() == 2 && "Tj"@[0] == 'T' && "Tj"@[1] == 'j');
    reveal_strlit("TJ");
    assert("TJ"@.len() == 2 && "TJ"@[0] == 'T' && "TJ"@[1] == 'J');
    reveal_strlit("Tk");
    assert("Tk"@.len() == 2 && "Tk"@[0] == 'T' && "Tk"@[1] == 'k');
    reveal_strlit("Tc");
    assert("Tc"@.len() == 2 && "Tc"@[0] == 'T' && "Tc"@[1] == 'c');
    reveal_strlit("Tw");
    assert("Tw"@.len() == 2 && "Tw"@[0] == 'T' && "Tw"@[1] == 'w');
    reveal_strlit("Ts");
    assert("Ts"@.len() == 2 && "Ts"@[0] == 'T' && "Ts"@[1] == 's');
    reveal_strlit("Ti");
    assert("Ti"@.len() == 2 && "Ti"@[0] == 'T' && "Ti"@[1] == 'i');
    reveal_strlit("Tz");
    assert("Tz"@.len() == 2 && "Tz"@[0] == 'T' && "Tz"@[1] == 'z');
    reveal_strlit("TA");
    assert("TA"@.len() == 2 && "TA"@[0] == 'T' && "TA"@[1] == 'A');
    reveal_strlit("Tq");
    assert("Tq"@.len() == 2 && "Tq"@[0] == 'T' && "Tq"@[1] == 'q');
    reveal_strlit("Bb");
    assert("Bb"@.len() == 2 && "Bb"@[0] == 'B' && "Bb"@[1] == 'b');
    reveal_strlit("BB");
    assert("BB"@.len() == 2 && "BB"@[0] == 'B' && "BB"@[1] == 'B');
    reveal_strlit("Bd");
    assert("Bd"@.len() == 2 && "Bd"@[0] == 'B' && "Bd"@[1] == 'd');
    reveal_strlit("BD");
    assert("BD"@.len() == 2 && "BD"@[0] == 'B' && "BD"@[1] == 'D');
    reveal_strlit("Bg");
    assert("Bg"@.len() == 2 && "Bg"@[0] == 'B' && "Bg"@[1] == 'g');
    reveal_strlit("Bs");
    assert("Bs"@.len() == 2 && "Bs"@[0] == 'B' && "Bs"@[1] == 's');
    reveal_strlit("BR");
    assert("BR"@.len() == 2 && "BR"@[0] == 'B' && "BR"@[1] == 'R');
    reveal_strlit("Bm");
    assert("Bm"@.len() == 2 && "Bm"@[0] == 'B' && "Bm"@[1] == 'm');
    reveal_strlit("E");
    assert("E"@.len() == 1 && "E"@[0] == 'E');
    reveal_strlit("e");
    assert("e"@.len() == 1 && "e"@[0] == 'e');
    reveal_strlit("AI5_SetPalette");
    assert("AI5_SetPalette"@.len() == 14 && "AI5_SetPalette"@[0] == 'A' && "AI5_SetPalette"@[1] == 'I' && "AI5_SetPalette"@[2] == '5' && "AI5_SetPalette"@[3] == '_' && "AI5_SetPalette"@[4] == 'S' && "AI5_SetPalette"@[5] == 'e' && "AI5_SetPalette"@[6] == 't' && "AI5_SetPalette"@[7] == 'P' && "AI5_SetPalette"@[8] == 'a' && "AI5_SetPalette"@[9] == 'l' && "AI5_SetPalette"@[10] == 'e' && "AI5_SetPalette"@[11] == 't' && "AI5_SetPalette"@[12] == 't' && "AI5_SetPalette"@[13] == 'e');
    reveal_strlit("XI");
    assert("XI"@.len() == 2 && "XI"@[0] == 'X' && "XI"@[1] == 'I');
    reveal_strlit("'");
    assert("'"@.len() == 1 && "'"@[0] == '\'');
    reveal_strlit("Adobe_Illustrator_AI5");
    assert("Adobe_Illustrator_AI5"@.len() == 21 && "Adobe_Illustrator_AI5"@[0] == 'A' && "Adobe_Illustrator_AI5"@[1] == 'd' && "Adobe_Illustrator_AI5"@[2] == 'o' && "Adobe_Illustrator_AI5"@[3] == 'b' && "Adobe_Illustrator_AI5"@[4] == 'e' && "Adobe_Illustrator_AI5"@[5] == '_' && "Adobe_Illustrator_AI5"@[6] == 'I' && "Adobe_Illustrator_AI5"@[7] == 'l' && "Adobe_Illustrator_AI5"@[8] == 'l' && "Adobe_Illustrator_AI5"@[9] == 'u' && "Adobe_Illustrator_AI5"@[10] == 's' && "Adobe_Illustrator_AI5"@[11] == 't' && "Adobe_Illustrator_AI5"@[12] == 'r' && "Adobe_Illustrator_AI5"@[13] == 'a' && "Adobe_Illustrator_AI5"@[14] == 't' && "Adobe_Illustrator_AI5"@[15] == 'o' && "Adobe_Illustrator_AI5"@[16] == 'r' && "Adobe_Illustrator_AI5"@[17] == '_' && "Adobe_Illustrator_AI5"@[18] == 'A' && "Adobe_Illustrator_AI5"@[19] == 'I' && "Adobe_Illustrator_AI5"@[20] == '5');
    reveal_strlit("Adobe_ctte");
    assert("Adobe_ctte"@.len() == 10 && "Adobe_ctte"@[0] == 'A' && "Adobe_ctte"@[1] == 'd' && "Adobe_ctte"@[2] == 'o' && "Adobe_ctte"@[3] == 'b' && "Adobe_ctte"@[4] == 'e' && "Adobe_ctte"@[5] == '_' && "Adobe_ctte"@[6] == 'c' && "Adobe_ctte"@[7] == 't' && "Adobe_ctte"@[8] == 't' && "Adobe_ctte"@[9] == 'e');
    reveal_strlit("Adobe_level2_AI5");
    assert("Adobe_level2_AI5"@.len() == 16 && "Adobe_level2_AI5"@[0] == 'A' && "Adobe_level2_AI5"@[1] == 'd' && "Adobe_level2_AI5"@[2] == 'o' && "Adobe_level2_AI5"@[3] == 'b' && "Adobe_level2_AI5"@[4] == 'e' && "Adobe_level2_AI5"@[5] == '_' && "Adobe_level2_AI5"@[6] == 'l' && "Adobe_level2_AI5"@[7] == 'e' && "Adobe_level2_AI5"@[8] == 'v' && "Adobe_level2_AI5"@[9] == 'e' && "Adobe_level2_AI5"@[10] == 'l' && "Adobe_level2_AI5"@[11] == '2' && "Adobe_level2_AI5"@[12] == '_' && "Adobe_level2_AI5"@[13] == 'A' && "Adobe_level2_AI5"@[14] == 'I' && "Adobe_level2_AI5"@[15] == '5');
    reveal_strlit("Adobe_ColorImage_AI6");
    assert("Adobe_ColorImage_AI6"@.len() == 20 && "Adobe_ColorImage_AI6"@[0] == 'A' && "Adobe_ColorImage_AI6"@[1] == 'd' && "Adobe_ColorImage_AI6"@[2] == 'o' && "Adobe_ColorImage_AI6"@[3] == 'b' && "Adobe_ColorImage_AI6"@[4] == 'e' && "Adobe_ColorImage_AI6"@[5] == '_' && "Adobe_ColorImage_AI6"@[6] == 'C' && "Adobe_ColorImage_AI6"@[7] == 'o' && "Adobe_ColorImage_AI6"@[8] == 'l' && "Adobe_ColorImage_AI6"@[9] == 'o' && "Adobe_ColorImage_AI6"@[10] == 'r' && "Adobe_ColorImage_AI6"@[11] == 'I' && "Adobe_ColorImage_AI6"@[12] == 'm' && "Adobe_ColorImage_AI6"@[13] == 'a' && "Adobe_ColorImage_AI6"@[14] == 'g' && "Adobe_ColorImage_AI6"@[15] == 'e' && "Adobe_ColorImage_AI6"@[16] == '_' && "Adobe_ColorImage_AI6"@[17] == 'A' && "Adobe_ColorImage_AI6"@[18] == 'I' && "Adobe_ColorImage_AI6"@[19] == '6');
    reveal_strlit("Adobe_shading_AI8");
    assert("Adobe_shading_AI8"@.len() == 17 && "Adobe_shading_AI8"@[0] == 'A' && "Adobe_shading_AI8"@[1] == 'd' && "Adobe_shading_AI8"@[2] == 'o' && "Adobe_shading_AI8"@[3] == 'b' && "Adobe_shading_AI8"@[4] == 'e' && "Adobe_shading_AI8"@[5] == '_' && "Adobe_shading_AI8"@[6] == 's' && "Adobe_shading_AI8"@[7] == 'h' && "Adobe_shading_AI8"@[8] == 'a' && "Adobe_shading_AI8"@[9] == 'd' && "Adobe_shading_AI8"@[10] == 'i' && "Adobe_shading_AI8"@[11] == 'n' && "Adobe_shading_AI8"@[12] == 'g' && "Adobe_shading_AI8"@[13] == '_' && "Adobe_shading_AI8"@[14] == 'A' && "Adobe_shading_AI8"@[15] == 'I' && "Adobe_shading_AI8"@[16] == '8');
    reveal_strlit("pop");
    assert("pop"@.len() == 3 && "pop"@[0] == 'p' && "pop"@[1] == 'o' && "pop"@[2] == 'p');
    reveal_strlit("def");
    assert("def"@.len() == 3 && "def"@[0] == 'd' && "def"@[1] == 'e' && "def"@[2] == 'f');
    reveal_strlit("exec");
    assert("exec"@.len() == 4 && "exec"@[0] == 'e' && "exec"@[1] == 'x' && "exec"@[2] == 'e' && "exec"@[3] == 'c');
    reveal_strlit("null");
    assert("null"@.len() == 4 && "null"@[0] == 'n' && "null"@[1] == 'u' && "null"@[2] == 'l' && "null"@[3] == 'l');
    reveal_strlit("true");
    assert("true"@.len() == 4 && "true"@[0] == 't' && "true"@[1] == 'r' && "true"@[2] == 'u' && "true"@[3] == 'e');
    reveal_strlit("false");
    assert("false"@.len() == 5 && "false"@[0] == 'f' && "false"@[1] == 'a' && "false"@[2] == 'l' && "false"@[3] == 's' && "false"@[4] == 'e');
    reveal_strlit("bind");
    assert("bind"@.len() == 4 && "bind"@[0] == 'b' && "bind"@[1] == 'i' && "bind"@[2] == 'n' && "bind"@[3] == 'd');
    reveal_strlit("dup");
    assert("dup"@.len() == 3 && "dup"@[0] == 'd' && "dup"@[1] == 'u' && "dup"@[2] == 'p');
    reveal_strlit("exch");
    assert("exch"@.len() == 4 && "exch"@[0] == 'e' && "exch"@[1] == 'x' && "exch"@[2] == 'c' && "exch"@[3] == 'h');
    reveal_strlit("copy");
    assert("copy"@.len() == 4 && "copy"@[0] == 'c' && "copy"@[1] == 'o' && "copy"@[2] == 'p' && "copy"@[3] == 'y');
}

proof fn lemma_operators_7()
    ensures
        operator_spec("index"@) == Some(("index"@, Some(1usize), "handle_noop"@)),
        operator_spec("roll"@) == Some(("roll"@, Some(2usize), "handle_noop"@)),
        operator_spec("cleartomark"@) == Some(("cleartomark"@, Some(0usize), "handle_noop"@)),
        operator_spec("counttomark"@) == Some(("counttomark"@, Some(0usize), "handle_noop"@)),
        operator_spec("mark"@) == Some(("mark"@, Some(0usize), "handle_noop"@)),
        operator_spec("setgray"@) == Some(("setgray"@, Some(1usize), "handle_noop"@)),
        operator_spec("setrgbcolor"@) == Some(("setrgbcolor"@, Some(3usize), "handle_noop"@)),
        operator_spec("setcmykcolor"@) == Some(("setcmykcolor"@, Some(4usize), "handle_noop"@)),
        operator_spec("currentpoint"@) == Some(("currentpoint"@, Some(0usize), "handle_noop"@)),
        operator_spec("moveto"@) == Some(("ps_moveto"@, Some(2usize), "handle_noop"@)),
        operator_spec("lineto"@) == Some(("ps_lineto"@, Some(2usize), "handle_noop"@)),
        operator_spec("curveto"@) == Some(("ps_curveto"@, Some(6usize), "handle_noop"@)),
        operator_spec("closepath"@) == Some(("ps_closepath"@, Some(0usize), "handle_noop"@)),
{
    reveal_strlit("m");
    assert("m"@.len() == 1 && "m"@[0] == 'm');
    reveal_strlit("l");
    assert("l"@.len() == 1 && "l"@[0] == 'l');
    reveal_strlit("L");
    assert("L"@.len() == 1 && "L"@[0] == 'L');
    reveal_strlit("c");
    assert("c"@.len() == 1 && "c"@[0] == 'c');
    reveal_strlit("C");
    assert("C"@.len() == 1 && "C"@[0] == 'C');
    reveal_strlit("v");
    assert("v"@.len() == 1 && "v"@[0] == 'v');
    reveal_strlit("V");
    assert("V"@.len() == 1 && "V"@[0] == 'V');
    reveal_strlit("y");
    assert("y"@.len() == 1 && "y"@[0] == 'y');
    reveal_strlit("Y");
    assert("Y"@.len() == 1 && "Y"@[0] == 'Y');
    reveal_strlit("H");
    assert("H"@.len() == 1 && "H"@[0] == 'H');
    reveal_strlit("N");
    assert("N"@.len() == 1 && "N"@[0] == 'N');
    reveal_strlit("n");
    assert("n"@.len() == 1 && "n"@[0] == 'n');
    reveal_strlit("F");
    assert("F"@.len() == 1 && "F"@[0] == 'F');
    reveal_strlit("f");
    assert("f"@.len() == 1 && "f"@[0] == 'f');
    reveal_strlit("S");
    assert("S"@.len() == 1 && "S"@[0] == 'S');
    reveal_strlit("s");
    assert("s"@.len() == 1 && "s"@[0] == 's');
    reveal_strlit("B");
    assert("B"@.len() == 1 && "B"@[0] == 'B');
    reveal_strlit("b");
    assert("b"@.len() == 1 && "b"@[0] == 'b');
    reveal_strlit("g");
    assert("g"@.len() == 1 && "g"@[0] == 'g');
    reveal_strlit("G");
    assert("G"@.len() == 1 && "G"@[0] == 'G');
    reveal_strlit("k");
    assert("k"@.len() == 1 && "k"@[0] == 'k');
    reveal_strlit("K");
    assert("K"@.len() == 1 && "K"@[0] == 'K');
    reveal_strlit("Xa");
    assert("Xa"@.len() == 2 && "Xa"@[0] == 'X' && "Xa"@[1] == 'a');
    reveal_strlit("XA");
    assert("XA"@.len() == 2 && "XA"@[0] == 'X' && "XA"@[1] == 'A');
    reveal_strlit("x");
    assert("x"@.len() == 1 && "x"@[0] == 'x');
    reveal_strlit("X");
    assert("X"@.len() == 1 && "X"@[0] == 'X');
    reveal_strlit("Xx");
    assert("Xx"@.len() == 2 && "Xx"@[0] == 'X' && "Xx"@[1] == 'x');
    reveal_strlit("XX");
    assert("XX"@.len() == 2 && "XX"@[0] == 'X' && "XX"@[1] == 'X');
    reveal_strlit("w");
    assert("w"@.len() == 1 && "w"@[0] == 'w');
    reveal_strlit("J");
    assert("J"@.len() == 1 && "J"@[0] == 'J');
    reveal_strlit("j");
    assert("j"@.len() == 1 && "j"@[0] == 'j');
    reveal_strlit("M");
    assert("M"@.len() == 1 && "M"@[0] == 'M');
    reveal_strlit("d");
    assert("d"@.len() == 1 && "d"@[0] == 'd');
    reveal_strlit("i");
    assert("i"@.len() == 1 && "i"@[0] == 'i');
    reveal_strlit("D");
    assert("D"@.len() == 1 && "D"@[0] == 'D');
    reveal_strlit("q");
    assert("q"@.len() == 1 && "q"@[0] == 'q');
    reveal_strlit("Q");
    assert("Q"@.len() == 1 && "Q"@[0] == 'Q');
    reveal_strlit("W");
    assert("W"@.len() == 1 && "W"@[0] == 'W');
    reveal_strlit("cm");
    assert("cm"@.len() == 2 && "cm"@[0] == 'c' && "cm"@[1] == 'm');
    reveal_strlit("u");
    assert("u"@.len() == 1 && "u"@[0] == 'u');
    reveal_strlit("U");
    assert("U"@.len() == 1 && "U"@[0] == 'U');
    reveal_strlit("*u");
    assert("*u"@.len() == 2 && "*u"@[0] == '*' && "*u"@[1] == 'u');
    reveal_strlit("*U");
    assert("*U"@.len() == 2 && "*U"@[0] == '*' && "*U"@[1] == 'U');
    reveal_strlit("Lb");
    assert("Lb"@.len() == 2 && "Lb"@[0] == 'L' && "Lb"@[1] == 'b');
    reveal_strlit("LB");
    assert("LB"@.len() == 2 && "LB"@[0] == 'L' && "LB"@[1] == 'B');
    reveal_strlit("Ln");
    assert("Ln"@.len() == 2 && "Ln"@[0] == 'L' && "Ln"@[1] == 'n');
    reveal_strlit("To");
    assert("To"@.len() == 2 && "To"@[0] == 'T' && "To"@[1] == 'o');
    reveal_strlit("TO");
    assert("TO"@.len() == 2 && "TO"@[0] == 'T' && "TO"@[1] == 'O');
    reveal_strlit("Tp");
    assert("Tp"@.len() == 2 && "Tp"@[0] == 'T' && "Tp"@[1] == 'p');
    reveal_strlit("TP");
    assert("TP"@.len() == 2 && "TP"@[0] == 'T' && "TP"@[1] == 'P');
    reveal_strlit("Tx");
    assert("Tx"@.len() == 2 && "Tx"@[0] == 'T' && "Tx"@[1] == 'x');
    reveal_strlit("TX");
    assert("TX"@.len() == 2 && "TX"@[0] == 'T' && "TX"@[1] == 'X');
    reveal_strlit("Tf");
    assert("Tf"@.len() == 2 && "Tf"@[0] == 'T' && "Tf"@[1] == 'f');
    reveal_strlit("Tj");
    assert("Tj"@.len() == 2 && "Tj"@[0] == 'T' && "Tj"@[1] == 'j');
    reveal_strlit("TJ");
    assert("TJ"@.len() == 2 && "TJ"@[0] == 'T' && "TJ"@[1] == 'J');
    reveal_strlit("Tk");
    assert("Tk"@.len() == 2 && "Tk"@[0] == 'T' && "Tk"@[1] == 'k');
    reveal_strlit("Tc");
    assert("Tc"@.len() == 2 && "Tc"@[0] == 'T' && "Tc"@[1] == 'c');
    reveal_strlit("Tw");
    assert("Tw"@.len() == 2 && "Tw"@[0] == 'T' && "Tw"@[1] == 'w');
    reveal_strlit("Ts");
    assert("Ts"@.len() == 2 && "Ts"@[0] == 'T' && "Ts"@[1] == 's');
    reveal_strlit("Ti");
    assert("Ti"@.len() == 2 && "Ti"@[0] == 'T' && "Ti"@[1] == 'i');
    reveal_strlit("Tz");
    assert("Tz"@.len() == 2 && "Tz"@[0] == 'T' && "Tz"@[1] == 'z');
    reveal_strlit("TA");
    assert("TA"@.len() == 2 && "TA"@[0] == 'T' && "TA"@[1] == 'A');
    reveal_strlit("Tq");
    assert("Tq"@.len() == 2 && "Tq"@[0] == 'T' && "Tq"@[1] == 'q');
    reveal_strlit("Bb");
    assert("Bb"@.len() == 2 && "Bb"@[0] == 'B' && "Bb"@[1] == 'b');
    reveal_strlit("BB");
    assert("BB"@.len() == 2 && "BB"@[0] == 'B' && "BB"@[1] == 'B');
    reveal_strlit("Bd");
    assert("Bd"@.len() == 2 && "Bd"@[0] == 'B' && "Bd"@[1] == 'd');
    reveal_strlit("BD");
    assert("BD"@.len() == 2 && "BD"@[0] == 'B' && "BD"@[1] == 'D');
    reveal_strlit("Bg");
    assert("Bg"@.len() == 2 && "Bg"@[0] == 'B' && "Bg"@[1] == 'g');
    reveal_strlit("Bs");
    assert("Bs"@.len() == 2 && "Bs"@[0] == 'B' && "Bs"@[1] == 's');
    reveal_strlit("BR");
    assert("BR"@.len() == 2 && "BR"@[0] == 'B' && "BR"@[1] == 'R');
    reveal_strlit("Bm");
    assert("Bm"@.len() == 2 && "Bm"@[0] == 'B' && "Bm"@[1] == 'm');
    reveal_strlit("E");
    assert("E"@.len() == 1 && "E"@[0] == 'E');
    reveal_strlit("e");
    assert("e"@.len() == 1 && "e"@[0] == 'e');
    reveal_strlit("AI5_SetPalette");
    assert("AI5_SetPalette"@.len() == 14 && "AI5_SetPalette"@[0] == 'A' && "AI5_SetPalette"@[1] == 'I' && "AI5_SetPalette"@[2] == '5' && "AI5_SetPalette"@[3] == '_' && "AI5_SetPalette"@[4] == 'S' && "AI5_SetPalette"@[5] == 'e' && "AI5_SetPalette"@[6] == 't' && "AI5_SetPalette"@[7] == 'P' && "AI5_SetPalette"@[8] == 'a' && "AI5_SetPalette"@[9] == 'l' && "AI5_SetPalette"@[10] == 'e' && "AI5_SetPalette"@[11] == 't' && "AI5_SetPalette"@[12] == 't' && "AI5_SetPalette"@[13] == 'e');
    reveal_strlit("XI");
    assert("XI"@.len() == 2 && "XI"@[0] == 'X' && "XI"@[1] == 'I');
    reveal_strlit("'");
    assert("'"@.len() == 1 && "'"@[0] == '\'');
    reveal_strlit("Adobe_Illustrator_AI5");
    assert("Adobe_Illustrator_AI5"@.len() == 21 && "Adobe_Illustrator_AI5"@[0] == 'A' && "Adobe_Illustrator_AI5"@[1] == 'd' && "Adobe_Illustrator_AI5"@[2] == 'o' && "Adobe_Illustrator_AI5"@[3] == 'b' && "Adobe_Illustrator_AI5"@[4] == 'e' && "Adobe_Illustrator_AI5"@[5] == '_' && "Adobe_Illustrator_AI5"@[6] == 'I' && "Adobe_Illustrator_AI5"@[7] == 'l' && "Adobe_Illustrator_AI5"@[8] == 'l' && "Adobe_Illustrator_AI5"@[9] == 'u' && "Adobe_Illustrator_AI5"@[10] == 's' && "Adobe_Illustrator_AI5"@[11] == 't' && "Adobe_Illustrator_AI5"@[12] == 'r' && "Adobe_Illustrator_AI5"@[13] == 'a' && "Adobe_Illustrator_AI5"@[14] == 't' && "Adobe_Illustrator_AI5"@[15] == 'o' && "Adobe_Illustrator_AI5"@[16] == 'r' && "Adobe_Illustrator_AI5"@[17] == '_' && "Adobe_Illustrator_AI5"@[18] == 'A' && "Adobe_Illustrator_AI5"@[19] == 'I' && "Adobe_Illustrator_AI5"@[20] == '5');
    reveal_strlit("Adobe_ctte");
    assert("Adobe_ctte"@.len() == 10 && "Adobe_ctte"@[0] == 'A' && "Adobe_ctte"@[1] == 'd' && "Adobe_ctte"@[2] == 'o' && "Adobe_ctte"@[3] == 'b' && "Adobe_ctte"@[4] == 'e' && "Adobe_ctte"@[5] == '_' && "Adobe_ctte"@[6] == 'c' && "Adobe_ctte"@[7] == 't' && "Adobe_ctte"@[8] == 't' && "Adobe_ctte"@[9] == 'e');
    reveal_strlit("Adobe_level2_AI5");
    assert("Adobe_level2_AI5"@.len() == 16 && "Adobe_level2_AI5"@[0] == 'A' && "Adobe_level2_AI5"@[1] == 'd' && "Adobe_level2_AI5"@[2] == 'o' && "Adobe_level2_AI5"@[3] == 'b' && "Adobe_level2_AI5"@[4] == 'e' && "Adobe_level2_AI5"@[5] == '_' && "Adobe_level2_AI5"@[6] == 'l' && "Adobe_level2_AI5"@[7] == 'e' && "Adobe_level2_AI5"@[8] == 'v' && "Adobe_level2_AI5"@[9] == 'e' && "Adobe_level2_AI5"@[10] == 'l' && "Adobe_level2_AI5"@[11] == '2' && "Adobe_level2_AI5"@[12] == '_' && "Adobe_level2_AI5"@[13] == 'A' && "Adobe_level2_AI5"@[14] == 'I' && "Adobe_level2_AI5"@[15] == '5');
    reveal_strlit("Adobe_ColorImage_AI6");
    assert("Adobe_ColorImage_AI6"@.len() == 20 && "Adobe_ColorImage_AI6"@[0] == 'A' && "Adobe_ColorImage_AI6"@[1] == 'd' && "Adobe_ColorImage_AI6"@[2] == 'o' && "Adobe_ColorImage_AI6"@[3] == 'b' && "Adobe_ColorImage_AI6"@[4] == 'e' && "Adobe_ColorImage_AI6"@[5] == '_' && "Adobe_ColorImage_AI6"@[6] == 'C' && "Adobe_ColorImage_AI6"@[7] == 'o' && "Adobe_ColorImage_AI6"@[8] == 'l' && "Adobe_ColorImage_AI6"@[9] == 'o' && "Adobe_ColorImage_AI6"@[10] == 'r' && "Adobe_ColorImage_AI6"@[11] == 'I' && "Adobe_ColorImage_AI6"@[12] == 'm' && "Adobe_ColorImage_AI6"@[13] == 'a' && "Adobe_ColorImage_AI6"@[14] == 'g' && "Adobe_ColorImage_AI6"@[15] == 'e' && "Adobe_ColorImage_AI6"@[16] == '_' && "Adobe_ColorImage_AI6"@[17] == 'A' && "Adobe_ColorImage_AI6"@[18] == 'I' && "Adobe_ColorImage_AI6"@[19] == '6');
    reveal_strlit("Adobe_shading_AI8");
    assert("Adobe_shading_AI8"@.len() == 17 && "Adobe_shading_AI8"@[0] == 'A' && "Adobe_shading_AI8"@[1] == 'd' && "Adobe_shading_AI8"@[2] == 'o' && "Adobe_shading_AI8"@[3] == 'b' && "Adobe_shading_AI8"@[4] == 'e' && "Adobe_shading_AI8"@[5] == '_' && "Adobe_shading_AI8"@[6] == 's' && "Adobe_shading_AI8"@[7] == 'h' && "Adobe_shading_AI8"@[8] == 'a' && "Adobe_shading_AI8"@[9] == 'd' && "Adobe_shading_AI8"@[10] == 'i' && "Adobe_shading_AI8"@[11] == 'n' && "Adobe_shading_AI8"@[12] == 'g' && "Adobe_shading_AI8"@[13] == '_' && "Adobe_shading_AI8"@[14] == 'A' && "Adobe_shading_AI8"@[15] == 'I' && "Adobe_shading_AI8"@[16] == '8');
    reveal_strlit("pop");
    assert("pop"@.len() == 3 && "pop"@[0] == 'p' && "pop"@[1] == 'o' && "pop"@[2] == 'p');
    reveal_strlit("def");
    assert("def"@.len() == 3 && "def"@[0] == 'd' && "def"@[1] == 'e' && "def"@[2] == 'f');
    reveal_strlit("exec");
    assert("exec"@.len() == 4 && "exec"@[0] == 'e' && "exec"@[1] == 'x' && "exec"@[2] == 'e' && "exec"@[3] == 'c');
    reveal_strlit("null");
    assert("null"@.len() == 4 && "null"@[0] == 'n' && "null"@[1] == 'u' && "null"@[2] == 'l' && "null"@[3] == 'l');
    reveal_strlit("true");
    assert("true"@.len() == 4 && "true"@[0] == 't' && "true"@[1] == 'r' && "true"@[2] == 'u' && "true"@[3] == 'e');
    reveal_strlit("false");
    assert("false"@.len() == 5 && "false"@[0] == 'f' && "false"@[1] == 'a' && "false"@[2] == 'l' && "false"@[3] == 's' && "false"@[4] == 'e');
    reveal_strlit("bind");
    assert("bind"@.len() == 4 && "bind"@[0] == 'b' && "bind"@[1] == 'i' && "bind"@[2] == 'n' && "bind"@[3] == 'd');
    reveal_strlit("dup");
    assert("dup"@.len() == 3 && "dup"@[0] == 'd' && "dup"@[1] == 'u' && "dup"@[2] == 'p');
    reveal_strlit("exch");
    assert("exch"@.len() == 4 && "exch"@[0] == 'e' && "exch"@[1] == 'x' && "exch"@[2] == 'c' && "exch"@[3] == 'h');
    reveal_strlit("copy");
    assert("copy"@.len() == 4 && "copy"@[0] == 'c' && "copy"@[1] == 'o' && "copy"@[2] == 'p' && "copy"@[3] == 'y');
    reveal_strlit("index");
    assert("index"@.len() == 5 && "index"@[0] == 'i' && "index"@[1] == 'n' && "index"@[2] == 'd' && "index"@[3] == 'e' && "index"@[4] == 'x');
    reveal_strlit("roll");
    assert("roll"@.len() == 4 && "roll"@[0] == 'r' && "roll"@[1] == 'o' && "roll"@[2] == 'l' && "roll"@[3] == 'l');
    reveal_strlit("cleartomark");
    assert("cleartomark"@.len() == 11 && "cleartomark"@[0] == 'c' && "cleartomark"@[1] == 'l' && "cleartomark"@[2] == 'e' && "cleartomark"@[3] == 'a' && "cleartomark"@[4] == 'r' && "cleartomark"@[5] == 't' && "cleartomark"@[6] == 'o' && "cleartomark"@[7] == 'm' && "cleartomark"@[8] == 'a' && "cleartomark"@[9] == 'r' && "cleartomark"@[10] == 'k');
    reveal_strlit("counttomark");
    assert("counttomark"@.len() == 11 && "counttomark"@[0] == 'c' && "counttomark"@[1] == 'o' && "counttomark"@[2] == 'u' && "counttomark"@[3] == 'n' && "counttomark"@[4] == 't' && "counttomark"@[5] == 't' && "counttomark"@[6] == 'o' && "counttomark"@[7] == 'm' && "counttomark"@[8] == 'a' && "counttomark"@[9] == 'r' && "counttomark"@[10] == 'k');
    reveal_strlit("mark");
    assert("mark"@.len() == 4 && "mark"@[0] == 'm' && "mark"@[1] == 'a' && "mark"@[2] == 'r' && "mark"@[3] == 'k');
    reveal_strlit("setgray");
    assert("setgray"@.len() == 7 && "setgray"@[0] == 's' && "setgray"@[1] == 'e' && "setgray"@[2] == 't' && "setgray"@[3] == 'g' && "setgray"@[4] == 'r' && "setgray"@[5] == 'a' && "setgray"@[6] == 'y');
    reveal_strlit("setrgbcolor");
    assert("setrgbcolor"@.len() == 11 && "setrgbcolor"@[0] == 's' && "setrgbcolor"@[1] == 'e' && "setrgbcolor"@[2] == 't' && "setrgbcolor"@[3] == 'r' && "setrgbcolor"@[4] == 'g' && "setrgbcolor"@[5] == 'b' && "setrgbcolor"@[6] == 'c' && "setrgbcolor"@[7] == 'o' && "setrgbcolor"@[8] == 'l' && "setrgbcolor"@[9] == 'o' && "setrgbcolor"@[10] == 'r');
    reveal_strlit("setcmykcolor");
    assert("setcmykcolor"@.len() == 12 && "setcmykcolor"@[0] == 's' && "setcmykcolor"@[1] == 'e' && "setcmykcolor"@[2] == 't' && "setcmykcolor"@[3] == 'c' && "setcmykcolor"@[4] == 'm' && "setcmykcolor"@[5] == 'y' && "setcmykcolor"@[6] == 'k' && "setcmykcolor"@[7] == 'c' && "setcmykcolor"@[8] == 'o' && "setcmykcolor"@[9] == 'l' && "setcmykcolor"@[10] == 'o' && "setcmykcolor"@[11] == 'r');
    reveal_strlit("currentpoint");
    assert("currentpoint"@.len() == 12 && "currentpoint"@[0] == 'c' && "currentpoint"@[1] == 'u' && "currentpoint"@[2] == 'r' && "currentpoint"@[3] == 'r' && "currentpoint"@[4] == 'e' && "currentpoint"@[5] == 'n' && "currentpoint"@[6] == 't' && "currentpoint"@[7] == 'p' && "currentpoint"@[8] == 'o' && "currentpoint"@[9] == 'i' && "currentpoint"@[10] == 'n' && "currentpoint"@[11] == 't');
    reveal_strlit("moveto");
    assert("moveto"@.len() == 6 && "moveto"@[0] == 'm' && "moveto"@[1] == 'o' && "moveto"@[2] == 'v' && "moveto"@[3] == 'e' && "moveto"@[4] == 't' && "moveto"@[5] == 'o');
    reveal_strlit("lineto");
    assert("lineto"@.len() == 6 && "lineto"@[0] == 'l' && "lineto"@[1] == 'i' && "lineto"@[2] == 'n' && "lineto"@[3] == 'e' && "lineto"@[4] == 't' && "lineto"@[5] == 'o');
    reveal_strlit("curveto");
    assert("curveto"@.len() == 7 && "curveto"@[0] == 'c' && "curveto"@[1] == 'u' && "curveto"@[2] == 'r' && "curveto"@[3] == 'v' && "curveto"@[4] == 'e' && "curveto"@[5] == 't' && "curveto"@[6] == 'o');
    reveal_strlit("closepath");
    assert("closepath"@.len() == 9 && "closepath"@[0] == 'c' && "closepath"@[1] == 'l' && "closepath"@[2] == 'o' && "closepath"@[3] == 's' && "closepath"@[4] == 'e' && "closepath"@[5] == 'p' && "closepath"@[6] == 'a' && "closepath"@[7] == 't' && "closepath"@[8] == 'h');
}

proof fn lemma_operators_8()
    ensures
        operator_spec("fill"@) == Some(("ps_fill"@, Some(0usize), "handle_noop"@)),
        operator_spec("stroke"@) == Some(("ps_stroke"@, Some(0usize), "handle_noop"@)),
        operator_spec("newpath"@) == Some(("ps_newpath"@, Some(0usize), "handle_noop"@)),
        operator_spec("gsave"@) == Some(("ps_gsave"@, Some(0usize), "handle_noop"@)),
        operator_spec("grestore"@) == Some(("ps_grestore"@, Some(0usize), "handle_noop"@)),
        operator_spec("showpage"@) == Some(("ps_showpage"@, Some(0usize), "handle_noop"@)),
        operator_spec("translate"@) == Some(("ps_translate"@, Some(2usize), "handle_noop"@)),
        operator_spec("scale"@) == Some(("ps_scale"@, Some(2usize), "handle_noop"@)),
        operator_spec("rotate"@) == Some(("ps_rotate"@, Some(1usize), "handle_noop"@)),
        operator_spec("concat"@) == Some(("ps_concat"@, None::<usize>, "handle_noop"@)),
        operator_spec("setlinewidth"@) == Some(("ps_setlinewidth"@, Some(1usize), "handle_noop"@)),
        operator_spec("setlinecap"@) == Some(("ps_setlinecap"@, Some(1usize), "handle_noop"@)),
        operator_spec("setlinejoin"@) == Some(("ps_setlinejoin"@, Some(1usize), "handle_noop"@)),
{
    reveal_strlit("m");
    assert("m"@.len() == 1 && "m"@[0] == 'm');
    reveal_strlit("l");
    assert("l"@.len() == 1 && "l"@[0] == 'l');
    reveal_strlit("L");
    assert("L"@.len() == 1 && "L"@[0] == 'L');
    reveal_strlit("c");
    assert("c"@.len() == 1 && "c"@[0] == 'c');
    reveal_strlit("C");
    assert("C"@.len() == 1 && "C"@[0] == 'C');
    reveal_strlit("v");
    assert("v"@.len() == 1 && "v"@[0] == 'v');
    reveal_strlit("V");
    assert("V"@.len() == 1 && "V"@[0] == 'V');
    reveal_strlit("y");
    assert("y"@.len() == 1 && "y"@[0] == 'y');
    reveal_strlit("Y");
    assert("Y"@.len() == 1 && "Y"@[0] == 'Y');
    reveal_strlit("H");
    assert("H"@.len() == 1 && "H"@[0] == 'H');
    reveal_strlit("N");
    assert("N"@.len() == 1 && "N"@[0] == 'N');
    reveal_strlit("n");
    assert("n"@.len() == 1 && "n"@[0] == 'n');
    reveal_strlit("F");
    assert("F"@.len() == 1 && "F"@[0] == 'F');
    reveal_strlit("f");
    assert("f"@.len() == 1 && "f"@[0] == 'f');
    reveal_strlit("S");
    assert("S"@.len() == 1 && "S"@[0] == 'S');
    reveal_strlit("s");
    assert("s"@.len() == 1 && "s"@[0] == 's');
    reveal_strlit("B");
    assert("B"@.len() == 1 && "B"@[0] == 'B');
    reveal_strlit("b");
    assert("b"@.len() == 1 && "b"@[0] == 'b');
    reveal_strlit("g");
    assert("g"@.len() == 1 && "g"@[0] == 'g');
    reveal_strlit("G");
    assert("G"@.len() == 1 && "G"@[0] == 'G');
    reveal_strlit("k");
    assert("k"@.len() == 1 && "k"@[0] == 'k');
    reveal_strlit("K");
    assert("K"@.len() == 1 && "K"@[0] == 'K');
    reveal_strlit("Xa");
    assert("Xa"@.len() == 2 && "Xa"@[0] == 'X' && "Xa"@[1] == 'a');
    reveal_strlit("XA");
    assert("XA"@.len() == 2 && "XA"@[0] == 'X' && "XA"@[1] == 'A');
    reveal_strlit("x");
    assert("x"@.len() == 1 && "x"@[0] == 'x');
    reveal_strlit("X");
    assert("X"@.len() == 1 && "X"@[0] == 'X');
    reveal_strlit("Xx");
    assert("Xx"@.len() == 2 && "Xx"@[0] == 'X' && "Xx"@[1] == 'x');
    reveal_strlit("XX");
    assert("XX"@.len() == 2 && "XX"@[0] == 'X' && "XX"@[1] == 'X');
    reveal_strlit("w");
    assert("w"@.len() == 1 && "w"@[0] == 'w');
    reveal_strlit("J");
    assert("J"@.len() == 1 && "J"@[0] == 'J');
    reveal_strlit("j");
    assert("j"@.len() == 1 && "j"@[0] == 'j');
    reveal_strlit("M");
    assert("M"@.len() == 1 && "M"@[0] == 'M');
    reveal_strlit("d");
    assert("d"@.len() == 1 && "d"@[0] == 'd');
    reveal_strlit("i");
    assert("i"@.len() == 1 && "i"@[0] == 'i');
    reveal_strlit("D");
    assert("D"@.len() == 1 && "D"@[0] == 'D');
    reveal_strlit("q");
    assert("q"@.len() == 1 && "q"@[0] == 'q');
    reveal_strlit("Q");
    assert("Q"@.len() == 1 && "Q"@[0] == 'Q');
    reveal_strlit("W");
    assert("W"@.len() == 1 && "W"@[0] == 'W');
    reveal_strlit("cm");
    assert("cm"@.len() == 2 && "cm"@[0] == 'c' && "cm"@[1] == 'm');
    reveal_strlit("u");
    assert("u"@.len() == 1 && "u"@[0] == 'u');
    reveal_strlit("U");
    assert("U"@.len() == 1 && "U"@[0] == 'U');
    reveal_strlit("*u");
    assert("*u"@.len() == 2 && "*u"@[0] == '*' && "*u"@[1] == 'u');
    reveal_strlit("*U");
    assert("*U"@.len() == 2 && "*U"@[0] == '*' && "*U"@[1] == 'U');
    reveal_strlit("Lb");
    assert("Lb"@.len() == 2 && "Lb"@[0] == 'L' && "Lb"@[1] == 'b');
    reveal_strlit("LB");
    assert("LB"@.len() == 2 && "LB"@[0] == 'L' && "LB"@[1] == 'B');
    reveal_strlit("Ln");
    assert("Ln"@.len() == 2 && "Ln"@[0] == 'L' && "Ln"@[1] == 'n');
    reveal_strlit("To");
    assert("To"@.len() == 2 && "To"@[0] == 'T' && "To"@[1] == 'o');
    reveal_strlit("TO");
    assert("TO"@.len() == 2 && "TO"@[0] == 'T' && "TO"@[1] == 'O');
    reveal_strlit("Tp");
    assert("Tp"@.len() == 2 && "Tp"@[0] == 'T' && "Tp"@[1] == 'p');
    reveal_strlit("TP");
    assert("TP"@.len() == 2 && "TP"@[0] == 'T' && "TP"@[1] == 'P');
    reveal_strlit("Tx");
    assert("Tx"@.len() == 2 && "Tx"@[0] == 'T' && "Tx"@[1] == 'x');
    reveal_strlit("TX");
    assert("TX"@.len() == 2 && "TX"@[0] == 'T' && "TX"@[1] == 'X');
    reveal_strlit("Tf");
    assert("Tf"@.len() == 2 && "Tf"@[0] == 'T' && "Tf"@[1] == 'f');
    reveal_strlit("Tj");
    assert("Tj"@.len() == 2 && "Tj"@[0] == 'T' && "Tj"@[1] == 'j');
    reveal_strlit("TJ");
    assert("TJ"@.len() == 2 && "TJ"@[0] == 'T' && "TJ"@[1] == 'J');
    reveal_strlit("Tk");
    assert("Tk"@.len() == 2 && "Tk"@[0] == 'T' && "Tk"@[1] == 'k');
    reveal_strlit("Tc");
    assert("Tc"@.len() == 2 && "Tc"@[0] == 'T' && "Tc"@[1] == 'c');
    reveal_strlit("Tw");
    assert("Tw"@.len() == 2 && "Tw"@[0] == 'T' && "Tw"@[1] == 'w');
    reveal_strlit("Ts");
    assert("Ts"@.len() == 2 && "Ts"@[0] == 'T' && "Ts"@[1] == 's');
    reveal_strlit("Ti");
    assert("Ti"@.len() == 2 && "Ti"@[0] == 'T' && "Ti"@[1] == 'i');
    reveal_strlit("Tz");
    assert("Tz"@.len() == 2 && "Tz"@[0] == 'T' && "Tz"@[1] == 'z');
    reveal_strlit("TA");
    assert("TA"@.len() == 2 && "TA"@[0] == 'T' && "TA"@[1] == 'A');
    reveal_strlit("Tq");
    assert("Tq"@.len() == 2 && "Tq"@[0] == 'T' && "Tq"@[1] == 'q');
    reveal_strlit("Bb");
    assert("Bb"@.len() == 2 && "Bb"@[0] == 'B' && "Bb"@[1] == 'b');
    reveal_strlit("BB");
    assert("BB"@.len() == 2 && "BB"@[0] == 'B' && "BB"@[1] == 'B');
    reveal_strlit("Bd");
    assert("Bd"@.len() == 2 && "Bd"@[0] == 'B' && "Bd"@[1] == 'd');
    reveal_strlit("BD");
    assert("BD"@.len() == 2 && "BD"@[0] == 'B' && "BD"@[1] == 'D');
    reveal_strlit("Bg");
    assert("Bg"@.len() == 2 && "Bg"@[0] == 'B' && "Bg"@[1] == 'g');
    reveal_strlit("Bs");
    assert("Bs"@.len() == 2 && "Bs"@[0] == 'B' && "Bs"@[1] == 's');
    reveal_strlit("BR");
    assert("BR"@.len() == 2 && "BR"@[0] == 'B' && "BR"@[1] == 'R');
    reveal_strlit("Bm");
    assert("Bm"@.len() == 2 && "Bm"@[0] == 'B' && "Bm"@[1] == 'm');
    reveal_strlit("E");
    assert("E"@.len() == 1 && "E"@[0] == 'E');
    reveal_strlit("e");
    assert("e"@.len() == 1 && "e"@[0] == 'e');
    reveal_strlit("AI5_SetPalette");
    assert("AI5_SetPalette"@.len() == 14 && "AI5_SetPalette"@[0] == 'A' && "AI5_SetPalette"@[1] == 'I' && "AI5_SetPalette"@[2] == '5' && "AI5_SetPalette"@[3] == '_' && "AI5_SetPalette"@[4] == 'S' && "AI5_SetPalette"@[5] == 'e' && "AI5_SetPalette"@[6] == 't' && "AI5_SetPalette"@[7] == 'P' && "AI5_SetPalette"@[8] == 'a' && "AI5_SetPalette"@[9] == 'l' && "AI5_SetPalette"@[10] == 'e' && "AI5_SetPalette"@[11] == 't' && "AI5_SetPalette"@[12] == 't' && "AI5_SetPalette"@[13] == 'e');
    reveal_strlit("XI");
    assert("XI"@.len() == 2 && "XI"@[0] == 'X' && "XI"@[1] == 'I');
    reveal_strlit("'");
    assert("'"@.len() == 1 && "'"@[0] == '\'');
    reveal_strlit("Adobe_Illustrator_AI5");
    assert("Adobe_Illustrator_AI5"@.len() == 21 && "Adobe_Illustrator_AI5"@[0] == 'A' && "Adobe_Illustrator_AI5"@[1] == 'd' && "Adobe_Illustrator_AI5"@[2] == 'o' && "Adobe_Illustrator_AI5"@[3] == 'b' && "Adobe_Illustrator_AI5"@[4] == 'e' && "Adobe_Illustrator_AI5"@[5] == '_' && "Adobe_Illustrator_AI5"@[6] == 'I' && "Adobe_Illustrator_AI5"@[7] == 'l' && "Adobe_Illustrator_AI5"@[8] == 'l' && "Adobe_Illustrator_AI5"@[9] == 'u' && "Adobe_Illustrator_AI5"@[10] == 's' && "Adobe_Illustrator_AI5"@[11] == 't' && "Adobe_Illustrator_AI5"@[12] == 'r' && "Adobe_Illustrator_AI5"@[13] == 'a' && "Adobe_Illustrator_AI5"@[14] == 't' && "Adobe_Illustrator_AI5"@[15] == 'o' && "Adobe_Illustrator_AI5"@[16] == 'r' && "Adobe_Illustrator_AI5"@[17] == '_' && "Adobe_Illustrator_AI5"@[18] == 'A' && "Adobe_Illustrator_AI5"@[19] == 'I' && "Adobe_Illustrator_AI5"@[20] == '5');
    reveal_strlit("Adobe_ctte");
    assert("Adobe_ctte"@.len() == 10 && "Adobe_ctte"@[0] == 'A' && "Adobe_ctte"@[1] == 'd' && "Adobe_ctte"@[2] == 'o' && "Adobe_ctte"@[3] == 'b' && "Adobe_ctte"@[4] == 'e' && "Adobe_ctte"@[5] == '_' && "Adobe_ctte"@[6] == 'c' && "Adobe_ctte"@[7] == 't' && "Adobe_ctte"@[8] == 't' && "Adobe_ctte"@[9] == 'e');
    reveal_strlit("Adobe_level2_AI5");
    assert("Adobe_level2_AI5"@.len() == 16 && "Adobe_level2_AI5"@[0] == 'A' && "Adobe_level2_AI5"@[1] == 'd' && "Adobe_level2_AI5"@[2] == 'o' && "Adobe_level2_AI5"@[3] == 'b' && "Adobe_level2_AI5"@[4] == 'e' && "Adobe_level2_AI5"@[5] == '_' && "Adobe_level2_AI5"@[6] == 'l' && "Adobe_level2_AI5"@[7] == 'e' && "Adobe_level2_AI5"@[8] == 'v' && "Adobe_level2_AI5"@[9] == 'e' && "Adobe_level2_AI5"@[10] == 'l' && "Adobe_level2_AI5"@[11] == '2' && "Adobe_level2_AI5"@[12] == '_' && "Adobe_level2_AI5"@[13] == 'A' && "Adobe_level2_AI5"@[14] == 'I' && "Adobe_level2_AI5"@[15] == '5');
    reveal_strlit("Adobe_ColorImage_AI6");
    assert("Adobe_ColorImage_AI6"@.len() == 20 && "Adobe_ColorImage_AI6"@[0] == 'A' && "Adobe_ColorImage_AI6"@[1] == 'd' && "Adobe_ColorImage_AI6"@[2] == 'o' && "Adobe_ColorImage_AI6"@[3] == 'b' && "Adobe_ColorImage_AI6"@[4] == 'e' && "Adobe_ColorImage_AI6"@[5] == '_' && "Adobe_ColorImage_AI6"@[6] == 'C' && "Adobe_ColorImage_AI6"@[7] == 'o' && "Adobe_ColorImage_AI6"@[8] == 'l' && "Adobe_ColorImage_AI6"@[9] == 'o' && "Adobe_ColorImage_AI6"@[10] == 'r' && "Adobe_ColorImage_AI6"@[11] == 'I' && "Adobe_ColorImage_AI6"@[12] == 'm' && "Adobe_ColorImage_AI6"@[13] == 'a' && "Adobe_ColorImage_AI6"@[14] == 'g' && "Adobe_ColorImage_AI6"@[15] == 'e' && "Adobe_ColorImage_AI6"@[16] == '_' && "Adobe_ColorImage_AI6"@[17] == 'A' && "Adobe_ColorImage_AI6"@[18] == 'I' && "Adobe_ColorImage_AI6"@[19] == '6');
    reveal_strlit("Adobe_shading_AI8");
    assert("Adobe_shading_AI8"@.len() == 17 && "Adobe_shading_AI8"@[0] == 'A' && "Adobe_shading_AI8"@[1] == 'd' && "Adobe_shading_AI8"@[2] == 'o' && "Adobe_shading_AI8"@[3] == 'b' && "Adobe_shading_AI8"@[4] == 'e' && "Adobe_shading_AI8"@[5] == '_' && "Adobe_shading_AI8"@[6] == 's' && "Adobe_shading_AI8"@[7] == 'h' && "Adobe_shading_AI8"@[8] == 'a' && "Adobe_shading_AI8"@[9] == 'd' && "Adobe_shading_AI8"@[10] == 'i' && "Adobe_shading_AI8"@[11] == 'n' && "Adobe_shading_AI8"@[12] == 'g' && "Adobe_shading_AI8"@[13] == '_' && "Adobe_shading_AI8"@[14] == 'A' && "Adobe_shading_AI8"@[15] == 'I' && "Adobe_shading_AI8"@[16] == '8');
    reveal_strlit("pop");
    assert("pop"@.len() == 3 && "pop"@[0] == 'p' && "pop"@[1] == 'o' && "pop"@[2] == 'p');
    reveal_strlit("def");
    assert("def"@.len() == 3 && "def"@[0] == 'd' && "def"@[1] == 'e' && "def"@[2] == 'f');
    reveal_strlit("exec");
    assert("exec"@.len() == 4 && "exec"@[0] == 'e' && "exec"@[1] == 'x' && "exec"@[2] == 'e' && "exec"@[3] == 'c');
    reveal_strlit("null");
    assert("null"@.len() == 4 && "null"@[0] == 'n' && "null"@[1] == 'u' && "null"@[2] == 'l' && "null"@[3] == 'l');
    reveal_strlit("true");
    assert("true"@.len() == 4 && "true"@[0] == 't' && "true"@[1] == 'r' && "true"@[2] == 'u' && "true"@[3] == 'e');
    reveal_strlit("false");
    assert("false"@.len() == 5 && "false"@[0] == 'f' && "false"@[1] == 'a' && "false"@[2] == 'l' && "false"@[3] == 's' && "false"@[4] == 'e');
    reveal_strlit("bind");
    assert("bind"@.len() == 4 && "bind"@[0] == 'b' && "bind"@[1] == 'i' && "bind"@[2] == 'n' && "bind"@[3] == 'd');
    reveal_strlit("dup");
    assert("dup"@.len() == 3 && "dup"@[0] == 'd' && "dup"@[1] == 'u' && "dup"@[2] == 'p');
    reveal_strlit("exch");
    assert("exch"@.len() == 4 && "exch"@[0] == 'e' && "exch"@[1] == 'x' && "exch"@[2] == 'c' && "exch"@[3] == 'h');
    reveal_strlit("copy");
    assert("copy"@.len() == 4 && "copy"@[0] == 'c' && "copy"@[1] == 'o' && "copy"@[2] == 'p' && "copy"@[3] == 'y');
    reveal_strlit("index");
    assert("index"@.len() == 5 && "index"@[0] == 'i' && "index"@[1] == 'n' && "index"@[2] == 'd' && "index"@[3] == 'e' && "index"@[4] == 'x');
    reveal_strlit("roll");
    assert("roll"@.len() == 4 && "roll"@[0] == 'r' && "roll"@[1] == 'o' && "roll"@[2] == 'l' && "roll"@[3] == 'l');
    reveal_strlit("cleartomark");
    assert("cleartomark"@.len() == 11 && "cleartomark"@[0] == 'c' && "cleartomark"@[1] == 'l' && "cleartomark"@[2] == 'e' && "cleartomark"@[3] == 'a' && "cleartomark"@[4] == 'r' && "cleartomark"@[5] == 't' && "cleartomark"@[6] == 'o' && "cleartomark"@[7] == 'm' && "cleartomark"@[8] == 'a' && "cleartomark"@[9] == 'r' && "cleartomark"@[10] == 'k');
    reveal_strlit("counttomark");
    assert("counttomark"@.len() == 11 && "counttomark"@[0] == 'c' && "counttomark"@[1] == 'o' && "counttomark"@[2] == 'u' && "counttomark"@[3] == 'n' && "counttomark"@[4] == 't' && "counttomark"@[5] == 't' && "counttomark"@[6] == 'o' && "counttomark"@[7] == 'm' && "counttomark"@[8] == 'a' && "counttomark"@[9] == 'r' && "counttomark"@[10] == 'k');
    reveal_strlit("mark");
    assert("mark"@.len() == 4 && "mark"@[0] == 'm' && "mark"@[1] == 'a' && "mark"@[2] == 'r' && "mark"@[3] == 'k');
    reveal_strlit("setgray");
    assert("setgray"@.len() == 7 && "setgray"@[0] == 's' && "setgray"@[1] == 'e' && "setgray"@[2] == 't' && "setgray"@[3] == 'g' && "setgray"@[4] == 'r' && "setgray"@[5] == 'a' && "setgray"@[6] == 'y');
    reveal_strlit("setrgbcolor");
    assert("setrgbcolor"@.len() == 11 && "setrgbcolor"@[0] == 's' && "setrgbcolor"@[1] == 'e' && "setrgbcolor"@[2] == 't' && "setrgbcolor"@[3] == 'r' && "setrgbcolor"@[4] == 'g' && "setrgbcolor"@[5] == 'b' && "setrgbcolor"@[6] == 'c' && "setrgbcolor"@[7] == 'o' && "setrgbcolor"@[8] == 'l' && "setrgbcolor"@[9] == 'o' && "setrgbcolor"@[10] == 'r');
    reveal_strlit("setcmykcolor");
    assert("setcmykcolor"@.len() == 12 && "setcmykcolor"@[0] == 's' && "setcmykcolor"@[1] == 'e' && "setcmykcolor"@[2] == 't' && "setcmykcolor"@[3] == 'c' && "setcmykcolor"@[4] == 'm' && "setcmykcolor"@[5] == 'y' && "setcmykcolor"@[6] == 'k' && "setcmykcolor"@[7] == 'c' && "setcmykcolor"@[8] == 'o' && "setcmykcolor"@[9] == 'l' && "setcmykcolor"@[10] == 'o' && "setcmykcolor"@[11] == 'r');
    reveal_strlit("currentpoint");
    assert("currentpoint"@.len() == 12 && "currentpoint"@[0] == 'c' && "currentpoint"@[1] == 'u' && "currentpoint"@[2] == 'r' && "currentpoint"@[3] == 'r' && "currentpoint"@[4] == 'e' && "currentpoint"@[5] == 'n' && "currentpoint"@[6] == 't' && "currentpoint"@[7] == 'p' && "currentpoint"@[8] == 'o' && "currentpoint"@[9] == 'i' && "currentpoint"@[10] == 'n' && "currentpoint"@[11] == 't');
    reveal_strlit("moveto");
    assert("moveto"@.len() == 6 && "moveto"@[0] == 'm' && "moveto"@[1] == 'o' && "moveto"@[2] == 'v' && "moveto"@[3] == 'e' && "moveto"@[4] == 't' && "moveto"@[5] == 'o');
    reveal_strlit("lineto");
    assert("lineto"@.len() == 6 && "lineto"@[0] == 'l' && "lineto"@[1] == 'i' && "lineto"@[2] == 'n' && "lineto"@[3] == 'e' && "lineto"@[4] == 't' && "lineto"@[5] == 'o');
    reveal_strlit("curveto");
    assert("curveto"@.len() == 7 && "curveto"@[0] == 'c' && "curveto"@[1] == 'u' && "curveto"@[2] == 'r' && "curveto"@[3] == 'v' && "curveto"@[4] == 'e' && "curveto"@[5] == 't' && "curveto"@[6] == 'o');
    reveal_strlit("closepath");
    assert("closepath"@.len() == 9 && "closepath"@[0] == 'c' && "closepath"@[1] == 'l' && "closepath"@[2] == 'o' && "closepath"@[3] == 's' && "closepath"@[4] == 'e' && "closepath"@[5] == 'p' && "closepath"@[6] == 'a' && "closepath"@[7] == 't' && "closepath"@[8] == 'h');
    reveal_strlit("fill");
    assert("fill"@.len() == 4 && "fill"@[0] == 'f' && "fill"@[1] == 'i' && "fill"@[2] == 'l' && "fill"@[3] == 'l');
    reveal_strlit("stroke");
    assert("stroke"@.len() == 6 && "stroke"@[0] == 's' && "stroke"@[1] == 't' && "stroke"@[2] == 'r' && "stroke"@[3] == 'o' && "stroke"@[4] == 'k' && "stroke"@[5] == 'e');
    reveal_strlit("newpath");
    assert("newpath"@.len() == 7 && "newpath"@[0] == 'n' && "newpath"@[1] == 'e' && "newpath"@[2] == 'w' && "newpath"@[3] == 'p' && "newpath"@[4] == 'a' && "newpath"@[5] == 't' && "newpath"@[6] == 'h');
    reveal_strlit("gsave");
    assert("gsave"@.len() == 5 && "gsave"@[0] == 'g' && "gsave"@[1] == 's' && "gsave"@[2] == 'a' && "gsave"@[3] == 'v' && "gsave"@[4] == 'e');
    reveal_strlit("grestore");
    assert("grestore"@.len() == 8 && "grestore"@[0] == 'g' && "grestore"@[1] == 'r' && "grestore"@[2] == 'e' && "grestore"@[3] == 's' && "grestore"@[4] == 't' && "grestore"@[5] == 'o' && "grestore"@[6] == 'r' && "grestore"@[7] == 'e');
    reveal_strlit("showpage");
    assert("showpage"@.len() == 8 && "showpage"@[0] == 's' && "showpage"@[1] == 'h' && "showpage"@[2] == 'o' && "showpage"@[3] == 'w' && "showpage"@[4] == 'p' && "showpage"@[5] == 'a' && "showpage"@[6] == 'g' && "showpage"@[7] == 'e');
    reveal_strlit("translate");
    assert("translate"@.len() == 9 && "translate"@[0] == 't' && "translate"@[1] == 'r' && "translate"@[2] == 'a' && "translate"@[3] == 'n' && "translate"@[4] == 's' && "translate"@[5] == 'l' && "translate"@[6] == 'a' && "translate"@[7] == 't' && "translate"@[8] == 'e');
    reveal_strlit("scale");
    assert("scale"@.len() == 5 && "scale"@[0] == 's' && "scale"@[1] == 'c' && "scale"@[2] == 'a' && "scale"@[3] == 'l' && "scale"@[4] == 'e');
    reveal_strlit("rotate");
    assert("rotate"@.len() == 6 && "rotate"@[0] == 'r' && "rotate"@[1] == 'o' && "rotate"@[2] == 't' && "rotate"@[3] == 'a' && "rotate"@[4] == 't' && "rotate"@[5] == 'e');
    reveal_strlit("concat");
    assert("concat"@.len() == 6 && "concat"@[0] == 'c' && "concat"@[1] == 'o' && "concat"@[2] == 'n' && "concat"@[3] == 'c' && "concat"@[4] == 'a' && "concat"@[5] == 't');
    reveal_strlit("setlinewidth");
    assert("setlinewidth"@.len() == 12 && "setlinewidth"@[0] == 's' && "setlinewidth"@[1] == 'e' && "setlinewidth"@[2] == 't' && "setlinewidth"@[3] == 'l' && "setlinewidth"@[4] == 'i' && "setlinewidth"@[5] == 'n' && "setlinewidth"@[6] == 'e' && "setlinewidth"@[7] == 'w' && "setlinewidth"@[8] == 'i' && "setlinewidth"@[9] == 'd' && "setlinewidth"@[10] == 't' && "setlinewidth"@[11] == 'h');
    reveal_strlit("setlinecap");
    assert("setlinecap"@.len() == 10 && "setlinecap"@[0] == 's' && "setlinecap"@[1] == 'e' && "setlinecap"@[2] == 't' && "setlinecap"@[3] == 'l' && "setlinecap"@[4] == 'i' && "setlinecap"@[5] == 'n' && "setlinecap"@[6] == 'e' && "setlinecap"@[7] == 'c' && "setlinecap"@[8] == 'a' && "setlinecap"@[9] == 'p');
    reveal_strlit("setlinejoin");
    assert("setlinejoin"@.len() == 11 && "setlinejoin"@[0] == 's' && "setlinejoin"@[1] == 'e' && "setlinejoin"@[2] == 't' && "setlinejoin"@[3] == 'l' && "setlinejoin"@[4] == 'i' && "setlinejoin"@[5] == 'n' && "setlinejoin"@[6] == 'e' && "setlinejoin"@[7] == 'j' && "setlinejoin"@[8] == 'o' && "setlinejoin"@[9] == 'i' && "setlinejoin"@[10] == 'n');
}

proof fn lemma_operators_9()
    ensures
        operator_spec("setmiterlimit"@) == Some(("ps_setmiterlimit"@, Some(1usize), "handle_noop"@)),
        operator_spec("setdash"@) == Some(("ps_setdash"@, None::<usize>, "handle_noop"@)),
        operator_spec("clip"@) == Some(("ps_clip"@, Some(0usize), "handle_noop"@)),
        operator_spec("image"@) == Some(("ps_image"@, None::<usize>, "handle_noop"@)),
        operator_spec("colorimage"@) == Some(("ps_colorimage"@, None::<usize>, "handle_noop"@)),
        operator_spec("Ap"@) == Some(("opacity_attrs"@, None::<usize>, "handle_noop"@)),
        operator_spec("O"@) == Some(("overprint_fill"@, Some(1usize), "handle_noop"@)),
        operator_spec("R"@) == Some(("overprint_stroke"@, Some(1usize), "handle_noop"@)),
        operator_spec("Xw"@) == Some(("winding_rule"@, Some(1usize), "handle_noop"@)),
        operator_spec("XR"@) == Some(("xr_paint_style"@, Some(1usize), "handle_noop"@)),
        operator_spec("XW"@) == Some(("xw_paint_style"@, Some(2usize), "handle_noop"@)),
        operator_spec("Xd"@) == Some(("xd_paint_style"@, None::<usize>, "handle_noop"@)),
        operator_spec("Xm"@) == Some(("xm_paint_style"@, None::<usize>, "handle_noop"@)),
{
    reveal_strlit("m");
    assert("m"@.len() == 1 && "m"@[0] == 'm');
    reveal_strlit("l");
    assert("l"@.len() == 1 && "l"@[0] == 'l');
    reveal_strlit("L");
    assert("L"@.len() == 1 && "L"@[0] == 'L');
    reveal_strlit("c");
    assert("c"@.len() == 1 && "c"@[0] == 'c');
    reveal_strlit("C");
    assert("C"@.len() == 1 && "C"@[0] == 'C');
    reveal_strlit("v");
    assert("v"@.len() == 1 && "v"@[0] == 'v');
    reveal_strlit("V");
    assert("V"@.len() == 1 && "V"@[0] == 'V');
    reveal_strlit("y");
    assert("y"@.len() == 1 && "y"@[0] == 'y');
    reveal_strlit("Y");
    assert("Y"@.len() == 1 && "Y"@[0] == 'Y');
    reveal_strlit("H");
    assert("H"@.len() == 1 && "H"@[0] == 'H');
    reveal_strlit("N");
    assert("N"@.len() == 1 && "N"@[0] == 'N');
    reveal_strlit("n");
    assert("n"@.len() == 1 && "n"@[0] == 'n');
    reveal_strlit("F");
    assert("F"@.len() == 1 && "F"@[0] == 'F');
    reveal_strlit("f");
    assert("f"@.len() == 1 && "f"@[0] == 'f');
    reveal_strlit("S");
    assert("S"@.len() == 1 && "S"@[0] == 'S');
    reveal_strlit("s");
    assert("s"@.len() == 1 && "s"@[0] == 's');
    reveal_strlit("B");
    assert("B"@.len() == 1 && "B"@[0] == 'B');
    reveal_strlit("b");
    assert("b"@.len() == 1 && "b"@[0] == 'b');
    reveal_strlit("g");
    assert("g"@.len() == 1 && "g"@[0] == 'g');
    reveal_strlit("G");
    assert("G"@.len() == 1 && "G"@[0] == 'G');
    reveal_strlit("k");
    assert("k"@.len() == 1 && "k"@[0] == 'k');
    reveal_strlit("K");
    assert("K"@.len() == 1 && "K"@[0] == 'K');
    reveal_strlit("Xa");
    assert("Xa"@.len() == 2 && "Xa"@[0] == 'X' && "Xa"@[1] == 'a');
    reveal_strlit("XA");
    assert("XA"@.len() == 2 && "XA"@[0] == 'X' && "XA"@[1] == 'A');
    reveal_strlit("x");
    assert("x"@.len() == 1 && "x"@[0] == 'x');
    reveal_strlit("X");
    assert("X"@.len() == 1 && "X"@[0] == 'X');
    reveal_strlit("Xx");
    assert("Xx"@.len() == 2 && "Xx"@[0] == 'X' && "Xx"@[1] == 'x');
    reveal_strlit("XX");
    assert("XX"@.len() == 2 && "XX"@[0] == 'X' && "XX"@[1] == 'X');
    reveal_strlit("w");
    assert("w"@.len() == 1 && "w"@[0] == 'w');
    reveal_strlit("J");
    assert("J"@.len() == 1 && "J"@[0] == 'J');
    reveal_strlit("j");
    assert("j"@.len() == 1 && "j"@[0] == 'j');
    reveal_strlit("M");
    assert("M"@.len() == 1 && "M"@[0] == 'M');
    reveal_strlit("d");
    assert("d"@.len() == 1 && "d"@[0] == 'd');
    reveal_strlit("i");
    assert("i"@.len() == 1 && "i"@[0] == 'i');
    reveal_strlit("D");
    assert("D"@.len() == 1 && "D"@[0] == 'D');
    reveal_strlit("q");
    assert("q"@.len() == 1 && "q"@[0] == 'q');
    reveal_strlit("Q");
    assert("Q"@.len() == 1 && "Q"@[0] == 'Q');
    reveal_strlit("W");
    assert("W"@.len() == 1 && "W"@[0] == 'W');
    reveal_strlit("cm");
    assert("cm"@.len() == 2 && "cm"@[0] == 'c' && "cm"@[1] == 'm');
    reveal_strlit("u");
    assert("u"@.len() == 1 && "u"@[0] == 'u');
    reveal_strlit("U");
    assert("U"@.len() == 1 && "U"@[0] == 'U');
    reveal_strlit("*u");
    assert("*u"@.len() == 2 && "*u"@[0] == '*' && "*u"@[1] == 'u');
    reveal_strlit("*U");
    assert("*U"@.len() == 2 && "*U"@[0] == '*' && "*U"@[1] == 'U');
    reveal_strlit("Lb");
    assert("Lb"@.len() == 2 && "Lb"@[0] == 'L' && "Lb"@[1] == 'b');
    reveal_strlit("LB");
    assert("LB"@.len() == 2 && "LB"@[0] == 'L' && "LB"@[1] == 'B');
    reveal_strlit("Ln");
    assert("Ln"@.len() == 2 && "Ln"@[0] == 'L' && "Ln"@[1] == 'n');
    reveal_strlit("To");
    assert("To"@.len() == 2 && "To"@[0] == 'T' && "To"@[1] == 'o');
    reveal_strlit("TO");
    assert("TO"@.len() == 2 && "TO"@[0] == 'T' && "TO"@[1] == 'O');
    reveal_strlit("Tp");
    assert("Tp"@.len() == 2 && "Tp"@[0] == 'T' && "Tp"@[1] == 'p');
    reveal_strlit("TP");
    assert("TP"@.len() == 2 && "TP"@[0] == 'T' && "TP"@[1] == 'P');
    reveal_strlit("Tx");
    assert("Tx"@.len() == 2 && "Tx"@[0] == 'T' && "Tx"@[1] == 'x');
    reveal_strlit("TX");
    assert("TX"@.len() == 2 && "TX"@[0] == 'T' && "TX"@[1] == 'X');
    reveal_strlit("Tf");
    assert("Tf"@.len() == 2 && "Tf"@[0] == 'T' && "Tf"@[1] == 'f');
    reveal_strlit("Tj");
    assert("Tj"@.len() == 2 && "Tj"@[0] == 'T' && "Tj"@[1] == 'j');
    reveal_strlit("TJ");
    assert("TJ"@.len() == 2 && "TJ"@[0] == 'T' && "TJ"@[1] == 'J');
    reveal_strlit("Tk");
    assert("Tk"@.len() == 2 && "Tk"@[0] == 'T' && "Tk"@[1] == 'k');
    reveal_strlit("Tc");
    assert("Tc"@.len() == 2 && "Tc"@[0] == 'T' && "Tc"@[1] == 'c');
    reveal_strlit("Tw");
    assert("Tw"@.len() == 2 && "Tw"@[0] == 'T' && "Tw"@[1] == 'w');
    reveal_strlit("Ts");
    assert("Ts"@.len() == 2 && "Ts"@[0] == 'T' && "Ts"@[1] == 's');
    reveal_strlit("Ti");
    assert("Ti"@.len() == 2 && "Ti"@[0] == 'T' && "Ti"@[1] == 'i');
    reveal_strlit("Tz");
    assert("Tz"@.len() == 2 && "Tz"@[0] == 'T' && "Tz"@[1] == 'z');
    reveal_strlit("TA");
    assert("TA"@.len() == 2 && "TA"@[0] == 'T' && "TA"@[1] == 'A');
    reveal_strlit("Tq");
    assert("Tq"@.len() == 2 && "Tq"@[0] == 'T' && "Tq"@[1] == 'q');
    reveal_strlit("Bb");
    assert("Bb"@.len() == 2 && "Bb"@[0] == 'B' && "Bb"@[1] == 'b');
    reveal_strlit("BB");
    assert("BB"@.len() == 2 && "BB"@[0] == 'B' && "BB"@[1] == 'B');
    reveal_strlit("Bd");
    assert("Bd"@.len() == 2 && "Bd"@[0] == 'B' && "Bd"@[1] == 'd');
    reveal_strlit("BD");
    assert("BD"@.len() == 2 && "BD"@[0] == 'B' && "BD"@[1] == 'D');
    reveal_strlit("Bg");
    assert("Bg"@.len() == 2 && "Bg"@[0] == 'B' && "Bg"@[1] == 'g');
    reveal_strlit("Bs");
    assert("Bs"@.len() == 2 && "Bs"@[0] == 'B' && "Bs"@[1] == 's');
    reveal_strlit("BR");
    assert("BR"@.len() == 2 && "BR"@[0] == 'B' && "BR"@[1] == 'R');
    reveal_strlit("Bm");
    assert("Bm"@.len() == 2 && "Bm"@[0] == 'B' && "Bm"@[1] == 'm');
    reveal_strlit("E");
    assert("E"@.len() == 1 && "E"@[0] == 'E');
    reveal_strlit("e");
    assert("e"@.len() == 1 && "e"@[0] == 'e');
    reveal_strlit("AI5_SetPalette");
    assert("AI5_SetPalette"@.len() == 14 && "AI5_SetPalette"@[0] == 'A' && "AI5_SetPalette"@[1] == 'I' && "AI5_SetPalette"@[2] == '5' && "AI5_SetPalette"@[3] == '_' && "AI5_SetPalette"@[4] == 'S' && "AI5_SetPalette"@[5] == 'e' && "AI5_SetPalette"@[6] == 't' && "AI5_SetPalette"@[7] == 'P' && "AI5_SetPalette"@[8] == 'a' && "AI5_SetPalette"@[9] == 'l' && "AI5_SetPalette"@[10] == 'e' && "AI5_SetPalette"@[11] == 't' && "AI5_SetPalette"@[12] == 't' && "AI5_SetPalette"@[13] == 'e');
    reveal_strlit("XI");
    assert("XI"@.len() == 2 && "XI"@[0] == 'X' && "XI"@[1] == 'I');
    reveal_strlit("'");
    assert("'"@.len() == 1 && "'"@[0] == '\'');
    reveal_strlit("Adobe_Illustrator_AI5");
    assert("Adobe_Illustrator_AI5"@.len() == 21 && "Adobe_Illustrator_AI5"@[0] == 'A' && "Adobe_Illustrator_AI5"@[1] == 'd' && "Adobe_Illustrator_AI5"@[2] == 'o' && "Adobe_Illustrator_AI5"@[3] == 'b' && "Adobe_Illustrator_AI5"@[4] == 'e' && "Adobe_Illustrator_AI5"@[5] == '_' && "Adobe_Illustrator_AI5"@[6] == 'I' && "Adobe_Illustrator_AI5"@[7] == 'l' && "Adobe_Illustrator_AI5"@[8] == 'l' && "Adobe_Illustrator_AI5"@[9] == 'u' && "Adobe_Illustrator_AI5"@[10] == 's' && "Adobe_Illustrator_AI5"@[11] == 't' && "Adobe_Illustrator_AI5"@[12] == 'r' && "Adobe_Illustrator_AI5"@[13] == 'a' && "Adobe_Illustrator_AI5"@[14] == 't' && "Adobe_Illustrator_AI5"@[15] == 'o' && "Adobe_Illustrator_AI5"@[16] == 'r' && "Adobe_Illustrator_AI5"@[17] == '_' && "Adobe_Illustrator_AI5"@[18] == 'A' && "Adobe_Illustrator_AI5"@[19] == 'I' && "Adobe_Illustrator_AI5"@[20] == '5');
    reveal_strlit("Adobe_ctte");
    assert("Adobe_ctte"@.len() == 10 && "Adobe_ctte"@[0] == 'A' && "Adobe_ctte"@[1] == 'd' && "Adobe_ctte"@[2] == 'o' && "Adobe_ctte"@[3] == 'b' && "Adobe_ctte"@[4] == 'e' && "Adobe_ctte"@[5] == '_' && "Adobe_ctte"@[6] == 'c' && "Adobe_ctte"@[7] == 't' && "Adobe_ctte"@[8] == 't' && "Adobe_ctte"@[9] == 'e');
    reveal_strlit("Adobe_level2_AI5");
    assert("Adobe_level2_AI5"@.len() == 16 && "Adobe_level2_AI5"@[0] == 'A' && "Adobe_level2_AI5"@[1] == 'd' && "Adobe_level2_AI5"@[2] == 'o' && "Adobe_level2_AI5"@[3] == 'b' && "Adobe_level2_AI5"@[4] == 'e' && "Adobe_level2_AI5"@[5] == '_' && "Adobe_level2_AI5"@[6] == 'l' && "Adobe_level2_AI5"@[7] == 'e' && "Adobe_level2_AI5"@[8] == 'v' && "Adobe_level2_AI5"@[9] == 'e' && "Adobe_level2_AI5"@[10] == 'l' && "Adobe_level2_AI5"@[11] == '2' && "Adobe_level2_AI5"@[12] == '_' && "Adobe_level2_AI5"@[13] == 'A' && "Adobe_level2_AI5"@[14] == 'I' && "Adobe_level2_AI5"@[15] == '5');
    reveal_strlit("Adobe_ColorImage_AI6");
    assert("Adobe_ColorImage_AI6"@.len() == 20 && "Adobe_ColorImage_AI6"@[0] == 'A' && "Adobe_ColorImage_AI6"@[1] == 'd' && "Adobe_ColorImage_AI6"@[2] == 'o' && "Adobe_ColorImage_AI6"@[3] == 'b' && "Adobe_ColorImage_AI6"@[4] == 'e' && "Adobe_ColorImage_AI6"@[5] == '_' && "Adobe_ColorImage_AI6"@[6] == 'C' && "Adobe_ColorImage_AI6"@[7] == 'o' && "Adobe_ColorImage_AI6"@[8] == 'l' && "Adobe_ColorImage_AI6"@[9] == 'o' && "Adobe_ColorImage_AI6"@[10] == 'r' && "Adobe_ColorImage_AI6"@[11] == 'I' && "Adobe_ColorImage_AI6"@[12] == 'm' && "Adobe_ColorImage_AI6"@[13] == 'a' && "Adobe_ColorImage_AI6"@[14] == 'g' && "Adobe_ColorImage_AI6"@[15] == 'e' && "Adobe_ColorImage_AI6"@[16] == '_' && "Adobe_ColorImage_AI6"@[17] == 'A' && "Adobe_ColorImage_AI6"@[18] == 'I' && "Adobe_ColorImage_AI6"@[19] == '6');
    reveal_strlit("Adobe_shading_AI8");
    assert("Adobe_shading_AI8"@.len() == 17 && "Adobe_shading_AI8"@[0] == 'A' && "Adobe_shading_AI8"@[1] == 'd' && "Adobe_shading_AI8"@[2] == 'o' && "Adobe_shading_AI8"@[3] == 'b' && "Adobe_shading_AI8"@[4] == 'e' && "Adobe_shading_AI8"@[5] == '_' && "Adobe_shading_AI8"@[6] == 's' && "Adobe_shading_AI8"@[7] == 'h' && "Adobe_shading_AI8"@[8] == 'a' && "Adobe_shading_AI8"@[9] == 'd' && "Adobe_shading_AI8"@[10] == 'i' && "Adobe_shading_AI8"@[11] == 'n' && "Adobe_shading_AI8"@[12] == 'g' && "Adobe_shading_AI8"@[13] == '_' && "Adobe_shading_AI8"@[14] == 'A' && "Adobe_shading_AI8"@[15] == 'I' && "Adobe_shading_AI8"@[16] == '8');
    reveal_strlit("pop");
    assert("pop"@.len() == 3 && "pop"@[0] == 'p' && "pop"@[1] == 'o' && "pop"@[2] == 'p');
    reveal_strlit("def");
    assert("def"@.len() == 3 && "def"@[0] == 'd' && "def"@[1] == 'e' && "def"@[2] == 'f');
    reveal_strlit("exec");
    assert("exec"@.len() == 4 && "exec"@[0] == 'e' && "exec"@[1] == 'x' && "exec"@[2] == 'e' && "exec"@[3] == 'c');
    reveal_strlit("null");
    assert("null"@.len() == 4 && "null"@[0] == 'n' && "null"@[1] == 'u' && "null"@[2] == 'l' && "null"@[3] == 'l');
    reveal_strlit("true");
    assert("true"@.len() == 4 && "true"@[0] == 't' && "true"@[1] == 'r' && "true"@[2] == 'u' && "true"@[3] == 'e');
    reveal_strlit("false");
    assert("false"@.len() == 5 && "false"@[0] == 'f' && "false"@[1] == 'a' && "false"@[2] == 'l' && "false"@[3] == 's' && "false"@[4] == 'e');
    reveal_strlit("bind");
    assert("bind"@.len() == 4 && "bind"@[0] == 'b' && "bind"@[1] == 'i' && "bind"@[2] == 'n' && "bind"@[3] == 'd');
    reveal_strlit("dup");
    assert("dup"@.len() == 3 && "dup"@[0] == 'd' && "dup"@[1] == 'u' && "dup"@[2] == 'p');
    reveal_strlit("exch");
    assert("exch"@.len() == 4 && "exch"@[0] == 'e' && "exch"@[1] == 'x' && "exch"@[2] == 'c' && "exch"@[3] == 'h');
    reveal_strlit("copy");
    assert("copy"@.len() == 4 && "copy"@[0] == 'c' && "copy"@[1] == 'o' && "copy"@[2] == 'p' && "copy"@[3] == 'y');
    reveal_strlit("index");
    assert("index"@.len() == 5 && "index"@[0] == 'i' && "index"@[1] == 'n' && "index"@[2] == 'd' && "index"@[3] == 'e' && "index"@[4] == 'x');
    reveal_strlit("roll");
    assert("roll"@.len() == 4 && "roll"@[0] == 'r' && "roll"@[1] == 'o' && "roll"@[2] == 'l' && "roll"@[3] == 'l');
    reveal_strlit("cleartomark");
    assert("cleartomark"@.len() == 11 && "cleartomark"@[0] == 'c' && "cleartomark"@[1] == 'l' && "cleartomark"@[2] == 'e' && "cleartomark"@[3] == 'a' && "cleartomark"@[4] == 'r' && "cleartomark"@[5] == 't' && "cleartomark"@[6] == 'o' && "cleartomark"@[7] == 'm' && "cleartomark"@[8] == 'a' && "cleartomark"@[9] == 'r' && "cleartomark"@[10] == 'k');
    reveal_strlit("counttomark");
    assert("counttomark"@.len() == 11 && "counttomark"@[0] == 'c' && "counttomark"@[1] == 'o' && "counttomark"@[2] == 'u' && "counttomark"@[3] == 'n' && "counttomark"@[4] == 't' && "counttomark"@[5] == 't' && "counttomark"@[6] == 'o' && "counttomark"@[7] == 'm' && "counttomark"@[8] == 'a' && "counttomark"@[9] == 'r' && "counttomark"@[10] == 'k');
    reveal_strlit("mark");
    assert("mark"@.len() == 4 && "mark"@[0] == 'm' && "mark"@[1] == 'a' && "mark"@[2] == 'r' && "mark"@[3] == 'k');
    reveal_strlit("setgray");
    assert("setgray"@.len() == 7 && "setgray"@[0] == 's' && "setgray"@[1] == 'e' && "setgray"@[2] == 't' && "setgray"@[3] == 'g' && "setgray"@[4] == 'r' && "setgray"@[5] == 'a' && "setgray"@[6] == 'y');
    reveal_strlit("setrgbcolor");
    assert("setrgbcolor"@.len() == 11 && "setrgbcolor"@[0] == 's' && "setrgbcolor"@[1] == 'e' && "setrgbcolor"@[2] == 't' && "setrgbcolor"@[3] == 'r' && "setrgbcolor"@[4] == 'g' && "setrgbcolor"@[5] == 'b' && "setrgbcolor"@[6] == 'c' && "setrgbcolor"@[7] == 'o' && "setrgbcolor"@[8] == 'l' && "setrgbcolor"@[9] == 'o' && "setrgbcolor"@[10] == 'r');
    reveal_strlit("setcmykcolor");
    assert("setcmykcolor"@.len() == 12 && "setcmykcolor"@[0] == 's' && "setcmykcolor"@[1] == 'e' && "setcmykcolor"@[2] == 't' && "setcmykcolor"@[3] == 'c' && "setcmykcolor"@[4] == 'm' && "setcmykcolor"@[5] == 'y' && "setcmykcolor"@[6] == 'k' && "setcmykcolor"@[7] == 'c' && "setcmykcolor"@[8] == 'o' && "setcmykcolor"@[9] == 'l' && "setcmykcolor"@[10] == 'o' && "setcmykcolor"@[11] == 'r');
    reveal_strlit("currentpoint");
    assert("currentpoint"@.len() == 12 && "currentpoint"@[0] == 'c' && "currentpoint"@[1] == 'u' && "currentpoint"@[2] == 'r' && "currentpoint"@[3] == 'r' && "currentpoint"@[4] == 'e' && "currentpoint"@[5] == 'n' && "currentpoint"@[6] == 't' && "currentpoint"@[7] == 'p' && "currentpoint"@[8] == 'o' && "currentpoint"@[9] == 'i' && "currentpoint"@[10] == 'n' && "currentpoint"@[11] == 't');
    reveal_strlit("moveto");
    assert("moveto"@.len() == 6 && "moveto"@[0] == 'm' && "moveto"@[1] == 'o' && "moveto"@[2] == 'v' && "moveto"@[3] == 'e' && "moveto"@[4] == 't' && "moveto"@[5] == 'o');
    reveal_strlit("lineto");
    assert("lineto"@.len() == 6 && "lineto"@[0] == 'l' && "lineto"@[1] == 'i' && "lineto"@[2] == 'n' && "lineto"@[3] == 'e' && "lineto"@[4] == 't' && "lineto"@[5] == 'o');
    reveal_strlit("curveto");
    assert("curveto"@.len() == 7 && "curveto"@[0] == 'c' && "curveto"@[1] == 'u' && "curveto"@[2] == 'r' && "curveto"@[3] == 'v' && "curveto"@[4] == 'e' && "curveto"@[5] == 't' && "curveto"@[6] == 'o');
    reveal_strlit("closepath");
    assert("closepath"@.len() == 9 && "closepath"@[0] == 'c' && "closepath"@[1] == 'l' && "closepath"@[2] == 'o' && "closepath"@[3] == 's' && "closepath"@[4] == 'e' && "closepath"@[5] == 'p' && "closepath"@[6] == 'a' && "closepath"@[7] == 't' && "closepath"@[8] == 'h');
    reveal_strlit("fill");
    assert("fill"@.len() == 4 && "fill"@[0] == 'f' && "fill"@[1] == 'i' && "fill"@[2] == 'l' && "fill"@[3] == 'l');
    reveal_strlit("stroke");
    assert("stroke"@.len() == 6 && "stroke"@[0] == 's' && "stroke"@[1] == 't' && "stroke"@[2] == 'r' && "stroke"@[3] == 'o' && "stroke"@[4] == 'k' && "stroke"@[5] == 'e');
    reveal_strlit("newpath");
    assert("newpath"@.len() == 7 && "newpath"@[0] == 'n' && "newpath"@[1] == 'e' && "newpath"@[2] == 'w' && "newpath"@[3] == 'p' && "newpath"@[4] == 'a' && "newpath"@[5] == 't' && "newpath"@[6] == 'h');
    reveal_strlit("gsave");
    assert("gsave"@.len() == 5 && "gsave"@[0] == 'g' && "gsave"@[1] == 's' && "gsave"@[2] == 'a' && "gsave"@[3] == 'v' && "gsave"@[4] == 'e');
    reveal_strlit("grestore");
    assert("grestore"@.len() == 8 && "grestore"@[0] == 'g' && "grestore"@[1] == 'r' && "grestore"@[2] == 'e' && "grestore"@[3] == 's' && "grestore"@[4] == 't' && "grestore"@[5] == 'o' && "grestore"@[6] == 'r' && "grestore"@[7] == 'e');
    reveal_strlit("showpage");
    assert("showpage"@.len() == 8 && "showpage"@[0] == 's' && "showpage"@[1] == 'h' && "showpage"@[2] == 'o' && "showpage"@[3] == 'w' && "showpage"@[4] == 'p' && "showpage"@[5] == 'a' && "showpage"@[6] == 'g' && "showpage"@[7] == 'e');
    reveal_strlit("translate");
    assert("translate"@.len() == 9 && "translate"@[0] == 't' && "translate"@[1] == 'r' && "translate"@[2] == 'a' && "translate"@[3] == 'n' && "translate"@[4] == 's' && "translate"@[5] == 'l' && "translate"@[6] == 'a' && "translate"@[7] == 't' && "translate"@[8] == 'e');
    reveal_strlit("scale");
    assert("scale"@.len() == 5 && "scale"@[0] == 's' && "scale"@[1] == 'c' && "scale"@[2] == 'a' && "scale"@[3] == 'l' && "scale"@[4] == 'e');
    reveal_strlit("rotate");
    assert("rotate"@.len() == 6 && "rotate"@[0] == 'r' && "rotate"@[1] == 'o' && "rotate"@[2] == 't' && "rotate"@[3] == 'a' && "rotate"@[4] == 't' && "rotate"@[5] == 'e');
    reveal_strlit("concat");
    assert("concat"@.len() == 6 && "concat"@[0] == 'c' && "concat"@[1] == 'o' && "concat"@[2] == 'n' && "concat"@[3] == 'c' && "concat"@[4] == 'a' && "concat"@[5] == 't');
    reveal_strlit("setlinewidth");
    assert("setlinewidth"@.len() == 12 && "setlinewidth"@[0] == 's' && "setlinewidth"@[1] == 'e' && "setlinewidth"@[2] == 't' && "setlinewidth"@[3] == 'l' && "setlinewidth"@[4] == 'i' && "setlinewidth"@[5] == 'n' && "setlinewidth"@[6] == 'e' && "setlinewidth"@[7] == 'w' && "setlinewidth"@[8] == 'i' && "setlinewidth"@[9] == 'd' && "setlinewidth"@[10] == 't' && "setlinewidth"@[11] == 'h');
    reveal_strlit("setlinecap");
    assert("setlinecap"@.len() == 10 && "setlinecap"@[0] == 's' && "setlinecap"@[1] == 'e' && "setlinecap"@[2] == 't' && "setlinecap"@[3] == 'l' && "setlinecap"@[4] == 'i' && "setlinecap"@[5] == 'n' && "setlinecap"@[6] == 'e' && "setlinecap"@[7] == 'c' && "setlinecap"@[8] == 'a' && "setlinecap"@[9] == 'p');
    reveal_strlit("setlinejoin");
    assert("setlinejoin"@.len() == 11 && "setlinejoin"@[0] == 's' && "setlinejoin"@[1] == 'e' && "setlinejoin"@[2] == 't' && "setlinejoin"@[3] == 'l' && "setlinejoin"@[4] == 'i' && "setlinejoin"@[5] == 'n' && "setlinejoin"@[6] == 'e' && "setlinejoin"@[7] == 'j' && "setlinejoin"@[8] == 'o' && "setlinejoin"@[9] == 'i' && "setlinejoin"@[10] == 'n');
    reveal_strlit("setmiterlimit");
    assert("setmiterlimit"@.len() == 13 && "setmiterlimit"@[0] == 's' && "setmiterlimit"@[1] == 'e' && "setmiterlimit"@[2] == 't' && "setmiterlimit"@[3] == 'm' && "setmiterlimit"@[4] == 'i' && "setmiterlimit"@[5] == 't' && "setmiterlimit"@[6] == 'e' && "setmiterlimit"@[7] == 'r' && "setmiterlimit"@[8] == 'l' && "setmiterlimit"@[9] == 'i' && "setmiterlimit"@[10] == 'm' && "setmiterlimit"@[11] == 'i' && "setmiterlimit"@[12] == 't');
    reveal_strlit("setdash");
    assert("setdash"@.len() == 7 && "setdash"@[0] == 's' && "setdash"@[1] == 'e' && "setdash"@[2] == 't' && "setdash"@[3] == 'd' && "setdash"@[4] == 'a' && "setdash"@[5] == 's' && "setdash"@[6] == 'h');
    reveal_strlit("clip");
    assert("clip"@.len() == 4 && "clip"@[0] == 'c' && "clip"@[1] == 'l' && "clip"@[2] == 'i' && "clip"@[3] == 'p');
    reveal_strlit("image");
    assert("image"@.len() == 5 && "image"@[0] == 'i' && "image"@[1] == 'm' && "image"@[2] == 'a' && "image"@[3] == 'g' && "image"@[4] == 'e');
    reveal_strlit("colorimage");
    assert("colorimage"@.len() == 10 && "colorimage"@[0] == 'c' && "colorimage"@[1] == 'o' && "colorimage"@[2] == 'l' && "colorimage"@[3] == 'o' && "colorimage"@[4] == 'r' && "colorimage"@[5] == 'i' && "colorimage"@[6] == 'm' && "colorimage"@[7] == 'a' && "colorimage"@[8] == 'g' && "colorimage"@[9] == 'e');
    reveal_strlit("Ap");
    assert("Ap"@.len() == 2 && "Ap"@[0] == 'A' && "Ap"@[1] == 'p');
    reveal_strlit("O");
    assert("O"@.len() == 1 && "O"@[0] == 'O');
    reveal_strlit("R");
    assert("R"@.len() == 1 && "R"@[0] == 'R');
    reveal_strlit("Xw");
    assert("Xw"@.len() == 2 && "Xw"@[0] == 'X' && "Xw"@[1] == 'w');
    reveal_strlit("XR");
    assert("XR"@.len() == 2 && "XR"@[0] == 'X' && "XR"@[1] == 'R');
    reveal_strlit("XW");
    assert("XW"@.len() == 2 && "XW"@[0] == 'X' && "XW"@[1] == 'W');
    reveal_strlit("Xd");
    assert("Xd"@.len() == 2 && "Xd"@[0] == 'X' && "Xd"@[1] == 'd');
    reveal_strlit("Xm");
    assert("Xm"@.len() == 2 && "Xm"@[0] == 'X' && "Xm"@[1] == 'm');
}

proof fn lemma_operators_10()
    ensures
        operator_spec("Xs"@) == Some(("xs_paint_style"@, None::<usize>, "handle_noop"@)),
        operator_spec("Xy"@) == Some(("xy_paint_style"@, Some(5usize), "handle_noop"@)),
        operator_spec("XS"@) == Some(("xs_stroke_style"@, None::<usize>, "handle_noop"@)),
        operator_spec("Ae"@) == Some(("appearance_end"@, Some(1usize), "handle_appearance_end"@)),
        operator_spec("AE"@) == Some(("appearance_expand"@, Some(1usize), "handle_noop"@)),
        operator_spec("As"@) == Some(("appearance_style"@, Some(1usize), "handle_appearance_style"@)),
        operator_spec("A"@) == Some(("appearance_a"@, Some(1usize), "handle_noop"@)),
        operator_spec("Ar"@) == Some(("appearance_ref"@, None::<usize>, "handle_noop"@)),
        operator_spec("TE"@) == Some(("text_encoding"@, None::<usize>, "handle_noop"@)),
        operator_spec("TZ"@) == Some(("text_zap_font"@, None::<usize>, "handle_noop"@)),
        operator_spec("Np"@) == Some(("nonprointing_begin"@, Some(0usize), "handle_noop"@)),
        operator_spec("NP"@) == Some(("nonprointing_end"@, Some(0usize), "handle_noop"@)),
        operator_spec("Pb"@) == Some(("pattern_brush_begin"@, None::<usize>, "handle_noop"@)),
{
    reveal_strlit("m");
    assert("m"@.len() == 1 && "m"@[0] == 'm');
    reveal_strlit("l");
    assert("l"@.len() == 1 && "l"@[0] == 'l');
    reveal_strlit("L");
    assert("L"@.len() == 1 && "L"@[0] == 'L');
    reveal_strlit("c");
    assert("c"@.len() == 1 && "c"@[0] == 'c');
    reveal_strlit("C");
    assert("C"@.len() == 1 && "C"@[0] == 'C');
    reveal_strlit("v");
    assert("v"@.len() == 1 && "v"@[0] == 'v');
    reveal_strlit("V");
    assert("V"@.len() == 1 && "V"@[0] == 'V');
    reveal_strlit("y");
    assert("y"@.len() == 1 && "y"@[0] == 'y');
    reveal_strlit("Y");
    assert("Y"@.len() == 1 && "Y"@[0] == 'Y');
    reveal_strlit("H");
    assert("H"@.len() == 1 && "H"@[0] == 'H');
    reveal_strlit("N");
    assert("N"@.len() == 1 && "N"@[0] == 'N');
    reveal_strlit("n");
    assert("n"@.len() == 1 && "n"@[0] == 'n');
    reveal_strlit("F");
    assert("F"@.len() == 1 && "F"@[0] == 'F');
    reveal_strlit("f");
    assert("f"@.len() == 1 && "f"@[0] == 'f');
    reveal_strlit("S");
    assert("S"@.len() == 1 && "S"@[0] == 'S');
    reveal_strlit("s");
    assert("s"@.len() == 1 && "s"@[0] == 's');
    reveal_strlit("B");
    assert("B"@.len() == 1 && "B"@[0] == 'B');
    reveal_strlit("b");
    assert("b"@.len() == 1 && "b"@[0] == 'b');
    reveal_strlit("g");
    assert("g"@.len() == 1 && "g"@[0] == 'g');
    reveal_strlit("G");
    assert("G"@.len() == 1 && "G"@[0] == 'G');
    reveal_strlit("k");
    assert("k"@.len() == 1 && "k"@[0] == 'k');
    reveal_strlit("K");
    assert("K"@.len() == 1 && "K"@[0] == 'K');
    reveal_strlit("Xa");
    assert("Xa"@.len() == 2 && "Xa"@[0] == 'X' && "Xa"@[1] == 'a');
    reveal_strlit("XA");
    assert("XA"@.len() == 2 && "XA"@[0] == 'X' && "XA"@[1] == 'A');
    reveal_strlit("x");
    assert("x"@.len() == 1 && "x"@[0] == 'x');
    reveal_strlit("X");
    assert("X"@.len() == 1 && "X"@[0] == 'X');
    reveal_strlit("Xx");
    assert("Xx"@.len() == 2 && "Xx"@[0] == 'X' && "Xx"@[1] == 'x');
    reveal_strlit("XX");
    assert("XX"@.len() == 2 && "XX"@[0] == 'X' && "XX"@[1] == 'X');
    reveal_strlit("w");
    assert("w"@.len() == 1 && "w"@[0] == 'w');
    reveal_strlit("J");
    assert("J"@.len() == 1 && "J"@[0] == 'J');
    reveal_strlit("j");
    assert("j"@.len() == 1 && "j"@[0] == 'j');
    reveal_strlit("M");
    assert("M"@.len() == 1 && "M"@[0] == 'M');
    reveal_strlit("d");
    assert("d"@.len() == 1 && "d"@[0] == 'd');
    reveal_strlit("i");
    assert("i"@.len() == 1 && "i"@[0] == 'i');
    reveal_strlit("D");
    assert("D"@.len() == 1 && "D"@[0] == 'D');
    reveal_strlit("q");
    assert("q"@.len() == 1 && "q"@[0] == 'q');
    reveal_strlit("Q");
    assert("Q"@.len() == 1 && "Q"@[0] == 'Q');
    reveal_strlit("W");
    assert("W"@.len() == 1 && "W"@[0] == 'W');
    reveal_strlit("cm");
    assert("cm"@.len() == 2 && "cm"@[0] == 'c' && "cm"@[1] == 'm');
    reveal_strlit("u");
    assert("u"@.len() == 1 && "u"@[0] == 'u');
    reveal_strlit("U");
    assert("U"@.len() == 1 && "U"@[0] == 'U');
    reveal_strlit("*u");
    assert("*u"@.len() == 2 && "*u"@[0] == '*' && "*u"@[1] == 'u');
    reveal_strlit("*U");
    assert("*U"@.len() == 2 && "*U"@[0] == '*' && "*U"@[1] == 'U');
    reveal_strlit("Lb");
    assert("Lb"@.len() == 2 && "Lb"@[0] == 'L' && "Lb"@[1] == 'b');
    reveal_strlit("LB");
    assert("LB"@.len() == 2 && "LB"@[0] == 'L' && "LB"@[1] == 'B');
    reveal_strlit("Ln");
    assert("Ln"@.len() == 2 && "Ln"@[0] == 'L' && "Ln"@[1] == 'n');
    reveal_strlit("To");
    assert("To"@.len() == 2 && "To"@[0] == 'T' && "To"@[1] == 'o');
    reveal_strlit("TO");
    assert("TO"@.len() == 2 && "TO"@[0] == 'T' && "TO"@[1] == 'O');
    reveal_strlit("Tp");
    assert("Tp"@.len() == 2 && "Tp"@[0] == 'T' && "Tp"@[1] == 'p');
    reveal_strlit("TP");
    assert("TP"@.len() == 2 && "TP"@[0] == 'T' && "TP"@[1] == 'P');
    reveal_strlit("Tx");
    assert("Tx"@.len() == 2 && "Tx"@[0] == 'T' && "Tx"@[1] == 'x');
    reveal_strlit("TX");
    assert("TX"@.len() == 2 && "TX"@[0] == 'T' && "TX"@[1] == 'X');
    reveal_strlit("Tf");
    assert("Tf"@.len() == 2 && "Tf"@[0] == 'T' && "Tf"@[1] == 'f');
    reveal_strlit("Tj");
    assert("Tj"@.len() == 2 && "Tj"@[0] == 'T' && "Tj"@[1] == 'j');
    reveal_strlit("TJ");
    assert("TJ"@.len() == 2 && "TJ"@[0] == 'T' && "TJ"@[1] == 'J');
    reveal_strlit("Tk");
    assert("Tk"@.len() == 2 && "Tk"@[0] == 'T' && "Tk"@[1] == 'k');
    reveal_strlit("Tc");
    assert("Tc"@.len() == 2 && "Tc"@[0] == 'T' && "Tc"@[1] == 'c');
    reveal_strlit("Tw");
    assert("Tw"@.len() == 2 && "Tw"@[0] == 'T' && "Tw"@[1] == 'w');
    reveal_strlit("Ts");
    assert("Ts"@.len() == 2 && "Ts"@[0] == 'T' && "Ts"@[1] == 's');
    reveal_strlit("Ti");
    assert("Ti"@.len() == 2 && "Ti"@[0] == 'T' && "Ti"@[1] == 'i');
    reveal_strlit("Tz");
    assert("Tz"@.len() == 2 && "Tz"@[0] == 'T' && "Tz"@[1] == 'z');
    reveal_strlit("TA");
    assert("TA"@.len() == 2 && "TA"@[0] == 'T' && "TA"@[1] == 'A');
    reveal_strlit("Tq");
    assert("Tq"@.len() == 2 && "Tq"@[0] == 'T' && "Tq"@[1] == 'q');
    reveal_strlit("Bb");
    assert("Bb"@.len() == 2 && "Bb"@[0] == 'B' && "Bb"@[1] == 'b');
    reveal_strlit("BB");
    assert("BB"@.len() == 2 && "BB"@[0] == 'B' && "BB"@[1] == 'B');
    reveal_strlit("Bd");
    assert("Bd"@.len() == 2 && "Bd"@[0] == 'B' && "Bd"@[1] == 'd');
    reveal_strlit("BD");
    assert("BD"@.len() == 2 && "BD"@[0] == 'B' && "BD"@[1] == 'D');
    reveal_strlit("Bg");
    assert("Bg"@.len() == 2 && "Bg"@[0] == 'B' && "Bg"@[1] == 'g');
    reveal_strlit("Bs");
    assert("Bs"@.len() == 2 && "Bs"@[0] == 'B' && "Bs"@[1] == 's');
    reveal_strlit("BR");
    assert("BR"@.len() == 2 && "BR"@[0] == 'B' && "BR"@[1] == 'R');
    reveal_strlit("Bm");
    assert("Bm"@.len() == 2 && "Bm"@[0] == 'B' && "Bm"@[1] == 'm');
    reveal_strlit("E");
    assert("E"@.len() == 1 && "E"@[0] == 'E');
    reveal_strlit("e");
    assert("e"@.len() == 1 && "e"@[0] == 'e');
    reveal_strlit("AI5_SetPalette");
    assert("AI5_SetPalette"@.len() == 14 && "AI5_SetPalette"@[0] == 'A' && "AI5_SetPalette"@[1] == 'I' && "AI5_SetPalette"@[2] == '5' && "AI5_SetPalette"@[3] == '_' && "AI5_SetPalette"@[4] == 'S' && "AI5_SetPalette"@[5] == 'e' && "AI5_SetPalette"@[6] == 't' && "AI5_SetPalette"@[7] == 'P' && "AI5_SetPalette"@[8] == 'a' && "AI5_SetPalette"@[9] == 'l' && "AI5_SetPalette"@[10] == 'e' && "AI5_SetPalette"@[11] == 't' && "AI5_SetPalette"@[12] == 't' && "AI5_SetPalette"@[13] == 'e');
    reveal_strlit("XI");
    assert("XI"@.len() == 2 && "XI"@[0] == 'X' && "XI"@[1] == 'I');
    reveal_strlit("'");
    assert("'"@.len() == 1 && "'"@[0] == '\'');
    reveal_strlit("Adobe_Illustrator_AI5");
    assert("Adobe_Illustrator_AI5"@.len() == 21 && "Adobe_Illustrator_AI5"@[0] == 'A' && "Adobe_Illustrator_AI5"@[1] == 'd' && "Adobe_Illustrator_AI5"@[2] == 'o' && "Adobe_Illustrator_AI5"@[3] == 'b' && "Adobe_Illustrator_AI5"@[4] == 'e' && "Adobe_Illustrator_AI5"@[5] == '_' && "Adobe_Illustrator_AI5"@[6] == 'I' && "Adobe_Illustrator_AI5"@[7] == 'l' && "Adobe_Illustrator_AI5"@[8] == 'l' && "Adobe_Illustrator_AI5"@[9] == 'u' && "Adobe_Illustrator_AI5"@[10] == 's' && "Adobe_Illustrator_AI5"@[11] == 't' && "Adobe_Illustrator_AI5"@[12] == 'r' && "Adobe_Illustrator_AI5"@[13] == 'a' && "Adobe_Illustrator_AI5"@[14] == 't' && "Adobe_Illustrator_AI5"@[15] == 'o' && "Adobe_Illustrator_AI5"@[16] == 'r' && "Adobe_Illustrator_AI5"@[17] == '_' && "Adobe_Illustrator_AI5"@[18] == 'A' && "Adobe_Illustrator_AI5"@[19] == 'I' && "Adobe_Illustrator_AI5"@[20] == '5');
    reveal_strlit("Adobe_ctte");
    assert("Adobe_ctte"@.len() == 10 && "Adobe_ctte"@[0] == 'A' && "Adobe_ctte"@[1] == 'd' && "Adobe_ctte"@[2] == 'o' && "Adobe_ctte"@[3] == 'b' && "Adobe_ctte"@[4] == 'e' && "Adobe_ctte"@[5] == '_' && "Adobe_ctte"@[6] == 'c' && "Adobe_ctte"@[7] == 't' && "Adobe_ctte"@[8] == 't' && "Adobe_ctte"@[9] == 'e');
    reveal_strlit("Adobe_level2_AI5");
    assert("Adobe_level2_AI5"@.len() == 16 && "Adobe_level2_AI5"@[0] == 'A' && "Adobe_level2_AI5"@[1] == 'd' && "Adobe_level2_AI5"@[2] == 'o' && "Adobe_level2_AI5"@[3] == 'b' && "Adobe_level2_AI5"@[4] == 'e' && "Adobe_level2_AI5"@[5] == '_' && "Adobe_level2_AI5"@[6] == 'l' && "Adobe_level2_AI5"@[7] == 'e' && "Adobe_level2_AI5"@[8] == 'v' && "Adobe_level2_AI5"@[9] == 'e' && "Adobe_level2_AI5"@[10] == 'l' && "Adobe_level2_AI5"@[11] == '2' && "Adobe_level2_AI5"@[12] == '_' && "Adobe_level2_AI5"@[13] == 'A' && "Adobe_level2_AI5"@[14] == 'I' && "Adobe_level2_AI5"@[15] == '5');
    reveal_strlit("Adobe_ColorImage_AI6");
    assert("Adobe_ColorImage_AI6"@.len() == 20 && "Adobe_ColorImage_AI6"@[0] == 'A' && "Adobe_ColorImage_AI6"@[1] == 'd' && "Adobe_ColorImage_AI6"@[2] == 'o' && "Adobe_ColorImage_AI6"@[3] == 'b' && "Adobe_ColorImage_AI6"@[4] == 'e' && "Adobe_ColorImage_AI6"@[5] == '_' && "Adobe_ColorImage_AI6"@[6] == 'C' && "Adobe_ColorImage_AI6"@[7] == 'o' && "Adobe_ColorImage_AI6"@[8] == 'l' && "Adobe_ColorImage_AI6"@[9] == 'o' && "Adobe_ColorImage_AI6"@[10] == 'r' && "Adobe_ColorImage_AI6"@[11] == 'I' && "Adobe_ColorImage_AI6"@[12] == 'm' && "Adobe_ColorImage_AI6"@[13] == 'a' && "Adobe_ColorImage_AI6"@[14] == 'g' && "Adobe_ColorImage_AI6"@[15] == 'e' && "Adobe_ColorImage_AI6"@[16] == '_' && "Adobe_ColorImage_AI6"@[17] == 'A' && "Adobe_ColorImage_AI6"@[18] == 'I' && "Adobe_ColorImage_AI6"@[19] == '6');
    reveal_strlit("Adobe_shading_AI8");
    assert("Adobe_shading_AI8"@.len() == 17 && "Adobe_shading_AI8"@[0] == 'A' && "Adobe_shading_AI8"@[1] == 'd' && "Adobe_shading_AI8"@[2] == 'o' && "Adobe_shading_AI8"@[3] == 'b' && "Adobe_shading_AI8"@[4] == 'e' && "Adobe_shading_AI8"@[5] == '_' && "Adobe_shading_AI8"@[6] == 's' && "Adobe_shading_AI8"@[7] == 'h' && "Adobe_shading_AI8"@[8] == 'a' && "Adobe_shading_AI8"@[9] == 'd' && "Adobe_shading_AI8"@[10] == 'i' && "Adobe_shading_AI8"@[11] == 'n' && "Adobe_shading_AI8"@[12] == 'g' && "Adobe_shading_AI8"@[13] == '_' && "Adobe_shading_AI8"@[14] == 'A' && "Adobe_shading_AI8"@[15] == 'I' && "Adobe_shading_AI8"@[16] == '8');
    reveal_strlit("pop");
    assert("pop"@.len() == 3 && "pop"@[0] == 'p' && "pop"@[1] == 'o' && "pop"@[2] == 'p');
    reveal_strlit("def");
    assert("def"@.len() == 3 && "def"@[0] == 'd' && "def"@[1] == 'e' && "def"@[2] == 'f');
    reveal_strlit("exec");
    assert("exec"@.len() == 4 && "exec"@[0] == 'e' && "exec"@[1] == 'x' && "exec"@[2] == 'e' && "exec"@[3] == 'c');
    reveal_strlit("null");
    assert("null"@.len() == 4 && "null"@[0] == 'n' && "null"@[1] == 'u' && "null"@[2] == 'l' && "null"@[3] == 'l');
    reveal_strlit("true");
    assert("true"@.len() == 4 && "true"@[0] == 't' && "true"@[1] == 'r' && "true"@[2] == 'u' && "true"@[3] == 'e');
    reveal_strlit("false");
    assert("false"@.len() == 5 && "false"@[0] == 'f' && "false"@[1] == 'a' && "false"@[2] == 'l' && "false"@[3] == 's' && "false"@[4] == 'e');
    reveal_strlit("bind");
    assert("bind"@.len() == 4 && "bind"@[0] == 'b' && "bind"@[1] == 'i' && "bind"@[2] == 'n' && "bind"@[3] == 'd');
    reveal_strlit("dup");
    assert("dup"@.len() == 3 && "dup"@[0] == 'd' && "dup"@[1] == 'u' && "dup"@[2] == 'p');
    reveal_strlit("exch");
    assert("exch"@.len() == 4 && "exch"@[0] == 'e' && "exch"@[1] == 'x' && "exch"@[2] == 'c' && "exch"@[3] == 'h');
    reveal_strlit("copy");
    assert("copy"@.len() == 4 && "copy"@[0] == 'c' && "copy"@[1] == 'o' && "copy"@[2] == 'p' && "copy"@[3] == 'y');
    reveal_strlit("index");
    assert("index"@.len() == 5 && "index"@[0] == 'i' && "index"@[1] == 'n' && "index"@[2] == 'd' && "index"@[3] == 'e' && "index"@[4] == 'x');
    reveal_strlit("roll");
    assert("roll"@.len() == 4 && "roll"@[0] == 'r' && "roll"@[1] == 'o' && "roll"@[2] == 'l' && "roll"@[3] == 'l');
    reveal_strlit("cleartomark");
    assert("cleartomark"@.len() == 11 && "cleartomark"@[0] == 'c' && "cleartomark"@[1] == 'l' && "cleartomark"@[2] == 'e' && "cleartomark"@[3] == 'a' && "cleartomark"@[4] == 'r' && "cleartomark"@[5] == 't' && "cleartomark"@[6] == 'o' && "cleartomark"@[7] == 'm' && "cleartomark"@[8] == 'a' && "cleartomark"@[9] == 'r' && "cleartomark"@[10] == 'k');
    reveal_strlit("counttomark");
    assert("counttomark"@.len() == 11 && "counttomark"@[0] == 'c' && "counttomark"@[1] == 'o' && "counttomark"@[2] == 'u' && "counttomark"@[3] == 'n' && "counttomark"@[4] == 't' && "counttomark"@[5] == 't' && "counttomark"@[6] == 'o' && "counttomark"@[7] == 'm' && "counttomark"@[8] == 'a' && "counttomark"@[9] == 'r' && "counttomark"@[10] == 'k');
    reveal_strlit("mark");
    assert("mark"@.len() == 4 && "mark"@[0] == 'm' && "mark"@[1] == 'a' && "mark"@[2] == 'r' && "mark"@[3] == 'k');
    reveal_strlit("setgray");
    assert("setgray"@.len() == 7 && "setgray"@[0] == 's' && "setgray"@[1] == 'e' && "setgray"@[2] == 't' && "setgray"@[3] == 'g' && "setgray"@[4] == 'r' && "setgray"@[5] == 'a' && "setgray"@[6] == 'y');
    reveal_strlit("setrgbcolor");
    assert("setrgbcolor"@.len() == 11 && "setrgbcolor"@[0] == 's' && "setrgbcolor"@[1] == 'e' && "setrgbcolor"@[2] == 't' && "setrgbcolor"@[3] == 'r' && "setrgbcolor"@[4] == 'g' && "setrgbcolor"@[5] == 'b' && "setrgbcolor"@[6] == 'c' && "setrgbcolor"@[7] == 'o' && "setrgbcolor"@[8] == 'l' && "setrgbcolor"@[9] == 'o' && "setrgbcolor"@[10] == 'r');
    reveal_strlit("setcmykcolor");
    assert("setcmykcolor"@.len() == 12 && "setcmykcolor"@[0] == 's' && "setcmykcolor"@[1] == 'e' && "setcmykcolor"@[2] == 't' && "setcmykcolor"@[3] == 'c' && "setcmykcolor"@[4] == 'm' && "setcmykcolor"@[5] == 'y' && "setcmykcolor"@[6] == 'k' && "setcmykcolor"@[7] == 'c' && "setcmykcolor"@[8] == 'o' && "setcmykcolor"@[9] == 'l' && "setcmykcolor"@[10] == 'o' && "setcmykcolor"@[11] == 'r');
    reveal_strlit("currentpoint");
    assert("currentpoint"@.len() == 12 && "currentpoint"@[0] == 'c' && "currentpoint"@[1] == 'u' && "currentpoint"@[2] == 'r' && "currentpoint"@[3] == 'r' && "currentpoint"@[4] == 'e' && "currentpoint"@[5] == 'n' && "currentpoint"@[6] == 't' && "currentpoint"@[7] == 'p' && "currentpoint"@[8] == 'o' && "currentpoint"@[9] == 'i' && "currentpoint"@[10] == 'n' && "currentpoint"@[11] == 't');
    reveal_strlit("moveto");
    assert("moveto"@.len() == 6 && "moveto"@[0] == 'm' && "moveto"@[1] == 'o' && "moveto"@[2] == 'v' && "moveto"@[3] == 'e' && "moveto"@[4] == 't' && "moveto"@[5] == 'o');
    reveal_strlit("lineto");
    assert("lineto"@.len() == 6 && "lineto"@[0] == 'l' && "lineto"@[1] == 'i' && "lineto"@[2] == 'n' && "lineto"@[3] == 'e' && "lineto"@[4] == 't' && "lineto"@[5] == 'o');
    reveal_strlit("curveto");
    assert("curveto"@.len() == 7 && "curveto"@[0] == 'c' && "curveto"@[1] == 'u' && "curveto"@[2] == 'r' && "curveto"@[3] == 'v' && "curveto"@[4] == 'e' && "curveto"@[5] == 't' && "curveto"@[6] == 'o');
    reveal_strlit("closepath");
    assert("closepath"@.len() == 9 && "closepath"@[0] == 'c' && "closepath"@[1] == 'l' && "closepath"@[2] == 'o' && "closepath"@[3] == 's' && "closepath"@[4] == 'e' && "closepath"@[5] == 'p' && "closepath"@[6] == 'a' && "closepath"@[7] == 't' && "closepath"@[8] == 'h');
    reveal_strlit("fill");
    assert("fill"@.len() == 4 && "fill"@[0] == 'f' && "fill"@[1] == 'i' && "fill"@[2] == 'l' && "fill"@[3] == 'l');
    reveal_strlit("stroke");
    assert("stroke"@.len() == 6 && "stroke"@[0] == 's' && "stroke"@[1] == 't' && "stroke"@[2] == 'r' && "stroke"@[3] == 'o' && "stroke"@[4] == 'k' && "stroke"@[5] == 'e');
    reveal_strlit("newpath");
    assert("newpath"@.len() == 7 && "newpath"@[0] == 'n' && "newpath"@[1] == 'e' && "newpath"@[2] == 'w' && "newpath"@[3] == 'p' && "newpath"@[4] == 'a' && "newpath"@[5] == 't' && "newpath"@[6] == 'h');
    reveal_strlit("gsave");
    assert("gsave"@.len() == 5 && "gsave"@[0] == 'g' && "gsave"@[1] == 's' && "gsave"@[2] == 'a' && "gsave"@[3] == 'v' && "gsave"@[4] == 'e');
    reveal_strlit("grestore");
    assert("grestore"@.len() == 8 && "grestore"@[0] == 'g' && "grestore"@[1] == 'r' && "grestore"@[2] == 'e' && "grestore"@[3] == 's' && "grestore"@[4] == 't' && "grestore"@[5] == 'o' && "grestore"@[6] == 'r' && "grestore"@[7] == 'e');
    reveal_strlit("showpage");
    assert("showpage"@.len() == 8 && "showpage"@[0] == 's' && "showpage"@[1] == 'h' && "showpage"@[2] == 'o' && "showpage"@[3] == 'w' && "showpage"@[4] == 'p' && "showpage"@[5] == 'a' && "showpage"@[6] == 'g' && "showpage"@[7] == 'e');
    reveal_strlit("translate");
    assert("translate"@.len() == 9 && "translate"@[0] == 't' && "translate"@[1] == 'r' && "translate"@[2] == 'a' && "translate"@[3] == 'n' && "translate"@[4] == 's' && "translate"@[5] == 'l' && "translate"@[6] == 'a' && "translate"@[7] == 't' && "translate"@[8] == 'e');
    reveal_strlit("scale");
    assert("scale"@.len() == 5 && "scale"@[0] == 's' && "scale"@[1] == 'c' && "scale"@[2] == 'a' && "scale"@[3] == 'l' && "scale"@[4] == 'e');
    reveal_strlit("rotate");
    assert("rotate"@.len() == 6 && "rotate"@[0] == 'r' && "rotate"@[1] == 'o' && "rotate"@[2] == 't' && "rotate"@[3] == 'a' && "rotate"@[4] == 't' && "rotate"@[5] == 'e');
    reveal_strlit("concat");
    assert("concat"@.len() == 6 && "concat"@[0] == 'c' && "concat"@[1] == 'o' && "concat"@[2] == 'n' && "concat"@[3] == 'c' && "concat"@[4] == 'a' && "concat"@[5] == 't');
    reveal_strlit("setlinewidth");
    assert("setlinewidth"@.len() == 12 && "setlinewidth"@[0] == 's' && "setlinewidth"@[1] == 'e' && "setlinewidth"@[2] == 't' && "setlinewidth"@[3] == 'l' && "setlinewidth"@[4] == 'i' && "setlinewidth"@[5] == 'n' && "setlinewidth"@[6] == 'e' && "setlinewidth"@[7] == 'w' && "setlinewidth"@[8] == 'i' && "setlinewidth"@[9] == 'd' && "setlinewidth"@[10] == 't' && "setlinewidth"@[11] == 'h');
    reveal_strlit("setlinecap");
    assert("setlinecap"@.len() == 10 && "setlinecap"@[0] == 's' && "setlinecap"@[1] == 'e' && "setlinecap"@[2] == 't' && "setlinecap"@[3] == 'l' && "setlinecap"@[4] == 'i' && "setlinecap"@[5] == 'n' && "setlinecap"@[6] == 'e' && "setlinecap"@[7] == 'c' && "setlinecap"@[8] == 'a' && "setlinecap"@[9] == 'p');
    reveal_strlit("setlinejoin");
    assert("setlinejoin"@.len() == 11 && "setlinejoin"@[0] == 's' && "setlinejoin"@[1] == 'e' && "setlinejoin"@[2] == 't' && "setlinejoin"@[3] == 'l' && "setlinejoin"@[4] == 'i' && "setlinejoin"@[5] == 'n' && "setlinejoin"@[6] == 'e' && "setlinejoin"@[7] == 'j' && "setlinejoin"@[8] == 'o' && "setlinejoin"@[9] == 'i' && "setlinejoin"@[10] == 'n');
    reveal_strlit("setmiterlimit");
    assert("setmiterlimit"@.len() == 13 && "setmiterlimit"@[0] == 's' && "setmiterlimit"@[1] == 'e' && "setmiterlimit"@[2] == 't' && "setmiterlimit"@[3] == 'm' && "setmiterlimit"@[4] == 'i' && "setmiterlimit"@[5] == 't' && "setmiterlimit"@[6] == 'e' && "setmiterlimit"@[7] == 'r' && "setmiterlimit"@[8] == 'l' && "setmiterlimit"@[9] == 'i' && "setmiterlimit"@[10] == 'm' && "setmiterlimit"@[11] == 'i' && "setmiterlimit"@[12] == 't');
    reveal_strlit("setdash");
    assert("setdash"@.len() == 7 && "setdash"@[0] == 's' && "setdash"@[1] == 'e' && "setdash"@[2] == 't' && "setdash"@[3] == 'd' && "setdash"@[4] == 'a' && "setdash"@[5] == 's' && "setdash"@[6] == 'h');
    reveal_strlit("clip");
    assert("clip"@.len() == 4 && "clip"@[0] == 'c' && "clip"@[1] == 'l' && "clip"@[2] == 'i' && "clip"@[3] == 'p');
    reveal_strlit("image");
    assert("image"@.len() == 5 && "image"@[0] == 'i' && "image"@[1] == 'm' && "image"@[2] == 'a' && "image"@[3] == 'g' && "image"@[4] == 'e');
    reveal_strlit("colorimage");
    assert("colorimage"@.len() == 10 && "colorimage"@[0] == 'c' && "colorimage"@[1] == 'o' && "colorimage"@[2] == 'l' && "colorimage"@[3] == 'o' && "colorimage"@[4] == 'r' && "colorimage"@[5] == 'i' && "colorimage"@[6] == 'm' && "colorimage"@[7] == 'a' && "colorimage"@[8] == 'g' && "colorimage"@[9] == 'e');
    reveal_strlit("Ap");
    assert("Ap"@.len() == 2 && "Ap"@[0] == 'A' && "Ap"@[1] == 'p');
    reveal_strlit("O");
    assert("O"@.len() == 1 && "O"@[0] == 'O');
    reveal_strlit("R");
    assert("R"@.len() == 1 && "R"@[0] == 'R');
    reveal_strlit("Xw");
    assert("Xw"@.len() == 2 && "Xw"@[0] == 'X' && "Xw"@[1] == 'w');
    reveal_strlit("XR");
    assert("XR"@.len() == 2 && "XR"@[0] == 'X' && "XR"@[1] == 'R');
    reveal_strlit("XW");
    assert("XW"@.len() == 2 && "XW"@[0] == 'X' && "XW"@[1] == 'W');
    reveal_strlit("Xd");
    assert("Xd"@.len() == 2 && "Xd"@[0] == 'X' && "Xd"@[1] == 'd');
    reveal_strlit("Xm");
    assert("Xm"@.len() == 2 && "Xm"@[0] == 'X' && "Xm"@[1] == 'm');
    reveal_strlit("Xs");
    assert("Xs"@.len() == 2 && "Xs"@[0] == 'X' && "Xs"@[1] == 's');
    reveal_strlit("Xy");
    assert("Xy"@.len() == 2 && "Xy"@[0] == 'X' && "Xy"@[1] == 'y');
    reveal_strlit("XS");
    assert("XS"@.len() == 2 && "XS"@[0] == 'X' && "XS"@[1] == 'S');
    reveal_strlit("Ae");
    assert("Ae"@.len() == 2 && "Ae"@[0] == 'A' && "Ae"@[1] == 'e');
    reveal_strlit("AE");
    assert("AE"@.len() == 2 && "AE"@[0] == 'A' && "AE"@[1] == 'E');
    reveal_strlit("As");
    assert("As"@.len() == 2 && "As"@[0] == 'A' && "As"@[1] == 's');
    reveal_strlit("A");
    assert("A"@.len() == 1 && "A"@[0] == 'A');
    reveal_strlit("Ar");
    assert("Ar"@.len() == 2 && "Ar"@[0] == 'A' && "Ar"@[1] == 'r');
    reveal_strlit("TE");
    assert("TE"@.len() == 2 && "TE"@[0] == 'T' && "TE"@[1] == 'E');
    reveal_strlit("TZ");
    assert("TZ"@.len() == 2 && "TZ"@[0] == 'T' && "TZ"@[1] == 'Z');
    reveal_strlit("Np");
    assert("Np"@.len() == 2 && "Np"@[0] == 'N' && "Np"@[1] == 'p');
    reveal_strlit("NP");
    assert("NP"@.len() == 2 && "NP"@[0] == 'N' && "NP"@[1] == 'P');
    reveal_strlit("Pb");
    assert("Pb"@.len() == 2 && "Pb"@[0] == 'P' && "Pb"@[1] == 'b');
}

proof fn lemma_operators_11()
    ensures
        operator_spec("PB"@) == Some(("pattern_brush_end"@, Some(0usize), "handle_noop"@)),
        operator_spec("Pc"@) == Some(("pattern_color"@, None::<usize>, "handle_noop"@)),
        operator_spec("Pg"@) == Some(("pattern_gradient"@, None::<usize>, "handle_noop"@)),
        operator_spec("p"@) == Some(("pattern_fill"@, None::<usize>, "handle_noop"@)),
        operator_spec("Bc"@) == Some(("blend_color"@, None::<usize>, "handle_noop"@)),
        operator_spec("Bh"@) == Some(("blend_highlight"@, None::<usize>, "handle_noop"@)),
        operator_spec("Bn"@) == Some(("blend_name"@, None::<usize>, "handle_noop"@)),
        operator_spec("annotatepage"@) == Some(("annotate_page"@, None::<usize>, "handle_noop"@)),
        operator_spec(","@) == Some(("comma"@, Some(0usize), "handle_noop"@)),
        operator_spec(":"@) == Some(("colon"@, Some(0usize), "handle_noop"@)),
        operator_spec(";"@) == Some(("semicolon"@, Some(0usize), "handle_noop"@)),
        operator_spec("-"@) == Some(("dash_char"@, Some(0usize), "handle_noop"@)),
        operator_spec("."@) == Some(("dot_char"@, Some(0usize), "handle_noop"@)),
{
    reveal_strlit("m");
    assert("m"@.len() == 1 && "m"@[0] == 'm');
    reveal_strlit("l");
    assert("l"@.len() == 1 && "l"@[0] == 'l');
    reveal_strlit("L");
    assert("L"@.len() == 1 && "L"@[0] == 'L');
    reveal_strlit("c");
    assert("c"@.len() == 1 && "c"@[0] == 'c');
    reveal_strlit("C");
    assert("C"@.len() == 1 && "C"@[0] == 'C');
    reveal_strlit("v");
    assert("v"@.len() == 1 && "v"@[0] == 'v');
    reveal_strlit("V");
    assert("V"@.len() == 1 && "V"@[0] == 'V');
    reveal_strlit("y");
    assert("y"@.len() == 1 && "y"@[0] == 'y');
    reveal_strlit("Y");
    assert("Y"@.len() == 1 && "Y"@[0] == 'Y');
    reveal_strlit("H");
    assert("H"@.len() == 1 && "H"@[0] == 'H');
    reveal_strlit("N");
    assert("N"@.len() == 1 && "N"@[0] == 'N');
    reveal_strlit("n");
    assert("n"@.len() == 1 && "n"@[0] == 'n');
    reveal_strlit("F");
    assert("F"@.len() == 1 && "F"@[0] == 'F');
    reveal_strlit("f");
    assert("f"@.len() == 1 && "f"@[0] == 'f');
    reveal_strlit("S");
    assert("S"@.len() == 1 && "S"@[0] == 'S');
    reveal_strlit("s");
    assert("s"@.len() == 1 && "s"@[0] == 's');
    reveal_strlit("B");
    assert("B"@.len() == 1 && "B"@[0] == 'B');
    reveal_strlit("b");
    assert("b"@.len() == 1 && "b"@[0] == 'b');
    reveal_strlit("g");
    assert("g"@.len() == 1 && "g"@[0] == 'g');
    reveal_strlit("G");
    assert("G"@.len() == 1 && "G"@[0] == 'G');
    reveal_strlit("k");
    assert("k"@.len() == 1 && "k"@[0] == 'k');
    reveal_strlit("K");
    assert("K"@.len() == 1 && "K"@[0] == 'K');
    reveal_strlit("Xa");
    assert("Xa"@.len() == 2 && "Xa"@[0] == 'X' && "Xa"@[1] == 'a');
    reveal_strlit("XA");
    assert("XA"@.len() == 2 && "XA"@[0] == 'X' && "XA"@[1] == 'A');
    reveal_strlit("x");
    assert("x"@.len() == 1 && "x"@[0] == 'x');
    reveal_strlit("X");
    assert("X"@.len() == 1 && "X"@[0] == 'X');
    reveal_strlit("Xx");
    assert("Xx"@.len() == 2 && "Xx"@[0] == 'X' && "Xx"@[1] == 'x');
    reveal_strlit("XX");
    assert("XX"@.len() == 2 && "XX"@[0] == 'X' && "XX"@[1] == 'X');
    reveal_strlit("w");
    assert("w"@.len() == 1 && "w"@[0] == 'w');
    reveal_strlit("J");
    assert("J"@.len() == 1 && "J"@[0] == 'J');
    reveal_strlit("j");
    assert("j"@.len() == 1 && "j"@[0] == 'j');
    reveal_strlit("M");
    assert("M"@.len() == 1 && "M"@[0] == 'M');
    reveal_strlit("d");
    assert("d"@.len() == 1 && "d"@[0] == 'd');
    reveal_strlit("i");
    assert("i"@.len() == 1 && "i"@[0] == 'i');
    reveal_strlit("D");
    assert("D"@.len() == 1 && "D"@[0] == 'D');
    reveal_strlit("q");
    assert("q"@.len() == 1 && "q"@[0] == 'q');
    reveal_strlit("Q");
    assert("Q"@.len() == 1 && "Q"@[0] == 'Q');
    reveal_strlit("W");
    assert("W"@.len() == 1 && "W"@[0] == 'W');
    reveal_strlit("cm");
    assert("cm"@.len() == 2 && "cm"@[0] == 'c' && "cm"@[1] == 'm');
    reveal_strlit("u");
    assert("u"@.len() == 1 && "u"@[0] == 'u');
    reveal_strlit("U");
    assert("U"@.len() == 1 && "U"@[0] == 'U');
    reveal_strlit("*u");
    assert("*u"@.len() == 2 && "*u"@[0] == '*' && "*u"@[1] == 'u');
    reveal_strlit("*U");
    assert("*U"@.len() == 2 && "*U"@[0] == '*' && "*U"@[1] == 'U');
    reveal_strlit("Lb");
    assert("Lb"@.len() == 2 && "Lb"@[0] == 'L' && "Lb"@[1] == 'b');
    reveal_strlit("LB");
    assert("LB"@.len() == 2 && "LB"@[0] == 'L' && "LB"@[1] == 'B');
    reveal_strlit("Ln");
    assert("Ln"@.len() == 2 && "Ln"@[0] == 'L' && "Ln"@[1] == 'n');
    reveal_strlit("To");
    assert("To"@.len() == 2 && "To"@[0] == 'T' && "To"@[1] == 'o');
    reveal_strlit("TO");
    assert("TO"@.len() == 2 && "TO"@[0] == 'T' && "TO"@[1] == 'O');
    reveal_strlit("Tp");
    assert("Tp"@.len() == 2 && "Tp"@[0] == 'T' && "Tp"@[1] == 'p');
    reveal_strlit("TP");
    assert("TP"@.len() == 2 && "TP"@[0] == 'T' && "TP"@[1] == 'P');
    reveal_strlit("Tx");
    assert("Tx"@.len() == 2 && "Tx"@[0] == 'T' && "Tx"@[1] == 'x');
    reveal_strlit("TX");
    assert("TX"@.len() == 2 && "TX"@[0] == 'T' && "TX"@[1] == 'X');
    reveal_strlit("Tf");
    assert("Tf"@.len() == 2 && "Tf"@[0] == 'T' && "Tf"@[1] == 'f');
    reveal_strlit("Tj");
    assert("Tj"@.len() == 2 && "Tj"@[0] == 'T' && "Tj"@[1] == 'j');
    reveal_strlit("TJ");
    assert("TJ"@.len() == 2 && "TJ"@[0] == 'T' && "TJ"@[1] == 'J');
    reveal_strlit("Tk");
    assert("Tk"@.len() == 2 && "Tk"@[0] == 'T' && "Tk"@[1] == 'k');
    reveal_strlit("Tc");
    assert("Tc"@.len() == 2 && "Tc"@[0] == 'T' && "Tc"@[1] == 'c');
    reveal_strlit("Tw");
    assert("Tw"@.len() == 2 && "Tw"@[0] == 'T' && "Tw"@[1] == 'w');
    reveal_strlit("Ts");
    assert("Ts"@.len() == 2 && "Ts"@[0] == 'T' && "Ts"@[1] == 's');
    reveal_strlit("Ti");
    assert("Ti"@.len() == 2 && "Ti"@[0] == 'T' && "Ti"@[1] == 'i');
    reveal_strlit("Tz");
    assert("Tz"@.len() == 2 && "Tz"@[0] == 'T' && "Tz"@[1] == 'z');
    reveal_strlit("TA");
    assert("TA"@.len() == 2 && "TA"@[0] == 'T' && "TA"@[1] == 'A');
    reveal_strlit("Tq");
    assert("Tq"@.len() == 2 && "Tq"@[0] == 'T' && "Tq"@[1] == 'q');
    reveal_strlit("Bb");
    assert("Bb"@.len() == 2 && "Bb"@[0] == 'B' && "Bb"@[1] == 'b');
    reveal_strlit("BB");
    assert("BB"@.len() == 2 && "BB"@[0] == 'B' && "BB"@[1] == 'B');
    reveal_strlit("Bd");
    assert("Bd"@.len() == 2 && "Bd"@[0] == 'B' && "Bd"@[1] == 'd');
    reveal_strlit("BD");
    assert("BD"@.len() == 2 && "BD"@[0] == 'B' && "BD"@[1] == 'D');
    reveal_strlit("Bg");
    assert("Bg"@.len() == 2 && "Bg"@[0] == 'B' && "Bg"@[1] == 'g');
    reveal_strlit("Bs");
    assert("Bs"@.len() == 2 && "Bs"@[0] == 'B' && "Bs"@[1] == 's');
    reveal_strlit("BR");
    assert("BR"@.len() == 2 && "BR"@[0] == 'B' && "BR"@[1] == 'R');
    reveal_strlit("Bm");
    assert("Bm"@.len() == 2 && "Bm"@[0] == 'B' && "Bm"@[1] == 'm');
    reveal_strlit("E");
    assert("E"@.len() == 1 && "E"@[0] == 'E');
    reveal_strlit("e");
    assert("e"@.len() == 1 && "e"@[0] == 'e');
    reveal_strlit("AI5_SetPalette");
    assert("AI5_SetPalette"@.len() == 14 && "AI5_SetPalette"@[0] == 'A' && "AI5_SetPalette"@[1] == 'I' && "AI5_SetPalette"@[2] == '5' && "AI5_SetPalette"@[3] == '_' && "AI5_SetPalette"@[4] == 'S' && "AI5_SetPalette"@[5] == 'e' && "AI5_SetPalette"@[6] == 't' && "AI5_SetPalette"@[7] == 'P' && "AI5_SetPalette"@[8] == 'a' && "AI5_SetPalette"@[9] == 'l' && "AI5_SetPalette"@[10] == 'e' && "AI5_SetPalette"@[11] == 't' && "AI5_SetPalette"@[12] == 't' && "AI5_SetPalette"@[13] == 'e');
    reveal_strlit("XI");
    assert("XI"@.len() == 2 && "XI"@[0] == 'X' && "XI"@[1] == 'I');
    reveal_strlit("'");
    assert("'"@.len() == 1 && "'"@[0] == '\'');
    reveal_strlit("Adobe_Illustrator_AI5");
    assert("Adobe_Illustrator_AI5"@.len() == 21 && "Adobe_Illustrator_AI5"@[0] == 'A' && "Adobe_Illustrator_AI5"@[1] == 'd' && "Adobe_Illustrator_AI5"@[2] == 'o' && "Adobe_Illustrator_AI5"@[3] == 'b' && "Adobe_Illustrator_AI5"@[4] == 'e' && "Adobe_Illustrator_AI5"@[5] == '_' && "Adobe_Illustrator_AI5"@[6] == 'I' && "Adobe_Illustrator_AI5"@[7] == 'l' && "Adobe_Illustrator_AI5"@[8] == 'l' && "Adobe_Illustrator_AI5"@[9] == 'u' && "Adobe_Illustrator_AI5"@[10] == 's' && "Adobe_Illustrator_AI5"@[11] == 't' && "Adobe_Illustrator_AI5"@[12] == 'r' && "Adobe_Illustrator_AI5"@[13] == 'a' && "Adobe_Illustrator_AI5"@[14] == 't' && "Adobe_Illustrator_AI5"@[15] == 'o' && "Adobe_Illustrator_AI5"@[16] == 'r' && "Adobe_Illustrator_AI5"@[17] == '_' && "Adobe_Illustrator_AI5"@[18] == 'A' && "Adobe_Illustrator_AI5"@[19] == 'I' && "Adobe_Illustrator_AI5"@[20] == '5');
    reveal_strlit("Adobe_ctte");
    assert("Adobe_ctte"@.len() == 10 && "Adobe_ctte"@[0] == 'A' && "Adobe_ctte"@[1] == 'd' && "Adobe_ctte"@[2] == 'o' && "Adobe_ctte"@[3] == 'b' && "Adobe_ctte"@[4] == 'e' && "Adobe_ctte"@[5] == '_' && "Adobe_ctte"@[6] == 'c' && "Adobe_ctte"@[7] == 't' && "Adobe_ctte"@[8] == 't' && "Adobe_ctte"@[9] == 'e');
    reveal_strlit("Adobe_level2_AI5");
    assert("Adobe_level2_AI5"@.len() == 16 && "Adobe_level2_AI5"@[0] == 'A' && "Adobe_level2_AI5"@[1] == 'd' && "Adobe_level2_AI5"@[2] == 'o' && "Adobe_level2_AI5"@[3] == 'b' && "Adobe_level2_AI5"@[4] == 'e' && "Adobe_level2_AI5"@[5] == '_' && "Adobe_level2_AI5"@[6] == 'l' && "Adobe_level2_AI5"@[7] == 'e' && "Adobe_level2_AI5"@[8] == 'v' && "Adobe_level2_AI5"@[9] == 'e' && "Adobe_level2_AI5"@[10] == 'l' && "Adobe_level2_AI5"@[11] == '2' && "Adobe_level2_AI5"@[12] == '_' && "Adobe_level2_AI5"@[13] == 'A' && "Adobe_level2_AI5"@[14] == 'I' && "Adobe_level2_AI5"@[15] == '5');
    reveal_strlit("Adobe_ColorImage_AI6");
    assert("Adobe_ColorImage_AI6"@.len() == 20 && "Adobe_ColorImage_AI6"@[0] == 'A' && "Adobe_ColorImage_AI6"@[1] == 'd' && "Adobe_ColorImage_AI6"@[2] == 'o' && "Adobe_ColorImage_AI6"@[3] == 'b' && "Adobe_ColorImage_AI6"@[4] == 'e' && "Adobe_ColorImage_AI6"@[5] == '_' && "Adobe_ColorImage_AI6"@[6] == 'C' && "Adobe_ColorImage_AI6"@[7] == 'o' && "Adobe_ColorImage_AI6"@[8] == 'l' && "Adobe_ColorImage_AI6"@[9] == 'o' && "Adobe_ColorImage_AI6"@[10] == 'r' && "Adobe_ColorImage_AI6"@[11] == 'I' && "Adobe_ColorImage_AI6"@[12] == 'm' && "Adobe_ColorImage_AI6"@[13] == 'a' && "Adobe_ColorImage_AI6"@[14] == 'g' && "Adobe_ColorImage_AI6"@[15] == 'e' && "Adobe_ColorImage_AI6"@[16] == '_' && "Adobe_ColorImage_AI6"@[17] == 'A' && "Adobe_ColorImage_AI6"@[18] == 'I' && "Adobe_ColorImage_AI6"@[19] == '6');
    reveal_strlit("Adobe_shading_AI8");
    assert("Adobe_shading_AI8"@.len() == 17 && "Adobe_shading_AI8"@[0] == 'A' && "Adobe_shading_AI8"@[1] == 'd' && "Adobe_shading_AI8"@[2] == 'o' && "Adobe_shading_AI8"@[3] == 'b' && "Adobe_shading_AI8"@[4] == 'e' && "Adobe_shading_AI8"@[5] == '_' && "Adobe_shading_AI8"@[6] == 's' && "Adobe_shading_AI8"@[7] == 'h' && "Adobe_shading_AI8"@[8] == 'a' && "Adobe_shading_AI8"@[9] == 'd' && "Adobe_shading_AI8"@[10] == 'i' && "Adobe_shading_AI8"@[11] == 'n' && "Adobe_shading_AI8"@[12] == 'g' && "Adobe_shading_AI8"@[13] == '_' && "Adobe_shading_AI8"@[14] == 'A' && "Adobe_shading_AI8"@[15] == 'I' && "Adobe_shading_AI8"@[16] == '8');
    reveal_strlit("pop");
    assert("pop"@.len() == 3 && "pop"@[0] == 'p' && "pop"@[1] == 'o' && "pop"@[2] == 'p');
    reveal_strlit("def");
    assert("def"@.len() == 3 && "def"@[0] == 'd' && "def"@[1] == 'e' && "def"@[2] == 'f');
    reveal_strlit("exec");
    assert("exec"@.len() == 4 && "exec"@[0] == 'e' && "exec"@[1] == 'x' && "exec"@[2] == 'e' && "exec"@[3] == 'c');
    reveal_strlit("null");
    assert("null"@.len() == 4 && "null"@[0] == 'n' && "null"@[1] == 'u' && "null"@[2] == 'l' && "null"@[3] == 'l');
    reveal_strlit("true");
    assert("true"@.len() == 4 && "true"@[0] == 't' && "true"@[1] == 'r' && "true"@[2] == 'u' && "true"@[3] == 'e');
    reveal_strlit("false");
    assert("false"@.len() == 5 && "false"@[0] == 'f' && "false"@[1] == 'a' && "false"@[2] == 'l' && "false"@[3] == 's' && "false"@[4] == 'e');
    reveal_strlit("bind");
    assert("bind"@.len() == 4 && "bind"@[0] == 'b' && "bind"@[1] == 'i' && "bind"@[2] == 'n' && "bind"@[3] == 'd');
    reveal_strlit("dup");
    assert("dup"@.len() == 3 && "dup"@[0] == 'd' && "dup"@[1] == 'u' && "dup"@[2] == 'p');
    reveal_strlit("exch");
    assert("exch"@.len() == 4 && "exch"@[0] == 'e' && "exch"@[1] == 'x' && "exch"@[2] == 'c' && "exch"@[3] == 'h');
    reveal_strlit("copy");
    assert("copy"@.len() == 4 && "copy"@[0] == 'c' && "copy"@[1] == 'o' && "copy"@[2] == 'p' && "copy"@[3] == 'y');
    reveal_strlit("index");
    assert("index"@.len() == 5 && "index"@[0] == 'i' && "index"@[1] == 'n' && "index"@[2] == 'd' && "index"@[3] == 'e' && "index"@[4] == 'x');
    reveal_strlit("roll");
    assert("roll"@.len() == 4 && "roll"@[0] == 'r' && "roll"@[1] == 'o' && "roll"@[2] == 'l' && "roll"@[3] == 'l');
    reveal_strlit("cleartomark");
    assert("cleartomark"@.len() == 11 && "cleartomark"@[0] == 'c' && "cleartomark"@[1] == 'l' && "cleartomark"@[2] == 'e' && "cleartomark"@[3] == 'a' && "cleartomark"@[4] == 'r' && "cleartomark"@[5] == 't' && "cleartomark"@[6] == 'o' && "cleartomark"@[7] == 'm' && "cleartomark"@[8] == 'a' && "cleartomark"@[9] == 'r' && "cleartomark"@[10] == 'k');
    reveal_strlit("counttomark");
    assert("counttomark"@.len() == 11 && "counttomark"@[0] == 'c' && "counttomark"@[1] == 'o' && "counttomark"@[2] == 'u' && "counttomark"@[3] == 'n' && "counttomark"@[4] == 't' && "counttomark"@[5] == 't' && "counttomark"@[6] == 'o' && "counttomark"@[7] == 'm' && "counttomark"@[8] == 'a' && "counttomark"@[9] == 'r' && "counttomark"@[10] == 'k');
    reveal_strlit("mark");
    assert("mark"@.len() == 4 && "mark"@[0] == 'm' && "mark"@[1] == 'a' && "mark"@[2] == 'r' && "mark"@[3] == 'k');
    reveal_strlit("setgray");
    assert("setgray"@.len() == 7 && "setgray"@[0] == 's' && "setgray"@[1] == 'e' && "setgray"@[2] == 't' && "setgray"@[3] == 'g' && "setgray"@[4] == 'r' && "setgray"@[5] == 'a' && "setgray"@[6] == 'y');
    reveal_strlit("setrgbcolor");
    assert("setrgbcolor"@.len() == 11 && "setrgbcolor"@[0] == 's' && "setrgbcolor"@[1] == 'e' && "setrgbcolor"@[2] == 't' && "setrgbcolor"@[3] == 'r' && "setrgbcolor"@[4] == 'g' && "setrgbcolor"@[5] == 'b' && "setrgbcolor"@[6] == 'c' && "setrgbcolor"@[7] == 'o' && "setrgbcolor"@[8] == 'l' && "setrgbcolor"@[9] == 'o' && "setrgbcolor"@[10] == 'r');
    reveal_strlit("setcmykcolor");
    assert("setcmykcolor"@.len() == 12 && "setcmykcolor"@[0] == 's' && "setcmykcolor"@[1] == 'e' && "setcmykcolor"@[2] == 't' && "setcmykcolor"@[3] == 'c' && "setcmykcolor"@[4] == 'm' && "setcmykcolor"@[5] == 'y' && "setcmykcolor"@[6] == 'k' && "setcmykcolor"@[7] == 'c' && "setcmykcolor"@[8] == 'o' && "setcmykcolor"@[9] == 'l' && "setcmykcolor"@[10] == 'o' && "setcmykcolor"@[11] == 'r');
    reveal_strlit("currentpoint");
    assert("currentpoint"@.len() == 12 && "currentpoint"@[0] == 'c' && "currentpoint"@[1] == 'u' && "currentpoint"@[2] == 'r' && "currentpoint"@[3] == 'r' && "currentpoint"@[4] == 'e' && "currentpoint"@[5] == 'n' && "currentpoint"@[6] == 't' && "currentpoint"@[7] == 'p' && "currentpoint"@[8] == 'o' && "currentpoint"@[9] == 'i' && "currentpoint"@[10] == 'n' && "currentpoint"@[11] == 't');
    reveal_strlit("moveto");
    assert("moveto"@.len() == 6 && "moveto"@[0] == 'm' && "moveto"@[1] == 'o' && "moveto"@[2] == 'v' && "moveto"@[3] == 'e' && "moveto"@[4] == 't' && "moveto"@[5] == 'o');
    reveal_strlit("lineto");
    assert("lineto"@.len() == 6 && "lineto"@[0] == 'l' && "lineto"@[1] == 'i' && "lineto"@[2] == 'n' && "lineto"@[3] == 'e' && "lineto"@[4] == 't' && "lineto"@[5] == 'o');
    reveal_strlit("curveto");
    assert("curveto"@.len() == 7 && "curveto"@[0] == 'c' && "curveto"@[1] == 'u' && "curveto"@[2] == 'r' && "curveto"@[3] == 'v' && "curveto"@[4] == 'e' && "curveto"@[5] == 't' && "curveto"@[6] == 'o');
    reveal_strlit("closepath");
    assert("closepath"@.len() == 9 && "closepath"@[0] == 'c' && "closepath"@[1] == 'l' && "closepath"@[2] == 'o' && "closepath"@[3] == 's' && "closepath"@[4] == 'e' && "closepath"@[5] == 'p' && "closepath"@[6] == 'a' && "closepath"@[7] == 't' && "closepath"@[8] == 'h');
    reveal_strlit("fill");
    assert("fill"@.len() == 4 && "fill"@[0] == 'f' && "fill"@[1] == 'i' && "fill"@[2] == 'l' && "fill"@[3] == 'l');
    reveal_strlit("stroke");
    assert("stroke"@.len() == 6 && "stroke"@[0] == 's' && "stroke"@[1] == 't' && "stroke"@[2] == 'r' && "stroke"@[3] == 'o' && "stroke"@[4] == 'k' && "stroke"@[5] == 'e');
    reveal_strlit("newpath");
    assert("newpath"@.len() == 7 && "newpath"@[0] == 'n' && "newpath"@[1] == 'e' && "newpath"@[2] == 'w' && "newpath"@[3] == 'p' && "newpath"@[4] == 'a' && "newpath"@[5] == 't' && "newpath"@[6] == 'h');
    reveal_strlit("gsave");
    assert("gsave"@.len() == 5 && "gsave"@[0] == 'g' && "gsave"@[1] == 's' && "gsave"@[2] == 'a' && "gsave"@[3] == 'v' && "gsave"@[4] == 'e');
    reveal_strlit("grestore");
    assert("grestore"@.len() == 8 && "grestore"@[0] == 'g' && "grestore"@[1] == 'r' && "grestore"@[2] == 'e' && "grestore"@[3] == 's' && "grestore"@[4] == 't' && "grestore"@[5] == 'o' && "grestore"@[6] == 'r' && "grestore"@[7] == 'e');
    reveal_strlit("showpage");
    assert("showpage"@.len() == 8 && "showpage"@[0] == 's' && "showpage"@[1] == 'h' && "showpage"@[2] == 'o' && "showpage"@[3] == 'w' && "showpage"@[4] == 'p' && "showpage"@[5] == 'a' && "showpage"@[6] == 'g' && "showpage"@[7] == 'e');
    reveal_strlit("translate");
    assert("translate"@.len() == 9 && "translate"@[0] == 't' && "translate"@[1] == 'r' && "translate"@[2] == 'a' && "translate"@[3] == 'n' && "translate"@[4] == 's' && "translate"@[5] == 'l' && "translate"@[6] == 'a' && "translate"@[7] == 't' && "translate"@[8] == 'e');
    reveal_strlit("scale");
    assert("scale"@.len() == 5 && "scale"@[0] == 's' && "scale"@[1] == 'c' && "scale"@[2] == 'a' && "scale"@[3] == 'l' && "scale"@[4] == 'e');
    reveal_strlit("rotate");
    assert("rotate"@.len() == 6 && "rotate"@[0] == 'r' && "rotate"@[1] == 'o' && "rotate"@[2] == 't' && "rotate"@[3] == 'a' && "rotate"@[4] == 't' && "rotate"@[5] == 'e');
    reveal_strlit("concat");
    assert("concat"@.len() == 6 && "concat"@[0] == 'c' && "concat"@[1] == 'o' && "concat"@[2] == 'n' && "concat"@[3] == 'c' && "concat"@[4] == 'a' && "concat"@[5] == 't');
    reveal_strlit("setlinewidth");
    assert("setlinewidth"@.len() == 12 && "setlinewidth"@[0] == 's' && "setlinewidth"@[1] == 'e' && "setlinewidth"@[2] == 't' && "setlinewidth"@[3] == 'l' && "setlinewidth"@[4] == 'i' && "setlinewidth"@[5] == 'n' && "setlinewidth"@[6] == 'e' && "setlinewidth"@[7] == 'w' && "setlinewidth"@[8] == 'i' && "setlinewidth"@[9] == 'd' && "setlinewidth"@[10] == 't' && "setlinewidth"@[11] == 'h');
    reveal_strlit("setlinecap");
    assert("setlinecap"@.len() == 10 && "setlinecap"@[0] == 's' && "setlinecap"@[1] == 'e' && "setlinecap"@[2] == 't' && "setlinecap"@[3] == 'l' && "setlinecap"@[4] == 'i' && "setlinecap"@[5] == 'n' && "setlinecap"@[6] == 'e' && "setlinecap"@[7] == 'c' && "setlinecap"@[8] == 'a' && "setlinecap"@[9] == 'p');
    reveal_strlit("setlinejoin");
    assert("setlinejoin"@.len() == 11 && "setlinejoin"@[0] == 's' && "setlinejoin"@[1] == 'e' && "setlinejoin"@[2] == 't' && "setlinejoin"@[3] == 'l' && "setlinejoin"@[4] == 'i' && "setlinejoin"@[5] == 'n' && "setlinejoin"@[6] == 'e' && "setlinejoin"@[7] == 'j' && "setlinejoin"@[8] == 'o' && "setlinejoin"@[9] == 'i' && "setlinejoin"@[10] == 'n');
    reveal_strlit("setmiterlimit");
    assert("setmiterlimit"@.len() == 13 && "setmiterlimit"@[0] == 's' && "setmiterlimit"@[1] == 'e' && "setmiterlimit"@[2] == 't' && "setmiterlimit"@[3] == 'm' && "setmiterlimit"@[4] == 'i' && "setmiterlimit"@[5] == 't' && "setmiterlimit"@[6] == 'e' && "setmiterlimit"@[7] == 'r' && "setmiterlimit"@[8] == 'l' && "setmiterlimit"@[9] == 'i' && "setmiterlimit"@[10] == 'm' && "setmiterlimit"@[11] == 'i' && "setmiterlimit"@[12] == 't');
    reveal_strlit("setdash");
    assert("setdash"@.len() == 7 && "setdash"@[0] == 's' && "setdash"@[1] == 'e' && "setdash"@[2] == 't' && "setdash"@[3] == 'd' && "setdash"@[4] == 'a' && "setdash"@[5] == 's' && "setdash"@[6] == 'h');
    reveal_strlit("clip");
    assert("clip"@.len() == 4 && "clip"@[0] == 'c' && "clip"@[1] == 'l' && "clip"@[2] == 'i' && "clip"@[3] == 'p');
    reveal_strlit("image");
    assert("image"@.len() == 5 && "image"@[0] == 'i' && "image"@[1] == 'm' && "image"@[2] == 'a' && "image"@[3] == 'g' && "image"@[4] == 'e');
    reveal_strlit("colorimage");
    assert("colorimage"@.len() == 10 && "colorimage"@[0] == 'c' && "colorimage"@[1] == 'o' && "colorimage"@[2] == 'l' && "colorimage"@[3] == 'o' && "colorimage"@[4] == 'r' && "colorimage"@[5] == 'i' && "colorimage"@[6] == 'm' && "colorimage"@[7] == 'a' && "colorimage"@[8] == 'g' && "colorimage"@[9] == 'e');
    reveal_strlit("Ap");
    assert("Ap"@.len() == 2 && "Ap"@[0] == 'A' && "Ap"@[1] == 'p');
    reveal_strlit("O");
    assert("O"@.len() == 1 && "O"@[0] == 'O');
    reveal_strlit("R");
    assert("R"@.len() == 1 && "R"@[0] == 'R');
    reveal_strlit("Xw");
    assert("Xw"@.len() == 2 && "Xw"@[0] == 'X' && "Xw"@[1] == 'w');
    reveal_strlit("XR");
    assert("XR"@.len() == 2 && "XR"@[0] == 'X' && "XR"@[1] == 'R');
    reveal_strlit("XW");
    assert("XW"@.len() == 2 && "XW"@[0] == 'X' && "XW"@[1] == 'W');
    reveal_strlit("Xd");
    assert("Xd"@.len() == 2 && "Xd"@[0] == 'X' && "Xd"@[1] == 'd');
    reveal_strlit("Xm");
    assert("Xm"@.len() == 2 && "Xm"@[0] == 'X' && "Xm"@[1] == 'm');
    reveal_strlit("Xs");
    assert("Xs"@.len() == 2 && "Xs"@[0] == 'X' && "Xs"@[1] == 's');
    reveal_strlit("Xy");
    assert("Xy"@.len() == 2 && "Xy"@[0] == 'X' && "Xy"@[1] == 'y');
    reveal_strlit("XS");
    assert("XS"@.len() == 2 && "XS"@[0] == 'X' && "XS"@[1] == 'S');
    reveal_strlit("Ae");
    assert("Ae"@.len() == 2 && "Ae"@[0] == 'A' && "Ae"@[1] == 'e');
    reveal_strlit("AE");
    assert("AE"@.len() == 2 && "AE"@[0] == 'A' && "AE"@[1] == 'E');
    reveal_strlit("As");
    assert("As"@.len() == 2 && "As"@[0] == 'A' && "As"@[1] == 's');
    reveal_strlit("A");
    assert("A"@.len() == 1 && "A"@[0] == 'A');
    reveal_strlit("Ar");
    assert("Ar"@.len() == 2 && "Ar"@[0] == 'A' && "Ar"@[1] == 'r');
    reveal_strlit("TE");
    assert("TE"@.len() == 2 && "TE"@[0] == 'T' && "TE"@[1] == 'E');
    reveal_strlit("TZ");
    assert("TZ"@.len() == 2 && "TZ"@[0] == 'T' && "TZ"@[1] == 'Z');
    reveal_strlit("Np");
    assert("Np"@.len() == 2 && "Np"@[0] == 'N' && "Np"@[1] == 'p');
    reveal_strlit("NP");
    assert("NP"@.len() == 2 && "NP"@[0] == 'N' && "NP"@[1] == 'P');
    reveal_strlit("Pb");
    assert("Pb"@.len() == 2 && "Pb"@[0] == 'P' && "Pb"@[1] == 'b');
    reveal_strlit("PB");
    assert("PB"@.len() == 2 && "PB"@[0] == 'P' && "PB"@[1] == 'B');
    reveal_strlit("Pc");
    assert("Pc"@.len() == 2 && "Pc"@[0] == 'P' && "Pc"@[1] == 'c');
    reveal_strlit("Pg");
    assert("Pg"@.len() == 2 && "Pg"@[0] == 'P' && "Pg"@[1] == 'g');
    reveal_strlit("p");
    assert("p"@.len() == 1 && "p"@[0] == 'p');
    reveal_strlit("Bc");
    assert("Bc"@.len() == 2 && "Bc"@[0] == 'B' && "Bc"@[1] == 'c');
    reveal_strlit("Bh");
    assert("Bh"@.len() == 2 && "Bh"@[0] == 'B' && "Bh"@[1] == 'h');
    reveal_strlit("Bn");
    assert("Bn"@.len() == 2 && "Bn"@[0] == 'B' && "Bn"@[1] == 'n');
    reveal_strlit("annotatepage");
    assert("annotatepage"@.len() == 12 && "annotatepage"@[0] == 'a' && "annotatepage"@[1] == 'n' && "annotatepage"@[2] == 'n' && "annotatepage"@[3] == 'o' && "annotatepage"@[4] == 't' && "annotatepage"@[5] == 'a' && "annotatepage"@[6] == 't' && "annotatepage"@[7] == 'e' && "annotatepage"@[8] == 'p' && "annotatepage"@[9] == 'a' && "annotatepage"@[10] == 'g' && "annotatepage"@[11] == 'e');
    reveal_strlit(",");
    assert(","@.len() == 1 && ","@[0] == ',');
    reveal_strlit(":");
    assert(":"@.len() == 1 && ":"@[0] == ':');
    reveal_strlit(";");
    assert(";"@.len() == 1 && ";"@[0] == ';');
    reveal_strlit("-");
    assert("-"@.len() == 1 && "-"@[0] == '-');
    reveal_strlit(".");
    assert("."@.len() == 1 && "."@[0] == '.');
}

/// The operator table is the PGF operator set: each operator's name, the
/// operands it takes (`None` where the count varies) and the handler that
/// interprets it; fill operators (`g`, `k`, `Xa`, `x`, `Xx`) go to fill
/// handlers and their capitals to stroke handlers. No other name is an
/// operator.
pub proof fn operator_table_law(n: Seq<char>)
    ensures
        operator_spec("m"@) == Some(("moveto"@, Some(2usize), "handle_moveto"@)),
        operator_spec("l"@) == Some(("lineto_smooth"@, Some(2usize), "handle_lineto"@)),
        operator_spec("L"@) == Some(("lineto_corner"@, Some(2usize), "handle_lineto"@)),
        operator_spec("c"@) == Some(("curveto_smooth"@, Some(6usize), "handle_curveto"@)),
        operator_spec("C"@) == Some(("curveto_corner"@, Some(6usize), "handle_curveto"@)),
        operator_spec("v"@) == Some(("curveto_v_smooth"@, Some(4usize), "handle_curveto_v"@)),
        operator_spec("V"@) == Some(("curveto_v_corner"@, Some(4usize), "handle_curveto_v"@)),
        operator_spec("y"@) == Some(("curveto_y_smooth"@, Some(4usize), "handle_curveto_y"@)),
        operator_spec("Y"@) == Some(("curveto_y_corner"@, Some(4usize), "handle_curveto_y"@)),
        operator_spec("H"@) == Some(("closepath"@, Some(0usize), "handle_closepath"@)),
        operator_spec("N"@) == Some(("path_noop_open"@, Some(0usize), "handle_render"@)),
        operator_spec("n"@) == Some(("path_noop_closed"@, Some(0usize), "handle_render"@)),
        operator_spec("F"@) == Some(("fill_open"@, Some(0usize), "handle_render"@)),
        operator_spec("f"@) == Some(("fill_closed"@, Some(0usize), "handle_render"@)),
        operator_spec("S"@) == Some(("stroke_open"@, Some(0usize), "handle_render"@)),
        operator_spec("s"@) == Some(("stroke_closed"@, Some(0usize), "handle_render"@)),
        operator_spec("B"@) == Some(("fill_stroke_open"@, Some(0usize), "handle_render"@)),
        operator_spec("b"@) == Some(("fill_stroke_closed"@, Some(0usize), "handle_render"@)),
        operator_spec("g"@) == Some(("gray_fill"@, Some(1usize), "handle_gray_fill"@)),
        operator_spec("G"@) == Some(("gray_stroke"@, Some(1usize), "handle_gray_stroke"@)),
        operator_spec("k"@) == Some(("cmyk_fill"@, Some(4usize), "handle_cmyk_fill"@)),
        operator_spec("K"@) == Some(("cmyk_stroke"@, Some(4usize), "handle_cmyk_stroke"@)),
        operator_spec("Xa"@) == Some(("rgb_fill"@, Some(3usize), "handle_rgb_fill"@)),
        operator_spec("XA"@) == Some(("rgb_stroke"@, Some(3usize), "handle_rgb_stroke"@)),
        operator_spec("x"@) == Some(("spot_fill"@, None::<usize>, "handle_spot_fill"@)),
        operator_spec("X"@) == Some(("spot_stroke"@, None::<usize>, "handle_spot_stroke"@)),
        operator_spec("Xx"@) == Some(("custom_fill"@, None::<usize>, "handle_custom_fill"@)),
        operator_spec("XX"@) == Some(("custom_stroke"@, None::<usize>, "handle_custom_stroke"@)),
        operator_spec("w"@) == Some(("line_width"@, Some(1usize), "handle_line_width"@)),
        operator_spec("J"@) == Some(("line_cap"@, Some(1usize), "handle_line_cap"@)),
        operator_spec("j"@) == Some(("line_join"@, Some(1usize), "handle_line_join"@)),
        operator_spec("M"@) == Some(("miter_limit"@, Some(1usize), "handle_miter_limit"@)),
        operator_spec("d"@) == Some(("dash"@, None::<usize>, "handle_dash"@)),
        operator_spec("i"@) == Some(("flatness"@, Some(1usize), "handle_noop"@)),
        operator_spec("D"@) == Some(("setdash_ai"@, None::<usize>, "handle_dash"@)),
        operator_spec("q"@) == Some(("gsave"@, Some(0usize), "handle_gsave"@)),
        operator_spec("Q"@) == Some(("grestore"@, Some(0usize), "handle_grestore"@)),
        operator_spec("W"@) == Some(("clip"@, Some(0usize), "handle_clip"@)),
        operator_spec("cm"@) == Some(("concat_matrix"@, Some(6usize), "handle_concat_matrix"@)),
        operator_spec("u"@) == Some(("begin_group"@, Some(0usize), "handle_begin_group"@)),
        operator_spec("U"@) == Some(("end_group"@, Some(0usize), "handle_end_group"@)),
        operator_spec("*u"@) == Some(("begin_compound"@, Some(0usize), "handle_begin_compound"@)),
        operator_spec("*U"@) == Some(("end_compound"@, Some(0usize), "handle_end_compound"@)),
        operator_spec("Lb"@) == Some(("begin_layer"@, None::<usize>, "handle_begin_layer"@)),
        operator_spec("LB"@) == Some(("end_layer"@, Some(0usize), "handle_end_layer"@)),
        operator_spec("Ln"@) == Some(("layer_name"@, Some(1usize), "handle_layer_name"@)),
        operator_spec("To"@) == Some(("begin_text"@, Some(1usize), "handle_begin_text"@)),
        operator_spec("TO"@) == Some(("end_text"@, Some(0usize), "handle_end_text"@)),
        operator_spec("Tp"@) == Some(("text_path"@, Some(6usize), "handle_text_path"@)),
        operator_spec("TP"@) == Some(("end_text_path"@, Some(0usize), "handle_end_text_path"@)),
        operator_spec("Tx"@) == Some(("text_render"@, Some(1usize), "handle_text_render"@)),
        operator_spec("TX"@) == Some(("text_render_end"@, Some(0usize), "handle_noop"@)),
        operator_spec("Tf"@) == Some(("text_font"@, Some(2usize), "handle_text_font"@)),
        operator_spec("Tj"@) == Some(("text_show"@, Some(1usize), "handle_text_render"@)),
        operator_spec("TJ"@) == Some(("text_show_kerned"@, None::<usize>, "handle_noop"@)),
        operator_spec("Tk"@) == Some(("text_tracking"@, Some(2usize), "handle_noop"@)),
        operator_spec("Tc"@) == Some(("text_char_spacing"@, Some(1usize), "handle_noop"@)),
        operator_spec("Tw"@) == Some(("text_word_spacing"@, Some(1usize), "handle_noop"@)),
        operator_spec("Ts"@) == Some(("text_rise"@, Some(1usize), "handle_noop"@)),
        operator_spec("Ti"@) == Some(("text_indent"@, Some(1usize), "handle_noop"@)),
        operator_spec("Tz"@) == Some(("text_horiz_scale"@, Some(1usize), "handle_noop"@)),
        operator_spec("TA"@) == Some(("text_alignment"@, None::<usize>, "handle_noop"@)),
        operator_spec("Tq"@) == Some(("text_hanging_punct"@, None::<usize>, "handle_noop"@)),
        operator_spec("Bb"@) == Some(("begin_gradient"@, Some(1usize), "handle_begin_gradient"@)),
        operator_spec("BB"@) == Some(("end_gradient"@, Some(0usize), "handle_end_gradient"@)),
        operator_spec("Bd"@) == Some(("begin_gradient_def"@, None::<usize>, "handle_begin_gradient_def"@)),
        operator_spec("BD"@) == Some(("end_gradient_def"@, Some(0usize), "handle_end_gradient_def"@)),
        operator_spec("Bg"@) == Some(("gradient_geometry"@, None::<usize>, "handle_gradient_geometry"@)),
        operator_spec("Bs"@) == Some(("gradient_stop"@, None::<usize>, "handle_gradient_stop"@)),
        operator_spec("BR"@) == Some(("gradient_ramp"@, None::<usize>, "handle_noop"@)),
        operator_spec("Bm"@) == Some(("gradient_midpoint"@, None::<usize>, "handle_noop"@)),
        operator_spec("E"@) == Some(("begin_pattern"@, None::<usize>, "handle_noop"@)),
        operator_spec("e"@) == Some(("end_pattern"@, Some(0usize), "handle_noop"@)),
        operator_spec("AI5_SetPalette"@) == Some(("set_palette"@, None::<usize>, "handle_noop"@)),
        operator_spec("XI"@) == Some(("raster_image"@, None::<usize>, "handle_raster_image"@)),
        operator_spec("'"@) == Some(("placed_file"@, None::<usize>, "handle_noop"@)),
        operator_spec("Adobe_Illustrator_AI5"@) == Some(("ai5_procset"@, Some(1usize), "handle_noop"@)),
        operator_spec("Adobe_ctte"@) == Some(("ctte_procset"@, None::<usize>, "handle_noop"@)),
        operator_spec("Adobe_level2_AI5"@) == Some(("level2_procset"@, None::<usize>, "handle_noop"@)),
        operator_spec("Adobe_ColorImage_AI6"@) == Some(("colorimage_procset"@, None::<usize>, "handle_noop"@)),
        operator_spec("Adobe_shading_AI8"@) == Some(("shading_procset"@, None::<usize>, "handle_noop"@)),
        operator_spec("pop"@) == Some(("pop"@, Some(0usize), "handle_pop"@)),
        operator_spec("def"@) == Some(("define"@, Some(0usize), "handle_noop"@)),
        operator_spec("exec"@) == Some(("exec"@, Some(0usize), "handle_noop"@)),
        operator_spec("null"@) == Some(("null"@, Some(0usize), "handle_null"@)),
        operator_spec("true"@) == Some(("true"@, Some(0usize), "handle_true"@)),
        operator_spec("false"@) == Some(("false"@, Some(0usize), "handle_false"@)),
        operator_spec("bind"@) == Some(("bind"@, Some(0usize), "handle_noop"@)),
        operator_spec("dup"@) == Some(("dup"@, Some(0usize), "handle_dup"@)),
        operator_spec("exch"@) == Some(("exch"@, Some(0usize), "handle_exch"@)),
        operator_spec("copy"@) == Some(("copy"@, Some(1usize), "handle_noop"@)),
        operator_spec("index"@) == Some(("index"@, Some(1usize), "handle_noop"@)),
        operator_spec("roll"@) == Some(("roll"@, Some(2usize), "handle_noop"@)),
        operator_spec("cleartomark"@) == Some(("cleartomark"@, Some(0usize), "handle_noop"@)),
        operator_spec("counttomark"@) == Some(("counttomark"@, Some(0usize), "handle_noop"@)),
        operator_spec("mark"@) == Some(("mark"@, Some(0usize), "handle_noop"@)),
        operator_spec("setgray"@) == Some(("setgray"@, Some(1usize), "handle_noop"@)),
        operator_spec("setrgbcolor"@) == Some(("setrgbcolor"@, Some(3usize), "handle_noop"@)),
        operator_spec("setcmykcolor"@) == Some(("setcmykcolor"@, Some(4usize), "handle_noop"@)),
        operator_spec("currentpoint"@) == Some(("currentpoint"@, Some(0usize), "handle_noop"@)),
        operator_spec("moveto"@) == Some(("ps_moveto"@, Some(2usize), "handle_noop"@)),
        operator_spec("lineto"@) == Some(("ps_lineto"@, Some(2usize), "handle_noop"@)),
        operator_spec("curveto"@) == Some(("ps_curveto"@, Some(6usize), "handle_noop"@)),
        operator_spec("closepath"@) == Some(("ps_closepath"@, Some(0usize), "handle_noop"@)),
        operator_spec("fill"@) == Some(("ps_fill"@, Some(0usize), "handle_noop"@)),
        operator_spec("stroke"@) == Some(("ps_stroke"@, Some(0usize), "handle_noop"@)),
        operator_spec("newpath"@) == Some(("ps_newpath"@, Some(0usize), "handle_noop"@)),
        operator_spec("gsave"@) == Some(("ps_gsave"@, Some(0usize), "handle_noop"@)),
        operator_spec("grestore"@) == Some(("ps_grestore"@, Some(0usize), "handle_noop"@)),
        operator_spec("showpage"@) == Some(("ps_showpage"@, Some(0usize), "handle_noop"@)),
        operator_spec("translate"@) == Some(("ps_translate"@, Some(2usize), "handle_noop"@)),
        operator_spec("scale"@) == Some(("ps_scale"@, Some(2usize), "handle_noop"@)),
        operator_spec("rotate"@) == Some(("ps_rotate"@, Some(1usize), "handle_noop"@)),
        operator_spec("concat"@) == Some(("ps_concat"@, None::<usize>, "handle_noop"@)),
        operator_spec("setlinewidth"@) == Some(("ps_setlinewidth"@, Some(1usize), "handle_noop"@)),
        operator_spec("setlinecap"@) == Some(("ps_setlinecap"@, Some(1usize), "handle_noop"@)),
        operator_spec("setlinejoin"@) == Some(("ps_setlinejoin"@, Some(1usize), "handle_noop"@)),
        operator_spec("setmiterlimit"@) == Some(("ps_setmiterlimit"@, Some(1usize), "handle_noop"@)),
        operator_spec("setdash"@) == Some(("ps_setdash"@, None::<usize>, "handle_noop"@)),
        operator_spec("clip"@) == Some(("ps_clip"@, Some(0usize), "handle_noop"@)),
        operator_spec("image"@) == Some(("ps_image"@, None::<usize>, "handle_noop"@)),
        operator_spec("colorimage"@) == Some(("ps_colorimage"@, None::<usize>, "handle_noop"@)),
        operator_spec("Ap"@) == Some(("opacity_attrs"@, None::<usize>, "handle_noop"@)),
        operator_spec("O"@) == Some(("overprint_fill"@, Some(1usize), "handle_noop"@)),
        operator_spec("R"@) == Some(("overprint_stroke"@, Some(1usize), "handle_noop"@)),
        operator_spec("Xw"@) == Some(("winding_rule"@, Some(1usize), "handle_noop"@)),
        operator_spec("XR"@) == Some(("xr_paint_style"@, Some(1usize), "handle_noop"@)),
        operator_spec("XW"@) == Some(("xw_paint_style"@, Some(2usize), "handle_noop"@)),
        operator_spec("Xd"@) == Some(("xd_paint_style"@, None::<usize>, "handle_noop"@)),
        operator_spec("Xm"@) == Some(("xm_paint_style"@, None::<usize>, "handle_noop"@)),
        operator_spec("Xs"@) == Some(("xs_paint_style"@, None::<usize>, "handle_noop"@)),
        operator_spec("Xy"@) == Some(("xy_paint_style"@, Some(5usize), "handle_noop"@)),
        operator_spec("XS"@) == Some(("xs_stroke_style"@, None::<usize>, "handle_noop"@)),
        operator_spec("Ae"@) == Some(("appearance_end"@, Some(1usize), "handle_appearance_end"@)),
        operator_spec("AE"@) == Some(("appearance_expand"@, Some(1usize), "handle_noop"@)),
        operator_spec("As"@) == Some(("appearance_style"@, Some(1usize), "handle_appearance_style"@)),
        operator_spec("A"@) == Some(("appearance_a"@, Some(1usize), "handle_noop"@)),
        operator_spec("Ar"@) == Some(("appearance_ref"@, None::<usize>, "handle_noop"@)),
        operator_spec("TE"@) == Some(("text_encoding"@, None::<usize>, "handle_noop"@)),
        operator_spec("TZ"@) == Some(("text_zap_font"@, None::<usize>, "handle_noop"@)),
        operator_spec("Np"@) == Some(("nonprointing_begin"@, Some(0usize), "handle_noop"@)),
        operator_spec("NP"@) == Some(("nonprointing_end"@, Some(0usize), "handle_noop"@)),
        operator_spec("Pb"@) == Some(("pattern_brush_begin"@, None::<usize>, "handle_noop"@)),
        operator_spec("PB"@) == Some(("pattern_brush_end"@, Some(0usize), "handle_noop"@)),
        operator_spec("Pc"@) == Some(("pattern_color"@, None::<usize>, "handle_noop"@)),
        operator_spec("Pg"@) == Some(("pattern_gradient"@, None::<usize>, "handle_noop"@)),
        operator_spec("p"@) == Some(("pattern_fill"@, None::<usize>, "handle_noop"@)),
        operator_spec("Bc"@) == Some(("blend_color"@, None::<usize>, "handle_noop"@)),
        operator_spec("Bh"@) == Some(("blend_highlight"@, None::<usize>, "handle_noop"@)),
        operator_spec("Bn"@) == Some(("blend_name"@, None::<usize>, "handle_noop"@)),
        operator_spec("annotatepage"@) == Some(("annotate_page"@, None::<usize>, "handle_noop"@)),
        operator_spec(","@) == Some(("comma"@, Some(0usize), "handle_noop"@)),
        operator_spec(":"@) == Some(("colon"@, Some(0usize), "handle_noop"@)),
        operator_spec(";"@) == Some(("semicolon"@, Some(0usize), "handle_noop"@)),
        operator_spec("-"@) == Some(("dash_char"@, Some(0usize), "handle_noop"@)),
        operator_spec("."@) == Some(("dot_char"@, Some(0usize), "handle_noop"@)),
        operator_spec(n) is Some <==> (n == "m"@ || n == "l"@ || n == "L"@ || n == "c"@ || n == "C"@ || n == "v"@ || n == "V"@ || n == "y"@ || n == "Y"@ || n == "H"@ || n == "N"@ || n == "n"@ || n == "F"@ || n == "f"@ || n == "S"@ || n == "s"@ || n == "B"@ || n == "b"@ || n == "g"@ || n == "G"@ || n == "k"@ || n == "K"@ || n == "Xa"@ || n == "XA"@ || n == "x"@ || n == "X"@ || n == "Xx"@ || n == "XX"@ || n == "w"@ || n == "J"@ || n == "j"@ || n == "M"@ || n == "d"@ || n == "i"@ || n == "D"@ || n == "q"@ || n == "Q"@ || n == "W"@ || n == "cm"@ || n == "u"@ || n == "U"@ || n == "*u"@ || n == "*U"@ || n == "Lb"@ || n == "LB"@ || n == "Ln"@ || n == "To"@ || n == "TO"@ || n == "Tp"@ || n == "TP"@ || n == "Tx"@ || n == "TX"@ || n == "Tf"@ || n == "Tj"@ || n == "TJ"@ || n == "Tk"@ || n == "Tc"@ || n == "Tw"@ || n == "Ts"@ || n == "Ti"@ || n == "Tz"@ || n == "TA"@ || n == "Tq"@ || n == "Bb"@ || n == "BB"@ || n == "Bd"@ || n == "BD"@ || n == "Bg"@ || n == "Bs"@ || n == "BR"@ || n == "Bm"@ || n == "E"@ || n == "e"@ || n == "AI5_SetPalette"@ || n == "XI"@ || n == "'"@ || n == "Adobe_Illustrator_AI5"@ || n == "Adobe_ctte"@ || n == "Adobe_level2_AI5"@ || n == "Adobe_ColorImage_AI6"@ || n == "Adobe_shading_AI8"@ || n == "pop"@ || n == "def"@ || n == "exec"@ || n == "null"@ || n == "true"@ || n == "false"@ || n == "bind"@ || n == "dup"@ || n == "exch"@ || n == "copy"@ || n == "index"@ || n == "roll"@ || n == "cleartomark"@ || n == "counttomark"@ || n == "mark"@ || n == "setgray"@ || n == "setrgbcolor"@ || n == "setcmykcolor"@ || n == "currentpoint"@ || n == "moveto"@ || n == "lineto"@ || n == "curveto"@ || n == "closepath"@ || n == "fill"@ || n == "stroke"@ || n == "newpath"@ || n == "gsave"@ || n == "grestore"@ || n == "showpage"@ || n == "translate"@ || n == "scale"@ || n == "rotate"@ || n == "concat"@ || n == "setlinewidth"@ || n == "setlinecap"@ || n == "setlinejoin"@ || n == "setmiterlimit"@ || n == "setdash"@ || n == "clip"@ || n == "image"@ || n == "colorimage"@ || n == "Ap"@ || n == "O"@ || n == "R"@ || n == "Xw"@ || n == "XR"@ || n == "XW"@ || n == "Xd"@ || n == "Xm"@ || n == "Xs"@ || n == "Xy"@ || n == "XS"@ || n == "Ae"@ || n == "AE"@ || n == "As"@ || n == "A"@ || n == "Ar"@ || n == "TE"@ || n == "TZ"@ || n == "Np"@ || n == "NP"@ || n == "Pb"@ || n == "PB"@ || n == "Pc"@ || n == "Pg"@ || n == "p"@ || n == "Bc"@ || n == "Bh"@ || n == "Bn"@ || n == "annotatepage"@ || n == ","@ || n == ":"@ || n == ";"@ || n == "-"@ || n == "."@),
{
    lemma_operators_0();
    lemma_operators_1();
    lemma_operators_2();
    lemma_operators_3();
    lemma_operators_4();
    lemma_operators_5();
    lemma_operators_6();
    lemma_operators_7();
    lemma_operators_8();
    lemma_operators_9();
    lemma_operators_10();
    lemma_operators_11();
}

} // verus!
