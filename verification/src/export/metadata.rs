//! The parts of the metadata sidecar that are cut from the PGF text: the
//! prolog before the first layer, the trailer after the last one, and the
//! PGF of every layer, kept verbatim for a lossless rebuild.
use vstd::prelude::*;
use vstd::utf8::encode_utf8;

use crate::laws::{layer_names_law, name_of_rank};

use crate::text::{chars_of, copy_range, decimal_spec, find_after, find_from, lemma_find_after, occurs_at, push_decimal, rfind, rfind_spec, string_of, string_of_range, trim, trim_spec, find_spec, lemma_find_spec_some, find};

verus! {

#[derive(Clone, Debug)]
pub struct LayerPgfEntry {
    pub name: String,
    pub pgf: String,
}

/// The PGF text of the layers that begin at or after position `pos` of `s`,
/// each from its `%AI5_BeginLayer` through the first `%AI5_EndLayer--`
/// after it, named after the layer of the same rank in `names` (or with an
/// empty name where `names` is shorter).
pub open spec fn layer_pgf_from(s: Seq<char>, pos: int, idx: int, names: Seq<Seq<char>>) -> Seq<
    (Seq<char>, Seq<char>),
>
    decreases s.len() - pos,
{
    if pos < 0 || pos > s.len() {
        seq![]
    } else {
        match find_after(s, "%AI5_BeginLayer"@, pos) {
            None => seq![],
            Some(start) => match find_after(s, "%AI5_EndLayer--"@, start) {
                None => seq![],
                Some(e) => {
                    let end = e + "%AI5_EndLayer--"@.len();
                    proof {
                        reveal_strlit("%AI5_EndLayer--");
                        lemma_find_spec_some(s.skip(pos), "%AI5_BeginLayer"@);
                        lemma_find_spec_some(s.skip(start), "%AI5_EndLayer--"@);
                    }
                    let name = if 0 <= idx < names.len() {
                        names[idx]
                    } else {
                        seq![]
                    };
                    seq![(name, s.subrange(start, end))] + layer_pgf_from(s, end, idx + 1, names)
                },
            },
        }
    }
}

/// Where a layer begins at `start` and an end marker stands at `e` at or
/// after it, the end marker lies past the whole begin marker.
proof fn lemma_markers_apart(s: Seq<char>, start: int, e: int)
    requires
        start <= e,
        occurs_at(s, "%AI5_BeginLayer"@, start),
        occurs_at(s, "%AI5_EndLayer--"@, e),
    ensures
        start + "%AI5_BeginLayer"@.len() <= e,
{
    reveal_strlit("%AI5_BeginLayer");
    reveal_strlit("%AI5_EndLayer--");
    let b = "%AI5_BeginLayer"@;
    let en = "%AI5_EndLayer--"@;
    assert(s.subrange(start, start + b.len())[5] == b[5]);
    assert(s.subrange(e, e + en.len())[5] == en[5]);
    assert(s.subrange(e, e + en.len())[0] == en[0]);
    if e < start + b.len() {
        if e == start {
            assert(s[start + 5] == 'B');
            assert(s[e + 5] == 'E');
        } else {
            let k = e - start;
            assert(s.subrange(start, start + b.len())[k] == b[k]);
            assert(s[e] == '%');
            assert(b[k] != '%');
        }
    }
}

proof fn lemma_layer_pgf_shape(s: Seq<char>, pos: int, idx: int, names: Seq<Seq<char>>)
    ensures
        forall|k: int|
            0 <= k < layer_pgf_from(s, pos, idx, names).len() ==> "%AI5_BeginLayer"@.is_prefix_of(
                (#[trigger] layer_pgf_from(s, pos, idx, names)[k]).1,
            ) && "%AI5_EndLayer--"@.is_suffix_of(layer_pgf_from(s, pos, idx, names)[k].1),
    decreases s.len() - pos,
{
    if 0 <= pos <= s.len() {
        match find_after(s, "%AI5_BeginLayer"@, pos) {
            None => {},
            Some(start) => {
                lemma_find_spec_some(s.skip(pos), "%AI5_BeginLayer"@);
                match find_after(s, "%AI5_EndLayer--"@, start) {
                    None => {},
                    Some(e) => {
                        reveal_strlit("%AI5_EndLayer--");
                        reveal_strlit("%AI5_BeginLayer");
                        lemma_find_spec_some(s.skip(start), "%AI5_EndLayer--"@);
                        let b = "%AI5_BeginLayer"@;
                        let en = "%AI5_EndLayer--"@;
                        assert(s.skip(pos).subrange(start - pos, start - pos + b.len()) =~= s.subrange(start, start + b.len()));
                        assert(s.skip(start).subrange(e - start, e - start + en.len()) =~= s.subrange(e, e + en.len()));
                        lemma_markers_apart(s, start, e);
                        let end = e + en.len();
                        let piece = s.subrange(start, end);
                        assert(piece.subrange(0, b.len() as int) =~= s.subrange(start, start + b.len()));
                        assert(piece.subrange(piece.len() - en.len(), piece.len() as int) =~= s.subrange(e, end));
                        assert(b.is_prefix_of(piece));
                        assert(en.is_suffix_of(piece));
                        lemma_layer_pgf_shape(s, end, idx + 1, names);
                        let all = layer_pgf_from(s, pos, idx, names);
                        let rest = layer_pgf_from(s, end, idx + 1, names);
                        assert forall|k: int| 0 <= k < all.len() implies b.is_prefix_of((#[trigger] all[k]).1)
                            && en.is_suffix_of(all[k].1) by {
                            if k > 0 {
                                assert(all[k] == rest[k - 1]);
                            }
                        }
                    },
                }
            },
        }
    }
}

/// Every layer entry that is cut out is a whole layer section: it begins
/// with `%AI5_BeginLayer` and ends with `%AI5_EndLayer--`.
pub proof fn layer_sections_law(s: Seq<char>, names: Seq<Seq<char>>)
    ensures
        forall|k: int|
            0 <= k < layer_pgf_from(s, 0, 0, names).len() ==> "%AI5_BeginLayer"@.is_prefix_of(
                (#[trigger] layer_pgf_from(s, 0, 0, names)[k]).1,
            ) && "%AI5_EndLayer--"@.is_suffix_of(layer_pgf_from(s, 0, 0, names)[k].1),
{
    lemma_layer_pgf_shape(s, 0, 0, names);
}

/// The views of a list of names.
pub open spec fn name_views(names: Seq<String>) -> Seq<Seq<char>> {
    Seq::new(names.len(), |i: int| names[i]@)
}

/// The views of a list of layer entries.
pub open spec fn entry_views(es: Seq<LayerPgfEntry>) -> Seq<(Seq<char>, Seq<char>)> {
    Seq::new(es.len(), |i: int| (es[i].name@, es[i].pgf@))
}

/// Cuts the PGF of every layer out of `pgf_source`, naming each after the
/// layer of the same rank in `layer_names`.
pub fn extract_layer_pgf(pgf_source: &str, layer_names: &Vec<String>) -> (r: Vec<LayerPgfEntry>)
    ensures
        entry_views(r@) == layer_pgf_from(pgf_source@, 0, 0, name_views(layer_names@)),
        forall|k: int|
            0 <= k < r@.len() ==> (#[trigger] r@[k]).name@ == name_of_rank(name_views(layer_names@), k),
{
    let s = chars_of(pgf_source);
    let begin = chars_of("%AI5_BeginLayer");
    let end_marker = chars_of("%AI5_EndLayer--");
    let ghost names = name_views(layer_names@);
    let mut layers: Vec<LayerPgfEntry> = Vec::new();
    let mut pos: usize = 0;
    let mut idx: usize = 0;
    let total = s.len();
    proof {
        reveal_strlit("%AI5_EndLayer--");
    }
    loop
        invariant
            pos <= total,
            total == s@.len(),
            idx <= layers@.len(),
            idx == layers@.len(),
            idx <= pos,
            begin@ == "%AI5_BeginLayer"@,
            end_marker@ == "%AI5_EndLayer--"@,
            end_marker@.len() == 15,
            names == name_views(layer_names@),
            entry_views(layers@) + layer_pgf_from(s@, pos as int, idx as int, names)
                == layer_pgf_from(s@, 0, 0, names),
        ensures
            entry_views(layers@) == layer_pgf_from(s@, 0, 0, names),
        decreases total - pos,
    {
        let ghost before = entry_views(layers@);
        let found = find_from(&s, &begin, pos);
        proof {
            lemma_find_after(s@, begin@, pos as int, match found { Some(i) => Some(i as int), None => None });
        }
        let start = match found {
            Some(st) => st,
            None => {
                proof {
                    assert(layer_pgf_from(s@, pos as int, idx as int, names) == Seq::<(Seq<char>, Seq<char>)>::empty());
                    assert(before + Seq::<(Seq<char>, Seq<char>)>::empty() =~= before);
                }
                break;
            },
        };
        let found_end = find_from(&s, &end_marker, start);
        proof {
            lemma_find_after(s@, end_marker@, start as int, match found_end { Some(i) => Some(i as int), None => None });
        }
        let rel_end = match found_end {
            Some(e) => e,
            None => {
                proof {
                    assert(layer_pgf_from(s@, pos as int, idx as int, names) == Seq::<(Seq<char>, Seq<char>)>::empty());
                    assert(before + Seq::<(Seq<char>, Seq<char>)>::empty() =~= before);
                }
                break;
            },
        };
        let end = rel_end + end_marker.len();
        let name = if idx < layer_names.len() {
            layer_names[idx].clone()
        } else {
            String::new()
        };
        let pgf = string_of_range(&s, start, end);
        let ghost entry = (name@, pgf@);
        proof {
            assert(entry == (if 0 <= idx < names.len() { names[idx as int] } else { seq![] }, s@.subrange(start as int, end as int)));
            assert(layer_pgf_from(s@, pos as int, idx as int, names) == seq![entry] + layer_pgf_from(s@, end as int, idx + 1, names));
        }
        layers.push(LayerPgfEntry { name, pgf });
        proof {
            assert(entry_views(layers@) =~= before.push(entry));
            assert(before + (seq![entry] + layer_pgf_from(s@, end as int, idx + 1, names)) =~= before.push(entry) + layer_pgf_from(s@, end as int, idx + 1, names));
        }
        pos = end;
        idx += 1;
    }
    proof {
        layer_names_law(pgf_source@, names);
        assert forall|k: int| 0 <= k < layers@.len() implies (#[trigger] layers@[k]).name@ == name_of_rank(
            name_views(layer_names@),
            k,
        ) by {
            assert(entry_views(layers@)[k] == (layers@[k].name@, layers@[k].pgf@));
        }
    }
    layers
}

/// The text before the first layer, where there is a layer.
pub open spec fn prolog_spec(pgf: Seq<char>) -> Option<Seq<char>> {
    match find_spec(pgf, "%AI5_BeginLayer"@) {
        Some(p) => Some(pgf.take(p)),
        None => None,
    }
}

pub fn prolog_data(pgf_source: &str) -> (r: Option<String>)
    ensures
        match r {
            Some(p) => prolog_spec(pgf_source@) == Some(p@),
            None => prolog_spec(pgf_source@) is None,
        },
{
    let s = chars_of(pgf_source);
    match find(&s, &chars_of("%AI5_BeginLayer")) {
        Some(p) => {
            let r = string_of_range(&s, 0, p);
            assert(r@ =~= s@.take(p as int));
            Some(r)
        },
        None => None,
    }
}

/// The text after the last end-of-layer marker, trimmed, where there is one.
pub open spec fn trailer_spec(pgf: Seq<char>) -> Option<Seq<char>> {
    match rfind_spec(pgf, "%AI5_EndLayer--"@) {
        Some(p) => Some(trim_spec(pgf.skip(p + "%AI5_EndLayer--"@.len()))),
        None => None,
    }
}

pub fn trailer_data(pgf_source: &str) -> (r: Option<String>)
    ensures
        match r {
            Some(t) => trailer_spec(pgf_source@) == Some(t@),
            None => trailer_spec(pgf_source@) is None,
        },
{
    let s = chars_of(pgf_source);
    let total = s.len();
    let marker = chars_of("%AI5_EndLayer--");
    match rfind(&s, &marker) {
        Some(p) => {
            let rest = copy_range(&s, p + marker.len(), total);
            assert(rest@ =~= s@.skip(p + marker@.len()));
            Some(string_of(&trim(&rest)))
        },
        None => None,
    }
}

/// The fingerprint recorded for a PGF text: its length in bytes, in decimal.
pub fn pgf_hash(pgf_source: &str) -> (r: String)
    ensures
        r@ == decimal_spec(encode_utf8(pgf_source@).len()),
{
    let n = pgf_source.as_bytes().len();
    let mut r = String::new();
    push_decimal(&mut r, n as u64);
    assert(r@ =~= decimal_spec(n as nat));
    r
}

} // verus!
