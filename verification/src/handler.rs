//! Addressing and describing the objects of an open document: node paths
//! such as `/page[1]/layer[2]/path[3]`, the outline view, statistics and
//! the list of issues.
use vstd::prelude::*;

use crate::error::Error;
use crate::parser::operators::str_equals;
use crate::text::{chars_of, copy_range, decimal_spec, string_views, is_ascii_digit, next_char, next_char_at, lemma_next_char_at_range, push_chars, push_decimal, push_str, string_of};

verus! {

// ---------------------------------------------------------------------------
// Node paths.
// ---------------------------------------------------------------------------
/// The value of a string of decimal digits.
pub open spec fn digits_value(d: Seq<char>) -> nat
    decreases d.len(),
{
    if d.len() == 0 {
        0
    } else {
        digits_value(d.drop_last()) * 10 + ((d.last() as int) - ('0' as int)) as nat
    }
}

/// Every character of `d` is a decimal digit.
pub open spec fn all_digits(d: Seq<char>) -> bool {
    forall|i: int| 0 <= i < d.len() ==> is_ascii_digit(#[trigger] d[i])
}

/// `usize::from_str`: an optional `+` and at least one decimal digit, of a
/// value that fits.
pub open spec fn parse_usize_spec(t: Seq<char>) -> Option<nat> {
    let d = if t.len() > 0 && t[0] == '+' {
        t.drop_first()
    } else {
        t
    };
    if d.len() > 0 && all_digits(d) && digits_value(d) <= usize::MAX {
        Some(digits_value(d))
    } else {
        None
    }
}

proof fn lemma_digits_value_push(d: Seq<char>, c: char)
    ensures
        digits_value(d.push(c)) == digits_value(d) * 10 + ((c as int) - ('0' as int)) as nat,
{
    assert(d.push(c).drop_last() =~= d);
}

/// Reads a decimal number as `usize::from_str` does.
pub fn parse_usize(t: &[char]) -> (r: Option<usize>)
    ensures
        match parse_usize_spec(t@) {
            Some(v) => r == Some(v as usize),
            None => r is None,
        },
{
    let start: usize = if t.len() > 0 && t[0] == '+' {
        1
    } else {
        0
    };
    let ghost d = t@.skip(start as int);
    proof {
        if start == 1 {
            assert(d =~= t@.drop_first());
        } else {
            assert(d =~= t@);
        }
    }
    if start >= t.len() {
        return None;
    }
    let mut v: usize = 0;
    let mut i: usize = start;
    while i < t.len()
        invariant
            start <= i <= t@.len(),
            d == t@.skip(start as int),
            d == (if t@.len() > 0 && t@[0] == '+' {
                t@.drop_first()
            } else {
                t@
            }),
            forall|j: int| 0 <= j < i - start ==> is_ascii_digit(#[trigger] d[j]),
            v == digits_value(d.take(i - start)),
        decreases t.len() - i,
    {
        let c = t[i];
        if !('0' <= c && c <= '9') {
            proof {
                assert(d[i - start] == t@[i as int]);
                assert(!is_ascii_digit(d[i - start]));
                assert(!all_digits(d));
            }
            return None;
        }
        let dv = (c as u32 - '0' as u32) as usize;
        proof {
            assert(d.take(i + 1 - start) =~= d.take(i - start).push(c));
            lemma_digits_value_push(d.take(i - start), c);
        }
        if v > (usize::MAX - dv) / 10 {
            proof {
                assert(digits_value(d.take(i + 1 - start)) > usize::MAX);
                if all_digits(d) {
                    lemma_digits_value_prefix(d, i + 1 - start);
                }
            }
            return None;
        }
        v = v * 10 + dv;
        i += 1;
    }
    proof {
        assert(d.take(i - start) =~= d);
    }
    Some(v)
}

proof fn lemma_digits_value_prefix(d: Seq<char>, k: int)
    requires
        0 <= k <= d.len(),
        forall|i: int| 0 <= i < d.len() ==> is_ascii_digit(#[trigger] d[i]),
    ensures
        digits_value(d.take(k)) <= digits_value(d),
    decreases d.len() - k,
{
    if k < d.len() {
        lemma_digits_value_prefix(d, k + 1);
        assert(d.take(k + 1) =~= d.take(k).push(d[k]));
        lemma_digits_value_push(d.take(k), d[k]);
    } else {
        assert(d.take(k) =~= d);
    }
}

/// The non-empty pieces of `s` from `p` on, between `/` characters.
pub open spec fn parts_from(s: Seq<char>, p: int) -> Seq<Seq<char>>
    decreases s.len() - p,
{
    if p < 0 || p > s.len() {
        seq![]
    } else {
        let e = next_char_at(s, '/', p);
        proof {
            lemma_next_char_at_range(s, '/', p);
        }
        let part = s.subrange(p, e);
        let rest = if e < s.len() {
            parts_from(s, e + 1)
        } else {
            seq![]
        };
        if part.len() > 0 {
            seq![part] + rest
        } else {
            rest
        }
    }
}

/// `t` without the `]` characters at its end.
pub open spec fn trim_brackets(t: Seq<char>) -> Seq<char>
    decreases t.len(),
{
    if t.len() > 0 && t.last() == ']' {
        trim_brackets(t.drop_last())
    } else {
        t
    }
}

/// One step of a node path: `name[n]` is the name and `n - 1` (0 for
/// `n = 0`); a step without brackets is the name and 0. `None` where the
/// number cannot be read.
pub open spec fn step_spec(part: Seq<char>) -> Option<(Seq<char>, nat)> {
    let b = next_char_at(part, '[', 0);
    if b < part.len() {
        match parse_usize_spec(trim_brackets(part.skip(b + 1))) {
            Some(v) => Some((part.take(b), if v == 0 {
                0
            } else {
                (v - 1) as nat
            })),
            None => None,
        }
    } else {
        Some((part, 0))
    }
}

/// The steps of the parts from index `k` on; on failure, the part that
/// could not be read.
pub open spec fn steps_from(parts: Seq<Seq<char>>, k: int) -> Result<Seq<(Seq<char>, nat)>, Seq<char>>
    decreases parts.len() - k,
{
    if k < 0 || k >= parts.len() {
        Ok(seq![])
    } else {
        match step_spec(parts[k]) {
            None => Err(parts[k]),
            Some(st) => match steps_from(parts, k + 1) {
                Ok(rest) => Ok(seq![st] + rest),
                Err(e) => Err(e),
            },
        }
    }
}

/// The steps of a node path such as `/page[1]/layer[2]/path[3]`, or the
/// message naming the step whose number cannot be read.
pub open spec fn node_path_spec(s: Seq<char>) -> Result<Seq<(Seq<char>, nat)>, Seq<char>> {
    match steps_from(parts_from(s, 0), 0) {
        Ok(st) => Ok(st),
        Err(part) => Err("Invalid path index in "@ + part),
    }
}

/// A step of a node path.
pub struct NodeStep {
    pub name: String,
    pub index: usize,
}

pub open spec fn node_steps_model(v: Seq<NodeStep>) -> Seq<(Seq<char>, nat)> {
    v.map_values(|x: NodeStep| (x.name@, x.index as nat))
}

fn trim_brackets_exec(t: &[char]) -> (r: Vec<char>)
    ensures
        r@ == trim_brackets(t@),
{
    let mut e = t.len();
    assert(t@.take(t@.len() as int) =~= t@);
    while e > 0 && t[e - 1] == ']'
        invariant
            e <= t@.len(),
            trim_brackets(t@.take(e as int)) == trim_brackets(t@),
        decreases e,
    {
        proof {
            assert(t@.take(e as int).drop_last() =~= t@.take(e - 1));
        }
        e -= 1;
    }
    copy_range(t, 0, e)
}

/// Reads one step of a node path (see [`step_spec`]).
fn parse_step(part: &[char]) -> (r: Option<NodeStep>)
    ensures
        match step_spec(part@) {
            Some((n, i)) => r matches Some(st) && st.name@ == n && st.index == i,
            None => r is None,
        },
{
    proof {
        lemma_next_char_at_range(part@, '[', 0);
    }
    let b = next_char(part, '[', 0);
    if b < part.len() {
        let rest = copy_range(part, b + 1, part.len());
        assert(rest@ =~= part@.skip(b + 1));
        let digits = trim_brackets_exec(&rest);
        match parse_usize(&digits) {
            Some(v) => {
                let name = string_of(&copy_range(part, 0, b));
                assert(name@ =~= part@.take(b as int));
                let index = if v == 0 {
                    0
                } else {
                    v - 1
                };
                Some(NodeStep { name, index })
            },
            None => None,
        }
    } else {
        Some(NodeStep { name: string_of(part), index: 0 })
    }
}

/// Reads a node path such as `/page[1]/layer[2]/path[3]` into its steps
/// (see [`node_path_spec`]).
pub fn parse_node_path(path: &str) -> (r: Result<Vec<NodeStep>, Error>)
    ensures
        match node_path_spec(path@) {
            Ok(st) => r matches Ok(v) && node_steps_model(v@) == st,
            Err(m) => r matches Err(e) && e matches Error::Parse(x) && x@ == m,
        },
{
    let s = chars_of(path);
    let n = s.len();
    let mut steps: Vec<NodeStep> = Vec::new();
    let mut p: usize = 0;
    let ghost parts = parts_from(s@, 0);
    let ghost done: Seq<Seq<char>> = seq![];
    proof {
        assert(done + parts_from(s@, 0) =~= parts);
    }
    loop
        invariant_except_break
            done + parts_from(s@, p as int) == parts,
            steps_from(parts, 0) == match steps_from(parts, done.len() as int) {
                Ok(rest) => Ok(node_steps_model(steps@) + rest),
                Err(e) => Err(e),
            },
        invariant
            p <= n,
            n == s@.len(),
            s@ == path@,
            parts == parts_from(s@, 0),
        ensures
            steps_from(parts, 0) == Ok::<Seq<(Seq<char>, nat)>, Seq<char>>(node_steps_model(steps@)),
        decreases n - p + 1,
    {
        proof {
            lemma_next_char_at_range(s@, '/', p as int);
        }
        let e = next_char(&s, '/', p);
        let part = copy_range(&s, p, e);
        let ghost rest = if e < n {
            parts_from(s@, e + 1)
        } else {
            seq![]
        };
        let ghost d0 = done;
        if part.len() > 0 {
            let ghost k = done.len() as int;
            proof {
                assert(parts_from(s@, p as int) == seq![part@] + rest);
                assert(parts =~= (done + seq![part@]) + rest);
                assert(parts[k] == part@);
            }
            match parse_step(&part) {
                Some(st) => {
                    let ghost before = steps@;
                    steps.push(st);
                    proof {
                        done = done.push(part@);
                        assert(node_steps_model(steps@) =~= node_steps_model(before).push((st.name@, st.index as nat)));
                        match steps_from(parts, k + 1) {
                            Ok(r2) => {
                                assert(node_steps_model(before) + (seq![(st.name@, st.index as nat)] + r2)
                                    =~= node_steps_model(steps@) + r2);
                            },
                            Err(_) => {},
                        }
                    }
                },
                None => {
                    let mut m = String::new();
                    push_str(&mut m, "Invalid path index in ");
                    push_chars(&mut m, &part);
                    proof {
                        reveal_strlit("Invalid path index in ");
                        lemma_steps_from_err_prefix(parts, k);
                    }
                    return Err(Error::Parse(m));
                },
            }
        } else {
            proof {
                assert(parts_from(s@, p as int) == rest);
            }
        }
        if e >= n {
            proof {
                assert(done =~= parts) by {
                    assert(done + Seq::<Seq<char>>::empty() =~= done);
                }
                assert(steps_from(parts, done.len() as int) == Ok::<Seq<(Seq<char>, nat)>, Seq<char>>(seq![]));
                assert(node_steps_model(steps@) + Seq::<(Seq<char>, nat)>::empty() =~= node_steps_model(steps@));
            }
            break;
        }
        p = e + 1;
    }
    proof {
        assert(node_path_spec(path@) == Ok::<Seq<(Seq<char>, nat)>, Seq<char>>(node_steps_model(steps@)));
    }
    Ok(steps)
}

/// Where `steps_from` fails at `k`, reading from the start fails there
/// too, provided every part before `k` can be read.
proof fn lemma_steps_from_err_prefix(parts: Seq<Seq<char>>, k: int)
    requires
        0 <= k < parts.len(),
        step_spec(parts[k]) is None,
    ensures
        steps_from(parts, k) == Err::<Seq<(Seq<char>, nat)>, Seq<char>>(parts[k]),
{
}

// ---------------------------------------------------------------------------
// The objects of a document as the outline and node paths see them.
// ---------------------------------------------------------------------------
/// What the outline view and node paths need of an object.
pub enum OutlineNode {
    Path { segments: usize, closed: bool, name: Option<String> },
    Group { name: Option<String>, children: Vec<OutlineNode> },
    Compound { subpaths: usize, name: Option<String> },
    Text { content: String, name: Option<String> },
    Image { width: u32, height: u32, name: Option<String> },
}

/// A layer: its name and objects.
pub struct LayerOutline {
    pub name: String,
    pub children: Vec<OutlineNode>,
}

/// The name of an object's kind, as node paths and the outline write it.
pub open spec fn kind_name_spec(n: OutlineNode) -> Seq<char> {
    match n {
        OutlineNode::Path { .. } => "path"@,
        OutlineNode::Group { .. } => "group"@,
        OutlineNode::Compound { .. } => "compound"@,
        OutlineNode::Text { .. } => "text"@,
        OutlineNode::Image { .. } => "image"@,
    }
}

pub fn object_type_name(n: &OutlineNode) -> (r: &'static str)
    ensures
        r@ == kind_name_spec(*n),
{
    match n {
        OutlineNode::Path { .. } => "path",
        OutlineNode::Group { .. } => "group",
        OutlineNode::Compound { .. } => "compound",
        OutlineNode::Text { .. } => "text",
        OutlineNode::Image { .. } => "image",
    }
}

/// Follows node-path steps down from `objects`: the index chosen at each
/// level, or the message of the first failure.
pub open spec fn resolve_spec(steps: Seq<(Seq<char>, nat)>, objects: Seq<OutlineNode>) -> Result<Seq<nat>, Seq<char>>
    decreases steps.len(),
{
    if steps.len() == 0 {
        Ok(seq![])
    } else {
        let name = steps[0].0;
        let idx = steps[0].1;
        if idx >= objects.len() {
            Err("Object index "@ + decimal_spec(idx) + " out of bounds"@)
        } else if steps.len() == 1 {
            if kind_name_spec(objects[idx as int]) == name {
                Ok(seq![idx])
            } else {
                Err("Expected '"@ + name + "' but found different object type"@)
            }
        } else {
            match objects[idx as int] {
                OutlineNode::Group { children, .. } => match resolve_spec(steps.drop_first(), children@) {
                    Ok(r) => Ok(seq![idx] + r),
                    Err(e) => Err(e),
                },
                _ => Err("Only groups can have nested children"@),
            }
        }
    }
}

/// Where a node path leads in `layers`: the layer index, then an object
/// index per level; or the message of the first failure.
pub open spec fn locate_spec(steps: Seq<(Seq<char>, nat)>, layers: Seq<LayerOutline>) -> Result<Seq<nat>, Seq<char>> {
    if steps.len() == 0 {
        Err("Empty path"@)
    } else if steps[0].0 != "page"@ {
        Err("Unknown path segment '"@ + steps[0].0 + "'"@)
    } else if steps.len() < 2 {
        Err("Path must include layer"@)
    } else if steps[1].1 >= layers.len() {
        Err("Layer index "@ + decimal_spec(steps[1].1) + " out of bounds"@)
    } else if steps.len() == 2 {
        Err("Path must include object type"@)
    } else {
        match resolve_spec(steps.skip(2), layers[steps[1].1 as int].children@) {
            Ok(r) => Ok(seq![steps[1].1] + r),
            Err(e) => Err(e),
        }
    }
}

fn resolve_in(steps: &Vec<NodeStep>, from: usize, objects: &Vec<OutlineNode>) -> (r: Result<Vec<usize>, String>)
    requires
        from <= steps@.len(),
    ensures
        match resolve_spec(node_steps_model(steps@).skip(from as int), objects@) {
            Ok(ix) => r matches Ok(v) && v@.map_values(|i: usize| i as nat) == ix,
            Err(m) => r matches Err(x) && x@ == m,
        },
    decreases steps@.len() - from,
{
    let ghost sm = node_steps_model(steps@).skip(from as int);
    if from == steps.len() {
        let v: Vec<usize> = Vec::new();
        assert(v@.map_values(|i: usize| i as nat) =~= Seq::<nat>::empty());
        return Ok(v);
    }
    let idx = steps[from].index;
    assert(sm[0] == (steps@[from as int].name@, idx as nat));
    if idx >= objects.len() {
        let mut m = String::new();
        push_str(&mut m, "Object index ");
        push_decimal(&mut m, idx as u64);
        push_str(&mut m, " out of bounds");
        proof {
            reveal_strlit("Object index ");
            reveal_strlit(" out of bounds");
            assert(m@ =~= "Object index "@ + decimal_spec(idx as nat) + " out of bounds"@);
        }
        return Err(m);
    }
    let obj = &objects[idx];
    if from + 1 == steps.len() {
        let kind = object_type_name(obj);
        if str_equals(steps[from].name.as_str(), kind) {
            let mut v: Vec<usize> = Vec::new();
            v.push(idx);
            assert(v@.map_values(|i: usize| i as nat) =~= seq![idx as nat]);
            return Ok(v);
        }
        let mut m = String::new();
        push_str(&mut m, "Expected '");
        push_str(&mut m, steps[from].name.as_str());
        push_str(&mut m, "' but found different object type");
        proof {
            reveal_strlit("Expected '");
            reveal_strlit("' but found different object type");
            assert(m@ =~= "Expected '"@ + sm[0].0 + "' but found different object type"@);
        }
        return Err(m);
    }
    match obj {
        OutlineNode::Group { children, .. } => {
            proof {
                assert(node_steps_model(steps@).skip(from + 1) =~= sm.drop_first());
            }
            match resolve_in(steps, from + 1, children) {
                Ok(r) => {
                    let mut v: Vec<usize> = Vec::new();
                    v.push(idx);
                    let mut k: usize = 0;
                    while k < r.len()
                        invariant
                            k <= r@.len(),
                            v@.len() == k + 1,
                            v@[0] == idx,
                            forall|j: int| 0 <= j < k ==> v@[j + 1] == r@[j],
                        decreases r.len() - k,
                    {
                        v.push(r[k]);
                        k += 1;
                    }
                    proof {
                        let rm = r@.map_values(|i: usize| i as nat);
                        assert(v@.map_values(|i: usize| i as nat) =~= seq![idx as nat] + rm);
                    }
                    Ok(v)
                },
                Err(e) => Err(e),
            }
        },
        _ => Err("Only groups can have nested children".to_owned()),
    }
}

/// Finds the object that the node path `path` names in `layers` (see
/// [`node_path_spec`] and [`locate_spec`]): the index of its layer, then
/// of the object at each level.
pub fn locate(path: &str, layers: &Vec<LayerOutline>) -> (r: Result<Vec<usize>, Error>)
    ensures
        match node_path_spec(path@) {
            Err(m) => r matches Err(e) && e matches Error::Parse(x) && x@ == m,
            Ok(st) => match locate_spec(st, layers@) {
                Ok(ix) => r matches Ok(v) && v@.map_values(|i: usize| i as nat) == ix,
                Err(m) => r matches Err(e) && e matches Error::Parse(x) && x@ == m,
            },
        },
{
    let steps = match parse_node_path(path) {
        Ok(st) => st,
        Err(e) => return Err(e),
    };
    let ghost sm = node_steps_model(steps@);
    if steps.len() == 0 {
        return Err(Error::Parse("Empty path".to_owned()));
    }
    proof {
        assert(sm[0] == (steps@[0].name@, steps@[0].index as nat));
        reveal_strlit("page");
    }
    if !str_equals(steps[0].name.as_str(), "page") {
        let mut m = String::new();
        push_str(&mut m, "Unknown path segment '");
        push_str(&mut m, steps[0].name.as_str());
        push_str(&mut m, "'");
        proof {
            reveal_strlit("Unknown path segment '");
            reveal_strlit("'");
            assert(m@ =~= "Unknown path segment '"@ + sm[0].0 + "'"@);
        }
        return Err(Error::Parse(m));
    }
    if steps.len() < 2 {
        return Err(Error::Parse("Path must include layer".to_owned()));
    }
    let lidx = steps[1].index;
    assert(sm[1].1 == lidx as nat);
    if lidx >= layers.len() {
        let mut m = String::new();
        push_str(&mut m, "Layer index ");
        push_decimal(&mut m, lidx as u64);
        push_str(&mut m, " out of bounds");
        proof {
            reveal_strlit("Layer index ");
            reveal_strlit(" out of bounds");
            assert(m@ =~= "Layer index "@ + decimal_spec(lidx as nat) + " out of bounds"@);
        }
        return Err(Error::Parse(m));
    }
    if steps.len() == 2 {
        return Err(Error::Parse("Path must include object type".to_owned()));
    }
    match resolve_in(&steps, 2, &layers[lidx].children) {
        Ok(r) => {
            let mut v: Vec<usize> = Vec::new();
            v.push(lidx);
            let mut k: usize = 0;
            while k < r.len()
                invariant
                    k <= r@.len(),
                    v@.len() == k + 1,
                    v@[0] == lidx,
                    forall|j: int| 0 <= j < k ==> v@[j + 1] == r@[j],
                decreases r.len() - k,
            {
                v.push(r[k]);
                k += 1;
            }
            proof {
                let rm = r@.map_values(|i: usize| i as nat);
                assert(v@.map_values(|i: usize| i as nat) =~= seq![lidx as nat] + rm);
            }
            Ok(v)
        },
        Err(m) => Err(Error::Parse(m)),
    }
}

// ---------------------------------------------------------------------------
// The outline view.
// ---------------------------------------------------------------------------
/// `depth` levels of indentation, two spaces each.
pub open spec fn indent_spec(depth: nat) -> Seq<char>
    decreases depth,
{
    if depth == 0 {
        seq![]
    } else {
        indent_spec((depth - 1) as nat) + "  "@
    }
}

/// The object's name, or `d` for an unnamed one.
pub open spec fn name_or(name: Option<String>, d: Seq<char>) -> Seq<char> {
    match name {
        Some(n) => n@,
        None => d,
    }
}

/// The outline lines of one object at `depth`, its children below it.
pub open spec fn outline_node(n: OutlineNode, depth: nat) -> Seq<char>
    decreases n,
{
    let ind = indent_spec(depth);
    match n {
        OutlineNode::Path { segments, closed, name } => ind + "path ["@ + decimal_spec(segments as nat)
            + " segs, "@ + (if closed {
            "closed"@
        } else {
            "open"@
        }) + "] "@ + name_or(name, "path"@) + "\n"@,
        OutlineNode::Group { name, children } => {
            proof {
                assert(decreases_to!(n => children));
            }
            ind + "group \""@ + name_or(name, "group"@) + "\"\n"@ + outline_nodes(children@, depth + 1)
        },
        OutlineNode::Compound { subpaths, name } => ind + "compound ("@ + decimal_spec(subpaths as nat)
            + " subpaths) "@ + name_or(name, "compound"@) + "\n"@,
        OutlineNode::Text { content, name } => ind + "text \""@ + content@ + "\" \""@ + name_or(
            name,
            "text"@,
        ) + "\"\n"@,
        OutlineNode::Image { width, height, name } => ind + "image "@ + decimal_spec(width as nat) + "x"@
            + decimal_spec(height as nat) + " "@ + name_or(name, "image"@) + "\n"@,
    }
}

/// The outline lines of a list of objects at `depth`, in order.
pub open spec fn outline_nodes(ns: Seq<OutlineNode>, depth: nat) -> Seq<char>
    decreases ns,
{
    if ns.len() == 0 {
        seq![]
    } else {
        proof {
            assert(decreases_to!(ns => ns.drop_last()));
            assert(decreases_to!(ns => ns[ns.len() - 1]));
        }
        outline_nodes(ns.drop_last(), depth) + outline_node(ns[ns.len() - 1], depth)
    }
}

/// The outline of a document: each layer as `/page[1]/layer[n] "name"`,
/// then its objects two levels in.
pub open spec fn outline_spec(layers: Seq<LayerOutline>) -> Seq<char>
    decreases layers.len(),
{
    if layers.len() == 0 {
        seq![]
    } else {
        let l = layers.last();
        outline_spec(layers.drop_last()) + "/page[1]/layer["@ + decimal_spec(layers.len()) + "] \""@
            + l.name@ + "\"\n"@ + outline_nodes(l.children@, 2)
    }
}

fn push_name_or(out: &mut String, name: &Option<String>, d: &str)
    ensures
        final(out)@ == old(out)@ + name_or(*name, d@),
{
    match name {
        Some(n) => push_str(out, n.as_str()),
        None => push_str(out, d),
    }
}

fn path_line(segments: usize, closed: bool, name: &Option<String>) -> (r: String)
    ensures
        r@ == "path ["@ + decimal_spec(segments as nat) + " segs, "@ + (if closed {
            "closed"@
        } else {
            "open"@
        }) + "] "@ + name_or(*name, "path"@) + "\n"@,
{
    proof {
        reveal_strlit("path [");
        reveal_strlit(" segs, ");
        reveal_strlit("closed");
        reveal_strlit("open");
        reveal_strlit("] ");
        reveal_strlit("\n");
    }
    let mut out = String::new();
    push_str(&mut out, "path [");
    push_decimal(&mut out, segments as u64);
    push_str(&mut out, " segs, ");
    if closed {
        push_str(&mut out, "closed");
    } else {
        push_str(&mut out, "open");
    }
    push_str(&mut out, "] ");
    push_name_or(&mut out, name, "path");
    push_str(&mut out, "\n");
    out
}

fn compound_line(subpaths: usize, name: &Option<String>) -> (r: String)
    ensures
        r@ == "compound ("@ + decimal_spec(subpaths as nat) + " subpaths) "@ + name_or(*name, "compound"@)
            + "\n"@,
{
    proof {
        reveal_strlit("compound (");
        reveal_strlit(" subpaths) ");
        reveal_strlit("\n");
    }
    let mut out = String::new();
    push_str(&mut out, "compound (");
    push_decimal(&mut out, subpaths as u64);
    push_str(&mut out, " subpaths) ");
    push_name_or(&mut out, name, "compound");
    push_str(&mut out, "\n");
    out
}

fn text_line(content: &String, name: &Option<String>) -> (r: String)
    ensures
        r@ == "text \""@ + content@ + "\" \""@ + name_or(*name, "text"@) + "\"\n"@,
{
    proof {
        reveal_strlit("text \"");
        reveal_strlit("\" \"");
        reveal_strlit("\"\n");
    }
    let mut out = String::new();
    push_str(&mut out, "text \"");
    push_str(&mut out, content.as_str());
    push_str(&mut out, "\" \"");
    push_name_or(&mut out, name, "text");
    push_str(&mut out, "\"\n");
    out
}

fn image_line(width: u32, height: u32, name: &Option<String>) -> (r: String)
    ensures
        r@ == "image "@ + decimal_spec(width as nat) + "x"@ + decimal_spec(height as nat) + " "@ + name_or(
            *name,
            "image"@,
        ) + "\n"@,
{
    proof {
        reveal_strlit("image ");
        reveal_strlit("x");
        reveal_strlit(" ");
        reveal_strlit("\n");
    }
    let mut out = String::new();
    push_str(&mut out, "image ");
    push_decimal(&mut out, width as u64);
    push_str(&mut out, "x");
    push_decimal(&mut out, height as u64);
    push_str(&mut out, " ");
    push_name_or(&mut out, name, "image");
    push_str(&mut out, "\n");
    out
}

fn write_node(n: &OutlineNode, indent: &String, Ghost(depth): Ghost<nat>, out: &mut String)
    requires
        indent@ == indent_spec(depth),
    ensures
        final(out)@ == old(out)@ + outline_node(*n, depth),
    decreases n,
{
    let ghost o = out@;
    push_str(out, indent.as_str());
    match n {
        OutlineNode::Path { segments, closed, name } => {
            let line = path_line(*segments, *closed, name);
            push_str(out, line.as_str());
            assert(out@ =~= o + outline_node(*n, depth));
        },
        OutlineNode::Group { name, children } => {
            proof {
                reveal_strlit("group \"");
                reveal_strlit("\"\n");
            }
            push_str(out, "group \"");
            push_name_or(out, name, "group");
            push_str(out, "\"\n");
            let mut inner = indent.clone();
            push_str(&mut inner, "  ");
            proof {
                reveal_strlit("  ");
            }
            write_nodes(children, &inner, Ghost(depth + 1), out);
            assert(out@ =~= o + outline_node(*n, depth));
        },
        OutlineNode::Compound { subpaths, name } => {
            let line = compound_line(*subpaths, name);
            push_str(out, line.as_str());
            assert(out@ =~= o + outline_node(*n, depth));
        },
        OutlineNode::Text { content, name } => {
            let line = text_line(content, name);
            push_str(out, line.as_str());
            assert(out@ =~= o + outline_node(*n, depth));
        },
        OutlineNode::Image { width, height, name } => {
            let line = image_line(*width, *height, name);
            push_str(out, line.as_str());
            assert(out@ =~= o + outline_node(*n, depth));
        },
    }
}

fn write_nodes(ns: &Vec<OutlineNode>, indent: &String, Ghost(depth): Ghost<nat>, out: &mut String)
    requires
        indent@ == indent_spec(depth),
    ensures
        final(out)@ == old(out)@ + outline_nodes(ns@, depth),
    decreases ns,
{
    let mut i: usize = 0;
    proof {
        assert(ns@.take(0) =~= Seq::<OutlineNode>::empty());
        assert(out@ =~= old(out)@ + outline_nodes(ns@.take(0), depth));
    }
    while i < ns.len()
        invariant
            i <= ns@.len(),
            indent@ == indent_spec(depth),
            out@ == old(out)@ + outline_nodes(ns@.take(i as int), depth),
        decreases ns.len() - i,
    {
        proof {
            assert(decreases_to!(*ns => ns@));
            assert(decreases_to!(ns@ => ns@[i as int]));
            assert(ns@.take(i + 1).drop_last() =~= ns@.take(i as int));
            assert(ns@.take(i + 1)[i as int] == ns@[i as int]);
        }
        let ghost before = out@;
        write_node(&ns[i], indent, Ghost(depth), out);
        proof {
            assert(out@ =~= old(out)@ + outline_nodes(ns@.take(i + 1), depth));
        }
        i += 1;
    }
    proof {
        assert(ns@.take(ns@.len() as int) =~= ns@);
    }
}

/// The outline view of a document (see [`outline_spec`]).
pub fn view_outline(layers: &Vec<LayerOutline>) -> (r: String)
    ensures
        r@ == outline_spec(layers@),
{
    proof {
        reveal_strlit("/page[1]/layer[");
        reveal_strlit("] \"");
        reveal_strlit("\"\n");
        reveal_strlit("  ");
    }
    let mut out = String::new();
    let mut indent = String::new();
    push_str(&mut indent, "    ");
    proof {
        reveal_strlit("    ");
        assert(indent_spec(0) =~= Seq::<char>::empty());
        assert(indent_spec(1) =~= "  "@);
        assert(indent@ =~= indent_spec(2));
    }
    let mut i: usize = 0;
    proof {
        assert(layers@.take(0) =~= Seq::<LayerOutline>::empty());
    }
    while i < layers.len()
        invariant
            i <= layers@.len(),
            indent@ == indent_spec(2),
            out@ == outline_spec(layers@.take(i as int)),
        decreases layers.len() - i,
    {
        let ghost before = out@;
        push_str(&mut out, "/page[1]/layer[");
        push_decimal(&mut out, (i + 1) as u64);
        push_str(&mut out, "] \"");
        push_str(&mut out, layers[i].name.as_str());
        push_str(&mut out, "\"\n");
        write_nodes(&layers[i].children, &indent, Ghost(2), &mut out);
        proof {
            let t = layers@.take(i + 1);
            assert(t.drop_last() =~= layers@.take(i as int));
            assert(t.last() == layers@[i as int]);
            assert(t.len() == i + 1);
            assert(out@ =~= outline_spec(t));
        }
        i += 1;
    }
    proof {
        assert(layers@.take(layers@.len() as int) =~= layers@);
    }
    out
}

// ---------------------------------------------------------------------------
// Statistics and issues.
// ---------------------------------------------------------------------------
/// The number of top-level objects of all layers.
pub open spec fn total_objects(layers: Seq<LayerOutline>) -> nat
    decreases layers.len(),
{
    if layers.len() == 0 {
        0
    } else {
        total_objects(layers.drop_last()) + layers.last().children@.len()
    }
}

/// The statistics text: counts of layers, top-level objects, spot colours
/// and fonts, one per line.
pub open spec fn stats_spec(layers: Seq<LayerOutline>, spot_colors: nat, fonts: nat) -> Seq<char> {
    "Layers: "@ + decimal_spec(layers.len()) + "\nObjects: "@ + decimal_spec(total_objects(layers))
        + "\nSpot colors: "@ + decimal_spec(spot_colors) + "\nFonts: "@ + decimal_spec(fonts) + "\n"@
}

pub fn stats(layers: &Vec<LayerOutline>, spot_colors: usize, fonts: usize) -> (r: String)
    requires
        total_objects(layers@) <= usize::MAX,
    ensures
        r@ == stats_spec(layers@, spot_colors as nat, fonts as nat),
{
    let mut total: usize = 0;
    let mut i: usize = 0;
    proof {
        assert(layers@.take(0) =~= Seq::<LayerOutline>::empty());
    }
    while i < layers.len()
        invariant
            i <= layers@.len(),
            total == total_objects(layers@.take(i as int)),
            total_objects(layers@) <= usize::MAX,
        decreases layers.len() - i,
    {
        proof {
            let t = layers@.take(i + 1);
            assert(t.drop_last() =~= layers@.take(i as int));
            lemma_total_objects_prefix(layers@, i + 1);
        }
        total = total + layers[i].children.len();
        i += 1;
    }
    proof {
        assert(layers@.take(layers@.len() as int) =~= layers@);
        reveal_strlit("Layers: ");
        reveal_strlit("\nObjects: ");
        reveal_strlit("\nSpot colors: ");
        reveal_strlit("\nFonts: ");
        reveal_strlit("\n");
    }
    let mut out = String::new();
    push_str(&mut out, "Layers: ");
    push_decimal(&mut out, layers.len() as u64);
    push_str(&mut out, "\nObjects: ");
    push_decimal(&mut out, total as u64);
    push_str(&mut out, "\nSpot colors: ");
    push_decimal(&mut out, spot_colors as u64);
    push_str(&mut out, "\nFonts: ");
    push_decimal(&mut out, fonts as u64);
    push_str(&mut out, "\n");
    assert(out@ =~= stats_spec(layers@, spot_colors as nat, fonts as nat));
    out
}

proof fn lemma_total_objects_prefix(layers: Seq<LayerOutline>, k: int)
    requires
        0 <= k <= layers.len(),
    ensures
        total_objects(layers.take(k)) <= total_objects(layers),
    decreases layers.len() - k,
{
    if k < layers.len() {
        lemma_total_objects_prefix(layers, k + 1);
        assert(layers.take(k + 1).drop_last() =~= layers.take(k));
    } else {
        assert(layers.take(k) =~= layers);
    }
}

/// The issues found in the layers from the first to the last: each empty
/// layer, as `Layer n 'name' is empty`.
pub open spec fn empty_layer_issues(layers: Seq<LayerOutline>) -> Seq<Seq<char>>
    decreases layers.len(),
{
    if layers.len() == 0 {
        seq![]
    } else {
        let l = layers.last();
        empty_layer_issues(layers.drop_last()) + if l.children@.len() == 0 {
            seq!["Layer "@ + decimal_spec(layers.len()) + " '"@ + l.name@ + "' is empty"@]
        } else {
            Seq::<Seq<char>>::empty()
        }
    }
}

/// The issues of a document: no layers at all, then each empty layer.
pub open spec fn issues_spec(layers: Seq<LayerOutline>) -> Seq<Seq<char>> {
    (if layers.len() == 0 {
        seq!["No layers found"@]
    } else {
        Seq::<Seq<char>>::empty()
    }) + empty_layer_issues(layers)
}

pub fn issues(layers: &Vec<LayerOutline>) -> (r: Vec<String>)
    ensures
        string_views(r@) == issues_spec(layers@),
{
    proof {
        reveal_strlit("No layers found");
        reveal_strlit("Layer ");
        reveal_strlit(" '");
        reveal_strlit("' is empty");
    }
    let mut r: Vec<String> = Vec::new();
    if layers.len() == 0 {
        r.push("No layers found".to_owned());
    }
    let mut i: usize = 0;
    proof {
        assert(layers@.take(0) =~= Seq::<LayerOutline>::empty());
        assert(string_views(r@) =~= string_views(r@) + empty_layer_issues(
            layers@.take(0),
        ));
    }
    while i < layers.len()
        invariant
            i <= layers@.len(),
            string_views(r@) == (if layers@.len() == 0 {
                seq!["No layers found"@]
            } else {
                Seq::<Seq<char>>::empty()
            }) + empty_layer_issues(layers@.take(i as int)),
        decreases layers.len() - i,
    {
        let ghost before = r@;
        proof {
            let t = layers@.take(i + 1);
            assert(t.drop_last() =~= layers@.take(i as int));
            assert(t.last() == layers@[i as int]);
        }
        if layers[i].children.len() == 0 {
            let mut m = String::new();
            push_str(&mut m, "Layer ");
            push_decimal(&mut m, (i + 1) as u64);
            push_str(&mut m, " '");
            push_str(&mut m, layers[i].name.as_str());
            push_str(&mut m, "' is empty");
            r.push(m);
            proof {
                assert(string_views(r@) =~= string_views(before).push(m@));
            }
        }
        proof {
            let pre = if layers@.len() == 0 {
                seq!["No layers found"@]
            } else {
                Seq::<Seq<char>>::empty()
            };
            assert(string_views(r@) =~= pre + empty_layer_issues(layers@.take(i + 1)));
        }
        i += 1;
    }
    proof {
        assert(layers@.take(layers@.len() as int) =~= layers@);
    }
    r
}

} // verus!
