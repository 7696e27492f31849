//! The element tree of an SVG document, built from the events of an XML
//! reader, and the attribute values that the importer reads without
//! arithmetic.
use vstd::prelude::*;

use crate::error::Error;
use crate::parser::operators::str_equals;
use crate::importer::pattern::{first_group, first_group_spec, opt_opt_view, regex_captures, regex_captures_spec};
use crate::text::{chars_of, find_from, occurs_at, push_char, push_str};

verus! {

/// The attributes of an element, in the order they were read.
pub struct Attributes {
    pairs: Vec<(String, String)>,
}

/// The value of `key` among `pairs`: that of the last pair with that key.
pub open spec fn lookup(pairs: Seq<(Seq<char>, Seq<char>)>, key: Seq<char>) -> Option<Seq<char>>
    decreases pairs.len(),
{
    if pairs.len() == 0 {
        None
    } else if pairs.last().0 == key {
        Some(pairs.last().1)
    } else {
        lookup(pairs.drop_last(), key)
    }
}

impl Attributes {
    /// The key and value of each attribute, in order.
    pub closed spec fn pairs(self) -> Seq<(Seq<char>, Seq<char>)> {
        self.pairs@.map_values(|p: (String, String)| (p.0@, p.1@))
    }

    /// No attributes.
    pub fn new() -> (a: Attributes)
        ensures
            a.pairs() == Seq::<(Seq<char>, Seq<char>)>::empty(),
    {
        let a = Attributes { pairs: Vec::new() };
        proof {
            assert(a.pairs() =~= Seq::<(Seq<char>, Seq<char>)>::empty());
        }
        a
    }

    /// Adds an attribute after the others; it takes the place of an earlier
    /// one with the same key (see [`lookup`]).
    pub fn insert(&mut self, key: String, value: String)
        ensures
            final(self).pairs() == old(self).pairs().push((key@, value@)),
    {
        let ghost before = self.pairs();
        self.pairs.push((key, value));
        proof {
            assert(self.pairs() =~= before.push((key@, value@)));
        }
    }

    /// The value of `key` (see [`lookup`]).
    pub fn get(&self, key: &str) -> (r: Option<&String>)
        ensures
            match lookup(self.pairs(), key@) {
                Some(v) => r matches Some(s) && s@ == v,
                None => r is None,
            },
    {
        let ghost all = self.pairs();
        let mut i: usize = self.pairs.len();
        proof {
            assert(all.take(i as int) =~= all);
        }
        while i > 0
            invariant
                i <= self.pairs@.len(),
                all == self.pairs(),
                lookup(all, key@) == lookup(all.take(i as int), key@),
            decreases i,
        {
            let p = &self.pairs[i - 1];
            proof {
                assert(all.take(i as int).last() == (p.0@, p.1@));
                assert(all.take(i as int).drop_last() =~= all.take(i - 1));
            }
            if str_equals(p.0.as_str(), key) {
                return Some(&p.1);
            }
            i -= 1;
        }
        None
    }

    /// Whether `key` has a value (see [`lookup`]).
    pub fn contains_key(&self, key: &str) -> (r: bool)
        ensures
            r == lookup(self.pairs(), key@) is Some,
    {
        self.get(key).is_some()
    }
}

/// One element of a parsed SVG document.
pub struct SvgElement {
    pub name: String,
    pub attrs: Attributes,
    pub children: Vec<SvgElement>,
    pub text: String,
}

/// The elements named `name` among the first `k` of `cs` and their
/// descendants, in document order.
pub open spec fn named_within(cs: Seq<SvgElement>, name: Seq<char>, k: int) -> Seq<SvgElement>
    decreases cs, k,
{
    if k <= 0 || k > cs.len() {
        seq![]
    } else {
        let c = cs[k - 1];
        let here: Seq<SvgElement> = if c.name@ == name {
            seq![c]
        } else {
            seq![]
        };
        named_within(cs, name, k - 1) + here + named_within(c.children@, name, c.children@.len() as int)
    }
}

/// The descendants of `root` named `name`, in document order (the root
/// itself not included).
pub open spec fn descendants_named(root: SvgElement, name: Seq<char>) -> Seq<SvgElement> {
    named_within(root.children@, name, root.children@.len() as int)
}

pub fn find_descendants<'a>(root: &'a SvgElement, name: &str) -> (r: Vec<&'a SvgElement>)
    ensures
        r@.len() == descendants_named(*root, name@).len(),
        forall|i: int| 0 <= i < r@.len() ==> *r@[i] == descendants_named(*root, name@)[i],
    decreases root,
{
    let mut result: Vec<&'a SvgElement> = Vec::new();
    let mut k: usize = 0;
    while k < root.children.len()
        invariant
            k <= root.children@.len(),
            result@.len() == named_within(root.children@, name@, k as int).len(),
            forall|i: int| 0 <= i < result@.len() ==> *result@[i] == named_within(root.children@, name@, k as int)[i],
        decreases root.children.len() - k,
    {
        let child = &root.children[k];
        let ghost before = named_within(root.children@, name@, k as int);
        let ghost here: Seq<SvgElement> = if child.name@ == name@ {
            seq![*child]
        } else {
            seq![]
        };
        let ghost d = descendants_named(*child, name@);
        if str_equals(child.name.as_str(), name) {
            result.push(child);
        }
        let ghost pre = before + here;
        assert(result@.len() == pre.len());
        assert(forall|i: int| 0 <= i < result@.len() ==> *result@[i] == pre[i]);
        let sub = find_descendants(child, name);
        let mut j: usize = 0;
        while j < sub.len()
            invariant
                j <= sub@.len(),
                sub@.len() == d.len(),
                forall|i: int| 0 <= i < sub@.len() ==> *sub@[i] == d[i],
                result@.len() == pre.len() + j,
                forall|i: int| 0 <= i < result@.len() ==> *result@[i] == (pre + d)[i],
            decreases sub.len() - j,
        {
            result.push(sub[j]);
            j += 1;
        }
        proof {
            assert(root.children@[k as int] == *child);
            assert(named_within(root.children@, name@, k + 1) == pre + d);
        }
        k += 1;
    }
    result
}

/// The line cap that an SVG `stroke-linecap` value names: 1 for round, 2 for
/// square, 0 (butt) for anything else.
pub open spec fn linecap_spec(value: Seq<char>) -> u8 {
    if value == "round"@ {
        1u8
    } else if value == "square"@ {
        2u8
    } else {
        0u8
    }
}

/// Reads a `stroke-linecap` value (see [`linecap_spec`]).
pub fn parse_linecap(value: &str) -> (r: u8)
    ensures
        r == linecap_spec(value@),
{
    if str_equals(value, "round") {
        1
    } else if str_equals(value, "square") {
        2
    } else {
        0
    }
}

/// The line join that an SVG `stroke-linejoin` value names: 1 for round, 2
/// for bevel, 0 (miter) for anything else.
pub open spec fn linejoin_spec(value: Seq<char>) -> u8 {
    if value == "round"@ {
        1u8
    } else if value == "bevel"@ {
        2u8
    } else {
        0u8
    }
}

/// Reads a `stroke-linejoin` value (see [`linejoin_spec`]).
pub fn parse_linejoin(value: &str) -> (r: u8)
    ensures
        r == linejoin_spec(value@),
{
    if str_equals(value, "round") {
        1
    } else if str_equals(value, "bevel") {
        2
    } else {
        0
    }
}

// ---------------------------------------------------------------------------
// Building the element tree.
// ---------------------------------------------------------------------------
/// What an XML reader reports, in order.
pub enum XmlEvent {
    /// An opening tag.
    Start { name: String, attrs: Attributes },
    /// A tag that is opened and closed at once.
    Empty { name: String, attrs: Attributes },
    /// A closing tag.
    End,
    /// Character data, unescaped.
    Text(String),
    /// The end of the input.
    Eof,
    /// The reader failed, with this message.
    Failed(String),
}

/// An event as a mathematical value.
pub enum XmlEventModel {
    Start { name: Seq<char>, attrs: Seq<(Seq<char>, Seq<char>)> },
    Empty { name: Seq<char>, attrs: Seq<(Seq<char>, Seq<char>)> },
    End,
    Text(Seq<char>),
    Eof,
    Failed(Seq<char>),
}

impl XmlEvent {
    pub open spec fn model(self) -> XmlEventModel {
        match self {
            XmlEvent::Start { name, attrs } => XmlEventModel::Start { name: name@, attrs: attrs.pairs() },
            XmlEvent::Empty { name, attrs } => XmlEventModel::Empty { name: name@, attrs: attrs.pairs() },
            XmlEvent::End => XmlEventModel::End,
            XmlEvent::Text(t) => XmlEventModel::Text(t@),
            XmlEvent::Eof => XmlEventModel::Eof,
            XmlEvent::Failed(m) => XmlEventModel::Failed(m@),
        }
    }
}

/// The models of a list of events.
pub open spec fn event_models(s: Seq<XmlEvent>) -> Seq<XmlEventModel> {
    s.map_values(|e: XmlEvent| e.model())
}

/// An element as a mathematical value.
pub struct ElementModel {
    pub name: Seq<char>,
    pub attrs: Seq<(Seq<char>, Seq<char>)>,
    pub children: Seq<ElementModel>,
    pub text: Seq<char>,
}

impl SvgElement {
    pub open spec fn model(self) -> ElementModel
        decreases self,
    {
        ElementModel {
            name: self.name@,
            attrs: self.attrs.pairs(),
            children: Seq::new(
                self.children@.len(),
                |i: int|
                    if 0 <= i < self.children@.len() {
                        proof {
                            assert(decreases_to!(self => self.children));
                            assert(decreases_to!(self.children => self.children@));
                            assert(decreases_to!(self.children@ => self.children@[i]));
                        }
                        self.children@[i].model()
                    } else {
                        ElementModel { name: seq![], attrs: seq![], children: seq![], text: seq![] }
                    },
            ),
            text: self.text@,
        }
    }
}

/// The models of a list of elements.
pub open spec fn element_models(s: Seq<SvgElement>) -> Seq<ElementModel> {
    s.map_values(|e: SvgElement| e.model())
}

/// The innermost open element with `c` added as its last child.
pub open spec fn add_child(stack: Seq<ElementModel>, c: ElementModel) -> Seq<ElementModel> {
    let p = stack.last();
    stack.update(
        stack.len() - 1,
        ElementModel { name: p.name, attrs: p.attrs, children: p.children.push(c), text: p.text },
    )
}

/// The innermost open element with `t` added to its text.
pub open spec fn add_text(stack: Seq<ElementModel>, t: Seq<char>) -> Seq<ElementModel> {
    let p = stack.last();
    stack.update(
        stack.len() - 1,
        ElementModel { name: p.name, attrs: p.attrs, children: p.children, text: p.text + t },
    )
}

/// The tree read from the events from `i` on, `stack` holding the open
/// elements, outermost first: an element opens at its start tag and joins
/// its parent (or is the result, for the outermost one) at its end tag;
/// empty tags and text join the innermost open element; whatever comes with
/// no element open is dropped. Failure at the end of the input without a
/// closed outermost element, and where the reader fails.
pub open spec fn tree_from(ev: Seq<XmlEventModel>, i: int, stack: Seq<ElementModel>) -> Result<ElementModel, Seq<char>>
    decreases ev.len() - i,
{
    if i < 0 || i >= ev.len() {
        Err("No root element found"@)
    } else {
        match ev[i] {
            XmlEventModel::Start { name, attrs } => tree_from(
                ev,
                i + 1,
                stack.push(ElementModel { name, attrs, children: seq![], text: seq![] }),
            ),
            XmlEventModel::Empty { name, attrs } => if stack.len() > 0 {
                tree_from(ev, i + 1, add_child(stack, ElementModel { name, attrs, children: seq![], text: seq![] }))
            } else {
                tree_from(ev, i + 1, stack)
            },
            XmlEventModel::End => if stack.len() == 0 {
                tree_from(ev, i + 1, stack)
            } else if stack.len() == 1 {
                Ok(stack[0])
            } else {
                tree_from(ev, i + 1, add_child(stack.drop_last(), stack.last()))
            },
            XmlEventModel::Text(t) => if stack.len() > 0 {
                tree_from(ev, i + 1, add_text(stack, t))
            } else {
                tree_from(ev, i + 1, stack)
            },
            XmlEventModel::Eof => Err("No root element found"@),
            XmlEventModel::Failed(m) => Err("XML parse error: "@ + m),
        }
    }
}

proof fn lemma_element_models_push(s: Seq<SvgElement>, e: SvgElement)
    ensures
        element_models(s.push(e)) =~= element_models(s).push(e.model()),
{
    assert forall|j: int| 0 <= j < s.len() + 1 implies element_models(s.push(e))[j] == element_models(s).push(
        e.model(),
    )[j] by {
        if j < s.len() {
            assert(s.push(e)[j] == s[j]);
        }
    }
}

/// Adds `c` as the last child of the innermost open element.
fn push_child(stack: &mut Vec<SvgElement>, c: SvgElement)
    requires
        old(stack)@.len() > 0,
    ensures
        element_models(final(stack)@) == add_child(element_models(old(stack)@), c.model()),
{
    let ghost s0 = stack@;
    let mut parent = stack.pop().unwrap();
    let ghost p0 = parent;
    let ghost cm = c.model();
    parent.children.push(c);
    proof {
        let a = parent.model().children;
        let b = p0.model().children.push(cm);
        assert forall|j: int| 0 <= j < a.len() implies a[j] == b[j] by {
            if j < p0.children@.len() {
                assert(parent.children@[j] == p0.children@[j]);
            }
        }
        assert(a =~= b);
    }
    let ghost mid = stack@;
    let ghost pm = parent.model();
    stack.push(parent);
    proof {
        lemma_element_models_push(mid, parent);
        assert(mid =~= s0.drop_last());
        assert(element_models(stack@) =~= add_child(element_models(s0), cm));
    }
}

/// Adds `t` to the text of the innermost open element.
fn push_text(stack: &mut Vec<SvgElement>, t: &String)
    requires
        old(stack)@.len() > 0,
    ensures
        element_models(final(stack)@) == add_text(element_models(old(stack)@), t@),
{
    let ghost s0 = stack@;
    let mut parent = stack.pop().unwrap();
    let ghost p0 = parent;
    push_str(&mut parent.text, t.as_str());
    proof {
        assert(parent.model().children =~= p0.model().children);
    }
    let ghost mid = stack@;
    stack.push(parent);
    proof {
        lemma_element_models_push(mid, parent);
        assert(mid =~= s0.drop_last());
        assert(element_models(stack@) =~= add_text(element_models(s0), t@));
    }
}

fn fresh(name: String, attrs: Attributes) -> (e: SvgElement)
    ensures
        e.model() == (ElementModel { name: name@, attrs: attrs.pairs(), children: seq![], text: seq![] }),
{
    let e = SvgElement { name, attrs, children: Vec::new(), text: String::new() };
    proof {
        assert(e.model().children =~= Seq::<ElementModel>::empty());
    }
    e
}

/// Builds the element tree from the events of an XML reader (see
/// [`tree_from`]).
pub fn build_tree(events: Vec<XmlEvent>) -> (r: Result<SvgElement, Error>)
    ensures
        match tree_from(event_models(events@), 0, seq![]) {
            Ok(m) => r matches Ok(e) && e.model() == m,
            Err(msg) => r matches Err(e) && e matches Error::Import(x) && x@ == msg,
        },
{
    let ghost ev = event_models(events@);
    let n = events.len();
    let mut source = events;
    let mut rev: Vec<XmlEvent> = Vec::new();
    while source.len() > 0
        invariant
            ev == event_models(events@),
            source@.len() + rev@.len() == n,
            n == ev.len(),
            forall|k: int| 0 <= k < source@.len() ==> source@[k].model() == ev[k],
            forall|k: int| 0 <= k < rev@.len() ==> rev@[k].model() == ev[n - 1 - k],
        decreases source@.len(),
    {
        let e = source.pop().unwrap();
        rev.push(e);
    }
    let mut stack: Vec<SvgElement> = Vec::new();
    proof {
        assert(element_models(stack@) =~= Seq::<ElementModel>::empty());
    }
    while rev.len() > 0
        invariant
            ev == event_models(events@),
            n == ev.len(),
            rev@.len() <= n,
            forall|k: int| 0 <= k < rev@.len() ==> rev@[k].model() == ev[n - 1 - k],
            tree_from(ev, 0, seq![]) == tree_from(ev, n - rev@.len(), element_models(stack@)),
        decreases rev@.len(),
    {
        let ghost i = n - rev@.len();
        let ghost sm = element_models(stack@);
        let e = rev.pop().unwrap();
        assert(e.model() == ev[i]);
        match e {
            XmlEvent::Start { name, attrs } => {
                let el = fresh(name, attrs);
                let ghost s0 = stack@;
                stack.push(el);
                proof {
                    lemma_element_models_push(s0, el);
                }
            },
            XmlEvent::Empty { name, attrs } => {
                let el = fresh(name, attrs);
                if stack.len() > 0 {
                    push_child(&mut stack, el);
                }
            },
            XmlEvent::End => {
                if stack.len() > 0 {
                    let ghost s0 = stack@;
                    let top = stack.pop().unwrap();
                    proof {
                        assert(stack@ =~= s0.drop_last());
                        assert(element_models(stack@) =~= sm.drop_last());
                    }
                    if stack.len() == 0 {
                        proof {
                            assert(sm.len() == 1);
                            assert(sm[0] == top.model());
                        }
                        return Ok(top);
                    }
                    push_child(&mut stack, top);
                }
            },
            XmlEvent::Text(t) => {
                if stack.len() > 0 {
                    push_text(&mut stack, &t);
                }
            },
            XmlEvent::Eof => {
                return Err(Error::Import("No root element found".to_owned()));
            },
            XmlEvent::Failed(m) => {
                let mut msg = "XML parse error: ".to_owned();
                push_str(&mut msg, m.as_str());
                return Err(Error::Import(msg));
            },
        }
    }
    Err(Error::Import("No root element found".to_owned()))
}

// ---------------------------------------------------------------------------
// How the content of a document is arranged into layers.
// ---------------------------------------------------------------------------
/// The name of the layer made for content that stands in no layer.
pub const DEFAULT_LAYER_NAME: &'static str = "Layer 1";

/// `pat` stands somewhere in `s`.
pub open spec fn text_contains(s: Seq<char>, pat: Seq<char>) -> bool {
    exists|i: int| occurs_at(s, pat, i)
}

/// `str::contains`.
fn contains(s: &str, pat: &str) -> (r: bool)
    ensures
        r == text_contains(s@, pat@),
{
    let sc = chars_of(s);
    let pc = chars_of(pat);
    match find_from(&sc, &pc, 0) {
        Some(i) => true,
        None => {
            assert forall|j: int| !occurs_at(s@, pat@, j) by {
                if j < 0 {
                }
            }
            false
        },
    }
}

/// A `g` element whose transform turns the y axis over: it holds the
/// document's content.
pub open spec fn flips_y(e: ElementModel) -> bool {
    &&& e.name == "g"@
    &&& match lookup(e.attrs, "transform"@) {
        Some(t) => text_contains(t, "scale(1,-1)"@) || text_contains(t, "scale(1, -1)"@),
        None => false,
    }
}

/// The first of `cs`, from `i` on, that turns the y axis over.
pub open spec fn first_flip_from(cs: Seq<ElementModel>, i: int) -> Option<int>
    decreases cs.len() - i,
{
    if i < 0 || i >= cs.len() {
        None
    } else if flips_y(cs[i]) {
        Some(i)
    } else {
        first_flip_from(cs, i + 1)
    }
}

/// A `g` element with an `id`: a layer.
pub open spec fn is_layer(e: ElementModel) -> bool {
    e.name == "g"@ && lookup(e.attrs, "id"@) is Some
}

/// A layer's name: its id with each `-` read as a space.
pub open spec fn layer_name_spec(id: Seq<char>) -> Seq<char> {
    id.map_values(|c: char| if c == '-' { ' ' } else { c })
}

/// A layer that the content holds.
pub struct LayerPlan {
    /// Its place among the children of the content root.
    pub index: usize,
    pub name: String,
    /// False where its `visibility` is `hidden`.
    pub visible: bool,
}

pub struct LayerPlanModel {
    pub index: int,
    pub name: Seq<char>,
    pub visible: bool,
}

impl LayerPlan {
    pub open spec fn model(self) -> LayerPlanModel {
        LayerPlanModel { index: self.index as int, name: self.name@, visible: self.visible }
    }
}

/// The layers among the first `k` of `cs`, in order.
pub open spec fn layer_plans(cs: Seq<ElementModel>, k: int) -> Seq<LayerPlanModel>
    decreases k,
{
    if k <= 0 || k > cs.len() {
        seq![]
    } else {
        let front = layer_plans(cs, k - 1);
        let c = cs[k - 1];
        match lookup(c.attrs, "id"@) {
            Some(id) if c.name == "g"@ => front.push(
                LayerPlanModel {
                    index: k - 1,
                    name: layer_name_spec(id),
                    visible: lookup(c.attrs, "visibility"@) != Some("hidden"@),
                },
            ),
            _ => front,
        }
    }
}

/// The places of the first `k` of `cs` that are neither layers nor `defs`.
pub open spec fn loose_indices(cs: Seq<ElementModel>, k: int) -> Seq<int>
    decreases k,
{
    if k <= 0 || k > cs.len() {
        seq![]
    } else if is_layer(cs[k - 1]) || cs[k - 1].name == "defs"@ {
        loose_indices(cs, k - 1)
    } else {
        loose_indices(cs, k - 1).push(k - 1)
    }
}

/// The places of the first `k` of `cs` that are not `defs`.
pub open spec fn content_indices(cs: Seq<ElementModel>, k: int) -> Seq<int>
    decreases k,
{
    if k <= 0 || k > cs.len() {
        seq![]
    } else if cs[k - 1].name == "defs"@ {
        content_indices(cs, k - 1)
    } else {
        content_indices(cs, k - 1).push(k - 1)
    }
}

/// How a document's content is arranged: which child of the root holds it
/// (`None`: the root itself), its layers, the elements that stand in no
/// layer, and all its elements but `defs` (for a document that turns out to
/// have no layer with content, whose elements then all go into one layer
/// named [`DEFAULT_LAYER_NAME`]).
pub struct SvgLayout {
    pub content_root: Option<usize>,
    pub layers: Vec<LayerPlan>,
    pub loose: Vec<usize>,
    pub content: Vec<usize>,
}

pub struct SvgLayoutModel {
    pub content_root: Option<int>,
    pub layers: Seq<LayerPlanModel>,
    pub loose: Seq<int>,
    pub content: Seq<int>,
}

impl SvgLayout {
    pub open spec fn model(self) -> SvgLayoutModel {
        SvgLayoutModel {
            content_root: match self.content_root {
                Some(i) => Some(i as int),
                None => None,
            },
            layers: self.layers@.map_values(|p: LayerPlan| p.model()),
            loose: self.loose@.map_values(|i: usize| i as int),
            content: self.content@.map_values(|i: usize| i as int),
        }
    }
}

/// The children of the element that holds a document's content: the first
/// child of the root that turns the y axis over, else the root.
pub open spec fn content_children(root: ElementModel) -> Seq<ElementModel> {
    match first_flip_from(root.children, 0) {
        Some(i) => root.children[i].children,
        None => root.children,
    }
}

/// How the content of the document `root` is arranged.
pub open spec fn svg_layout_spec(root: ElementModel) -> SvgLayoutModel {
    let cs = content_children(root);
    SvgLayoutModel {
        content_root: first_flip_from(root.children, 0),
        layers: layer_plans(cs, cs.len() as int),
        loose: loose_indices(cs, cs.len() as int),
        content: content_indices(cs, cs.len() as int),
    }
}

/// Whether `e` turns the y axis over (see [`flips_y`]).
fn turns_y(e: &SvgElement) -> (r: bool)
    ensures
        r == flips_y(e.model()),
{
    if !str_equals(e.name.as_str(), "g") {
        return false;
    }
    match e.attrs.get("transform") {
        Some(t) => contains(t.as_str(), "scale(1,-1)") || contains(t.as_str(), "scale(1, -1)"),
        None => false,
    }
}

/// A layer's name (see [`layer_name_spec`]).
fn layer_name(id: &str) -> (r: String)
    ensures
        r@ == layer_name_spec(id@),
{
    let c = chars_of(id);
    let mut r = String::new();
    let mut i: usize = 0;
    while i < c.len()
        invariant
            i <= c@.len(),
            c@ == id@,
            r@ == layer_name_spec(id@).take(i as int),
        decreases c.len() - i,
    {
        let ch = if c[i] == '-' {
            ' '
        } else {
            c[i]
        };
        push_char(&mut r, ch);
        proof {
            assert(layer_name_spec(id@).take(i + 1) =~= layer_name_spec(id@).take(i as int).push(ch));
        }
        i += 1;
    }
    proof {
        assert(layer_name_spec(id@).take(c@.len() as int) =~= layer_name_spec(id@));
    }
    r
}

proof fn lemma_child_model(e: SvgElement, i: int)
    requires
        0 <= i < e.children@.len(),
    ensures
        e.model().children.len() == e.children@.len(),
        e.model().children[i] == e.children@[i].model(),
{
}

/// How the content of the document `root` is arranged (see
/// [`svg_layout_spec`]).
pub fn svg_layout(root: &SvgElement) -> (r: SvgLayout)
    ensures
        r.model() == svg_layout_spec(root.model()),
{
    let ghost rm = root.model();
    let mut content_root: Option<usize> = None;
    let mut i: usize = 0;
    while i < root.children.len() && content_root.is_none()
        invariant
            i <= root.children@.len(),
            rm == root.model(),
            rm.children.len() == root.children@.len(),
            match content_root {
                None => first_flip_from(rm.children, 0) == first_flip_from(rm.children, i as int),
                Some(k) => k < root.children@.len() && first_flip_from(rm.children, 0) == Some(k as int),
            },
        decreases root.children.len() - i,
    {
        proof {
            lemma_child_model(*root, i as int);
        }
        if turns_y(&root.children[i]) {
            content_root = Some(i);
        }
        i += 1;
    }
    let content: &SvgElement = match content_root {
        Some(k) => &root.children[k],
        None => root,
    };
    let ghost cs = content.model().children;
    assert(cs == content_children(rm)) by {
        if let Some(k) = content_root {
            lemma_child_model(*root, k as int);
        }
    }
    let mut layers: Vec<LayerPlan> = Vec::new();
    let mut loose: Vec<usize> = Vec::new();
    let mut all: Vec<usize> = Vec::new();
    let mut k: usize = 0;
    while k < content.children.len()
        invariant
            k <= content.children@.len(),
            cs == content.model().children,
            cs.len() == content.children@.len(),
            layers@.map_values(|p: LayerPlan| p.model()) == layer_plans(cs, k as int),
            loose@.map_values(|i: usize| i as int) == loose_indices(cs, k as int),
            all@.map_values(|i: usize| i as int) == content_indices(cs, k as int),
        decreases content.children.len() - k,
    {
        let c = &content.children[k];
        proof {
            lemma_child_model(*content, k as int);
        }
        let ghost l0 = layers@;
        let ghost o0 = loose@;
        let ghost a0 = all@;
        let is_g = str_equals(c.name.as_str(), "g");
        let is_defs = str_equals(c.name.as_str(), "defs");
        let mut layer = false;
        if is_g {
            match c.attrs.get("id") {
                Some(id) => {
                    let visible = match c.attrs.get("visibility") {
                        Some(v) => !str_equals(v.as_str(), "hidden"),
                        None => true,
                    };
                    let plan = LayerPlan { index: k, name: layer_name(id.as_str()), visible };
                    layers.push(plan);
                    layer = true;
                    proof {
                        assert(layers@.map_values(|p: LayerPlan| p.model()) =~= l0.map_values(
                            |p: LayerPlan| p.model(),
                        ).push(plan.model()));
                    }
                },
                None => {},
            }
        }
        if !layer && !is_defs {
            loose.push(k);
            proof {
                assert(loose@.map_values(|i: usize| i as int) =~= o0.map_values(|i: usize| i as int).push(
                    k as int,
                ));
            }
        }
        if !is_defs {
            all.push(k);
            proof {
                assert(all@.map_values(|i: usize| i as int) =~= a0.map_values(|i: usize| i as int).push(
                    k as int,
                ));
            }
        }
        k += 1;
    }
    SvgLayout { content_root, layers, loose, content: all }
}

// ---------------------------------------------------------------------------
// References to other elements.
// ---------------------------------------------------------------------------
/// `url(#id)`, anywhere in a value.
pub const URL_REFERENCE_PATTERN: &'static str = r"url\(#([^)]+)\)";

/// The id that a value refers to with `url(#id)` (see
/// [`first_group_spec`]), as read by [`URL_REFERENCE_PATTERN`].
pub open spec fn url_reference_spec(value: Seq<char>) -> Option<Option<Seq<char>>> {
    first_group_spec(regex_captures_spec(URL_REFERENCE_PATTERN@, value))
}

/// The id of the first `url(#id)` in `value`: `None` where there is none.
pub fn url_reference(value: &str) -> (r: Option<Option<String>>)
    ensures
        opt_opt_view(r) == url_reference_spec(value@),
{
    first_group(regex_captures(URL_REFERENCE_PATTERN, value))
}

} // verus!
