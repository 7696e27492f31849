//! The structure the interpreter builds while it reads a PGF program:
//! layers, groups and compound paths, and which of them each drawn object
//! lands in. The drawn objects themselves carry floating-point geometry and
//! are kept by the caller; here they are named by their index.
use vstd::prelude::*;

use crate::parser::operators::str_equals;

verus! {

/// The deepest groups may nest; a group begun beyond it is ignored.
pub const MAX_NESTING_DEPTH: usize = 1_000;

/// The most objects a document takes; later ones are dropped.
pub const MAX_DOCUMENT_OBJECTS: usize = 500_000;

/// A path, by its index among the caller's paths, with what the knockout
/// rule reads of its fill: whether it has one, and whether it is white.
#[derive(Clone, Copy, Debug, PartialEq, Eq, Structural)]
pub struct PathRef {
    pub id: usize,
    pub filled: bool,
    pub white: bool,
}

/// An object of the structure.
pub enum Shape {
    Path(PathRef),
    /// Text or an image, by its index among the caller's other objects.
    Other(usize),
    Group(GroupShape),
    /// A compound path: its subpaths, in order.
    Compound(Vec<PathRef>),
}

/// A group: its children, in order, and whether it clips.
pub struct GroupShape {
    pub children: Vec<Shape>,
    pub clipped: bool,
}

/// A layer with its attributes and its objects.
pub struct LayerShape {
    pub name: String,
    pub visible: bool,
    pub locked: bool,
    pub printable: bool,
    pub color: (u8, u8, u8),
    pub children: Vec<Shape>,
}

/// An object as a mathematical value.
pub enum ShapeModel {
    Path(PathRef),
    Other(usize),
    Group(Seq<ShapeModel>, bool),
    Compound(Seq<PathRef>),
}

/// A layer as a mathematical value.
pub struct LayerModel {
    pub name: Seq<char>,
    pub visible: bool,
    pub locked: bool,
    pub printable: bool,
    pub color: (u8, u8, u8),
    pub children: Seq<ShapeModel>,
}

impl Shape {
    pub open spec fn model(self) -> ShapeModel
        decreases self,
    {
        match self {
            Shape::Path(p) => ShapeModel::Path(p),
            Shape::Other(i) => ShapeModel::Other(i),
            Shape::Group(g) => ShapeModel::Group(
                Seq::new(
                    g.children@.len(),
                    |i: int|
                        if 0 <= i < g.children@.len() {
                            proof {
                                assert(decreases_to!(self => g));
                                assert(decreases_to!(g => g.children));
                                assert(decreases_to!(g.children => g.children@));
                                assert(decreases_to!(g.children@ => g.children@[i]));
                            }
                            g.children@[i].model()
                        } else {
                            ShapeModel::Other(0)
                        },
                ),
                g.clipped,
            ),
            Shape::Compound(ps) => ShapeModel::Compound(ps@),
        }
    }
}

/// The models of a list of objects.
pub open spec fn shapes_model(s: Seq<Shape>) -> Seq<ShapeModel> {
    s.map_values(|x: Shape| x.model())
}

impl GroupShape {
    pub open spec fn model(&self) -> (Seq<ShapeModel>, bool) {
        (shapes_model(self.children@), self.clipped)
    }
}

impl LayerShape {
    pub open spec fn model(&self) -> LayerModel {
        LayerModel {
            name: self.name@,
            visible: self.visible,
            locked: self.locked,
            printable: self.printable,
            color: self.color,
            children: shapes_model(self.children@),
        }
    }
}

/// The models of a list of layers.
pub open spec fn layers_model(s: Seq<LayerShape>) -> Seq<LayerModel> {
    s.map_values(|l: LayerShape| l.model())
}

proof fn lemma_group_model(g: GroupShape)
    ensures
        Shape::Group(g).model() == ShapeModel::Group(g.model().0, g.model().1),
{
    let s = Shape::Group(g);
    assert(s.model()->Group_0 =~= shapes_model(g.children@));
}

proof fn lemma_shapes_push(s: Seq<Shape>, x: Shape)
    ensures
        shapes_model(s.push(x)) =~= shapes_model(s).push(x.model()),
{
    assert forall|j: int| 0 <= j < s.len() + 1 implies shapes_model(s.push(x))[j] == shapes_model(s).push(
        x.model(),
    )[j] by {
        if j < s.len() {
            assert(s.push(x)[j] == s[j]);
        }
    }
}

proof fn lemma_layers_push(s: Seq<LayerShape>, x: LayerShape)
    ensures
        layers_model(s.push(x)) =~= layers_model(s).push(x.model()),
{
    assert forall|j: int| 0 <= j < s.len() + 1 implies layers_model(s.push(x))[j] == layers_model(s).push(
        x.model(),
    )[j] by {
        if j < s.len() {
            assert(s.push(x)[j] == s[j]);
        }
    }
}

/// The state of the structure as a mathematical value.
pub struct BuilderModel {
    /// The layers finished so far.
    pub layers: Seq<LayerModel>,
    /// The layer objects go into when no group is open.
    pub current_layer: Option<LayerModel>,
    /// The innermost open group.
    pub current_group: Option<(Seq<ShapeModel>, bool)>,
    /// The groups around it, outermost first.
    pub nesting: Seq<(Seq<ShapeModel>, bool)>,
    /// The compound path being built, which takes the paths drawn meanwhile.
    pub compound: Option<Seq<PathRef>>,
    /// The objects met so far, counted up to one past the limit.
    pub object_count: nat,
    /// Objects are being ignored (inside the prolog or setup).
    pub in_setup: bool,
}

/// The layer that objects drawn before any layer go into.
pub open spec fn default_layer() -> LayerModel {
    LayerModel {
        name: "Default Layer"@,
        visible: true,
        locked: false,
        printable: true,
        color: (0, 0, 0),
        children: seq![],
    }
}

/// The object count after one more object.
pub open spec fn counted(n: nat) -> nat {
    if n <= MAX_DOCUMENT_OBJECTS {
        n + 1
    } else {
        n
    }
}

/// Where an accepted object goes: a path into the compound path being
/// built; otherwise into the innermost open group, or else into the current
/// layer, which is made the default layer where there is none.
pub open spec fn place_spec(m: BuilderModel, obj: ShapeModel) -> BuilderModel {
    if m.compound is Some && obj is Path {
        BuilderModel { compound: Some(m.compound->0.push(obj->Path_0)), ..m }
    } else if m.current_group is Some {
        let g = m.current_group->0;
        BuilderModel { current_group: Some((g.0.push(obj), g.1)), ..m }
    } else {
        let l = match m.current_layer {
            Some(l) => l,
            None => default_layer(),
        };
        BuilderModel { current_layer: Some(LayerModel { children: l.children.push(obj), ..l }), ..m }
    }
}

/// An object met: ignored inside the setup; counted, and dropped once the
/// count passes [`MAX_DOCUMENT_OBJECTS`]; else placed (see
/// [`place_spec`]).
pub open spec fn add_spec(m: BuilderModel, obj: ShapeModel) -> BuilderModel {
    if m.in_setup {
        m
    } else {
        let m1 = BuilderModel { object_count: counted(m.object_count), ..m };
        if counted(m.object_count) > MAX_DOCUMENT_OBJECTS {
            m1
        } else {
            place_spec(m1, obj)
        }
    }
}

/// The first child of a group hides what lies under it with a white fill:
/// a path, or a compound path whose first subpath, so filled.
pub open spec fn knockout_first(s: ShapeModel) -> bool {
    match s {
        ShapeModel::Path(p) => p.white,
        ShapeModel::Compound(ps) => ps.len() > 0 && ps[0].white,
        _ => false,
    }
}

/// A path, or a compound path by its first subpath, filled with a colour
/// other than white.
pub open spec fn colored_fill(s: ShapeModel) -> bool {
    match s {
        ShapeModel::Path(p) => p.filled && !p.white,
        ShapeModel::Compound(ps) => ps.len() > 0 && ps[0].filled && !ps[0].white,
        _ => false,
    }
}

/// One of `cs` has a coloured fill of its own.
pub open spec fn any_colored_fill(cs: Seq<ShapeModel>) -> bool {
    exists|j: int| 0 <= j < cs.len() && colored_fill(#[trigger] cs[j])
}

/// An object with a coloured fill: itself, or for a group one of its own
/// children.
pub open spec fn colored(s: ShapeModel) -> bool {
    match s {
        ShapeModel::Group(cs, _) => any_colored_fill(cs),
        _ => colored_fill(s),
    }
}

/// A closed group loses a white knockout first child where a later child
/// has a coloured fill.
pub open spec fn strip_knockout_spec(cs: Seq<ShapeModel>) -> Seq<ShapeModel> {
    if cs.len() >= 2 && knockout_first(cs[0]) && exists|i: int| 1 <= i < cs.len() && colored(#[trigger] cs[i]) {
        cs.skip(1)
    } else {
        cs
    }
}

/// Whether a layer of that name is among `ls`.
pub open spec fn has_layer_named(ls: Seq<LayerModel>, name: Seq<char>) -> bool {
    exists|i: int| 0 <= i < ls.len() && (#[trigger] ls[i]).name == name
}

/// `ls` with `l` added, unless a layer of its name is there already.
pub open spec fn push_if_new(ls: Seq<LayerModel>, l: LayerModel) -> Seq<LayerModel> {
    if has_layer_named(ls, l.name) {
        ls
    } else {
        ls.push(l)
    }
}

/// A group begins unless [`MAX_NESTING_DEPTH`] are open around the current
/// one: the current group (or an empty one where there is none) is put
/// aside and a new empty group, clipping or not, becomes current. Also
/// whether it began.
pub open spec fn begin_group_spec(m: BuilderModel, clip: bool) -> (BuilderModel, bool) {
    if m.nesting.len() >= MAX_NESTING_DEPTH {
        (m, false)
    } else {
        let prev = match m.current_group {
            Some(g) => g,
            None => (seq![], false),
        };
        (BuilderModel { nesting: m.nesting.push(prev), current_group: Some((seq![], clip)), ..m }, true)
    }
}

/// The group put aside last becomes current again, if any.
pub open spec fn restore_spec(m: BuilderModel) -> BuilderModel {
    if m.nesting.len() > 0 {
        BuilderModel { current_group: Some(m.nesting.last()), nesting: m.nesting.drop_last(), ..m }
    } else {
        BuilderModel { current_group: None, ..m }
    }
}

/// The current group ends: the one put aside before it becomes current, and
/// the ended group, without its knockout (see [`strip_knockout_spec`]), is
/// added as an object. Nothing happens where no group is open.
pub open spec fn end_group_spec(m: BuilderModel) -> BuilderModel {
    match m.current_group {
        None => m,
        Some(g) => add_spec(restore_spec(m), ShapeModel::Group(strip_knockout_spec(g.0), g.1)),
    }
}

/// A compound path begins, empty, replacing one being built.
pub open spec fn begin_compound_spec(m: BuilderModel) -> BuilderModel {
    BuilderModel { compound: Some(seq![]), ..m }
}

/// The compound path being built ends and is added as an object.
pub open spec fn end_compound_spec(m: BuilderModel) -> BuilderModel {
    match m.compound {
        None => m,
        Some(c) => add_spec(BuilderModel { compound: None, ..m }, ShapeModel::Compound(c)),
    }
}

/// A layer begins, named `Layer` until it is named: the current layer
/// joins the layers unless one of its name is there already.
pub open spec fn begin_layer_spec(
    m: BuilderModel,
    visible: bool,
    locked: bool,
    printable: bool,
    color: (u8, u8, u8),
) -> BuilderModel {
    let layers = match m.current_layer {
        Some(l) => push_if_new(m.layers, l),
        None => m.layers,
    };
    BuilderModel {
        layers,
        current_layer: Some(
            LayerModel { name: "Layer"@, visible, locked, printable, color, children: seq![] },
        ),
        ..m
    }
}

/// The current layer ends and joins the layers unless one of its name is
/// there already.
pub open spec fn end_layer_spec(m: BuilderModel) -> BuilderModel {
    match m.current_layer {
        None => m,
        Some(l) => BuilderModel { layers: push_if_new(m.layers, l), current_layer: None, ..m },
    }
}

/// The current layer, if any, takes a name.
pub open spec fn name_layer_spec(m: BuilderModel, name: Seq<char>) -> BuilderModel {
    match m.current_layer {
        None => m,
        Some(l) => BuilderModel { current_layer: Some(LayerModel { name, ..l }), ..m },
    }
}

/// Open groups and the compound path being built are dropped.
pub open spec fn drop_pending_spec(m: BuilderModel) -> BuilderModel {
    BuilderModel { current_group: None, nesting: seq![], compound: None, ..m }
}

/// How many groups are open.
pub open spec fn open_groups(m: BuilderModel) -> nat {
    m.nesting.len() + if m.current_group is Some {
        1nat
    } else {
        0nat
    }
}

/// Adding an object opens and closes no group and leaves the finished
/// layers alone.
pub proof fn lemma_add_keeps_groups(m: BuilderModel, obj: ShapeModel)
    ensures
        add_spec(m, obj).nesting == m.nesting,
        add_spec(m, obj).current_group is Some <==> m.current_group is Some,
        add_spec(m, obj).layers == m.layers,
{
}

/// At the end of the input, the open groups are closed, innermost first;
/// each joins the group around it (or the layer) unless it is empty. No
/// knockout is removed here.
pub open spec fn close_groups_spec(m: BuilderModel) -> BuilderModel
    decreases open_groups(m),
{
    match m.current_group {
        None => m,
        Some(g) => {
            let m1 = restore_spec(m);
            let m2 = if g.0.len() > 0 {
                add_spec(m1, ShapeModel::Group(g.0, g.1))
            } else {
                m1
            };
            proof {
                lemma_add_keeps_groups(m1, ShapeModel::Group(g.0, g.1));
            }
            close_groups_spec(m2)
        },
    }
}

/// A layer kept in the document: any but an empty default layer.
pub open spec fn kept_layer(l: LayerModel) -> bool {
    l.name != "Default Layer"@ || l.children.len() > 0
}

/// The kept layers, in order.
pub open spec fn kept_layers(ls: Seq<LayerModel>) -> Seq<LayerModel>
    decreases ls.len(),
{
    if ls.len() == 0 {
        seq![]
    } else {
        kept_layers(ls.drop_last()) + if kept_layer(ls.last()) {
            seq![ls.last()]
        } else {
            seq![]
        }
    }
}

/// The layers of the document: after the open groups are closed, the
/// current layer joins the layers unless it is empty or one of its name is
/// there already; then empty default layers are left out.
pub open spec fn finish_spec(m: BuilderModel) -> Seq<LayerModel> {
    let c = close_groups_spec(m);
    let ls = match c.current_layer {
        Some(l) => if l.children.len() > 0 {
            push_if_new(c.layers, l)
        } else {
            c.layers
        },
        None => c.layers,
    };
    kept_layers(ls)
}

/// The structure builder of one interpretation.
pub struct DocumentBuilder {
    layers: Vec<LayerShape>,
    current_layer: Option<LayerShape>,
    current_group: Option<GroupShape>,
    nesting: Vec<GroupShape>,
    compound: Option<Vec<PathRef>>,
    object_count: usize,
    in_setup: bool,
}

/// The models of a list of groups.
pub open spec fn groups_model(s: Seq<GroupShape>) -> Seq<(Seq<ShapeModel>, bool)> {
    s.map_values(|g: GroupShape| g.model())
}

/// The state of a fresh builder.
pub open spec fn initial_builder() -> BuilderModel {
    BuilderModel {
        layers: seq![],
        current_layer: None,
        current_group: None,
        nesting: seq![],
        compound: None,
        object_count: 0,
        in_setup: false,
    }
}

/// No two layers share a name.
pub open spec fn names_distinct(ls: Seq<LayerModel>) -> bool {
    forall|i: int, j: int| 0 <= i < j < ls.len() ==> (#[trigger] ls[i]).name != (#[trigger] ls[j]).name
}

/// What every state of the builder keeps: groups nest no deeper than
/// [`MAX_NESTING_DEPTH`], the finished layers have distinct names, and the
/// count stops one past [`MAX_DOCUMENT_OBJECTS`].
pub open spec fn builder_wf(m: BuilderModel) -> bool {
    &&& m.nesting.len() <= MAX_NESTING_DEPTH
    &&& names_distinct(m.layers)
    &&& m.object_count <= MAX_DOCUMENT_OBJECTS + 1
}

proof fn lemma_push_if_new_distinct(ls: Seq<LayerModel>, l: LayerModel)
    requires
        names_distinct(ls),
    ensures
        names_distinct(push_if_new(ls, l)),
{
    if !has_layer_named(ls, l.name) {
        let r = ls.push(l);
        assert forall|i: int, j: int| 0 <= i < j < r.len() implies (#[trigger] r[i]).name != (#[trigger] r[j]).name by {
            if j == ls.len() {
                assert(r[i] == ls[i]);
                if ls[i].name == l.name {
                    assert(has_layer_named(ls, l.name));
                }
            } else {
                assert(r[i] == ls[i] && r[j] == ls[j]);
            }
        }
    }
}

proof fn lemma_kept_from(ls: Seq<LayerModel>)
    ensures
        kept_layers(ls).len() <= ls.len(),
        forall|k: int| 0 <= k < kept_layers(ls).len() ==> exists|i: int| 0 <= i < ls.len() && ls[i] == #[trigger] kept_layers(ls)[k],
    decreases ls.len(),
{
    if ls.len() > 0 {
        let init = ls.drop_last();
        lemma_kept_from(init);
        let kl = kept_layers(ls);
        let ki = kept_layers(init);
        assert forall|k: int| 0 <= k < kl.len() implies exists|i: int| 0 <= i < ls.len() && ls[i] == #[trigger] kl[k] by {
            if k < ki.len() {
                assert(kl[k] == ki[k]);
                let i = choose|i: int| 0 <= i < init.len() && init[i] == ki[k];
                assert(ls[i] == init[i]);
            } else {
                assert(kl[k] == ls.last());
                assert(ls[ls.len() - 1] == ls.last());
            }
        }
    }
}

proof fn lemma_kept_distinct(ls: Seq<LayerModel>)
    requires
        names_distinct(ls),
    ensures
        names_distinct(kept_layers(ls)),
    decreases ls.len(),
{
    if ls.len() > 0 {
        let init = ls.drop_last();
        assert(names_distinct(init)) by {
            assert forall|i: int, j: int| 0 <= i < j < init.len() implies (#[trigger] init[i]).name != (#[trigger] init[j]).name by {
                assert(init[i] == ls[i] && init[j] == ls[j]);
            }
        }
        lemma_kept_distinct(init);
        lemma_kept_from(init);
        let kl = kept_layers(ls);
        let ki = kept_layers(init);
        if kept_layer(ls.last()) {
            assert forall|i: int, j: int| 0 <= i < j < kl.len() implies (#[trigger] kl[i]).name != (#[trigger] kl[j]).name by {
                if j == ki.len() {
                    assert(kl[i] == ki[i]);
                    let a = choose|a: int| 0 <= a < init.len() && init[a] == #[trigger] ki[i];
                    assert(init[a] == ls[a]);
                    assert(kl[j] == ls[ls.len() - 1]);
                } else {
                    assert(kl[i] == ki[i] && kl[j] == ki[j]);
                }
            }
        } else {
            assert(kl =~= ki);
        }
    }
}

proof fn lemma_close_groups(m: BuilderModel)
    requires
        builder_wf(m),
    ensures
        builder_wf(close_groups_spec(m)),
        close_groups_spec(m).layers == m.layers,
    decreases open_groups(m),
{
    match m.current_group {
        None => {},
        Some(g) => {
            let m1 = restore_spec(m);
            let m2 = if g.0.len() > 0 {
                add_spec(m1, ShapeModel::Group(g.0, g.1))
            } else {
                m1
            };
            lemma_add_keeps_groups(m1, ShapeModel::Group(g.0, g.1));
            lemma_close_groups(m2);
        },
    }
}

/// Every operation of the builder keeps [`builder_wf`], which a fresh
/// builder has; and the layers of the finished document have distinct
/// names.
pub proof fn structure_law(
    m: BuilderModel,
    obj: ShapeModel,
    clip: bool,
    visible: bool,
    locked: bool,
    printable: bool,
    color: (u8, u8, u8),
    name: Seq<char>,
    on: bool,
)
    requires
        builder_wf(m),
    ensures
        builder_wf(initial_builder()),
        builder_wf(add_spec(m, obj)),
        builder_wf(begin_group_spec(m, clip).0),
        builder_wf(end_group_spec(m)),
        builder_wf(begin_compound_spec(m)),
        builder_wf(end_compound_spec(m)),
        builder_wf(begin_layer_spec(m, visible, locked, printable, color)),
        builder_wf(end_layer_spec(m)),
        builder_wf(name_layer_spec(m, name)),
        builder_wf(drop_pending_spec(m)),
        builder_wf(BuilderModel { in_setup: on, ..m }),
        names_distinct(finish_spec(m)),
{
    if let Some(l) = m.current_layer {
        lemma_push_if_new_distinct(m.layers, l);
    }
    lemma_close_groups(m);
    let c = close_groups_spec(m);
    if let Some(l) = c.current_layer {
        lemma_push_if_new_distinct(c.layers, l);
    }
    let ls = match c.current_layer {
        Some(l) => if l.children.len() > 0 {
            push_if_new(c.layers, l)
        } else {
            c.layers
        },
        None => c.layers,
    };
    lemma_kept_distinct(ls);
}

fn knockout_first_of(s: &Shape) -> (r: bool)
    ensures
        r == knockout_first(s.model()),
{
    match s {
        Shape::Path(p) => p.white,
        Shape::Compound(ps) => ps.len() > 0 && ps[0].white,
        _ => false,
    }
}

fn colored_fill_of(s: &Shape) -> (r: bool)
    ensures
        r == colored_fill(s.model()),
{
    match s {
        Shape::Path(p) => p.filled && !p.white,
        Shape::Compound(ps) => ps.len() > 0 && ps[0].filled && !ps[0].white,
        _ => false,
    }
}

fn colored_of(s: &Shape) -> (r: bool)
    ensures
        r == colored(s.model()),
{
    match s {
        Shape::Group(g) => {
            proof {
                lemma_group_model(*g);
            }
            let ghost cs = shapes_model(g.children@);
            assert(s.model() == ShapeModel::Group(cs, g.clipped));
            let mut j: usize = 0;
            while j < g.children.len()
                invariant
                    j <= g.children@.len(),
                    cs == shapes_model(g.children@),
                    s.model() == ShapeModel::Group(cs, g.clipped),
                    forall|k: int| 0 <= k < j ==> !colored_fill(#[trigger] cs[k]),
                decreases g.children.len() - j,
            {
                if colored_fill_of(&g.children[j]) {
                    assert(cs[j as int] == g.children@[j as int].model());
                    assert(colored_fill(cs[j as int]));
                    assert(cs.len() == g.children@.len());
                    assert(any_colored_fill(cs));
                    return true;
                }
                assert(cs[j as int] == g.children@[j as int].model());
                j += 1;
            }
            false
        },
        _ => colored_fill_of(s),
    }
}

/// Removes a white knockout first child where a later child has a
/// coloured fill (see [`strip_knockout_spec`]).
fn strip_knockout(children: &mut Vec<Shape>)
    ensures
        shapes_model(final(children)@) == strip_knockout_spec(shapes_model(old(children)@)),
{
    let ghost cs = shapes_model(children@);
    if children.len() < 2 {
        return;
    }
    assert(cs[0] == children@[0].model());
    if !knockout_first_of(&children[0]) {
        return;
    }
    let mut i: usize = 1;
    let mut found = false;
    while i < children.len() && !found
        invariant
            1 <= i <= children@.len(),
            cs == shapes_model(children@),
            found ==> exists|k: int| 1 <= k < children@.len() && colored(#[trigger] cs[k]),
            !found ==> forall|k: int| 1 <= k < i ==> !colored(#[trigger] cs[k]),
        decreases children.len() - i + if found { 0int } else { 1int },
    {
        assert(cs[i as int] == children@[i as int].model());
        if colored_of(&children[i]) {
            found = true;
        } else {
            i += 1;
        }
    }
    if found {
        let ghost before = children@;
        children.remove(0);
        proof {
            assert(shapes_model(children@) =~= cs.skip(1));
        }
    }
}

/// Whether one of `layers` bears `name`.
fn has_layer(layers: &Vec<LayerShape>, name: &String) -> (r: bool)
    ensures
        r == has_layer_named(layers_model(layers@), name@),
{
    let ghost ls = layers_model(layers@);
    let mut i: usize = 0;
    while i < layers.len()
        invariant
            i <= layers@.len(),
            ls == layers_model(layers@),
            forall|k: int| 0 <= k < i ==> (#[trigger] ls[k]).name != name@,
        decreases layers.len() - i,
    {
        assert(ls[i as int] == layers@[i as int].model());
        if str_equals(layers[i].name.as_str(), name.as_str()) {
            return true;
        }
        i += 1;
    }
    false
}

/// Adds `l` unless a layer of its name is there already.
fn push_layer_if_new(layers: &mut Vec<LayerShape>, l: LayerShape)
    ensures
        layers_model(final(layers)@) == push_if_new(layers_model(old(layers)@), l.model()),
{
    if !has_layer(layers, &l.name) {
        let ghost before = layers@;
        layers.push(l);
        proof {
            lemma_layers_push(before, l);
        }
    }
}

/// Which of `ls` are kept (see [`kept_layers`]).
fn keep_layers(ls: Vec<LayerShape>) -> (r: Vec<LayerShape>)
    ensures
        layers_model(r@) == kept_layers(layers_model(ls@)),
{
    let ghost all = layers_model(ls@);
    let mut src = ls;
    let mut rev: Vec<LayerShape> = Vec::new();
    let ghost n = src@.len();
    while src.len() > 0
        invariant
            all == layers_model(ls@),
            n == all.len(),
            src@.len() + rev@.len() == n,
            layers_model(src@) == all.take(src@.len() as int),
            forall|k: int| 0 <= k < rev@.len() ==> (#[trigger] rev@[k]).model() == all[n - 1 - k],
        decreases src@.len(),
    {
        let ghost s0 = src@;
        let l = src.pop().unwrap();
        proof {
            assert(s0 =~= src@.push(l));
            assert(layers_model(src@) =~= all.take(src@.len() as int)) by {
                assert forall|k: int| 0 <= k < src@.len() implies layers_model(src@)[k] == all[k] by {
                    assert(layers_model(s0)[k] == s0[k].model());
                }
            }
            assert(l.model() == layers_model(s0)[s0.len() - 1]);
        }
        rev.push(l);
    }
    let mut r: Vec<LayerShape> = Vec::new();
    proof {
        assert(layers_model(r@) =~= kept_layers(all.take(0)));
    }
    while rev.len() > 0
        invariant
            n == all.len(),
            rev@.len() <= n,
            forall|k: int| 0 <= k < rev@.len() ==> (#[trigger] rev@[k]).model() == all[n - 1 - k],
            layers_model(r@) == kept_layers(all.take(n - rev@.len())),
        decreases rev@.len(),
    {
        let ghost done = n - rev@.len();
        let l = rev.pop().unwrap();
        proof {
            assert(all.take(done + 1).drop_last() =~= all.take(done));
            assert(all.take(done + 1).last() == all[done]);
        }
        let keep = !str_equals(l.name.as_str(), "Default Layer") || l.children.len() > 0;
        proof {
            assert(l.model() == all[done]);
            assert(l.model().children.len() == l.children@.len());
        }
        if keep {
            let ghost before = r@;
            r.push(l);
            proof {
                lemma_layers_push(before, l);
            }
        }
        proof {
            assert(layers_model(r@) =~= kept_layers(all.take(done + 1)));
        }
    }
    proof {
        assert(all.take(n as int) =~= all);
    }
    r
}

impl DocumentBuilder {
    pub closed spec fn model(&self) -> BuilderModel {
        BuilderModel {
            layers: layers_model(self.layers@),
            current_layer: match self.current_layer {
                Some(l) => Some(l.model()),
                None => None,
            },
            current_group: match self.current_group {
                Some(g) => Some(g.model()),
                None => None,
            },
            nesting: groups_model(self.nesting@),
            compound: match self.compound {
                Some(c) => Some(c@),
                None => None,
            },
            object_count: self.object_count as nat,
            in_setup: self.in_setup,
        }
    }

    /// An empty structure: no layer, no group, nothing counted.
    pub fn new() -> (b: Self)
        ensures
            b.model() == initial_builder(),
    {
        let b = DocumentBuilder {
            layers: Vec::new(),
            current_layer: None,
            current_group: None,
            nesting: Vec::new(),
            compound: None,
            object_count: 0,
            in_setup: false,
        };
        proof {
            assert(layers_model(b.layers@) =~= Seq::<LayerModel>::empty());
            assert(groups_model(b.nesting@) =~= Seq::<(Seq<ShapeModel>, bool)>::empty());
        }
        b
    }

    /// Makes the group put aside last current again (see [`restore_spec`]).
    fn restore(&mut self)
        ensures
            final(self).model() == restore_spec(old(self).model()),
    {
        let ghost m = self.model();
        let ghost n0 = self.nesting@;
        self.current_group = self.nesting.pop();
        proof {
            if n0.len() > 0 {
                assert(self.nesting@ =~= n0.drop_last());
                assert(groups_model(self.nesting@) =~= groups_model(n0).drop_last());
            }
            assert(self.model() =~= restore_spec(m));
        }
    }

    /// Begins a group, clipping where `clip` holds (see
    /// [`begin_group_spec`]); says whether it began.
    pub fn begin_group(&mut self, clip: bool) -> (begun: bool)
        ensures
            (final(self).model(), begun) == begin_group_spec(old(self).model(), clip),
    {
        let ghost m = self.model();
        if self.nesting.len() >= MAX_NESTING_DEPTH {
            return false;
        }
        let prev = match self.current_group.take() {
            Some(g) => g,
            None => GroupShape { children: Vec::new(), clipped: false },
        };
        proof {
            assert(shapes_model(Seq::<Shape>::empty()) =~= Seq::<ShapeModel>::empty());
        }
        let ghost n0 = self.nesting@;
        self.nesting.push(prev);
        proof {
            assert(groups_model(self.nesting@) =~= groups_model(n0).push(prev.model()));
        }
        self.current_group = Some(GroupShape { children: Vec::new(), clipped: clip });
        proof {
            assert(self.model() =~= begin_group_spec(m, clip).0);
        }
        true
    }

    /// Ends the current group (see [`end_group_spec`]).
    pub fn end_group(&mut self)
        ensures
            final(self).model() == end_group_spec(old(self).model()),
    {
        let ghost m = self.model();
        match self.current_group.take() {
            None => {
                proof {
                    assert(self.model() =~= m);
                }
            },
            Some(g) => {
                let mut g = g;
                let ghost g0 = g.model();
                strip_knockout(&mut g.children);
                proof {
                    assert(self.model() =~= BuilderModel { current_group: None, ..m });
                }
                self.restore();
                proof {
                    assert(restore_spec(BuilderModel { current_group: None, ..m }) == restore_spec(m));
                    lemma_group_model(g);
                }
                self.add_object(Shape::Group(g));
            },
        }
    }

    /// Begins a compound path (see [`begin_compound_spec`]).
    pub fn begin_compound(&mut self)
        ensures
            final(self).model() == begin_compound_spec(old(self).model()),
    {
        let ghost m = self.model();
        self.compound = Some(Vec::new());
        proof {
            assert(self.model() =~= begin_compound_spec(m));
        }
    }

    /// Ends the compound path being built (see [`end_compound_spec`]).
    pub fn end_compound(&mut self)
        ensures
            final(self).model() == end_compound_spec(old(self).model()),
    {
        let ghost m = self.model();
        match self.compound.take() {
            None => {
                proof {
                    assert(self.model() =~= m);
                }
            },
            Some(c) => {
                proof {
                    assert(self.model() =~= BuilderModel { compound: None, ..m });
                }
                self.add_object(Shape::Compound(c));
            },
        }
    }

    /// Begins a layer with these attributes (see [`begin_layer_spec`]).
    pub fn begin_layer(&mut self, visible: bool, locked: bool, printable: bool, color: (u8, u8, u8))
        ensures
            final(self).model() == begin_layer_spec(old(self).model(), visible, locked, printable, color),
    {
        let ghost m = self.model();
        match self.current_layer.take() {
            Some(l) => push_layer_if_new(&mut self.layers, l),
            None => {},
        }
        self.current_layer = Some(
            LayerShape {
                name: "Layer".to_owned(),
                visible,
                locked,
                printable,
                color,
                children: Vec::new(),
            },
        );
        proof {
            assert(shapes_model(Seq::<Shape>::empty()) =~= Seq::<ShapeModel>::empty());
            assert(self.model() =~= begin_layer_spec(m, visible, locked, printable, color));
        }
    }

    /// Ends the current layer (see [`end_layer_spec`]).
    pub fn end_layer(&mut self)
        ensures
            final(self).model() == end_layer_spec(old(self).model()),
    {
        let ghost m = self.model();
        match self.current_layer.take() {
            Some(l) => push_layer_if_new(&mut self.layers, l),
            None => {},
        }
        proof {
            assert(self.model() =~= end_layer_spec(m));
        }
    }

    /// Names the current layer (see [`name_layer_spec`]).
    pub fn name_layer(&mut self, name: String)
        ensures
            final(self).model() == name_layer_spec(old(self).model(), name@),
    {
        let ghost m = self.model();
        match self.current_layer.take() {
            Some(l) => {
                let mut l = l;
                l.name = name;
                self.current_layer = Some(l);
            },
            None => {},
        }
        proof {
            assert(self.model() =~= name_layer_spec(m, name@));
        }
    }

    /// Drops the open groups and the compound path being built.
    pub fn drop_pending(&mut self)
        ensures
            final(self).model() == drop_pending_spec(old(self).model()),
    {
        let ghost m = self.model();
        self.current_group = None;
        self.nesting = Vec::new();
        self.compound = None;
        proof {
            assert(groups_model(self.nesting@) =~= Seq::<(Seq<ShapeModel>, bool)>::empty());
            assert(self.model() =~= drop_pending_spec(m));
        }
    }

    /// Starts or stops ignoring objects (inside the prolog or setup).
    pub fn set_in_setup(&mut self, on: bool)
        ensures
            final(self).model() == (BuilderModel { in_setup: on, ..old(self).model() }),
    {
        self.in_setup = on;
    }

    /// The layers of the document (see [`finish_spec`]).
    pub fn finish(self) -> (r: Vec<LayerShape>)
        ensures
            layers_model(r@) == finish_spec(self.model()),
    {
        let ghost m0 = self.model();
        let mut b = self;
        while b.current_group.is_some()
            invariant
                close_groups_spec(b.model()) == close_groups_spec(m0),
            decreases open_groups(b.model()),
        {
            let ghost m = b.model();
            let g = b.current_group.take().unwrap();
            let ghost gm = g.model();
            proof {
                assert(b.model() =~= BuilderModel { current_group: None, ..m });
            }
            b.restore();
            proof {
                assert(restore_spec(BuilderModel { current_group: None, ..m }) == restore_spec(m));
                lemma_group_model(g);
            }
            if g.children.len() > 0 {
                let ghost m1 = b.model();
                b.add_object(Shape::Group(g));
                proof {
                    lemma_add_keeps_groups(m1, ShapeModel::Group(gm.0, gm.1));
                }
            }
        }
        let ghost c = b.model();
        let mut layers = b.layers;
        match b.current_layer {
            Some(l) => {
                if l.children.len() > 0 {
                    push_layer_if_new(&mut layers, l);
                }
            },
            None => {},
        }
        keep_layers(layers)
    }

    fn place(&mut self, obj: Shape)
        ensures
            final(self).model() == place_spec(old(self).model(), obj.model()),
    {
        let ghost m = self.model();
        let is_path = match &obj {
            Shape::Path(_) => true,
            _ => false,
        };
        if self.compound.is_some() && is_path {
            let mut c = self.compound.take().unwrap();
            match obj {
                Shape::Path(p) => {
                    c.push(p);
                },
                _ => {},
            }
            self.compound = Some(c);
        } else if self.current_group.is_some() {
            let mut g = self.current_group.take().unwrap();
            let ghost before = g.children@;
            g.children.push(obj);
            proof {
                lemma_shapes_push(before, obj);
            }
            self.current_group = Some(g);
        } else {
            let mut l = match self.current_layer.take() {
                Some(l) => l,
                None => LayerShape {
                    name: "Default Layer".to_owned(),
                    visible: true,
                    locked: false,
                    printable: true,
                    color: (0, 0, 0),
                    children: Vec::new(),
                },
            };
            proof {
                assert(shapes_model(Seq::<Shape>::empty()) =~= Seq::<ShapeModel>::empty());
            }
            let ghost before = l.children@;
            l.children.push(obj);
            proof {
                lemma_shapes_push(before, obj);
            }
            self.current_layer = Some(l);
        }
        proof {
            assert(self.model() =~= place_spec(m, obj.model()));
        }
    }

    /// Adds an object where it belongs (see [`add_spec`]).
    pub fn add_object(&mut self, obj: Shape)
        ensures
            final(self).model() == add_spec(old(self).model(), obj.model()),
    {
        if self.in_setup {
            return;
        }
        if self.object_count <= MAX_DOCUMENT_OBJECTS {
            self.object_count = self.object_count + 1;
        }
        if self.object_count > MAX_DOCUMENT_OBJECTS {
            return;
        }
        self.place(obj);
    }
}

} // verus!
