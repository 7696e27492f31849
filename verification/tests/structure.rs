use illustrator_rs::parser::structure::{
    DocumentBuilder, LayerShape, PathRef, Shape, MAX_DOCUMENT_OBJECTS, MAX_NESTING_DEPTH,
};

fn path(id: usize) -> Shape {
    Shape::Path(PathRef { id, filled: true, white: false })
}

fn white(id: usize) -> Shape {
    Shape::Path(PathRef { id, filled: true, white: true })
}

fn show(s: &Shape) -> String {
    match s {
        Shape::Path(p) => format!("p{}", p.id),
        Shape::Other(i) => format!("o{}", i),
        Shape::Group(g) => format!(
            "{}({})",
            if g.clipped { "G" } else { "g" },
            g.children.iter().map(show).collect::<Vec<_>>().join(" ")
        ),
        Shape::Compound(ps) => format!("c[{}]", ps.iter().map(|p| p.id.to_string()).collect::<Vec<_>>().join(" ")),
    }
}

fn layers(ls: &[LayerShape]) -> Vec<String> {
    ls.iter()
        .map(|l| format!("{}: {}", l.name, l.children.iter().map(show).collect::<Vec<_>>().join(" ")))
        .collect()
}

#[test]
fn objects_before_any_layer_go_to_the_default_layer() {
    let mut b = DocumentBuilder::new();
    b.add_object(path(0));
    b.add_object(Shape::Other(0));
    assert_eq!(layers(&b.finish()), vec!["Default Layer: p0 o0"]);
}

#[test]
fn empty_default_layer_is_left_out() {
    let mut b = DocumentBuilder::new();
    b.begin_layer(true, false, true, (0, 0, 0));
    b.name_layer("Default Layer".to_string());
    b.end_layer();
    b.begin_layer(true, false, true, (1, 2, 3));
    b.name_layer("Art".to_string());
    b.add_object(path(0));
    let ls = b.finish();
    assert_eq!(layers(&ls), vec!["Art: p0"]);
    assert_eq!(ls[0].color, (1, 2, 3));
}

#[test]
fn layers_keep_the_first_of_a_name() {
    let mut b = DocumentBuilder::new();
    b.begin_layer(true, false, true, (0, 0, 0));
    b.name_layer("A".to_string());
    b.add_object(path(0));
    b.end_layer();
    b.begin_layer(false, true, false, (0, 0, 0));
    b.name_layer("A".to_string());
    b.add_object(path(1));
    b.end_layer();
    b.begin_layer(true, false, true, (0, 0, 0));
    b.add_object(path(2));
    let ls = b.finish();
    assert_eq!(layers(&ls), vec!["A: p0", "Layer: p2"]);
    assert!(ls[0].visible);
}

#[test]
fn groups_nest_and_close_into_their_parent() {
    let mut b = DocumentBuilder::new();
    b.begin_layer(true, false, true, (0, 0, 0));
    b.add_object(path(0));
    assert!(b.begin_group(true));
    b.add_object(path(1));
    assert!(b.begin_group(false));
    b.add_object(path(2));
    b.end_group();
    b.end_group();
    // The outer group joins the empty group put aside when it began, which
    // stays open until the end.
    assert_eq!(layers(&b.finish()), vec!["Layer: p0 g(G(p1 g(p2)))"]);
}

#[test]
fn a_white_knockout_goes_where_colour_follows() {
    let mut b = DocumentBuilder::new();
    b.begin_layer(true, false, true, (0, 0, 0));
    b.begin_group(false);
    b.add_object(white(0));
    b.add_object(path(1));
    b.end_group();
    b.begin_group(false);
    b.add_object(white(2));
    b.add_object(Shape::Other(0));
    b.end_group();
    assert_eq!(layers(&b.finish()), vec!["Layer: g(g(p1) g(p2 o0))"]);
}

#[test]
fn compound_paths_take_the_paths_drawn_meanwhile() {
    let mut b = DocumentBuilder::new();
    b.begin_layer(true, false, true, (0, 0, 0));
    b.begin_compound();
    b.add_object(path(0));
    b.add_object(Shape::Other(0));
    b.add_object(path(1));
    b.end_compound();
    b.end_layer();
    assert_eq!(layers(&b.finish()), vec!["Layer: o0 c[0 1]"]);
}

#[test]
fn objects_in_the_setup_are_ignored() {
    let mut b = DocumentBuilder::new();
    b.set_in_setup(true);
    b.add_object(path(0));
    b.set_in_setup(false);
    b.add_object(path(1));
    assert_eq!(layers(&b.finish()), vec!["Default Layer: p1"]);
}

#[test]
fn open_groups_close_at_the_end_and_empty_ones_vanish() {
    let mut b = DocumentBuilder::new();
    b.begin_layer(true, false, true, (0, 0, 0));
    b.begin_group(false);
    b.add_object(path(0));
    b.begin_group(false);
    assert_eq!(layers(&b.finish()), vec!["Layer: g(g(p0))"]);
}

#[test]
fn pending_groups_are_dropped() {
    let mut b = DocumentBuilder::new();
    b.begin_layer(true, false, true, (0, 0, 0));
    b.begin_group(false);
    b.add_object(path(0));
    b.begin_compound();
    b.drop_pending();
    b.add_object(path(1));
    assert_eq!(layers(&b.finish()), vec!["Layer: p1"]);
}

#[test]
fn a_top_level_group_leaves_an_open_group_behind() {
    let mut b = DocumentBuilder::new();
    b.begin_layer(true, false, true, (0, 0, 0));
    b.begin_group(false);
    b.add_object(path(0));
    b.end_group();
    b.add_object(path(1));
    assert_eq!(layers(&b.finish()), vec!["Layer: g(g(p0) p1)"]);
}

#[test]
fn nesting_and_object_limits() {
    let mut b = DocumentBuilder::new();
    for _ in 0..MAX_NESTING_DEPTH {
        assert!(b.begin_group(false));
    }
    assert!(!b.begin_group(false));
    let mut c = DocumentBuilder::new();
    for i in 0..MAX_DOCUMENT_OBJECTS + 3 {
        c.add_object(Shape::Other(i));
    }
    let ls = c.finish();
    assert_eq!(ls[0].children.len(), MAX_DOCUMENT_OBJECTS);
}
