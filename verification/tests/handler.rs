use illustrator_rs::error::Error;
use illustrator_rs::handler::{
    issues, locate, object_type_name, parse_node_path, parse_usize, stats, view_outline, LayerOutline,
    OutlineNode,
};

fn chars(s: &str) -> Vec<char> {
    s.chars().collect()
}

fn sample() -> Vec<LayerOutline> {
    vec![
        LayerOutline {
            name: "Art".to_string(),
            children: vec![
                OutlineNode::Path { segments: 4, closed: true, name: None },
                OutlineNode::Group {
                    name: Some("G".to_string()),
                    children: vec![
                        OutlineNode::Text { content: "Hi".to_string(), name: None },
                        OutlineNode::Image { width: 20, height: 10, name: Some("pic".to_string()) },
                    ],
                },
                OutlineNode::Compound { subpaths: 2, name: None },
            ],
        },
        LayerOutline { name: "Empty".to_string(), children: vec![] },
    ]
}

fn parse_message(r: Result<Vec<usize>, Error>) -> String {
    match r {
        Err(Error::Parse(m)) => m,
        _ => panic!("expected a parse error"),
    }
}

#[test]
fn decimal_indices_read_like_usize_from_str() {
    assert_eq!(parse_usize(&chars("42")), Some(42));
    assert_eq!(parse_usize(&chars("+7")), Some(7));
    assert_eq!(parse_usize(&chars("")), None);
    assert_eq!(parse_usize(&chars("+")), None);
    assert_eq!(parse_usize(&chars("-1")), None);
    assert_eq!(parse_usize(&chars("1a")), None);
    assert_eq!(parse_usize(&chars("99999999999999999999999")), None);
}

#[test]
fn node_paths_read_names_and_one_based_indices() {
    let steps = parse_node_path("/page[1]//layer[2]/path").unwrap();
    let shown: Vec<(String, usize)> = steps.into_iter().map(|s| (s.name, s.index)).collect();
    assert_eq!(
        shown,
        vec![("page".to_string(), 0), ("layer".to_string(), 1), ("path".to_string(), 0)]
    );
    let zero = parse_node_path("/text[0]]]").unwrap();
    assert_eq!((zero[0].name.as_str(), zero[0].index), ("text", 0));
    match parse_node_path("/page[x]") {
        Err(Error::Parse(m)) => assert_eq!(m, "Invalid path index in page[x]"),
        _ => panic!("expected a parse error"),
    }
}

#[test]
fn node_paths_locate_objects() {
    let layers = sample();
    assert_eq!(locate("/page[1]/layer[1]/path[1]", &layers).unwrap(), vec![0, 0]);
    assert_eq!(locate("/page[1]/layer[1]/group[2]/image[2]", &layers).unwrap(), vec![0, 1, 1]);
    assert_eq!(locate("/page[1]/layer[1]/compound[3]", &layers).unwrap(), vec![0, 2]);
}

#[test]
fn node_path_failures_say_why() {
    let layers = sample();
    assert_eq!(parse_message(locate("", &layers)), "Empty path");
    assert_eq!(parse_message(locate("/doc[1]", &layers)), "Unknown path segment 'doc'");
    assert_eq!(parse_message(locate("/page[1]", &layers)), "Path must include layer");
    assert_eq!(parse_message(locate("/page[1]/layer[9]", &layers)), "Layer index 8 out of bounds");
    assert_eq!(parse_message(locate("/page[1]/layer[1]", &layers)), "Path must include object type");
    assert_eq!(parse_message(locate("/page[1]/layer[1]/path[7]", &layers)), "Object index 6 out of bounds");
    assert_eq!(
        parse_message(locate("/page[1]/layer[1]/text[1]", &layers)),
        "Expected 'text' but found different object type"
    );
    assert_eq!(
        parse_message(locate("/page[1]/layer[1]/path[1]/path[1]", &layers)),
        "Only groups can have nested children"
    );
}

#[test]
fn kind_names() {
    assert_eq!(object_type_name(&OutlineNode::Compound { subpaths: 0, name: None }), "compound");
    assert_eq!(object_type_name(&OutlineNode::Text { content: String::new(), name: None }), "text");
}

#[test]
fn outline_lists_layers_and_objects_with_indentation() {
    let expected = [
        "/page[1]/layer[1] \"Art\"\n",
        "    path [4 segs, closed] path\n",
        "    group \"G\"\n",
        "      text \"Hi\" \"text\"\n",
        "      image 20x10 pic\n",
        "    compound (2 subpaths) compound\n",
        "/page[1]/layer[2] \"Empty\"\n",
    ]
    .concat();
    assert_eq!(view_outline(&sample()), expected);
    assert_eq!(view_outline(&Vec::new()), "");
}

#[test]
fn statistics_count_top_level_objects() {
    assert_eq!(stats(&sample(), 2, 1), "Layers: 2\nObjects: 3\nSpot colors: 2\nFonts: 1\n");
}

#[test]
fn issues_name_empty_layers() {
    assert_eq!(issues(&sample()), vec!["Layer 2 'Empty' is empty".to_string()]);
    assert_eq!(issues(&Vec::new()), vec!["No layers found".to_string()]);
}
