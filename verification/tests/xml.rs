use illustrator_rs::error::Error;
use illustrator_rs::importer::color::rgb_arguments;
use illustrator_rs::importer::svg::{svg_layout, Attributes, XmlEvent, DEFAULT_LAYER_NAME};
use illustrator_rs::importer::xml::{build_svg_tree, xml_events};

fn kinds(xml: &str) -> Vec<String> {
    xml_events(xml)
        .iter()
        .map(|e| match e {
            XmlEvent::Start { name, .. } => format!("<{}>", name),
            XmlEvent::Empty { name, .. } => format!("<{}/>", name),
            XmlEvent::End => "</>".to_string(),
            XmlEvent::Text(t) => format!("'{}'", t),
            XmlEvent::Eof => "eof".to_string(),
            XmlEvent::Failed(_) => "failed".to_string(),
        })
        .collect()
}

#[test]
fn xml_text_becomes_events() {
    assert_eq!(kinds(""), vec!["eof"]);
    assert_eq!(kinds("<a/>"), vec!["<a/>", "eof"]);
    assert_eq!(
        kinds("<?xml version=\"1.0\"?><!-- c --><a>x &amp; y<![CDATA[1<2]]></a>"),
        vec!["<a>", "'x & y'", "'1<2'", "</>", "eof"]
    );
    assert_eq!(kinds("<a></b>"), vec!["<a>", "failed"]);
}

#[test]
fn svg_text_becomes_an_element_tree() {
    let root = build_svg_tree(
        "<svg width=\"20\"><g id=\"L\"><rect x=\"1\"/></g><text>Hi</text></svg>",
    )
    .unwrap();
    assert_eq!(root.name, "svg");
    assert_eq!(root.attrs.get("width").map(|s| s.as_str()), Some("20"));
    assert_eq!(root.children.len(), 2);
    assert_eq!(root.children[0].children[0].name, "rect");
    assert_eq!(root.children[1].text, "Hi");
}

#[test]
fn unreadable_svg_text_is_refused() {
    match build_svg_tree("") {
        Err(Error::Import(m)) => assert_eq!(m, "No root element found"),
        _ => panic!("expected an import error"),
    }
    match build_svg_tree("<svg><g></svg>") {
        Err(Error::Import(m)) => assert!(m.starts_with("XML parse error: ")),
        _ => panic!("expected an import error"),
    }
}

#[test]
fn rgb_function_arguments() {
    assert_eq!(
        rgb_arguments("rgb( 1 , 2,3 )"),
        Some(("1".to_string(), "2".to_string(), "3".to_string()))
    );
    assert_eq!(rgb_arguments("fill: rgb(10,20,30) rgb(4,5,6)").map(|t| t.0), Some("10".to_string()));
    assert_eq!(rgb_arguments("rgb(1,2)"), None);
    assert_eq!(rgb_arguments("RGB(1,2,3)"), None);
}

#[test]
fn layout_finds_the_flipped_content_and_its_layers() {
    let root = build_svg_tree(
        "<svg><defs/><g transform=\"translate(0,9) scale(1, -1)\"><g id=\"My-Layer\" visibility=\"hidden\"><rect/></g><defs/><path/><g><rect/></g><g id=\"B\"/></g></svg>",
    )
    .unwrap();
    let layout = svg_layout(&root);
    assert_eq!(layout.content_root, Some(1));
    assert_eq!(layout.layers.len(), 2);
    assert_eq!(layout.layers[0].index, 0);
    assert_eq!(layout.layers[0].name, "My Layer");
    assert!(!layout.layers[0].visible);
    assert_eq!(layout.layers[1].index, 4);
    assert_eq!(layout.layers[1].name, "B");
    assert!(layout.layers[1].visible);
    assert_eq!(layout.loose, vec![2, 3]);
    assert_eq!(layout.content, vec![0, 2, 3, 4]);
}

#[test]
fn layout_without_a_flip_reads_the_root() {
    let root = build_svg_tree("<svg><g transform=\"scale(1,1)\"/><defs/><circle/></svg>").unwrap();
    let layout = svg_layout(&root);
    assert_eq!(layout.content_root, None);
    assert!(layout.layers.is_empty());
    assert_eq!(layout.loose, vec![0, 2]);
    assert_eq!(layout.content, vec![0, 2]);
    assert_eq!(DEFAULT_LAYER_NAME, "Layer 1");
}

#[test]
fn later_attribute_takes_the_place_of_an_earlier_one() {
    let mut a = Attributes::new();
    assert!(!a.contains_key("id"));
    a.insert("id".to_string(), "one".to_string());
    a.insert("fill".to_string(), "red".to_string());
    a.insert("id".to_string(), "two".to_string());
    assert_eq!(a.get("id").map(|s| s.as_str()), Some("two"));
    assert_eq!(a.get("fill").map(|s| s.as_str()), Some("red"));
    assert!(a.contains_key("fill"));
    assert_eq!(a.get("stroke"), None);
}

#[test]
fn attribute_bytes_are_read_as_text() {
    let root = build_svg_tree("<svg a=\"x &amp; y\" b='2' bad></svg>");
    // An attribute without a value does not parse and is left out.
    let root = root.unwrap();
    assert_eq!(root.attrs.get("a").map(|s| s.as_str()), Some("x &amp; y"));
    assert_eq!(root.attrs.get("b").map(|s| s.as_str()), Some("2"));
    assert!(!root.attrs.contains_key("bad"));
}
