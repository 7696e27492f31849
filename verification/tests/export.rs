use std::path::PathBuf;

use illustrator_rs::cli::{Cli, Commands};
use illustrator_rs::export::metadata::{extract_layer_pgf, pgf_hash, prolog_data, trailer_data};
use illustrator_rs::export::svg::{
    attr_escape, linecap_keyword, linejoin_keyword, safe_font_name, sanitize_id, text_content_escape,
};
use illustrator_rs::icc::load_icc_profile;
use illustrator_rs::error::Error;
use illustrator_rs::importer::svg::{build_tree, Attributes, find_descendants, parse_linecap, parse_linejoin, SvgElement, XmlEvent};

const PGF: &str = "%!PS\nprolog\n%AI5_BeginLayer\nA\n%AI5_EndLayer--\nmid\n%AI5_BeginLayer\nB\n%AI5_EndLayer--\n  %%Trailer\n%%EOF  \n";

fn el(name: &str, children: Vec<SvgElement>) -> SvgElement {
    SvgElement { name: name.to_string(), attrs: Attributes::new(), children, text: String::new() }
}

#[test]
fn element_ids_are_sanitized() {
    assert_eq!(sanitize_id("Layer 1/a"), "Layer-1-a");
    assert_eq!(sanitize_id(""), "unnamed");
    assert_eq!(sanitize_id("é_x-1"), "é_x-1");
    assert_eq!(sanitize_id(&sanitize_id("a b<c>")), sanitize_id("a b<c>"));
}

#[test]
fn font_names_keep_printable_ascii() {
    assert_eq!(safe_font_name("Arial\u{1}é"), "Arial");
    assert_eq!(safe_font_name("\u{2}"), "Helvetica");
    assert_eq!(safe_font_name(&"x".repeat(200)).len(), 128);
}

#[test]
fn markup_characters_are_escaped() {
    assert_eq!(attr_escape("a&b\"<>"), "a&amp;b&quot;&lt;&gt;");
    assert_eq!(text_content_escape("a&b\"<>"), "a&amp;b\"&lt;&gt;");
}

#[test]
fn layer_sections_are_cut_out_with_their_names() {
    let names = vec!["One".to_string()];
    let e = extract_layer_pgf(PGF, &names);
    assert_eq!(e.len(), 2);
    assert_eq!((e[0].name.as_str(), e[0].pgf.as_str()), ("One", "%AI5_BeginLayer\nA\n%AI5_EndLayer--"));
    assert_eq!((e[1].name.as_str(), e[1].pgf.as_str()), ("", "%AI5_BeginLayer\nB\n%AI5_EndLayer--"));
}

#[test]
fn prolog_trailer_and_size_of_a_pgf_program() {
    assert_eq!(prolog_data(PGF), Some("%!PS\nprolog\n".to_string()));
    assert_eq!(trailer_data(PGF), Some("%%Trailer\n%%EOF".to_string()));
    assert_eq!(prolog_data("none"), None);
    assert_eq!(trailer_data("none"), None);
    assert_eq!(pgf_hash("héllo"), "6");
}

#[test]
fn descendants_are_found_in_document_order() {
    let root = el(
        "svg",
        vec![el("g", vec![el("path", vec![]), el("g", vec![el("path", vec![])])]), el("path", vec![])],
    );
    assert_eq!(find_descendants(&root, "path").len(), 3);
    let gs = find_descendants(&root, "g");
    assert_eq!(gs.len(), 2);
    assert_eq!(gs[0].children.len(), 2);
    assert_eq!(gs[1].children.len(), 1);
    assert!(find_descendants(&root, "svg").is_empty());
}

#[test]
fn line_caps_and_joins() {
    assert_eq!(parse_linecap("round"), 1);
    assert_eq!(parse_linecap("square"), 2);
    assert_eq!(parse_linecap("butt"), 0);
    assert_eq!(parse_linejoin("round"), 1);
    assert_eq!(parse_linejoin("bevel"), 2);
    assert_eq!(parse_linejoin("miter"), 0);
}

#[test]
fn icc_profiles_are_not_loaded() {
    assert!(!load_icc_profile(&[1, 2, 3]));
}

#[test]
fn every_command_runs() {
    let cmds = vec![
        Commands::Extract {
            files: vec![PathBuf::from("a.ai")],
            format: "all".to_string(),
            output_dir: PathBuf::from("./output"),
            per_layer: false,
            no_metadata: false,
        },
        Commands::Inspect { file: PathBuf::from("a.ai") },
        Commands::Rebuild { svg_file: PathBuf::from("a.svg"), original: None, output: None, metadata: None },
        Commands::Check,
    ];
    for command in cmds {
        assert!(Cli { command }.run().is_ok());
    }
}

fn attrs(pairs: &[(&str, &str)]) -> Attributes {
    let mut a = Attributes::new();
    for (k, v) in pairs {
        a.insert(k.to_string(), v.to_string());
    }
    a
}

#[test]
fn tree_is_built_from_reader_events() {
    let events = vec![
        XmlEvent::Text("ignored".to_string()),
        XmlEvent::Start { name: "svg".to_string(), attrs: attrs(&[("width", "10")]) },
        XmlEvent::Start { name: "g".to_string(), attrs: Attributes::new() },
        XmlEvent::Empty { name: "rect".to_string(), attrs: attrs(&[("x", "1")]) },
        XmlEvent::End,
        XmlEvent::Start { name: "text".to_string(), attrs: Attributes::new() },
        XmlEvent::Text("Hi ".to_string()),
        XmlEvent::Text("there".to_string()),
        XmlEvent::End,
        XmlEvent::End,
        XmlEvent::Start { name: "after".to_string(), attrs: Attributes::new() },
    ];
    let root = build_tree(events).unwrap();
    assert_eq!(root.name, "svg");
    assert_eq!(root.attrs.get("width").map(|s| s.as_str()), Some("10"));
    assert_eq!(root.text, "");
    assert_eq!(root.children.len(), 2);
    assert_eq!(root.children[0].name, "g");
    assert_eq!(root.children[0].children.len(), 1);
    assert_eq!(root.children[0].children[0].name, "rect");
    assert_eq!(root.children[0].children[0].attrs.get("x").map(|s| s.as_str()), Some("1"));
    assert_eq!(root.children[1].name, "text");
    assert_eq!(root.children[1].text, "Hi there");
}

#[test]
fn tree_without_root_is_refused() {
    match build_tree(vec![]) {
        Err(Error::Import(m)) => assert_eq!(m, "No root element found"),
        _ => panic!("expected an import error"),
    }
    let events = vec![
        XmlEvent::Empty { name: "lonely".to_string(), attrs: Attributes::new() },
        XmlEvent::Start { name: "svg".to_string(), attrs: Attributes::new() },
        XmlEvent::Eof,
        XmlEvent::End,
    ];
    match build_tree(events) {
        Err(Error::Import(m)) => assert_eq!(m, "No root element found"),
        _ => panic!("expected an import error"),
    }
}

#[test]
fn reader_failure_is_reported() {
    let events = vec![
        XmlEvent::Start { name: "svg".to_string(), attrs: Attributes::new() },
        XmlEvent::Failed("bad tag".to_string()),
    ];
    match build_tree(events) {
        Err(Error::Import(m)) => assert_eq!(m, "XML parse error: bad tag"),
        _ => panic!("expected an import error"),
    }
}

#[test]
fn line_styles_are_written_as_keywords_and_read_back() {
    assert_eq!(
        (0..3).map(linecap_keyword).collect::<Vec<_>>(),
        vec!["butt", "round", "square"]
    );
    assert_eq!(
        (0..3).map(linejoin_keyword).collect::<Vec<_>>(),
        vec!["miter", "round", "bevel"]
    );
    for v in 0..3u8 {
        assert_eq!(parse_linecap(linecap_keyword(v)), v);
        assert_eq!(parse_linejoin(linejoin_keyword(v)), v);
    }
}

fn unescape(t: &str) -> String {
    let mut out = String::new();
    let mut rest = t;
    while let Some(c) = rest.chars().next() {
        let entity = [("&amp;", '&'), ("&quot;", '"'), ("&lt;", '<'), ("&gt;", '>')]
            .iter()
            .find(|(e, _)| rest.starts_with(e));
        match entity {
            Some((e, ch)) => {
                out.push(*ch);
                rest = &rest[e.len()..];
            }
            None => {
                out.push(c);
                rest = &rest[c.len_utf8()..];
            }
        }
    }
    out
}

#[test]
fn escaping_is_undone_by_unescaping() {
    for s in ["", "plain", "a & b", "\"q\" <tag> &amp;", "&lt;&&", "é & ü"] {
        let a = attr_escape(s);
        assert!(!a.contains('"') && !a.contains('<') && !a.contains('>'));
        assert_eq!(unescape(&a), s);
        let t = text_content_escape(s);
        assert!(!t.contains('<') && !t.contains('>'));
        assert_eq!(unescape(&t), s);
    }
    assert_eq!(attr_escape("&lt;\""), "&amp;lt;&quot;");
    assert_eq!(text_content_escape("\"&\""), "\"&amp;\"");
}
