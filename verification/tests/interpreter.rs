use illustrator_rs::parser::ai_parser::{
    classify_comment, classify_pseudo_comment, custom_colors, note_unknown, render_flags, unknown_summary,
    CommentAction, PseudoAction,
};
use illustrator_rs::parser::lexer::{tokenize, Token, TokenType};
use illustrator_rs::parser::operand::{copy_value, OperandStack, Step, Value, MAX_ARRAY_DEPTH, MAX_STACK_DEPTH};
use illustrator_rs::parser::operators::get_operator;
use illustrator_rs::writer::pgf::render_op;

fn tok(t: TokenType, v: &str) -> Token {
    Token { token_type: t, value: v.to_string(), line: 1, col: 1 }
}

fn number(v: &Value) -> &str {
    match v {
        Value::Number(s) => s.as_str(),
        _ => panic!("expected a number"),
    }
}

#[test]
fn operator_table_lookup() {
    let m = get_operator("m").unwrap();
    assert_eq!(m.name, "moveto");
    assert_eq!(m.arg_count, Some(2));
    assert_eq!(m.handler, "handle_moveto");
    let c = get_operator("c").unwrap();
    assert_eq!(c.arg_count, Some(6));
    assert_eq!(get_operator("Lb").unwrap().handler, "handle_begin_layer");
    assert!(get_operator("no_such_operator").is_none());
}

#[test]
fn painting_operators_and_their_flags() {
    let b = render_flags("b");
    assert!(b.closed && b.fill && b.stroke && !b.noop);
    let cap_f = render_flags("F");
    assert!(!cap_f.closed && cap_f.fill && !cap_f.stroke && !cap_f.noop);
    let n = render_flags("n");
    assert!(n.closed && !n.fill && !n.stroke && n.noop);
    let x = render_flags("x");
    assert!(!x.closed && !x.fill && !x.stroke && !x.noop);
}

#[test]
fn written_painting_operator_reads_back() {
    for fill in [false, true] {
        for stroke in [false, true] {
            for closed in [false, true] {
                let op = render_op(fill, stroke, closed);
                let f = render_flags(&op);
                assert_eq!((f.closed, f.fill, f.stroke, f.noop), (closed, fill, stroke, !fill && !stroke));
            }
        }
    }
}

#[test]
fn structuring_comments() {
    assert!(matches!(classify_comment("%%BeginProlog"), CommentAction::BeginSetup));
    assert!(matches!(classify_comment("%%BeginSetup x"), CommentAction::BeginSetup));
    assert!(matches!(classify_comment("%%EndSetup"), CommentAction::EndSetup));
    assert!(matches!(classify_comment("%%BoundingBox: 0 0 612 792"), CommentAction::BoundingBox));
    match classify_comment("%%Title: (My Art) ") {
        CommentAction::Title(t) => assert_eq!(t, "My Art"),
        _ => panic!("expected a title"),
    }
    match classify_comment("%%Creator: Adobe Illustrator(R) 24.0") {
        CommentAction::Creator(t) => assert_eq!(t, "Adobe Illustrator(R) 24.0"),
        _ => panic!("expected a creator"),
    }
    match classify_comment("%AI5_FileFormat 14.0") {
        CommentAction::Version(v) => assert_eq!(v, "AI 14.0"),
        _ => panic!("expected a version"),
    }
    assert!(matches!(classify_comment("%AI5_FileFormat"), CommentAction::Ignored));
    assert!(matches!(classify_comment("%%CMYKCustomColor: 0 0 0 1 (K)"), CommentAction::CustomColor));
    assert!(matches!(classify_comment("%%+ 1 0 0 0 (C)"), CommentAction::CustomColor));
    match classify_comment("%%DocumentProcessColors: Cyan Magenta") {
        CommentAction::ColorMode(m) => assert_eq!(m, "CMYK"),
        _ => panic!("expected a colour mode"),
    }
    match classify_comment("%%DocumentProcessColors: Red Green Blue") {
        CommentAction::ColorMode(m) => assert_eq!(m, "RGB"),
        _ => panic!("expected a colour mode"),
    }
    assert!(matches!(classify_comment("%%DocumentCustomColors: (X)"), CommentAction::Ignored));
    assert!(matches!(classify_comment("%%Other"), CommentAction::Ignored));
}

#[test]
fn pseudo_comments() {
    assert!(matches!(classify_pseudo_comment("%AI5_BeginLayer"), PseudoAction::BeginLayer));
    match classify_pseudo_comment("%AI5_FileFormat 3.0") {
        PseudoAction::Version(v) => assert_eq!(v, "AI 3.0"),
        _ => panic!("expected a version"),
    }
    match classify_pseudo_comment("%AI8_CreatorVersion: 24.1.2") {
        PseudoAction::CreatorVersion(v) => assert_eq!(v, "24.1.2"),
        _ => panic!("expected a creator version"),
    }
    match classify_pseudo_comment("%AI9_ColorModel: 2") {
        PseudoAction::ColorMode(m) => assert_eq!(m, "CMYK"),
        _ => panic!("expected a colour mode"),
    }
    match classify_pseudo_comment("%AI9_ColorModel: 1") {
        PseudoAction::ColorMode(m) => assert_eq!(m, "RGB"),
        _ => panic!("expected a colour mode"),
    }
    assert!(matches!(classify_pseudo_comment("%AI9_ColorModel: 7"), PseudoAction::Handled));
    assert!(matches!(classify_pseudo_comment("%AI5_NumLayers: 3"), PseudoAction::Handled));
    match classify_pseudo_comment("%_Bs 50 0 0.1 0.2 0.3 0.4") {
        PseudoAction::GradientStop { offset, c, m, y, k } => {
            assert_eq!((offset.as_str(), c.as_str(), m.as_str(), y.as_str(), k.as_str()), ("50", "0.1", "0.2", "0.3", "0.4"));
        }
        _ => panic!("expected a gradient stop"),
    }
    match classify_pseudo_comment("%_Bd (Sky) 0 2") {
        PseudoAction::GradientName(n) => assert_eq!(n, "Sky"),
        _ => panic!("expected a gradient name"),
    }
    assert!(matches!(classify_pseudo_comment("%_BD"), PseudoAction::GradientEnd));
    assert!(matches!(classify_pseudo_comment("%_"), PseudoAction::Handled));
    assert!(matches!(classify_pseudo_comment("%_XY 1"), PseudoAction::Ignored));
    assert!(matches!(classify_pseudo_comment("%AI3_Other"), PseudoAction::Ignored));
}

#[test]
fn unknown_operators_are_listed_once_and_sorted() {
    let mut list: Vec<String> = Vec::new();
    note_unknown(&mut list, "zz");
    note_unknown(&mut list, "ab");
    note_unknown(&mut list, "zz");
    assert_eq!(list, vec!["zz".to_string(), "ab".to_string()]);
    assert_eq!(unknown_summary(&list), Some("ab, zz".to_string()));
    assert_eq!(unknown_summary(&Vec::new()), None);
    let dup = vec!["b".to_string(), "a".to_string(), "b".to_string(), "B".to_string()];
    assert_eq!(unknown_summary(&dup), Some("B, a, b".to_string()));
}

#[test]
fn operands_go_onto_the_stack_and_operators_come_out() {
    let mut st = OperandStack::new();
    let tokens = tokenize("1 2.5 (s) /N m %c\n").unwrap();
    let mut steps = Vec::new();
    for t in &tokens {
        steps.push(st.feed(t));
    }
    assert!(matches!(&steps[4], Step::Operator(o) if o.as_str() == "m"));
    assert!(matches!(&steps[5], Step::Comment(c) if c.as_str() == "%c"));
    assert!(matches!(&steps[6], Step::Stop));
    assert_eq!(st.depth(), 4);
    assert!(matches!(st.pop(), Value::Name(n) if n.as_str() == "N"));
    assert!(matches!(st.pop(), Value::String(s) if s.as_str() == "s"));
    assert_eq!(number(&st.pop()), "2.5");
    assert_eq!(number(&st.pop()), "1");
    assert!(matches!(st.pop(), Value::Null));
}

#[test]
fn arrays_nest_and_close_onto_the_stack() {
    let mut st = OperandStack::new();
    for t in [
        tok(TokenType::ArrayStart, "["),
        tok(TokenType::Number, "1"),
        tok(TokenType::ArrayStart, "["),
        tok(TokenType::Number, "2"),
        tok(TokenType::ArrayEnd, "]"),
        tok(TokenType::ArrayEnd, "]"),
    ] {
        assert!(matches!(st.feed(&t), Step::Continue));
    }
    assert!(!st.in_array());
    match st.pop() {
        Value::Array(items) => {
            assert_eq!(items.len(), 2);
            assert_eq!(number(&items[0]), "1");
            match &items[1] {
                Value::Array(inner) => assert_eq!(number(&inner[0]), "2"),
                _ => panic!("expected an inner array"),
            }
        }
        _ => panic!("expected an array"),
    }
}

#[test]
fn an_operator_closes_open_arrays_innermost_first() {
    let mut st = OperandStack::new();
    for t in [
        tok(TokenType::ArrayStart, "["),
        tok(TokenType::Number, "1"),
        tok(TokenType::ArrayStart, "["),
        tok(TokenType::Number, "2"),
    ] {
        st.feed(&t);
    }
    assert!(st.in_array());
    assert!(matches!(st.feed(&tok(TokenType::Operator, "d")), Step::Operator(_)));
    assert!(!st.in_array());
    let v = st.pop_n(2);
    match (&v[0], &v[1]) {
        (Value::Array(a), Value::Array(b)) => {
            assert_eq!(number(&a[0]), "2");
            assert_eq!(number(&b[0]), "1");
        }
        _ => panic!("expected two arrays"),
    }
}

#[test]
fn pop_n_fills_missing_values_with_null_first() {
    let mut st = OperandStack::new();
    st.push(Value::Number("7".to_string()));
    st.push(Value::Boolean(true));
    let v = st.pop_n(3);
    assert!(matches!(v[0], Value::Null));
    assert_eq!(number(&v[1]), "7");
    assert!(matches!(v[2], Value::Boolean(true)));
    assert_eq!(st.depth(), 0);
}

#[test]
fn dup_and_exch() {
    let mut st = OperandStack::new();
    st.dup();
    assert_eq!(st.depth(), 0);
    st.push(Value::Number("1".to_string()));
    st.push(Value::Name("x".to_string()));
    st.exch();
    assert_eq!(number(&st.pop()), "1");
    st.dup();
    assert_eq!(st.depth(), 2);
    assert!(matches!(st.pop(), Value::Name(n) if n.as_str() == "x"));
    assert!(matches!(st.pop(), Value::Name(n) if n.as_str() == "x"));
}

#[test]
fn stack_and_array_depth_limits() {
    let mut st = OperandStack::new();
    for _ in 0..(MAX_STACK_DEPTH + 5) {
        st.push(Value::Null);
    }
    assert_eq!(st.depth(), MAX_STACK_DEPTH);
    let mut st2 = OperandStack::new();
    for _ in 0..(MAX_ARRAY_DEPTH + 3) {
        st2.feed(&tok(TokenType::ArrayStart, "["));
    }
    st2.feed(&tok(TokenType::Operator, "pop"));
    assert_eq!(st2.depth(), MAX_ARRAY_DEPTH);
}

#[test]
fn copied_values_keep_their_contents() {
    let v = Value::Array(vec![Value::String("a".to_string()), Value::Array(vec![Value::Boolean(false)])]);
    match copy_value(&v) {
        Value::Array(items) => {
            assert!(matches!(&items[0], Value::String(s) if s.as_str() == "a"));
            assert!(matches!(&items[1], Value::Array(inner) if matches!(inner[0], Value::Boolean(false))));
        }
        _ => panic!("expected an array"),
    }
}

#[test]
fn take_all_empties_the_stack_bottom_first() {
    let mut st = OperandStack::new();
    st.feed(&tok(TokenType::Number, "1"));
    st.feed(&tok(TokenType::Name, "a"));
    st.feed(&tok(TokenType::ArrayStart, "["));
    st.feed(&tok(TokenType::Number, "3"));
    let all = st.take_all();
    assert_eq!(all.len(), 2);
    assert_eq!(number(&all[0]), "1");
    assert!(matches!(&all[1], Value::Name(n) if n.as_str() == "a"));
    assert_eq!(st.depth(), 0);
    assert!(st.in_array());
    assert!(st.take_all().is_empty());
}

fn entries(text: &str) -> Vec<(String, String, String, String, String)> {
    custom_colors(text)
        .into_iter()
        .map(|c| (c.cyan, c.magenta, c.yellow, c.black, c.name))
        .collect()
}

fn entry(c: &str, m: &str, y: &str, k: &str, n: &str) -> (String, String, String, String, String) {
    (c.to_string(), m.to_string(), y.to_string(), k.to_string(), n.to_string())
}

#[test]
fn custom_color_comments_list_named_colors() {
    assert_eq!(
        entries("%%CMYKCustomColor: 0 0.5 1 0 (PANTONE 123 C)"),
        vec![entry("0", "0.5", "1", "0", "PANTONE 123 C")]
    );
    assert_eq!(
        entries("%%+ 0.1 0.2 0.3 0.4 (A) 1 1 1 1 (B)  "),
        vec![entry("0.1", "0.2", "0.3", "0.4", "A"), entry("1", "1", "1", "1", "B")]
    );
}

#[test]
fn custom_color_fields_are_cut_at_single_spaces() {
    assert_eq!(entries("%%CMYKCustomColor: 0  1 0 0 (X)"), vec![entry("0", "", "1", "0", "X")]);
}

#[test]
fn custom_color_lists_end_without_a_name() {
    assert!(entries("%%CMYKCustomColor: 0 0 0 1").is_empty());
    assert!(entries("%%+ 1 0 0 0 (abc").is_empty());
    assert_eq!(entries("%%+ 1 0 0 0 (a) 2 2"), vec![entry("1", "0", "0", "0", "a")]);
    assert!(entries("%%Title: (x)").is_empty());
}
