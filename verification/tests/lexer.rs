use illustrator_rs::parser::lexer::{tokenize, Lexer, TokenType, MAX_TOKEN_COUNT};

#[test]
fn test_basic_tokenize() {
    let source = "0 0 m 100 0 l 100 100 l 0 100 l H f";
    let tokens = tokenize(source).unwrap();
    assert!(tokens.len() >= 14);
    assert_eq!(tokens[0].token_type, TokenType::Number);
}

#[test]
fn tokens_carry_kind_text_line_and_column() {
    let tokens = tokenize("1.5 -2 m\n/Name (str) %comment\n%AI5_Begin\n[ ] { } << >>").unwrap();
    let kinds: Vec<TokenType> = tokens.iter().map(|t| t.token_type.clone()).collect();
    assert_eq!(
        kinds,
        vec![
            TokenType::Number,
            TokenType::Number,
            TokenType::Operator,
            TokenType::Name,
            TokenType::String,
            TokenType::Comment,
            TokenType::PseudoComment,
            TokenType::ArrayStart,
            TokenType::ArrayEnd,
            TokenType::Operator,
            TokenType::Operator,
            TokenType::Operator,
            TokenType::Operator,
            TokenType::Eof,
        ]
    );
    assert_eq!(tokens[0].value, "1.5");
    assert_eq!(tokens[1].value, "-2");
    assert_eq!(tokens[3].value, "Name");
    assert_eq!((tokens[3].line, tokens[3].col), (2, 1));
    assert_eq!(tokens[4].value, "str");
    assert_eq!(tokens[5].value, "%comment");
    assert_eq!((tokens[6].line, tokens[6].col), (3, 1));
    assert_eq!(tokens[11].value, "<<");
    assert_eq!(tokens[12].value, ">>");
    assert_eq!(tokens[13].value, "");
}

#[test]
fn string_escapes_and_nesting() {
    let tokens = tokenize(r"(a\(b\)c (nested) \n\101\7)").unwrap();
    assert_eq!(tokens[0].token_type, TokenType::String);
    assert_eq!(tokens[0].value, "a(b)c (nested) \nA\u{7}");
    assert_eq!(tokens.len(), 2);
}

#[test]
fn hex_strings_decode_pairs() {
    let tokens = tokenize("<48 65 6c6C6f> <abc>").unwrap();
    assert_eq!(tokens[0].value, "Hello");
    assert_eq!(tokens[1].value, "abc");
}

#[test]
fn numbers_signs_and_dots() {
    let tokens = tokenize("+.5 - .x 1.2.3").unwrap();
    let values: Vec<&str> = tokens.iter().map(|t| t.value.as_str()).collect();
    assert_eq!(values, vec!["+.5", "-", ".x", "1.2", ".3", ""]);
    assert_eq!(tokens[1].token_type, TokenType::Operator);
    assert_eq!(tokens[3].token_type, TokenType::Number);
}

#[test]
fn star_operators_and_lone_angle_brackets() {
    let tokens = tokenize("*u *U * > <").unwrap();
    let values: Vec<&str> = tokens.iter().map(|t| t.value.as_str()).collect();
    assert_eq!(values, vec!["*u", "*U", "*", ""]);
}

#[test]
fn written_string_reads_back() {
    let name = "Layer (1) \\ tab\there\u{1}";
    let written = format!("({})", illustrator_rs::writer::pgf::ps_escape(name));
    let tokens = tokenize(&written).unwrap();
    assert_eq!(tokens.len(), 2);
    assert_eq!(tokens[0].token_type, TokenType::String);
    assert_eq!(tokens[0].value, name);
}

#[test]
fn lexer_struct_tokenizes_to_end() {
    let mut lexer = Lexer::new("a b");
    let first = lexer.tokenize().unwrap();
    assert_eq!(first.len(), 3);
    let again = lexer.tokenize().unwrap();
    assert_eq!(again.len(), 1);
    assert_eq!(again[0].token_type, TokenType::Eof);
    assert_eq!(MAX_TOKEN_COUNT, 10_000_000);
}

#[test]
fn only_the_last_token_ends_the_input() {
    for src in ["", "   ", "1 2 m\n%%EOF\n(a) /b [c] <414243> << >> { }", "%AI5_BeginLayer\n0 g\n"] {
        let toks = tokenize(src).unwrap();
        assert_eq!(toks.last().unwrap().token_type, TokenType::Eof);
        assert!(toks[..toks.len() - 1].iter().all(|t| t.token_type != TokenType::Eof));
    }
}
