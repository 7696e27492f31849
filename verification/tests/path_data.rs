use illustrator_rs::error::Error;
use illustrator_rs::importer::path::{
    path_plan, plan_tokens, segment_limit_message, tokenize_path_data, PathStep, PathToken, PlanEnd,
    MAX_PATH_D_LENGTH,
};

fn steps(d: &str) -> Vec<(char, Vec<String>, char)> {
    let plan = path_plan(d).unwrap();
    assert_eq!(plan.end, PlanEnd::Done);
    plan.steps
        .into_iter()
        .map(|s: PathStep<Vec<String>>| (s.cmd, s.args, s.prev))
        .collect()
}

fn strs(v: &[&str]) -> Vec<String> {
    v.iter().map(|s| s.to_string()).collect()
}

#[test]
fn path_data_splits_into_letters_and_numbers() {
    let t = tokenize_path_data("M10,20 l-3.5e2.5-.5Z");
    let shown: Vec<String> = t
        .iter()
        .map(|x| match x {
            PathToken::Command(c) => c.to_string(),
            PathToken::Number(n) => format!("#{}", n),
        })
        .collect();
    assert_eq!(shown, vec!["M", "#10", "#20", "l", "#-3.5e2", "#.5", "#-.5", "Z"]);
}

#[test]
fn each_command_takes_its_numbers() {
    assert_eq!(
        steps("M 10 20 L 30 40 H 5 V 6 C 1 2 3 4 5 6 Z"),
        vec![
            ('M', strs(&["10", "20"]), '\0'),
            ('L', strs(&["30", "40"]), 'M'),
            ('H', strs(&["5"]), 'L'),
            ('V', strs(&["6"]), 'H'),
            ('C', strs(&["1", "2", "3", "4", "5", "6"]), 'V'),
            ('Z', strs(&[]), 'C'),
        ]
    );
}

#[test]
fn pairs_after_a_moveto_are_lines() {
    assert_eq!(
        steps("m 1 2 3 4 5 6"),
        vec![('m', strs(&["1", "2"]), '\0'), ('l', strs(&["3", "4"]), 'm'), ('l', strs(&["5", "6"]), 'm')]
    );
    assert_eq!(
        steps("M 1 2 3 4 L 5 6"),
        vec![('M', strs(&["1", "2"]), '\0'), ('L', strs(&["3", "4"]), 'M'), ('L', strs(&["5", "6"]), 'M')]
    );
}

#[test]
fn extra_numbers_repeat_the_command() {
    assert_eq!(
        steps("M0 0 L 1 1 2 2 q 1 2 3 4 5 6 7 8"),
        vec![
            ('M', strs(&["0", "0"]), '\0'),
            ('L', strs(&["1", "1"]), 'M'),
            ('L', strs(&["2", "2"]), 'L'),
            ('q', strs(&["1", "2", "3", "4"]), 'L'),
            ('q', strs(&["5", "6", "7", "8"]), 'q'),
        ]
    );
}

#[test]
fn a_command_short_of_numbers_is_dropped() {
    assert_eq!(
        steps("M0 0 L 1 Z"),
        vec![('M', strs(&["0", "0"]), '\0'), ('Z', strs(&[]), 'M')]
    );
    assert_eq!(steps("A 1 2 3 0 1"), Vec::new());
}

#[test]
fn numbers_after_a_close_never_end() {
    let plan = path_plan("M0 0 Z 5").unwrap();
    assert_eq!(plan.end, PlanEnd::EndlessClose);
    assert_eq!(plan.steps.len(), 2);
    assert_eq!(segment_limit_message(), "SVG path segment count exceeds limit (1000000)");
}

#[test]
fn unreadable_path_data_is_refused() {
    assert!(matches!(path_plan("10 20"), Err(Error::SvgPath(_))));
    assert!(matches!(path_plan("M 10 L 1 2"), Err(Error::SvgPath(_))));
    let toks = tokenize_path_data("M 5");
    assert!(plan_tokens(&toks).is_none());
}

#[test]
fn empty_path_data_has_no_steps() {
    assert_eq!(steps(""), Vec::new());
    assert_eq!(steps("  "), Vec::new());
}

#[test]
fn overlong_path_data_is_refused_with_its_size() {
    let d = "M".repeat(MAX_PATH_D_LENGTH + 1);
    match path_plan(&d) {
        Err(Error::SvgPath(m)) => assert_eq!(
            m,
            "SVG path `d` attribute too large: 10485761 bytes (limit 10485760)"
        ),
        _ => panic!("expected an SVG path error"),
    }
}

#[test]
fn every_step_carries_the_numbers_of_its_command() {
    let arity = |c: char| match c {
        'M' | 'm' | 'L' | 'l' | 'T' | 't' => 2,
        'H' | 'h' | 'V' | 'v' => 1,
        'C' | 'c' => 6,
        'S' | 's' | 'Q' | 'q' => 4,
        'A' | 'a' => 7,
        'Z' | 'z' => 0,
        _ => panic!("unknown command {c}"),
    };
    for d in [
        "M1 2 3 4 5 L6 7 8 z m1 1 h5 v3 C1 2 3 4 5 6 7 8 s1 2 3 4 Q1 2 3 4 5 t1 2 A1 1 0 0 1 9 9 X 1 2 Z",
        "m0 0 1 1 2 2 3 L1 Z c1 2 3",
    ] {
        for (cmd, args, _) in steps(d) {
            assert_eq!(args.len(), arity(cmd), "{d}: {cmd}");
        }
    }
}
