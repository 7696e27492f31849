use illustrator_rs::model::geometry::{split_args, transform_calls, SegmentType};

fn calls(s: &str) -> Vec<(String, Vec<String>)> {
    transform_calls(s).into_iter().map(|c| (c.name, c.args)).collect()
}

#[test]
fn segment_kinds_letters_and_points() {
    assert_eq!(SegmentType::Moveto.svg_letter(), 'M');
    assert_eq!(SegmentType::Lineto.svg_letter(), 'L');
    assert_eq!(SegmentType::Curveto.svg_letter(), 'C');
    assert_eq!(SegmentType::Closepath.svg_letter(), 'Z');
    assert_eq!(SegmentType::Curveto.points_needed(), 3);
    assert_eq!(SegmentType::Closepath.points_needed(), 0);
    assert_eq!(SegmentType::Moveto.pgf_operator(true), Some('m'));
    assert_eq!(SegmentType::Lineto.pgf_operator(false), Some('L'));
    assert_eq!(SegmentType::Curveto.pgf_operator(true), Some('c'));
    assert_eq!(SegmentType::Closepath.pgf_operator(true), None);
}

#[test]
fn transform_list_splits_into_calls() {
    assert_eq!(
        calls("translate(10, 20) scale(2)  rotate(45 5,5)"),
        vec![
            ("translate".to_string(), vec!["10".to_string(), "20".to_string()]),
            ("scale".to_string(), vec!["2".to_string()]),
            ("rotate".to_string(), vec!["45".to_string(), "5".to_string(), "5".to_string()]),
        ]
    );
    assert_eq!(
        calls("matrix(1,0,0,1,0,0"),
        vec![("matrix".to_string(), ["1", "0", "0", "1", "0", "0"].iter().map(|s| s.to_string()).collect())]
    );
}

#[test]
fn transform_list_stops_without_a_name_or_parenthesis() {
    assert_eq!(calls(""), Vec::new());
    assert_eq!(calls("(1 2)"), Vec::new());
    assert_eq!(calls("scale 2"), Vec::new());
    assert_eq!(calls("scale(2) 3 translate(1)"), vec![("scale".to_string(), vec!["2".to_string()])]);
}

#[test]
fn arguments_split_on_commas_and_spaces() {
    let chars: Vec<char> = " 1,, 2\t3 ,".chars().collect();
    assert_eq!(split_args(&chars), vec!["1".to_string(), "2".to_string(), "3".to_string()]);
}
