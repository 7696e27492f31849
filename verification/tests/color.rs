use illustrator_rs::importer::color::{hex_key, hex_match, named_color, solid_color, SolidColor};
use illustrator_rs::importer::pattern::first_group;
use illustrator_rs::importer::svg::url_reference;

fn hex_of(s: &str) -> Option<String> {
    match solid_color(s) {
        SolidColor::Hex(h) => Some(h),
        _ => None,
    }
}

fn is_absent(s: &str) -> bool {
    matches!(solid_color(s), SolidColor::Absent)
}

fn other_of(s: &str) -> Option<String> {
    match solid_color(s) {
        SolidColor::Other(t) => Some(t),
        _ => None,
    }
}

#[test]
fn color_names_are_looked_up_in_lower_case() {
    assert_eq!(hex_of("  RED "), Some("#ff0000".to_string()));
    assert_eq!(hex_of("Grey"), Some("#808080".to_string()));
    assert_eq!(hex_of("orange"), Some("#ffa500".to_string()));
    assert_eq!(named_color("grey"), Some("#808080"));
    assert_eq!(named_color("Red"), None);
    assert_eq!(named_color("none"), Some(""));
}

#[test]
fn no_paint_values() {
    assert!(is_absent(""));
    assert!(is_absent("   "));
    assert!(is_absent("none"));
    assert!(is_absent("NONE"));
    assert!(is_absent("#1234"));
    assert!(is_absent("#12345"));
}

#[test]
fn hex_colors_are_normalised() {
    assert_eq!(hex_of("#ABC"), Some("#aabbcc".to_string()));
    assert_eq!(hex_of(" #A1b2C3 "), Some("#a1b2c3".to_string()));
    assert_eq!(hex_of("#11223344"), Some("#112233".to_string()));
    assert_eq!(hex_of("#0f0f0f0"), Some("#0f0f0f".to_string()));
}

#[test]
fn other_paint_is_handed_back_trimmed() {
    assert_eq!(other_of(" rgb(1, 2, 3) "), Some("rgb(1, 2, 3)".to_string()));
    assert_eq!(other_of("#12"), Some("#12".to_string()));
    assert_eq!(other_of("#ggg"), Some("#ggg".to_string()));
    assert_eq!(other_of("#abc def"), Some("#abc def".to_string()));
}

#[test]
fn hex_digit_keys() {
    assert_eq!(hex_key(&['a', 'B', 'c']), Some("#aabbcc".to_string()));
    assert_eq!(hex_key(&['x', 'y', 'z']), None);
    assert_eq!(hex_key(&['1', '2', '3', '4', '5']), None);
    assert_eq!(hex_key(&['1', '2', '3', '4', '5', 'F', '0']), Some("#12345f".to_string()));
}

#[test]
fn url_references_name_an_id() {
    assert_eq!(url_reference("url(#grad1)"), Some(Some("grad1".to_string())));
    assert_eq!(url_reference(" url(#a) url(#b)"), Some(Some("a".to_string())));
    assert_eq!(url_reference("url(#)"), None);
    assert_eq!(url_reference("none"), None);
}

#[test]
fn first_group_of_captures() {
    assert_eq!(first_group(None), None);
    assert_eq!(first_group(Some(vec![])), None);
    assert_eq!(first_group(Some(vec![vec![Some("x".to_string())]])), Some(None));
    assert_eq!(
        first_group(Some(vec![
            vec![Some("#ab".to_string()), Some("ab".to_string())],
            vec![Some("#cd".to_string()), Some("cd".to_string())],
        ])),
        Some(Some("ab".to_string()))
    );
    assert_eq!(
        hex_match(Some(vec![vec![Some("#fFf".to_string()), Some("fFf".to_string())]])),
        Some(Some("#ffffff".to_string()))
    );
    assert_eq!(hex_match(Some(vec![vec![Some("#1234".to_string()), Some("1234".to_string())]])), Some(None));
}
