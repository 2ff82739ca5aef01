use portty::portal::screenshot::{
    add_entries, channels_string, classify_color, fraction_words, validate, ColorSyntax,
};
use portty::portal::AddResult;

/// Reads a color the way the portal wants it: three fractions.
fn parse_color(s: &str) -> Option<(f64, f64, f64)> {
    match classify_color(s) {
        ColorSyntax::Channels(r, g, b) => {
            Some((r as f64 / 255.0, g as f64 / 255.0, b as f64 / 255.0))
        }
        ColorSyntax::Fractions => {
            let (a, b, c) = fraction_words(s)?;
            let r: f64 = a.parse().ok()?;
            let g: f64 = b.parse().ok()?;
            let b: f64 = c.parse().ok()?;
            if (0.0..=1.0).contains(&r) && (0.0..=1.0).contains(&g) && (0.0..=1.0).contains(&b) {
                Some((r, g, b))
            } else {
                None
            }
        }
        ColorSyntax::Invalid => None,
    }
}

#[test]
fn screenshot_parse_hex_color() {
    let (r, g, b) = parse_color("#ff8000").unwrap();
    assert!((r - 1.0).abs() < 0.01);
    assert!((g - 0.502).abs() < 0.01);
    assert!((b - 0.0).abs() < 0.01);
}

#[test]
fn screenshot_parse_hex_color_uppercase() {
    let (r, g, b) = parse_color("#FF0000").unwrap();
    assert!((r - 1.0).abs() < 0.01);
    assert!((g - 0.0).abs() < 0.01);
    assert!((b - 0.0).abs() < 0.01);
}

#[test]
fn screenshot_parse_hex_black() {
    let (r, g, b) = parse_color("#000000").unwrap();
    assert!((r - 0.0).abs() < 0.01);
    assert!((g - 0.0).abs() < 0.01);
    assert!((b - 0.0).abs() < 0.01);
}

#[test]
fn screenshot_parse_hex_white() {
    let (r, g, b) = parse_color("#ffffff").unwrap();
    assert!((r - 1.0).abs() < 0.01);
    assert!((g - 1.0).abs() < 0.01);
    assert!((b - 1.0).abs() < 0.01);
}

#[test]
fn screenshot_parse_rgb_format() {
    let (r, g, b) = parse_color("rgb(255, 128, 0)").unwrap();
    assert!((r - 1.0).abs() < 0.01);
    assert!((g - 0.502).abs() < 0.01);
    assert!((b - 0.0).abs() < 0.01);
}

#[test]
fn screenshot_parse_space_separated_floats() {
    let (r, g, b) = parse_color("0.5 0.3 0.8").unwrap();
    assert!((r - 0.5).abs() < 0.01);
    assert!((g - 0.3).abs() < 0.01);
    assert!((b - 0.8).abs() < 0.01);
}

#[test]
fn screenshot_parse_with_whitespace() {
    let (r, g, b) = parse_color("  #ff0000  ").unwrap();
    assert!((r - 1.0).abs() < 0.01);
    assert!((g - 0.0).abs() < 0.01);
    assert!((b - 0.0).abs() < 0.01);
}

#[test]
fn screenshot_parse_invalid() {
    assert!(parse_color("not a color").is_none());
    assert!(parse_color("#gg0000").is_none());
    assert!(parse_color("#fff").is_none());
    assert!(parse_color("").is_none());
}

#[test]
fn white_in_three_spellings() {
    for text in ["#FFFFFF", "rgb(255,255,255)", "1 1 1"] {
        let (r, g, b) = parse_color(text).unwrap();
        assert!((r - 1.0).abs() < 1e-6, "{text}");
        assert!((g - 1.0).abs() < 1e-6, "{text}");
        assert!((b - 1.0).abs() < 1e-6, "{text}");
    }
    assert!(parse_color("1.01 0 0").is_none());
}

#[test]
fn color_syntax_exact() {
    assert_eq!(classify_color("#FF8000"), ColorSyntax::Channels(255, 128, 0));
    assert_eq!(classify_color("#0a0B0c"), ColorSyntax::Channels(10, 11, 12));
    assert_eq!(
        classify_color("rgb( 1 ,+2,  3 )"),
        ColorSyntax::Channels(1, 2, 3)
    );
    assert_eq!(classify_color("rgb(256,0,0)"), ColorSyntax::Invalid);
    assert_eq!(classify_color("rgb(1,2)"), ColorSyntax::Invalid);
    assert_eq!(classify_color("rgb(1,2,3"), ColorSyntax::Invalid);
    assert_eq!(classify_color("rgb(-1,2,3)"), ColorSyntax::Invalid);
    assert_eq!(classify_color("#+f+f+f"), ColorSyntax::Invalid);
    assert_eq!(classify_color("#12345"), ColorSyntax::Invalid);
    assert_eq!(classify_color("#1234567"), ColorSyntax::Invalid);
    assert_eq!(classify_color("0.1\t0.2\n0.3"), ColorSyntax::Fractions);
    assert_eq!(classify_color("a b"), ColorSyntax::Invalid);
    assert_eq!(classify_color("a b c d"), ColorSyntax::Invalid);
    assert_eq!(
        fraction_words(" 0.25  0.5 1 "),
        Some(("0.25".into(), "0.5".into(), "1".into()))
    );
    assert_eq!(fraction_words("#ffffff"), None);
    assert_eq!(channels_string(255, 128, 0), "#ff8000");
    assert_eq!(channels_string(0, 9, 171), "#0009ab");
}

#[test]
fn pick_color_is_canonical() {
    let got = validate("pick-color", &["#FF8000".to_string()], false).unwrap();
    assert_eq!(got, vec!["#ff8000"]);
    let (r, g, b) = parse_color(&got[0]).unwrap();
    assert!((r - 1.0).abs() < 0.01);
    assert!((g - 0.502).abs() < 0.01);
    assert!((b - 0.0).abs() < 0.01);
    assert_eq!(
        validate("pick-color", &["file://rgb(255, 128, 0)".to_string()], false).unwrap(),
        vec!["#ff8000"]
    );
    assert_eq!(
        validate("pick-color", &[" 0.5   0.3 0.8".to_string()], true).unwrap(),
        vec!["0.5 0.3 0.8"]
    );
}

#[test]
fn screenshot_validation_errors() {
    assert_eq!(
        validate("screenshot", &[], false).unwrap_err(),
        "No entries in submission"
    );
    assert_eq!(
        validate("pick-color", &["a".into(), "b".into()], false).unwrap_err(),
        "Screenshot expects 1 entry, got 2"
    );
    assert_eq!(
        validate("pick-color", &["file://nope".to_string()], true).unwrap_err(),
        "invalid color format: 'nope' (expected #rrggbb, 'R G B' floats, or rgb(r,g,b))"
    );
    assert_eq!(
        validate("pick-color", &["2 0 0".to_string()], false).unwrap_err(),
        "invalid color format: '2 0 0' (expected #rrggbb, 'R G B' floats, or rgb(r,g,b))"
    );
    assert_eq!(
        validate("screenshot", &["file:///tmp/shot.png".to_string()], false).unwrap(),
        vec!["file:///tmp/shot.png"]
    );
}

#[test]
fn screenshot_entries_replace() {
    let (what, text) = add_entries(&["#fff000".to_string()]);
    assert_eq!(what, AddResult::Replaced);
    assert_eq!(text, "#fff000\n");
}
