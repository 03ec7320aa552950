use thawing::color::Color;

#[test]
fn parse_six_digit_form() {
    let c = Color::parse("#ff0080").unwrap();
    assert_eq!(c, Color { r: 255, g: 0, b: 128, a: 255 });
    assert_eq!(Color::parse("ff0080").unwrap(), c);
}

#[test]
fn parse_eight_digit_form() {
    let c = Color::parse("#11223344").unwrap();
    assert_eq!(c, Color { r: 0x11, g: 0x22, b: 0x33, a: 0x44 });
}

#[test]
fn parse_short_forms_double_each_digit() {
    assert_eq!(
        Color::parse("#abc").unwrap(),
        Color { r: 0xaa, g: 0xbb, b: 0xcc, a: 255 }
    );
    assert_eq!(
        Color::parse("#abcd").unwrap(),
        Color { r: 0xaa, g: 0xbb, b: 0xcc, a: 0xdd }
    );
}

#[test]
fn parse_accepts_both_cases() {
    assert_eq!(Color::parse("#FF00aB").unwrap(), Color { r: 255, g: 0, b: 0xab, a: 255 });
}

#[test]
fn parse_rejects_bad_input() {
    assert_eq!(Color::parse(""), None);
    assert_eq!(Color::parse("#"), None);
    assert_eq!(Color::parse("#12345"), None);
    assert_eq!(Color::parse("#1234567"), None);
    assert_eq!(Color::parse("#gg0000"), None);
    assert_eq!(Color::parse("zzz"), None);
}

#[test]
fn into_rgba8_lists_the_components() {
    let c = Color::from_rgba8(1, 2, 3, 4);
    assert_eq!(c.into_rgba8(), [1, 2, 3, 4]);
}

#[test]
fn from_rgb8_is_opaque() {
    assert_eq!(Color::from_rgb8(10, 20, 30), Color { r: 10, g: 20, b: 30, a: 255 });
}

#[test]
fn inverse_inverts_all_three_channels() {
    let c = Color { r: 10, g: 20, b: 30, a: 77 };
    assert_eq!(c.inverse(), Color { r: 245, g: 235, b: 225, a: 77 });
}

#[test]
fn invert_in_place_inverts_all_three_channels() {
    let mut c = Color { r: 10, g: 20, b: 30, a: 77 };
    c.invert();
    assert_eq!(c, Color { r: 245, g: 235, b: 225, a: 77 });
}

#[test]
fn invert_agrees_with_inverse() {
    for source in [
        Color { r: 0, g: 0, b: 0, a: 0 },
        Color { r: 255, g: 255, b: 255, a: 255 },
        Color { r: 1, g: 128, b: 254, a: 9 },
    ] {
        let mut c = source;
        c.invert();
        assert_eq!(c, source.inverse());
    }
}
