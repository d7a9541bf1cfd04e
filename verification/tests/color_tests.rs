use zedlib::color::{
    decode_hex_literal, parse_color, parse_int, parse_rgb, parse_rgba, Alpha, Color,
    ColorParseError, ColorSyntax,
};

// The alpha of `rgba(...)` is a decimal number; as a byte it is the number,
// clamped to [0, 1], times 255, rounded.
fn to_color(syntax: ColorSyntax) -> Color {
    let a = match syntax.alpha {
        Alpha::Byte(a) => a,
        Alpha::Decimal(digits) => {
            let value: f32 = std::str::from_utf8(&digits).unwrap().parse().unwrap();
            (value.clamp(0., 1.) * 255.).round() as u8
        }
    };
    Color::new(syntax.r, syntax.g, syntax.b, a)
}

#[test]
fn test_parse_rgb() {
    let mut pos = 0;
    assert_eq!(
        parse_rgb("rgb(64, 64, 64)", &mut pos).unwrap(),
        Color::new(64, 64, 64, 255)
    )
}

#[test]
fn test_parse_rgba() {
    let mut pos = 0;
    assert_eq!(
        to_color(parse_rgba("rgba(64, 64, 64, 0.5)", &mut pos).unwrap()),
        Color::new(64, 64, 64, 128)
    );
    let mut pos = 0;
    assert_eq!(
        to_color(parse_rgba("rgba(rgb(64, 64, 64), 0.5)", &mut pos).unwrap()),
        Color::new(64, 64, 64, 128)
    );
    let mut pos = 0;
    assert_eq!(
        to_color(parse_rgba("rgba(rgba(64, 64, 64, 1.0), 0.5)", &mut pos).unwrap()),
        Color::new(64, 64, 64, 128)
    );
}

#[test]
fn parse_position_moves_past_the_text() {
    let mut pos = 0;
    let c = parse_rgb("rgb(1,2,3) tail", &mut pos).unwrap();
    assert_eq!(c, Color::new(1, 2, 3, 255));
    assert_eq!(pos, 10);
}

#[test]
fn parse_errors() {
    let mut pos = 0;
    assert_eq!(parse_rgb("rgb(300, 1, 1)", &mut pos), Err(ColorParseError::ExpectedInteger));
    let mut pos = 0;
    assert_eq!(parse_rgb("rgb(1, 1 1)", &mut pos), Err(ColorParseError::MissingPrefix));
    let mut pos = 0;
    assert_eq!(parse_int("abc", &mut pos), Err(ColorParseError::ExpectedInteger));
    let mut pos = 0;
    assert!(matches!(parse_color("hsl(1, 2, 3)", &mut pos), Err(ColorParseError::InvalidFormat)));
    let mut pos = 0;
    assert!(matches!(parse_color("#12345", &mut pos), Err(ColorParseError::WrongHexDigitCount)));
}

#[test]
fn hex_colors() {
    // Reading a hexadecimal color skips its digits twice, so the text must
    // go on for as many characters after them.
    let mut pos = 0;
    let c = to_color(parse_color("#646464 tail!", &mut pos).unwrap());
    assert_eq!(c, Color::new(100, 100, 100, 255));
    assert_eq!(pos, 13);
    let mut pos = 0;
    let c = to_color(parse_color("#11223344........", &mut pos).unwrap());
    assert_eq!(c, Color::new(0x11, 0x22, 0x33, 0x44));
    assert_eq!(decode_hex_literal("#ff0000"), Some(Color::new(255, 0, 0, 255)));
    assert_eq!(decode_hex_literal("#00ff0080"), Some(Color::new(0, 255, 0, 128)));
    assert_eq!(decode_hex_literal("ff0000"), None);
    assert_eq!(Color::from_u32(0x0000ffff), Color::blue());
    assert_eq!(Color::red(), Color::new(255, 0, 0, 255));
}
