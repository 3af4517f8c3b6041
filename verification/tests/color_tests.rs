use cranky::domain::color::{scan_color, Angle, Color, ColorError, DrawingColor};

fn parse(input: &str) -> Result<DrawingColor, ColorError> {
    let parts = match scan_color(input) {
        None => panic!("byte index is not a char boundary"),
        Some(Err(e)) => return Err(e),
        Some(Ok(p)) => p,
    };
    let angle = parts
        .angle_text
        .as_ref()
        .and_then(|t| t.parse::<f32>().ok())
        .map(|a| Angle::from_bits(a.to_bits()));
    DrawingColor::from_scan(parts, angle)
}

#[test]
fn hex_colors() {
    assert_eq!(parse("#ff0000").unwrap(), DrawingColor::Solid(Color::new(255, 0, 0, 255)));
    assert_eq!(parse("  #00ff0080 ").unwrap(), DrawingColor::Solid(Color::new(0, 255, 0, 128)));
    assert_eq!(parse("#AbCdEf").unwrap(), DrawingColor::Solid(Color::new(0xab, 0xcd, 0xef, 255)));
}

#[test]
fn functional_colors() {
    assert_eq!(parse("rgb(102030)").unwrap(), DrawingColor::Solid(Color::new(0x10, 0x20, 0x30, 255)));
    assert_eq!(parse("rgba(10203040)").unwrap(), DrawingColor::Solid(Color::new(0x10, 0x20, 0x30, 0x40)));
}

#[test]
fn plus_sign_field() {
    assert_eq!(parse("#+f0000").unwrap(), DrawingColor::Solid(Color::new(15, 0, 0, 255)));
}

#[test]
fn gradient_with_angle() {
    match parse("rgba(ff0000ff) rgba(0000ffff) 45deg").unwrap() {
        DrawingColor::Gradient(cs, a) => {
            assert_eq!(cs, vec![Color::new(255, 0, 0, 255), Color::new(0, 0, 255, 255)]);
            assert_eq!(f32::from_bits(a.to_bits()), 45.0);
        },
        other => panic!("unexpected {:?}", other),
    }
    match parse("#000000 #ffffff").unwrap() {
        DrawingColor::Gradient(cs, a) => {
            assert_eq!(cs.len(), 2);
            assert_eq!(f32::from_bits(a.to_bits()), 0.0);
        },
        other => panic!("unexpected {:?}", other),
    }
}

#[test]
fn single_color_with_angle_is_solid() {
    assert_eq!(parse("#112233 90").unwrap(), DrawingColor::Solid(Color::new(0x11, 0x22, 0x33, 255)));
}

#[test]
fn color_errors() {
    assert_eq!(parse("   "), Err(ColorError::Empty));
    assert_eq!(parse("#12345"), Err(ColorError::InvalidFormat("#12345".to_string())));
    assert_eq!(parse("red #000000"), Err(ColorError::InvalidFormat("red".to_string())));
    assert_eq!(parse("#000000 sideways"), Err(ColorError::InvalidAngle("sideways".to_string())));
    assert_eq!(parse("#gg0000"), Err(ColorError::InvalidFormat("#gg0000".to_string())));
}

#[test]
fn color_error_messages() {
    assert_eq!(ColorError::Empty.to_string(), "Empty color string");
    assert_eq!(ColorError::NoColors("x".into()).to_string(), "No colors found in input 'x'");
    assert_eq!(ColorError::InvalidFormat("y".into()).to_string(), "Invalid color format: 'y'");
    assert_eq!(ColorError::InvalidAngle("z".into()).to_string(), "Invalid angle value: 'z'");
}

#[test]
fn parentheses_keep_spaces_in_one_token() {
    assert_eq!(parse("rgb( 1 2)"), Err(ColorError::InvalidFormat("rgb( 1 2)".to_string())));
}

#[test]
fn field_cut_inside_a_character_is_reported() {
    assert!(scan_color("#1é234").is_none());
    assert!(scan_color("#1é2345").is_some());
}

#[test]
fn color_getters_and_black() {
    let c = Color::new(1, 2, 3, 4);
    assert_eq!((c.r(), c.g(), c.b(), c.a()), (1, 2, 3, 4));
    assert_eq!(DrawingColor::black(), DrawingColor::Solid(Color::new(0, 0, 0, 255)));
    assert_eq!(DrawingColor::black().duplicate(), DrawingColor::black());
}

#[test]
fn surrounding_whitespace_does_not_matter() {
    assert_eq!(parse(" \t#123456 #abcdef 10deg\n"), parse("#123456 #abcdef 10deg"));
    assert_eq!(parse("  bogus  "), parse("bogus"));
}

#[test]
fn ascii_strings_always_scan() {
    for s in ["#", "#12", "rgb(zzzzzz)", "rgba(1234)", "#1234567", "((( )))", "a b c", "#ffffff 1 2"] {
        assert!(scan_color(s).is_some());
    }
}

#[test]
fn tokens_keep_everything_but_outer_whitespace() {
    let parts = match scan_color("  rgba(ff0000ff)\t #00ff00   90deg ") {
        Some(Ok(p)) => p,
        _ => panic!("expected the parts of a gradient"),
    };
    assert_eq!(parts.colors.len(), 2);
    assert_eq!(parts.colors[0], Color::new(255, 0, 0, 255));
    assert_eq!(parts.colors[1], Color::new(0, 255, 0, 255));
    assert_eq!(parts.angle_token.as_deref(), Some("90deg"));
    assert_eq!(parts.angle_text.as_deref(), Some("90"));
}

#[test]
fn only_the_last_of_several_tokens_may_be_no_colour() {
    assert!(matches!(scan_color("90deg #ffffff"), Some(Err(ColorError::InvalidFormat(t))) if t == "90deg"));
    assert!(matches!(scan_color("90deg"), Some(Err(ColorError::InvalidFormat(t))) if t == "90deg"));
    let parts = match scan_color("#ffffff #000000") {
        Some(Ok(p)) => p,
        _ => panic!("expected two colours"),
    };
    assert_eq!(parts.colors.len(), 2);
    assert!(parts.angle_token.is_none());
}

#[test]
fn angles_compare_as_numbers() {
    assert_eq!(Angle::from_bits((-0.0f32).to_bits()), Angle::zero());
    assert_ne!(Angle::from_bits(f32::NAN.to_bits()), Angle::from_bits(f32::NAN.to_bits()));
    assert_eq!(Angle::from_bits(45.0f32.to_bits()), Angle::from_bits(45.0f32.to_bits()));
    assert_ne!(Angle::from_bits(45.0f32.to_bits()), Angle::from_bits(90.0f32.to_bits()));
}

#[test]
fn tokens_split_at_whitespace_outside_parentheses() {
    assert_eq!(
        cranky::domain::color::split_tokens("rgb(ff 00 00)  #0f0"),
        vec!["rgb(ff 00 00)".to_string(), "#0f0".to_string()]
    );
    assert_eq!(cranky::domain::color::split_tokens(" \t "), Vec::<String>::new());
    assert_eq!(
        cranky::domain::color::split_tokens("a(b c)d e"),
        vec!["a(b c)d".to_string(), "e".to_string()]
    );
}
