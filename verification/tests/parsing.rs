use svg2raster::color::Color;
use svg2raster::color::ColorError;
use svg2raster::color::parse_color;

#[test]
fn six_digits_yield_opaque_alpha() {
    assert_eq!(
        parse_color("#a1b2c3"),
        Ok(Color { r: 0xa1, g: 0xb2, b: 0xc3, a: 255 })
    );
}

#[test]
fn six_digits_uppercase() {
    assert_eq!(
        parse_color("#A1B2C3"),
        Ok(Color { r: 0xa1, g: 0xb2, b: 0xc3, a: 255 })
    );
}

#[test]
fn eight_digits_carry_alpha() {
    assert_eq!(
        parse_color("#11223344"),
        Ok(Color { r: 0x11, g: 0x22, b: 0x33, a: 0x44 })
    );
}

#[test]
fn hash_prefix_is_optional() {
    assert_eq!(parse_color("11223344"), parse_color("#11223344"));
    assert_eq!(parse_color("a1b2c3"), parse_color("#a1b2c3"));
}

#[test]
fn mixed_case_digits() {
    assert_eq!(
        parse_color("#FfAa00"),
        Ok(Color { r: 255, g: 170, b: 0, a: 255 })
    );
}

#[test]
fn only_one_hash_prefix_is_allowed() {
    // After the one optional '#', the remainder '#102030' holds a non-hex
    // character, so a doubled prefix is rejected.
    assert_eq!(parse_color("##102030"), Err(ColorError::InvalidColorFormat));
    // Here the remainder '##ABCDEF' even has an accepted length of eight,
    // and is still rejected: '#' is not a hex digit.
    assert_eq!(parse_color("###ABCDEF"), Err(ColorError::InvalidColorFormat));
}

#[test]
fn wrong_lengths_are_rejected() {
    assert_eq!(parse_color(""), Err(ColorError::InvalidColorFormat));
    assert_eq!(parse_color("#"), Err(ColorError::InvalidColorFormat));
    assert_eq!(parse_color("#12345"), Err(ColorError::InvalidColorFormat));
    assert_eq!(parse_color("#1234567"), Err(ColorError::InvalidColorFormat));
    assert_eq!(parse_color("#123456789"), Err(ColorError::InvalidColorFormat));
}

#[test]
fn non_hex_characters_are_rejected() {
    assert_eq!(parse_color("#12g456"), Err(ColorError::InvalidColorFormat));
    assert_eq!(parse_color("#12345Z"), Err(ColorError::InvalidColorFormat));
    assert_eq!(parse_color("+1ff3a2"), Err(ColorError::InvalidColorFormat));
    assert_eq!(parse_color("#-123456"), Err(ColorError::InvalidColorFormat));
}
