use ssd1680::Color;

#[test]
fn from_u8() {
    assert_eq!(Color::Black, Color::from(0u8));
    assert_eq!(Color::White, Color::from(1u8));
}
