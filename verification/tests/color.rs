use gers::color::Color;

#[test]
fn test_color_size() {
    assert_eq!(std::mem::size_of::<Color>(), std::mem::size_of::<u32>());
}

#[test]
fn color_to_string_is_upper_hex() {
    let color = Color::from_rgba(29, 33, 40, 229);
    assert_eq!(color.to_string(), "#1D2128E5");
    assert_eq!(Color::from_rgba(0, 255, 10, 160).to_string(), "#00FF0AA0");
    assert_eq!(color.rgba(), [29, 33, 40, 229]);
}
