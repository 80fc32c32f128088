use xoverlay::color::{for_depth, to_rgb, to_rgba, Depth};
use xoverlay::Color;

#[test]
fn test_to_rgba() {
    assert_eq!(to_rgba(0x000000), 0xFF000000);
    assert_eq!(to_rgba(0x0000FF), 0xFF0000FF);
    assert_eq!(to_rgba(0xA52A2A), 0xFFA52A2A);
    assert_eq!(to_rgba(0x00FFFF), 0xFF00FFFF);
    assert_eq!(to_rgba(0x808080), 0xFF808080);
    assert_eq!(to_rgba(0x008000), 0xFF008000);
    assert_eq!(to_rgba(0x4B0082), 0xFF4B0082);
    assert_eq!(to_rgba(0x00FF00), 0xFF00FF00);
    assert_eq!(to_rgba(0xFF00FF), 0xFFFF00FF);
    assert_eq!(to_rgba(0x000080), 0xFF000080);
    assert_eq!(to_rgba(0xFFA500), 0xFFFFA500);
    assert_eq!(to_rgba(0xFFC0CB), 0xFFFFC0CB);
    assert_eq!(to_rgba(0x800080), 0xFF800080);
    assert_eq!(to_rgba(0xFF0000), 0xFFFF0000);
}

#[test]
fn test_to_rgb() {
    assert_eq!(to_rgb(0xFF000000), 0x000000);
    assert_eq!(to_rgb(0xFF0000FF), 0x0000FF);
    assert_eq!(to_rgb(0xFFA52A2A), 0xA52A2A);
    assert_eq!(to_rgb(0xFF00FFFF), 0x00FFFF);
    assert_eq!(to_rgb(0xFF808080), 0x808080);
    assert_eq!(to_rgb(0xFF008000), 0x008000);
    assert_eq!(to_rgb(0xFF4B0082), 0x4B0082);
    assert_eq!(to_rgb(0xFF00FF00), 0x00FF00);
    assert_eq!(to_rgb(0xFFFF00FF), 0xFF00FF);
    assert_eq!(to_rgb(0xFF000080), 0x000080);
    assert_eq!(to_rgb(0xFFFFA500), 0xFFA500);
    assert_eq!(to_rgb(0xFFFFC0CB), 0xFFC0CB);
    assert_eq!(to_rgb(0xFF800080), 0x800080);
    assert_eq!(to_rgb(0xFFFF0000), 0xFF0000);
}

#[test]
fn test_for_depth() {
    assert_eq!(for_depth(0x000000, &Depth::D32), 0xFF000000);
    assert_eq!(for_depth(0x0000FF, &Depth::D24), 0x0000FF);
    assert_eq!(for_depth(0xA52A2A, &Depth::D16), 0x50A5);
    assert_eq!(for_depth(0x00FFFF, &Depth::D8), 0xAA);
    assert_eq!(for_depth(0x808080, &Depth::D1), 1);
}

#[test]
fn test_depth_from() {
    assert_eq!(Depth::from(1), Depth::D1);
    assert_eq!(Depth::from(8), Depth::D8);
    assert_eq!(Depth::from(16), Depth::D16);
    assert_eq!(Depth::from(24), Depth::D24);
    assert_eq!(Depth::from(32), Depth::D32);
}

#[test]
fn test_depth_value() {
    assert_eq!(Depth::D1.value(), 1);
    assert_eq!(Depth::D8.value(), 8);
    assert_eq!(Depth::D16.value(), 16);
    assert_eq!(Depth::D24.value(), 24);
    assert_eq!(Depth::D32.value(), 32);
}

#[test]
fn test_color_value() {
    assert_eq!(Color::BLACK.value(&Depth::D32), 0xFF000000);
    assert_eq!(Color::BLUE.value(&Depth::D24), 0x0000FF);
    assert_eq!(Color::BROWN.value(&Depth::D16), 0x50A5);
    assert_eq!(Color::CYAN.value(&Depth::D8), 0xAA);
    assert_eq!(Color::GRAY.value(&Depth::D1), 0x1);
}

#[test]
fn test_color_with_alpha() {
    assert_eq!(Color::BLACK.with_alpha(0xFF), Color::new_rgba(0, 0, 0, 0xFF));
    assert_eq!(Color::BLUE.with_alpha(0x80), Color::new_rgba(0, 0, 0xFF, 0x80));
    assert_eq!(Color::BROWN.with_alpha(0x40), Color::new_rgba(0xA5, 0x2A, 0x2A, 0x40));
    assert_eq!(Color::CYAN.with_alpha(0x20), Color::new_rgba(0, 0xFF, 0xFF, 0x20));
    assert_eq!(Color::GRAY.with_alpha(0x10), Color::new_rgba(0x80, 0x80, 0x80, 0x10));
}

#[test]
fn depth_from_unknown_count_is_32_bits() {
    assert_eq!(Depth::from(0), Depth::D32);
    assert_eq!(Depth::from(12), Depth::D32);
}

#[test]
fn explicit_colors_are_projected_to_the_depth() {
    assert_eq!(Color::new_rgb(0x12, 0x34, 0x56).value(&Depth::D8), 0x34);
    assert_eq!(Color::new_rgb(0, 1, 0).value(&Depth::D8), 0);
    assert_eq!(Color::new_rgb(0x12, 0x34, 0x56).value(&Depth::D32), 0xFF123456);
    assert_eq!(Color::new_rgb(0x12, 0x34, 0x56).value(&Depth::D24), 0x123456);
    assert_eq!(Color::new_rgb(0xA5, 0x2A, 0x2A).value(&Depth::D16), 0x50A5);
    assert_eq!(Color::new_rgba(0x12, 0x34, 0x56, 0x78).value(&Depth::D32), 0x78123456);
    assert_eq!(Color::new_rgba(0x12, 0x34, 0x56, 0x78).value(&Depth::D24), 0x123456);
    assert_eq!(Color::new_rgba(0x12, 0x34, 0x56, 0x78).value(&Depth::D1), 1);
    assert_eq!(Color::new_rgba(0, 0, 0, 0x78).value(&Depth::D1), 0);
    assert_eq!(Color::new_rgba(1, 2, 3, 4).with_alpha(9), Color::new_rgba(1, 2, 3, 9));
    assert_eq!(Color::TRANSPARENT.value(&Depth::D32), 0);
    assert_eq!(Color::BLACK.value(&Depth::D1), 0);
    assert_eq!(Color::WHITE.value(&Depth::D8), 0xFF);
}
