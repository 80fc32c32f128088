use xoverlay::coord::{to_pixels, Anchor, Coord, Size, FRAC_ONE};
use xoverlay::vec::Vec2;

const HALF: i32 = FRAC_ONE / 2;

#[test]
fn test_coord_from_anchor() {
    let size = Size::new(FRAC_ONE, FRAC_ONE);
    let anchor = Anchor::Center;
    let coord = Coord::from_anchor(&anchor, &size);

    assert_eq!(coord, Coord::new(HALF, HALF));
}

#[test]
fn test_coord_top_left() {
    let size = Size::new(FRAC_ONE, FRAC_ONE);
    let anchor = Anchor::Center;
    let coord = Coord::new(HALF, HALF);
    let top_left = coord.top_left(&anchor, &size);

    assert_eq!(top_left, Coord::new(0, 0));
}

#[test]
fn test_coord_to_real_coord() {
    let size = Vec2::<u16>::new(1, 1);
    let coord = Coord::new(HALF, HALF);
    let real_coord = coord.to_real_coord(size);

    assert_eq!(real_coord, Coord::new(HALF, HALF));
}

#[test]
fn test_size_to_real_size() {
    let size = Size::new(FRAC_ONE, FRAC_ONE);
    let window_size = Vec2::<u16>::new(800, 600);
    let real_size = size.to_real_size(window_size);

    assert_eq!(real_size, Size::new(800 * FRAC_ONE, 600 * FRAC_ONE));
}

#[test]
fn test_anchor_delta() {
    let anchor = Anchor::NorthWest;
    let width = FRAC_ONE;
    let height = HALF;

    let delta = anchor.delta(width, height);

    assert_eq!(delta, (0, 0));
}

#[test]
fn test_default_anchor() {
    let default_anchor = Anchor::default();

    assert_eq!(default_anchor, Anchor::NorthWest);
}

#[test]
fn anchor_deltas_of_every_kind() {
    assert_eq!(Anchor::North.delta(10, 20), (5, 0));
    assert_eq!(Anchor::NorthEast.delta(10, 20), (10, 0));
    assert_eq!(Anchor::East.delta(10, 20), (10, 10));
    assert_eq!(Anchor::SouthEast.delta(10, 20), (10, 20));
    assert_eq!(Anchor::South.delta(10, 20), (5, 20));
    assert_eq!(Anchor::SouthWest.delta(10, 20), (0, 20));
    assert_eq!(Anchor::West.delta(10, 20), (0, 10));
    assert_eq!(Anchor::Custom(3, 4).delta(10, 20), (3, 4));
}

#[test]
fn pixels_truncate_toward_zero() {
    assert_eq!(to_pixels(FRAC_ONE / 4, 1001), 250);
    assert_eq!(to_pixels(-FRAC_ONE / 4, 1001), -250);
    let quarter = Coord::new(FRAC_ONE / 4, -FRAC_ONE / 4);
    assert_eq!(quarter.to_real_coord(Vec2::new(1001, 1001)), Vec2::new(1001 * FRAC_ONE / 4, -1001 * FRAC_ONE / 4));
}
