use xoverlay::coord::FRAC_ONE;
use xoverlay::vec::Vec2;
use xoverlay::window::{resolve, Geometry, GeometryError};
use xoverlay::{Mapping, Window};

fn parent(width: u16, height: u16) -> Window {
    Window::from(0x100, 0x1, 24, Vec2::new(0, 0), Vec2::new(width, height))
}

#[test]
fn full_screen_covers_the_parent() {
    let g = resolve(&Mapping::FullScreen, Vec2::new(1920, 1080));
    assert_eq!(g, Ok(Geometry { pos: Vec2::new(0, 0), size: Vec2::new(1920, 1080) }));
}

#[test]
fn percent_out_of_range_is_rejected() {
    let p = Vec2::new(1920, 1080);
    let too_wide = Mapping::Percent {
        fpos: Vec2::new(FRAC_ONE / 2, 0),
        fsize: Vec2::new(FRAC_ONE / 2 + 1, FRAC_ONE),
    };
    assert_eq!(resolve(&too_wide, p), Err(GeometryError::InvalidPercentage));
    let too_tall = Mapping::Percent { fpos: Vec2::new(0, 1), fsize: Vec2::new(FRAC_ONE, FRAC_ONE) };
    assert_eq!(resolve(&too_tall, p), Err(GeometryError::InvalidPercentage));
    let negative = Mapping::Percent { fpos: Vec2::new(-1, 0), fsize: Vec2::new(10, 10) };
    assert_eq!(resolve(&negative, p), Err(GeometryError::InvalidPercentage));
}

#[test]
fn percent_in_range_is_floored_to_pixels() {
    let m = Mapping::Percent {
        fpos: Vec2::new(FRAC_ONE / 4, FRAC_ONE / 2),
        fsize: Vec2::new(FRAC_ONE / 2, FRAC_ONE / 3),
    };
    let g = resolve(&m, Vec2::new(801, 600)).unwrap();
    assert_eq!(g.pos, Vec2::new(200, 300));
    assert_eq!(g.size, Vec2::new(400, 199));
    let whole = Mapping::Percent { fpos: Vec2::new(0, 0), fsize: Vec2::new(FRAC_ONE, FRAC_ONE) };
    assert_eq!(resolve(&whole, Vec2::new(640, 480)).unwrap().size, Vec2::new(640, 480));
}

#[test]
fn pixels_outside_the_parent_are_rejected() {
    let p = Vec2::new(800, 600);
    let m = Mapping::Pixels { pos: Vec2::new(700, 0), size: Vec2::new(101, 10) };
    assert_eq!(resolve(&m, p), Err(GeometryError::InvalidCoordinates));
    let m = Mapping::Pixels { pos: Vec2::new(-1, 0), size: Vec2::new(1, 1) };
    assert_eq!(resolve(&m, p), Err(GeometryError::InvalidCoordinates));
    let fits = Mapping::Pixels { pos: Vec2::new(700, 500), size: Vec2::new(100, 100) };
    assert_eq!(resolve(&fits, p), Ok(Geometry { pos: Vec2::new(700, 500), size: Vec2::new(100, 100) }));
}

#[test]
fn new_window_takes_the_parent_depth_and_root() {
    let p = parent(800, 600);
    let m = Mapping::Pixels { pos: Vec2::new(10, 20), size: Vec2::new(30, 40) };
    let w = Window::new(7, &p, &m).unwrap();
    assert_eq!(w.id(), 7);
    assert_eq!(w.root(), 0x1);
    assert_eq!(w.depth(), p.depth());
    assert_eq!(w.position(), Vec2::new(10, 20));
    assert_eq!(w.size(), Vec2::new(30, 40));
    assert_eq!((w.width(), w.height()), (30, 40));
    let bad = Mapping::Pixels { pos: Vec2::new(790, 0), size: Vec2::new(30, 40) };
    assert_eq!(Window::new(7, &p, &bad), Err(GeometryError::InvalidCoordinates));
}

#[test]
fn refresh_twice_changes_nothing_the_second_time() {
    let mut p = parent(800, 600);
    let m = Mapping::Percent { fpos: Vec2::new(0, 0), fsize: Vec2::new(FRAC_ONE / 2, FRAC_ONE / 2) };
    let mut w = Window::new(7, &p, &m).unwrap();
    assert_eq!(w.size(), Vec2::new(400, 300));
    p.resize_event(Vec2::new(1600, 600));
    assert_eq!(w.refresh(&p), Ok(true));
    assert_eq!(w.size(), Vec2::new(800, 300));
    let before = w;
    assert_eq!(w.refresh(&p), Ok(false));
    assert_eq!(w, before);
}

#[test]
fn focus_is_the_active_window_property() {
    let p = parent(10, 10);
    assert!(p.has_focus(Some(0x100)));
    assert!(!p.has_focus(Some(0x101)));
    assert!(!p.has_focus(None));
}

#[test]
fn recorded_geometry_replaces_position_and_size_only() {
    let mut w = parent(800, 600);
    w.record_geometry(Vec2::new(5, -3), Vec2::new(640, 480));
    assert_eq!(w.position(), Vec2::new(5, -3));
    assert_eq!(w.size(), Vec2::new(640, 480));
    assert_eq!((w.id(), w.root(), w.mapping()), (0x100, 0x1, Mapping::FullScreen));
}
