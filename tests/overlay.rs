use xoverlay::color::Depth;
use xoverlay::coord::{Anchor, FRAC_ONE};
use xoverlay::event::{Button, Event, RawEvent};
use xoverlay::key::{Key, KeyRef};
use xoverlay::overlay::Reaction;
use xoverlay::render::{text_origin, Primitive};
use xoverlay::shape::{Arc, Rectangle, Shape, Text};
use xoverlay::vec::Vec2;
use xoverlay::window::{input_selections, DeviceKind, InputMask};
use xoverlay::{Color, Drawable, Mapping, Overlay, ResizePolicy, Window};

const HALF: i32 = FRAC_ONE / 2;

fn overlay(width: u16, height: u16, now: u64) -> Overlay {
    let parent = Window::from(0x100, 0x1, 24, Vec2::new(0, 0), Vec2::new(width, height));
    let window = Window::new(0x200, &parent, &Mapping::FullScreen).unwrap();
    Overlay::new(parent, window, now)
}

fn filled(x: i32, y: i32, w: i32, h: i32, color: Color) -> Shape {
    Shape::Rectangle(Rectangle::fill(Anchor::NorthWest, Vec2::new(x, y), Vec2::new(w, h), color))
}

#[test]
fn keep_both_keeps_pixel_position_and_size() {
    let mut o = overlay(800, 600, 0);
    o.set_resize_policy(ResizePolicy::KeepBoth);
    assert_eq!(o.resize_policy(), ResizePolicy::KeepBoth);
    let size = Vec2::new(FRAC_ONE / 8, FRAC_ONE / 8);
    let i = o.add_shape(filled(HALF, HALF, size.x, size.y, Color::RED));
    let before = o.shape(i).position().to_real_coord(o.size());
    let before_size = o.shape(i).size().to_real_size(o.size());
    assert_eq!(before, Vec2::new(400 * FRAC_ONE, 300 * FRAC_ONE));
    assert_eq!(o.refresh(Vec2::new(1600, 600)).unwrap().unwrap().size, Vec2::new(1600, 600));
    let s = o.shape(i);
    assert_eq!(s.position(), Vec2::new(HALF / 2, HALF));
    assert_eq!(s.size(), Vec2::new(size.x / 2, size.y));
    assert_eq!(s.position().to_real_coord(o.size()), before);
    assert_eq!(s.size().to_real_size(o.size()), before_size);
}

#[test]
fn other_policies_rescale_the_stated_axes_only() {
    for (policy, expected) in [
        (ResizePolicy::KeepAspectRatio, Vec2::new(HALF, HALF)),
        (ResizePolicy::KeepWidth, Vec2::new(HALF / 2, HALF)),
        (ResizePolicy::KeepHeight, Vec2::new(HALF, HALF * 2 / 3)),
    ] {
        let mut o = overlay(800, 600, 0);
        o.set_resize_policy(policy);
        o.add_shape(filled(HALF, HALF, 0, 0, Color::RED));
        o.refresh(Vec2::new(1600, 900)).unwrap();
        assert_eq!(o.shape(0).position(), expected);
    }
}

#[test]
fn refresh_with_the_same_size_changes_nothing() {
    let mut o = overlay(800, 600, 0);
    o.set_resize_policy(ResizePolicy::KeepBoth);
    o.add_shape(filled(HALF, HALF, 10, 10, Color::RED));
    assert_eq!(o.refresh(Vec2::new(800, 600)), Ok(None));
    assert_eq!(o.shape(0).position(), Vec2::new(HALF, HALF));
}

#[test]
fn later_shapes_draw_over_earlier_ones() {
    let mut o = overlay(100, 100, 0);
    o.add_shape(filled(0, 0, HALF, HALF, Color::RED));
    o.add_shape(filled(HALF / 2, HALF / 2, HALF, HALF, Color::BLUE));
    let plan = o.draw();
    assert_eq!(plan.depth, Depth::D24);
    assert_eq!((plan.width, plan.height), (100, 100));
    assert_eq!(plan.color.len(), 2);
    assert_eq!(plan.color[0].foreground, 0xFF0000);
    assert_eq!(plan.color[1].foreground, 0x0000FF);
    assert_eq!(plan.color[1].shape, 1);
    assert_eq!(
        plan.color[1].primitive,
        Primitive::Rectangle { filled: true, x: 25, y: 25, width: 50, height: 50 }
    );
}

#[test]
fn transparent_shapes_cut_the_mask_and_are_not_colored() {
    let mut o = overlay(100, 100, 0);
    o.add_shape(filled(0, 0, FRAC_ONE, FRAC_ONE, Color::GREEN));
    o.add_shape(filled(HALF, HALF, HALF, HALF, Color::TRANSPARENT));
    o.add_shape(Shape::Arc(Arc::filled_circle(Anchor::Center, Vec2::new(HALF, HALF), HALF / 5, Color::BLACK)));
    let plan = o.draw();
    let mask: Vec<u32> = plan.mask.iter().map(|op| op.foreground).collect();
    assert_eq!(mask, vec![1, 0, 1]);
    let sources: Vec<usize> = plan.color.iter().map(|op| op.shape).collect();
    assert_eq!(sources, vec![0, 2]);
    assert_eq!(
        plan.color[1].primitive,
        Primitive::Arc { filled: true, x: 45, y: 45, width: 9, height: 9, angle1: 0, angle2: 23040 }
    );
}

#[test]
fn clear_draws_one_transparent_rectangle_and_empties_the_queue() {
    let mut o = overlay(64, 48, 0);
    o.add_shape(filled(0, 0, HALF, HALF, Color::RED));
    let plan = o.clear();
    assert_eq!(plan.mask.len(), 1);
    assert_eq!(plan.mask[0].foreground, 0);
    assert_eq!(
        plan.mask[0].primitive,
        Primitive::Rectangle { filled: true, x: 0, y: 0, width: 64, height: 48 }
    );
    assert!(plan.color.is_empty());
    assert!(o.render_queue.is_empty());
}

#[test]
fn input_without_focus_is_nothing() {
    let o = overlay(100, 100, 0);
    assert!(RawEvent::RawKeyPress { detail: 111 }.needs_focus());
    assert!(!RawEvent::MapNotify.needs_focus());
    assert_eq!(o.translate(&RawEvent::RawKeyPress { detail: 111 }, false), Event::Nothing);
    assert_eq!(o.translate(&RawEvent::RawButtonPress { detail: 1 }, false), Event::Nothing);
    assert_eq!(o.translate(&RawEvent::RawKeyPress { detail: 111 }, true), Event::KeyPress(Key(KeyRef::ArrowUp)));
    assert_eq!(
        o.translate(&RawEvent::RawButtonPress { detail: 3 }, true),
        Event::MousePress { button: Button::Right, coord: Vec2::new(0, 0) }
    );
    assert_eq!(
        o.translate(&RawEvent::RawButtonPress { detail: 9 }, true),
        Event::MousePress { button: Button::Unknown, coord: Vec2::new(0, 0) }
    );
}

#[test]
fn notifications_translate_to_events() {
    let o = overlay(200, 100, 0);
    let motion = RawEvent::Motion { event_x: 50 << 16, event_y: 25 << 16 };
    assert_eq!(o.translate(&motion, false), Event::MouseMotion { coord: Vec2::new(FRAC_ONE / 4, FRAC_ONE / 4) });
    let resize = RawEvent::Configure { window: 0x100, width: 300, height: 100 };
    assert_eq!(o.translate(&resize, false), Event::ParentResize(Vec2::new(300, 100)));
    let same = RawEvent::Configure { window: 0x100, width: 200, height: 100 };
    assert_eq!(o.translate(&same, false), Event::Unkown);
    let other = RawEvent::Configure { window: 0x999, width: 300, height: 100 };
    assert_eq!(o.translate(&other, false), Event::Unkown);
    assert_eq!(o.translate(&RawEvent::MapNotify, false), Event::Redraw);
    assert_eq!(o.translate(&RawEvent::NoExposure, false), Event::Redraw);
    assert_eq!(o.translate(&RawEvent::Other, false), Event::Unkown);
}

#[test]
fn redraws_closer_than_25_ms_are_debounced() {
    let mut o = overlay(100, 100, 0);
    assert!(matches!(o.react(&Event::Redraw, 100), Ok(Reaction::Handled { draw: Some(_), .. })));
    assert!(matches!(o.react(&Event::Redraw, 124), Ok(Reaction::Debounced)));
    assert!(matches!(o.react(&Event::Redraw, 125), Ok(Reaction::Handled { draw: Some(_), .. })));
    assert!(matches!(o.react(&Event::Redraw, 150), Ok(Reaction::Handled { draw: Some(_), .. })));
    // A redraw right after the overlay was made is dropped too.
    let mut fresh = overlay(100, 100, 1000);
    assert!(matches!(fresh.react(&Event::Redraw, 1010), Ok(Reaction::Debounced)));
    assert!(matches!(fresh.react(&Event::Nothing, 1010), Ok(Reaction::Handled { draw: None, configure: None })));
}

#[test]
fn motion_is_recorded_and_used_by_presses() {
    let mut o = overlay(100, 100, 0);
    let coord = Vec2::new(HALF, FRAC_ONE / 4);
    assert!(matches!(o.react(&Event::MouseMotion { coord }, 0), Ok(Reaction::Handled { draw: None, .. })));
    assert_eq!(o.mouse_coord(), coord);
    assert_eq!(
        o.translate(&RawEvent::RawButtonPress { detail: 2 }, true),
        Event::MousePress { button: Button::Middle, coord }
    );
}

#[test]
fn stop_request_stops_and_frees_the_overlay_window() {
    let mut o = overlay(100, 100, 0);
    assert!(matches!(o.react(&Event::StopEventLoop, 0), Ok(Reaction::Stop)));
    assert!(!o.running);
    let window = o.free();
    assert_eq!(window.id(), 0x200);
}

#[test]
fn parent_resize_reconfigures_and_redraws() {
    let mut o = overlay(100, 100, 0);
    match o.react(&Event::ParentResize(Vec2::new(300, 200)), 0) {
        Ok(Reaction::Handled { configure: Some(g), draw: Some(plan) }) => {
            assert_eq!(g.size, Vec2::new(300, 200));
            assert_eq!((plan.width, plan.height), (300, 200));
        }
        other => panic!("unexpected reaction {:?}", other),
    }
    assert_eq!(o.parent().size(), Vec2::new(300, 200));
    assert_eq!(o.window().size(), Vec2::new(300, 200));
}

#[test]
fn text_is_drawn_at_its_anchor_point() {
    let mut o = overlay(200, 100, 0);
    let mut t = Text::text(Anchor::Center, Vec2::new(HALF, HALF), Color::WHITE, Color::BLACK, "fps");
    t.set_string("60 fps");
    assert_eq!(t.get_string(), "60 fps");
    o.add_shape(Shape::Text(t));
    let plan = o.draw();
    assert_eq!(plan.color[0].primitive, Primitive::Text { x: 100, y: 50, anchor: Anchor::Center });
    assert_eq!(plan.color[0].background, 0);
}

#[test]
fn measured_text_is_placed_on_its_baseline() {
    assert_eq!(text_origin(100, 50, &Anchor::Center, 40, 10, 2), (80, 54));
    assert_eq!(text_origin(100, 50, &Anchor::NorthWest, 40, 10, 2), (100, 60));
}

#[test]
fn motion_over_an_empty_overlay_is_at_the_origin() {
    let o = overlay(0, 0, 0);
    let motion = RawEvent::Motion { event_x: 5 << 16, event_y: -(3 << 16) };
    assert_eq!(o.translate(&motion, true), Event::MouseMotion { coord: Vec2::new(0, 0) });
    let o = overlay(4, 4, 0);
    assert_eq!(o.translate(&motion, true), Event::MouseMotion { coord: Vec2::new(5 * FRAC_ONE / 4, -3 * FRAC_ONE / 4) });
}

#[test]
fn glyph_codes_keep_ascii_only() {
    assert_eq!(xoverlay::render::text_glyphs("fps: 60"), b"fps: 60".to_vec());
    assert_eq!(xoverlay::render::text_glyphs("été 1"), b"t 1".to_vec());
    assert_eq!(xoverlay::render::text_glyphs(""), Vec::<u8>::new());
}

#[test]
fn input_subscriptions_per_device_kind() {
    assert_eq!(input_selections(DeviceKind::Keyboard, 0x100, 0x1), vec![(0x1, InputMask::RawKeyPress)]);
    assert_eq!(
        input_selections(DeviceKind::Pointer, 0x100, 0x1),
        vec![(0x100, InputMask::Motion), (0x1, InputMask::RawButtonPress)]
    );
    assert_eq!(input_selections(DeviceKind::Other, 0x100, 0x1), vec![]);
}

#[test]
fn resize_reaction_rescales_the_queue_and_keeps_the_rest() {
    let mut o = overlay(800, 600, 0);
    o.set_resize_policy(ResizePolicy::KeepWidth);
    o.add_shape(filled(HALF, HALF, HALF, HALF, Color::RED));
    match o.react(&Event::ParentResize(Vec2::new(1600, 600)), 0) {
        Ok(Reaction::Handled { configure: Some(_), draw: Some(plan) }) => {
            assert_eq!(plan.mask.len(), 1);
            assert_eq!(plan.depth, Depth::D24);
            assert_eq!(
                plan.mask[0].primitive,
                Primitive::Rectangle { filled: true, x: 400, y: 300, width: 400, height: 300 }
            );
        }
        other => panic!("unexpected reaction {:?}", other),
    }
    assert_eq!(o.shape(0).position(), Vec2::new(HALF / 2, HALF));
    assert_eq!(o.resize_policy(), ResizePolicy::KeepWidth);
}

#[test]
fn parent_resize_is_judged_against_the_parent_size() {
    let parent = Window::from(0x100, 0x1, 24, Vec2::new(0, 0), Vec2::new(800, 600));
    let half = Mapping::Percent { fpos: Vec2::new(0, 0), fsize: Vec2::new(HALF, HALF) };
    let window = Window::new(0x200, &parent, &half).unwrap();
    let o = Overlay::new(parent, window, 0);
    assert_eq!(o.size(), Vec2::new(400, 300));
    // The parent shrinks to the overlay's own size: a real resize.
    let to_overlay_size = RawEvent::Configure { window: 0x100, width: 400, height: 300 };
    assert_eq!(o.translate(&to_overlay_size, false), Event::ParentResize(Vec2::new(400, 300)));
    // The parent keeps its size (it was only moved): nothing to do.
    let moved = RawEvent::Configure { window: 0x100, width: 800, height: 600 };
    assert_eq!(o.translate(&moved, false), Event::Unkown);
}

#[test]
fn drawable_reports_the_overlay_window() {
    use_drawable(&overlay(30, 20, 0));
}

fn use_drawable<D: Drawable>(d: &D) {
    assert_eq!(d.id(), 0x200);
    assert_eq!((d.width(), d.height()), (30, 20));
    assert_eq!((d.x(), d.y()), (0, 0));
    assert_eq!(d.depth(), Depth::D24);
}
