use paint::canvas::Action;
use paint::canvas::Event;
use paint::canvas::PaintState;
use paint::color::Color;
use paint::ndc::map_to_ndc;
use paint::pen::MouseButton;
use paint::pen::PenState;

fn red() -> Color {
    Color::new(255, 0, 0, 255)
}

fn white() -> Color {
    Color::new(255, 255, 255, 255)
}

fn fresh() -> PaintState {
    PaintState::new(red(), white())
}

#[test]
fn ndc_top_left_corner() {
    let p = map_to_ndc(0, 0, 640, 480).unwrap();
    assert_eq!(p.x.num, -640);
    assert_eq!(p.x.den, 640);
    assert_eq!(p.y.num, 480);
    assert_eq!(p.y.den, 480);
}

#[test]
fn ndc_bottom_right_corner() {
    let p = map_to_ndc(640, 480, 640, 480).unwrap();
    assert_eq!(p.x.num, 640);
    assert_eq!(p.x.den, 640);
    assert_eq!(p.y.num, -480);
    assert_eq!(p.y.den, 480);
}

#[test]
fn ndc_center() {
    let p = map_to_ndc(320, 240, 640, 480).unwrap();
    assert_eq!(p.x.num, 0);
    assert_eq!(p.y.num, 0);
}

#[test]
fn ndc_in_unit_range_inside_framebuffer() {
    let ws = [1u32, 2, 640, 1920];
    let hs = [1u32, 2, 480, 1080];
    for &w in &ws {
        for &h in &hs {
            for &(x, y) in &[(0i32, 0i32), (w as i32, h as i32), (w as i32 / 2, h as i32 / 2)] {
                let p = map_to_ndc(x, y, w, h).unwrap();
                assert!(-(p.x.den as i64) <= p.x.num && p.x.num <= p.x.den as i64);
                assert!(-(p.y.den as i64) <= p.y.num && p.y.num <= p.y.den as i64);
            }
        }
    }
}

#[test]
fn ndc_off_window_unclamped() {
    let p = map_to_ndc(-10, 500, 640, 480).unwrap();
    assert_eq!(p.x.num, -660);
    assert!(p.x.num < -(p.x.den as i64));
    assert_eq!(p.y.num, -520);
    assert!(p.y.num < -(p.y.den as i64));
}

#[test]
fn ndc_zero_framebuffer_is_none() {
    assert!(map_to_ndc(10, 10, 0, 480).is_none());
    assert!(map_to_ndc(10, 10, 640, 0).is_none());
    assert!(map_to_ndc(0, 0, 0, 0).is_none());
}

#[test]
fn ndc_extreme_position_does_not_overflow() {
    let p = map_to_ndc(i32::MIN, i32::MAX, u32::MAX, u32::MAX).unwrap();
    assert_eq!(p.x.num, 2 * (i32::MIN as i64) - (u32::MAX as i64));
    assert_eq!(p.y.num, (u32::MAX as i64) - 2 * (i32::MAX as i64));
}

#[test]
fn pen_press_when_up_goes_down() {
    assert_eq!(PenState::Up.after_press(MouseButton::Primary), PenState::Down);
}

#[test]
fn pen_release_when_down_goes_up() {
    assert_eq!(PenState::Down.after_release(MouseButton::Primary), PenState::Up);
}

#[test]
fn pen_press_when_down_is_noop() {
    assert_eq!(PenState::Down.after_press(MouseButton::Primary), PenState::Down);
}

#[test]
fn pen_release_when_up_is_noop() {
    assert_eq!(PenState::Up.after_release(MouseButton::Primary), PenState::Up);
}

#[test]
fn pen_ignores_other_buttons() {
    assert_eq!(PenState::Up.after_press(MouseButton::Other), PenState::Up);
    assert_eq!(PenState::Down.after_press(MouseButton::Other), PenState::Down);
    assert_eq!(PenState::Down.after_release(MouseButton::Other), PenState::Down);
    assert_eq!(PenState::Up.after_release(MouseButton::Other), PenState::Up);
}

#[test]
fn fresh_state_is_pen_up_and_empty() {
    let s = fresh();
    assert_eq!(s.pen, PenState::Up);
    assert!(s.stroke.is_empty());
    assert!(!s.dirty);
}

#[test]
fn every_move_appends_exactly_one_vertex() {
    let mut s = fresh();
    s.on_cursor_moved(1, 1, 640, 480);
    s.on_cursor_moved(2, 2, 640, 480);
    s.handle_event(Event::MousePressed { button: MouseButton::Primary }, 640, 480);
    s.on_cursor_moved(3, 3, 640, 480);
    s.on_cursor_moved(4, 4, 640, 480);
    s.handle_event(Event::MouseReleased { button: MouseButton::Primary }, 640, 480);
    s.on_cursor_moved(5, 5, 640, 480);
    assert_eq!(s.stroke.len(), 5);
}

#[test]
fn button_events_append_nothing() {
    let mut s = fresh();
    s.handle_event(Event::MousePressed { button: MouseButton::Primary }, 640, 480);
    s.handle_event(Event::MouseReleased { button: MouseButton::Primary }, 640, 480);
    s.handle_event(Event::MousePressed { button: MouseButton::Other }, 640, 480);
    s.handle_event(Event::TimerTick, 640, 480);
    assert_eq!(s.stroke.len(), 0);
}

#[test]
fn vertex_color_follows_pen_state() {
    let mut s = fresh();
    s.on_cursor_moved(10, 10, 640, 480);
    s.handle_event(Event::MousePressed { button: MouseButton::Primary }, 640, 480);
    s.on_cursor_moved(20, 20, 640, 480);
    s.handle_event(Event::MouseReleased { button: MouseButton::Primary }, 640, 480);
    s.on_cursor_moved(30, 30, 640, 480);
    assert_eq!(s.stroke[0].color, white());
    assert_eq!(s.stroke[1].color, red());
    assert_eq!(s.stroke[2].color, white());
}

#[test]
fn zero_framebuffer_guard_skips_append() {
    let mut s = fresh();
    s.handle_event(Event::MousePressed { button: MouseButton::Primary }, 640, 480);
    s.on_cursor_moved(100, 100, 0, 480);
    s.on_cursor_moved(100, 100, 640, 0);
    s.handle_event(Event::CursorMoved { x: 5, y: 5 }, 0, 0);
    assert_eq!(s.stroke.len(), 0);
    assert!(!s.dirty);
}

#[test]
fn dirty_rises_on_append_and_falls_on_render() {
    let mut s = fresh();
    assert!(!s.dirty);
    s.on_cursor_moved(10, 10, 640, 480);
    assert!(s.dirty);
    let _ = s.render();
    assert!(!s.dirty);
    s.on_cursor_moved(20, 20, 640, 480);
    assert!(s.dirty);
}

#[test]
fn render_twice_without_input_is_identical() {
    let mut s = fresh();
    s.handle_event(Event::MousePressed { button: MouseButton::Primary }, 640, 480);
    s.on_cursor_moved(100, 100, 640, 480);
    s.on_cursor_moved(200, 150, 640, 480);
    let first = s.render();
    let second = s.render();
    assert_eq!(first, second);
}

#[test]
fn render_describes_clear_color_and_full_strip() {
    let mut s = fresh();
    s.on_cursor_moved(320, 240, 640, 480);
    let frame = s.render();
    assert_eq!(frame.clear_color, white());
    assert_eq!(frame.vertices.len(), 1);
    assert_eq!(frame.vertices[0], s.stroke[0]);
}

#[test]
fn actions_of_events() {
    let mut s = fresh();
    assert_eq!(s.handle_event(Event::CursorMoved { x: 1, y: 1 }, 640, 480), Action::Keep);
    assert_eq!(
        s.handle_event(Event::MousePressed { button: MouseButton::Primary }, 640, 480),
        Action::Keep
    );
    assert_eq!(
        s.handle_event(Event::MouseReleased { button: MouseButton::Primary }, 640, 480),
        Action::Keep
    );
    assert_eq!(s.handle_event(Event::TimerTick, 640, 480), Action::Render);
    assert_eq!(s.handle_event(Event::CloseRequested, 640, 480), Action::Exit);
}

#[test]
fn end_to_end_drag_scenario() {
    let mut s = fresh();
    s.handle_event(Event::MousePressed { button: MouseButton::Primary }, 640, 480);
    s.handle_event(Event::CursorMoved { x: 100, y: 100 }, 640, 480);
    s.handle_event(Event::CursorMoved { x: 200, y: 100 }, 640, 480);
    s.handle_event(Event::MouseReleased { button: MouseButton::Primary }, 640, 480);
    s.handle_event(Event::CursorMoved { x: 300, y: 100 }, 640, 480);

    assert_eq!(s.stroke.len(), 3);
    assert_eq!(s.stroke[0].color, red());
    assert_eq!(s.stroke[1].color, red());
    assert_eq!(s.stroke[2].color, white());

    assert_eq!(s.stroke[0].position.x.num, 2 * 100 - 640);
    assert_eq!(s.stroke[0].position.y.num, 480 - 2 * 100);
    assert_eq!(s.stroke[1].position.x.num, 2 * 200 - 640);
    assert_eq!(s.stroke[2].position.x.num, 2 * 300 - 640);
    assert_eq!(s.stroke[2].position.y.num, 480 - 2 * 100);
}

#[test]
fn stroke_buffer_never_shrinks() {
    let mut s = fresh();
    s.on_cursor_moved(1, 2, 640, 480);
    s.handle_event(Event::MousePressed { button: MouseButton::Primary }, 640, 480);
    s.on_cursor_moved(3, 4, 640, 480);
    let before = s.stroke.clone();
    let _ = s.render();
    s.handle_event(Event::MouseReleased { button: MouseButton::Primary }, 640, 480);
    s.handle_event(Event::TimerTick, 640, 480);
    s.on_cursor_moved(5, 6, 640, 480);
    assert_eq!(s.stroke.len(), 3);
    assert_eq!(&s.stroke[..before.len()], &before[..]);
}
