use tray_window::controller::{Action, VisibilityController, Window};
use tray_window::geometry::{anchor_for, Point, TrayRect};
use tray_window::greeting::greet;
use tray_window::router::{route, ButtonState, Event, MouseButton};

fn window(visible: bool) -> Window {
    Window { visible, anchor: None, width: 100 }
}

fn tray() -> Option<TrayRect> {
    Some(TrayRect { x: 500, y: 1000, width: 20, height: 20 })
}

fn left_up() -> Event {
    Event::TrayClicked { button: MouseButton::Left, button_state: ButtonState::Up }
}

#[test]
fn greet_formats_name() {
    assert_eq!(greet("Ann"), "Hello, Ann! You've been greeted from Rust!");
    assert_eq!(greet(""), "Hello, ! You've been greeted from Rust!");
}

#[test]
fn anchor_is_bottom_center_of_tray() {
    assert_eq!(anchor_for(tray(), 100), Some(Point { x: 460, y: 1000 }));
    assert_eq!(anchor_for(tray(), 101), Some(Point { x: 460, y: 1000 }));
    let edge = Some(TrayRect { x: -10, y: 0, width: 31, height: 24 });
    assert_eq!(anchor_for(edge, 400), Some(Point { x: -195, y: 0 }));
}

#[test]
fn anchor_without_tray_geometry() {
    assert_eq!(anchor_for(None, 100), None);
}

#[test]
fn clicks_alternate_visibility() {
    for initial in [false, true] {
        let mut c = VisibilityController::new(Some(window(initial)));
        for n in 1..=7u32 {
            route(&mut c, &left_up(), tray());
            assert_eq!(c.window.unwrap().visible, initial ^ (n % 2 == 1));
        }
    }
}

#[test]
fn hide_twice_is_idempotent() {
    let mut c = VisibilityController::new(Some(window(true)));
    assert_eq!(c.hide_window(), vec![Action::Hide]);
    assert!(!c.window.unwrap().visible);
    assert_eq!(c.hide_window(), vec![Action::Hide]);
    assert!(!c.window.unwrap().visible);
}

#[test]
fn hide_without_window_is_skipped() {
    let mut c = VisibilityController::new(None);
    assert_eq!(c.hide_window(), vec![]);
    assert_eq!(c.show_window(tray()), vec![]);
    assert_eq!(c.toggle_window(tray()), vec![]);
    assert_eq!(c.window, None);
}

#[test]
fn show_moves_before_showing() {
    let mut c = VisibilityController::new(Some(window(false)));
    let steps = c.show_window(tray());
    let p = Point { x: 460, y: 1000 };
    assert_eq!(steps, vec![Action::MoveTo(p), Action::Show, Action::SetFocus]);
    assert_eq!(c.window, Some(Window { visible: true, anchor: Some(p), width: 100 }));
}

#[test]
fn show_without_tray_geometry_skips_move() {
    let old = Point { x: 3, y: 4 };
    let mut c = VisibilityController::new(Some(Window { visible: false, anchor: Some(old), width: 100 }));
    assert_eq!(c.show_window(None), vec![Action::Show, Action::SetFocus]);
    assert_eq!(c.window, Some(Window { visible: true, anchor: Some(old), width: 100 }));
}

#[test]
fn toggle_repositions_before_hiding() {
    let mut c = VisibilityController::new(Some(window(true)));
    let steps = c.toggle_window(tray());
    let p = Point { x: 460, y: 1000 };
    assert_eq!(steps, vec![Action::MoveTo(p), Action::Hide]);
    assert_eq!(c.window, Some(Window { visible: false, anchor: Some(p), width: 100 }));
}

#[test]
fn blur_hides_from_any_state() {
    for initial in [false, true] {
        let mut c = VisibilityController::new(Some(window(initial)));
        assert_eq!(route(&mut c, &Event::WindowBlurred, tray()), vec![Action::Hide]);
        assert!(!c.window.unwrap().visible);
    }
}

#[test]
fn other_clicks_are_ignored() {
    let clicks = [
        (MouseButton::Right, ButtonState::Up),
        (MouseButton::Right, ButtonState::Down),
        (MouseButton::Middle, ButtonState::Up),
        (MouseButton::Left, ButtonState::Down),
    ];
    for visible in [false, true] {
        for (button, button_state) in clicks {
            let mut c = VisibilityController::new(Some(window(visible)));
            let steps = route(&mut c, &Event::TrayClicked { button, button_state }, tray());
            assert_eq!(steps, vec![]);
            assert_eq!(c.window, Some(window(visible)));
        }
    }
}

#[test]
fn blur_then_click_then_quit() {
    let mut c = VisibilityController::new(Some(window(true)));
    route(&mut c, &Event::WindowBlurred, tray());
    assert!(!c.window.unwrap().visible);
    route(&mut c, &left_up(), tray());
    assert!(c.window.unwrap().visible);
    assert_eq!(c.window.unwrap().anchor, Some(Point { x: 460, y: 1000 }));
    let steps = route(&mut c, &Event::MenuItemClicked { id: "quit".to_string() }, tray());
    assert_eq!(steps, vec![Action::Exit(0)]);
}

#[test]
fn unknown_menu_item_is_ignored() {
    let mut c = VisibilityController::new(Some(window(true)));
    let steps = route(&mut c, &Event::MenuItemClicked { id: "bogus".to_string() }, tray());
    assert_eq!(steps, vec![]);
    assert_eq!(c.window, Some(window(true)));
}
