//! The event router: turns each event from the tray or the window runtime
//! into a call on the visibility controller, or into a request to exit.
use vstd::prelude::*;
use crate::geometry::TrayRect;
use crate::controller::{Action, VisibilityController, Window, toggled, toggle_steps, hidden, hide_steps};

verus! {

#[derive(Clone, Copy, Debug, PartialEq, Eq, Structural)]
pub enum MouseButton {
    Left,
    Right,
    Middle,
}

#[derive(Clone, Copy, Debug, PartialEq, Eq, Structural)]
pub enum ButtonState {
    Up,
    Down,
}

/// An event delivered by the tray or the window runtime.
#[derive(Debug)]
pub enum Event {
    WindowBlurred,
    TrayClicked { button: MouseButton, button_state: ButtonState },
    MenuItemClicked { id: String },
}

/// The exit status requested by the quit menu item.
pub const EXIT_OK: i32 = 0;

/// The identifier of the quit menu item.
pub open spec fn quit_id() -> Seq<char> {
    seq!['q', 'u', 'i', 't']
}

/// Only the release of the primary button toggles the window.
pub open spec fn is_toggle_click(e: Event) -> bool {
    e == (Event::TrayClicked { button: MouseButton::Left, button_state: ButtonState::Up })
}

/// Whether the event is a click on the quit menu item.
pub open spec fn is_quit(e: Event) -> bool {
    match e {
        Event::MenuItemClicked { id } => id@ == quit_id(),
        _ => false,
    }
}

/// The window after an event; `tray` is the tray icon's geometry at the time.
pub open spec fn after_event(c: Option<Window>, e: Event, tray: Option<TrayRect>) -> Option<Window> {
    match e {
        Event::WindowBlurred => hidden(c),
        Event::TrayClicked { .. } => if is_toggle_click(e) {
            toggled(c, tray)
        } else {
            c
        },
        Event::MenuItemClicked { .. } => c,
    }
}

/// The steps the runtime carries out for an event.
pub open spec fn event_steps(c: Option<Window>, e: Event, tray: Option<TrayRect>) -> Seq<Action> {
    match e {
        Event::WindowBlurred => hide_steps(c),
        Event::TrayClicked { .. } => if is_toggle_click(e) {
            toggle_steps(c, tray)
        } else {
            Seq::empty()
        },
        Event::MenuItemClicked { .. } => if is_quit(e) {
            seq![Action::Exit(EXIT_OK)]
        } else {
            Seq::empty()
        },
    }
}

/// Handles one event: focus loss hides the window, a left-button release on
/// the tray icon toggles it, the quit menu item asks to exit with status 0,
/// and everything else is ignored.
pub fn route(controller: &mut VisibilityController, event: &Event, tray: Option<TrayRect>) -> (steps: Vec<Action>)
    ensures
        final(controller).window == after_event(old(controller).window, *event, tray),
        steps@ == event_steps(old(controller).window, *event, tray),
{
    match event {
        Event::WindowBlurred => controller.hide_window(),
        Event::TrayClicked { button: MouseButton::Left, button_state: ButtonState::Up } => {
            controller.toggle_window(tray)
        },
        Event::TrayClicked { .. } => Vec::new(),
        Event::MenuItemClicked { id } => {
            let quit = String::from_str("quit");
            proof {
                reveal_strlit("quit");
                assert(quit@ =~= quit_id());
            }
            if *id == quit {
                let mut steps: Vec<Action> = Vec::new();
                steps.push(Action::Exit(EXIT_OK));
                assert(steps@ =~= seq![Action::Exit(EXIT_OK)]);
                steps
            } else {
                Vec::new()
            }
        },
    }
}

} // verus!
