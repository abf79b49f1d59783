//! Properties of the controller and the router that hold for every state and
//! every event sequence.
use vstd::prelude::*;
use crate::geometry::{TrayRect, tray_bottom_center};
use crate::controller::{Action, Window, hidden, hide_steps, shown, show_steps};
use crate::router::{Event, MouseButton, ButtonState, after_event, event_steps};

verus! {

/// The window after a sequence of events, each with the tray geometry at the
/// time it was handled, taken in order.
pub open spec fn after_events(c: Option<Window>, events: Seq<(Event, Option<TrayRect>)>) -> Option<Window>
    decreases events.len(),
{
    if events.len() == 0 {
        c
    } else {
        let (e, tray) = events.last();
        after_event(after_events(c, events.drop_last()), e, tray)
    }
}

/// After any number of left-button releases on the tray icon, the window is
/// visible exactly when it started visible and the number of clicks is even,
/// or started hidden and the number is odd.
pub proof fn lemma_clicks_alternate(w: Window, events: Seq<(Event, Option<TrayRect>)>)
    requires
        forall|i: int| 0 <= i < events.len() ==> #[trigger] events[i].0 == (Event::TrayClicked {
            button: MouseButton::Left,
            button_state: ButtonState::Up,
        }),
    ensures
        after_events(Some(w), events) is Some,
        after_events(Some(w), events)->Some_0.visible == (w.visible != (events.len() % 2 == 1)),
    decreases events.len(),
{
    if events.len() > 0 {
        let rest = events.drop_last();
        assert forall|i: int| 0 <= i < rest.len() implies #[trigger] rest[i].0 == (Event::TrayClicked {
            button: MouseButton::Left,
            button_state: ButtonState::Up,
        }) by {
            assert(rest[i] == events[i]);
        }
        lemma_clicks_alternate(w, rest);
        assert(events[events.len() - 1].0 == (Event::TrayClicked {
            button: MouseButton::Left,
            button_state: ButtonState::Up,
        }));
    }
}

/// Hiding twice in a row leaves the window hidden after each call, and the
/// second call changes nothing.
pub proof fn lemma_hide_idempotent(c: Option<Window>)
    requires
        c is Some,
    ensures
        hidden(c) is Some,
        !hidden(c)->Some_0.visible,
        hidden(hidden(c)) == hidden(c),
        hide_steps(hidden(c)) == seq![Action::Hide],
{
}

/// Showing moves the window to the tray anchor computed at that moment before
/// it shows and focuses it.
pub proof fn lemma_show_moves_first(w: Window, tray: Option<TrayRect>)
    requires
        tray is Some,
    ensures
        shown(Some(w), tray) is Some,
        shown(Some(w), tray)->Some_0.visible,
        shown(Some(w), tray)->Some_0.anchor == tray_bottom_center(tray, w.width),
        show_steps(Some(w), tray) == seq![
            Action::MoveTo(tray_bottom_center(tray, w.width)->Some_0),
            Action::Show,
            Action::SetFocus,
        ],
{
    assert(show_steps(Some(w), tray) =~= seq![
        Action::MoveTo(tray_bottom_center(tray, w.width)->Some_0),
        Action::Show,
        Action::SetFocus,
    ]);
}

/// Focus loss always leaves the window hidden, whatever it was before.
pub proof fn lemma_blur_hides(w: Window, tray: Option<TrayRect>)
    ensures
        after_event(Some(w), Event::WindowBlurred, tray) == Some(Window { visible: false, ..w }),
{
}

/// A click with any button but the left, or a press rather than a release,
/// changes nothing and asks the runtime for nothing.
pub proof fn lemma_other_clicks_ignored(
    c: Option<Window>,
    button: MouseButton,
    button_state: ButtonState,
    tray: Option<TrayRect>,
)
    requires
        button != MouseButton::Left || button_state == ButtonState::Down,
    ensures
        after_event(c, Event::TrayClicked { button, button_state }, tray) == c,
        event_steps(c, Event::TrayClicked { button, button_state }, tray) == Seq::<Action>::empty(),
{
}

} // verus!
