//! The visibility controller: the one owner of the window's shown/hidden
//! state and of its anchor.
use vstd::prelude::*;
use crate::geometry::{Point, TrayRect, tray_bottom_center, anchor_for};

verus! {

/// What the controller knows of the window while its handle resolves.
#[derive(Clone, Copy, Debug, PartialEq, Eq, Structural)]
pub struct Window {
    pub visible: bool,
    /// The last position the window was moved to, if any.
    pub anchor: Option<Point>,
    /// The window's outer width in physical pixels.
    pub width: u32,
}

/// A step the window runtime is asked to carry out, in the order given.
#[derive(Clone, Copy, Debug, PartialEq, Eq, Structural)]
pub enum Action {
    MoveTo(Point),
    Show,
    SetFocus,
    Hide,
    Exit(i32),
}

/// Owns the window's state. `window` is `None` while the window handle cannot
/// be resolved; every operation is then skipped.
#[derive(Clone, Copy, Debug, PartialEq, Eq, Structural)]
pub struct VisibilityController {
    pub window: Option<Window>,
}

/// The window after a move to the tray anchor: the anchor changes only when
/// the tray's geometry is known.
pub open spec fn repositioned(w: Window, tray: Option<TrayRect>) -> Window {
    match tray_bottom_center(tray, w.width) {
        Some(p) => Window { anchor: Some(p), ..w },
        None => w,
    }
}

/// The move step, if the anchor can be computed.
pub open spec fn move_steps(w: Window, tray: Option<TrayRect>) -> Seq<Action> {
    match tray_bottom_center(tray, w.width) {
        Some(p) => seq![Action::MoveTo(p)],
        None => Seq::empty(),
    }
}

/// The window after it is hidden; without a handle nothing changes.
pub open spec fn hidden(c: Option<Window>) -> Option<Window> {
    match c {
        Some(w) => Some(Window { visible: false, ..w }),
        None => None,
    }
}

/// The steps of a hide: one, when the handle resolves.
pub open spec fn hide_steps(c: Option<Window>) -> Seq<Action> {
    match c {
        Some(w) => seq![Action::Hide],
        None => Seq::empty(),
    }
}

/// The window after it is shown: moved to the tray anchor, and visible.
pub open spec fn shown(c: Option<Window>, tray: Option<TrayRect>) -> Option<Window> {
    match c {
        Some(w) => Some(Window { visible: true, ..repositioned(w, tray) }),
        None => None,
    }
}

/// The steps of a show: the move, if any, then show, then focus.
pub open spec fn show_steps(c: Option<Window>, tray: Option<TrayRect>) -> Seq<Action> {
    match c {
        Some(w) => move_steps(w, tray) + seq![Action::Show, Action::SetFocus],
        None => Seq::empty(),
    }
}

/// Toggling shows a hidden window; a visible one is repositioned, then hidden.
pub open spec fn toggled(c: Option<Window>, tray: Option<TrayRect>) -> Option<Window> {
    match c {
        Some(w) => if w.visible {
            hidden(Some(repositioned(w, tray)))
        } else {
            shown(c, tray)
        },
        None => None,
    }
}

/// The steps of a toggle: those of a show, or the move, if any, then hide.
pub open spec fn toggle_steps(c: Option<Window>, tray: Option<TrayRect>) -> Seq<Action> {
    match c {
        Some(w) => if w.visible {
            move_steps(w, tray) + seq![Action::Hide]
        } else {
            show_steps(c, tray)
        },
        None => Seq::empty(),
    }
}

impl VisibilityController {
    pub fn new(window: Option<Window>) -> (r: Self)
        ensures
            r.window == window,
    {
        VisibilityController { window }
    }

    /// Moves the window to the tray anchor, when the tray's geometry is known.
    fn reposition(w: &mut Window, tray: Option<TrayRect>, steps: &mut Vec<Action>)
        ensures
            *final(w) == repositioned(*old(w), tray),
            final(steps)@ == old(steps)@ + move_steps(*old(w), tray),
    {
        match anchor_for(tray, w.width) {
            Some(p) => {
                w.anchor = Some(p);
                steps.push(Action::MoveTo(p));
            },
            None => {},
        }
    }

    /// Hides the window; hiding a hidden window changes nothing, and without a
    /// window handle the call is skipped.
    pub fn hide_window(&mut self) -> (steps: Vec<Action>)
        ensures
            final(self).window == hidden(old(self).window),
            steps@ == hide_steps(old(self).window),
    {
        let mut steps: Vec<Action> = Vec::new();
        match &mut self.window {
            Some(w) => {
                w.visible = false;
                steps.push(Action::Hide);
            },
            None => {},
        }
        steps
    }

    /// Moves the window to the tray anchor, then shows it, then focuses it.
    pub fn show_window(&mut self, tray: Option<TrayRect>) -> (steps: Vec<Action>)
        ensures
            final(self).window == shown(old(self).window, tray),
            steps@ == show_steps(old(self).window, tray),
    {
        let mut steps: Vec<Action> = Vec::new();
        match &mut self.window {
            Some(w) => {
                Self::reposition(w, tray, &mut steps);
                w.visible = true;
                steps.push(Action::Show);
                steps.push(Action::SetFocus);
            },
            None => {},
        }
        steps
    }

    /// Shows a hidden window; repositions, then hides, a visible one.
    pub fn toggle_window(&mut self, tray: Option<TrayRect>) -> (steps: Vec<Action>)
        ensures
            final(self).window == toggled(old(self).window, tray),
            steps@ == toggle_steps(old(self).window, tray),
    {
        let visible = match &self.window {
            Some(w) => w.visible,
            None => false,
        };
        if visible {
            let mut steps: Vec<Action> = Vec::new();
            match &mut self.window {
                Some(w) => {
                    Self::reposition(w, tray, &mut steps);
                    w.visible = false;
                    steps.push(Action::Hide);
                },
                None => {},
            }
            steps
        } else {
            self.show_window(tray)
        }
    }
}

} // verus!
