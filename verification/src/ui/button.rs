//! Buttons that run an action for each mouse button.
use vstd::prelude::*;

verus! {

/// The mouse button that clicked.
#[derive(Clone, Copy, Debug, PartialEq, Eq, Hash, Structural)]
pub enum PointerButton {
    Primary,
    Secondary,
    Middle,
}

/// What a click runs: nothing, a system of no input (`G`), or a system
/// given the clicked button (`T`).
#[derive(Clone, Copy, Debug, PartialEq, Eq)]
pub enum ButtonAction<G, T> {
    NoAction,
    Global(G),
    Targeted(T),
}

/// The action of each mouse button on a button.
pub struct ButtonActions<G, T> {
    on_primary: ButtonAction<G, T>,
    on_middle: ButtonAction<G, T>,
    on_secondary: ButtonAction<G, T>,
}

impl<G, T> ButtonActions<G, T> {
    pub closed spec fn spec_action(&self, button: PointerButton) -> ButtonAction<G, T> {
        match button {
            PointerButton::Primary => self.on_primary,
            PointerButton::Middle => self.on_middle,
            PointerButton::Secondary => self.on_secondary,
        }
    }

    /// No action on any button.
    pub fn new() -> (r: ButtonActions<G, T>)
        ensures
            forall|b: PointerButton| #[trigger] r.spec_action(b) == ButtonAction::<G, T>::NoAction,
    {
        ButtonActions {
            on_primary: ButtonAction::NoAction,
            on_middle: ButtonAction::NoAction,
            on_secondary: ButtonAction::NoAction,
        }
    }

    /// The same actions but `action` on the primary button.
    pub fn with_primary(self, action: ButtonAction<G, T>) -> (r: ButtonActions<G, T>)
        ensures
            forall|b: PointerButton| #[trigger] r.spec_action(b) == if b == PointerButton::Primary {
                action
            } else {
                self.spec_action(b)
            },
    {
        let mut s = self;
        s.on_primary = action;
        s
    }

    /// The same actions but `action` on the middle button.
    pub fn with_middle(self, action: ButtonAction<G, T>) -> (r: ButtonActions<G, T>)
        ensures
            forall|b: PointerButton| #[trigger] r.spec_action(b) == if b == PointerButton::Middle {
                action
            } else {
                self.spec_action(b)
            },
    {
        let mut s = self;
        s.on_middle = action;
        s
    }

    /// The same actions but `action` on the secondary button.
    pub fn with_secondary(self, action: ButtonAction<G, T>) -> (r: ButtonActions<G, T>)
        ensures
            forall|b: PointerButton| #[trigger] r.spec_action(b) == if b
                == PointerButton::Secondary {
                action
            } else {
                self.spec_action(b)
            },
    {
        let mut s = self;
        s.on_secondary = action;
        s
    }

    /// The action that a click with `button` runs.
    pub fn action_for(&self, button: PointerButton) -> (r: &ButtonAction<G, T>)
        ensures
            *r == self.spec_action(button),
    {
        match button {
            PointerButton::Primary => &self.on_primary,
            PointerButton::Middle => &self.on_middle,
            PointerButton::Secondary => &self.on_secondary,
        }
    }
}

} // verus!
