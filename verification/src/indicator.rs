//! The two indicators of a toggle button and what decides whether they show.

use vstd::prelude::*;

use crate::toggle::Toggle;

verus! {

/// Whether an entity is drawn.
#[derive(Clone, Copy, Debug, PartialEq, Eq, Structural)]
pub enum Visibility {
    /// Drawn whenever the parent is drawn.
    Inherited,
    /// Never drawn.
    Hidden,
    /// Drawn even where the parent is hidden.
    Visible,
}

impl Visibility {
    /// The visibility of an indicator whose condition is `shown`: it follows
    /// its parent while the condition holds and is hidden while it does not.
    pub open spec fn indicating(shown: bool) -> Visibility {
        if shown {
            Visibility::Inherited
        } else {
            Visibility::Hidden
        }
    }

    /// The visibility of an indicator whose condition is `shown`.
    pub fn of(shown: bool) -> (visibility: Visibility)
        ensures
            visibility == Visibility::indicating(shown),
    {
        if shown {
            Visibility::Inherited
        } else {
            Visibility::Hidden
        }
    }
}

/// Marks the child that shows while the state reports a fault.
#[derive(Clone, Copy, Debug, Default, PartialEq, Eq, Structural)]
pub struct ToggleFault;

/// Marks the child that shows while the state is switched on.
#[derive(Clone, Copy, Debug, Default, PartialEq, Eq, Structural)]
pub struct ToggleOn;

impl ToggleFault {
    /// The visibility the fault indicator has under `toggle`.
    pub fn visibility<T: Toggle>(toggle: &T) -> (visibility: Visibility)
        ensures
            visibility == Visibility::indicating(toggle.fault()),
    {
        Visibility::of(toggle.is_fault())
    }
}

impl ToggleOn {
    /// The visibility the "on" indicator has under `toggle`.
    pub fn visibility<T: Toggle>(toggle: &T) -> (visibility: Visibility)
        ensures
            visibility == Visibility::indicating(toggle.toggled()),
    {
        Visibility::of(toggle.is_toggled())
    }
}

} // verus!
