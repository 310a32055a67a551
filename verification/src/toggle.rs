//! The capability a state type needs in order to drive a toggle button.

use vstd::prelude::*;

verus! {

/// State that a toggle button can show and flip.
///
/// `toggled` and `fault` are the mathematical reading of a state; the
/// executable queries report exactly them. `toggles_to` says what `toggle`
/// may turn a state into. Every implementation inverts the toggled state;
/// one that promises more, such as leaving the fault flag alone, says so in
/// its own `toggles_to`.
pub trait Toggle {
    /// Whether the state counts as switched on.
    spec fn toggled(&self) -> bool;

    /// Whether the state reports a fault.
    spec fn fault(&self) -> bool;

    /// Whether `toggle` may turn this state into `next`.
    open spec fn toggles_to(&self, next: &Self) -> bool {
        next.toggled() == !self.toggled()
    }

    fn is_toggled(&self) -> (on: bool)
        ensures
            on == self.toggled(),
    ;

    fn is_fault(&self) -> (fault: bool)
        ensures
            fault == self.fault(),
    ;

    /// Flips the toggled state.
    fn toggle(&mut self)
        ensures
            old(self).toggles_to(final(self)),
            final(self).toggled() == !old(self).toggled(),
    ;
}

} // verus!
