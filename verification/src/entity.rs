//! A toggle entity and its children as the two passes see them.

use vstd::prelude::*;

use crate::indicator::Visibility;
use crate::toggle::Toggle;

verus! {

/// What the pointer last did to a pressable node.
#[derive(Clone, Copy, Debug, PartialEq, Eq, Structural)]
pub enum Interaction {
    /// The node is being pressed.
    Pressed,
    /// The pointer rests on the node.
    Hovered,
    /// Neither.
    Idle,
}

/// Which of the widget's markers an entity carries.
#[derive(Clone, Copy, Debug, PartialEq, Eq, Structural)]
pub struct Markers {
    pub on: bool,
    pub fault: bool,
}

/// The indicator a child stands for.
#[derive(Clone, Copy, Debug, PartialEq, Eq, Structural)]
pub enum Indicator {
    Fault,
    On,
}

/// A direct child of a toggle entity.
#[derive(Clone, Copy, Debug, PartialEq, Eq, Structural)]
pub struct Child {
    pub markers: Markers,
    /// Whether the child carries a toggle state of its own.
    pub stateful: bool,
    pub visibility: Visibility,
    /// Raised by every write to `visibility`; the host lowers it.
    pub visibility_changed: bool,
}

impl Markers {
    /// Whether the entity carries neither marker. Only such an entity is
    /// treated as a toggle entity.
    pub open spec fn is_plain(self) -> bool {
        !self.on && !self.fault
    }

    /// Whether the entity carries neither marker.
    pub fn plain(&self) -> (plain: bool)
        ensures
            plain == self.is_plain(),
    {
        !self.on && !self.fault
    }
}

impl Child {
    /// The indicator this child stands for: the one whose marker it carries,
    /// provided it carries no other marker and no state of its own.
    pub open spec fn role(self) -> Option<Indicator> {
        if self.stateful {
            None
        } else if self.markers.on && !self.markers.fault {
            Some(Indicator::On)
        } else if self.markers.fault && !self.markers.on {
            Some(Indicator::Fault)
        } else {
            None
        }
    }

    /// The indicator this child stands for, if any.
    pub fn indicator(&self) -> (role: Option<Indicator>)
        ensures
            role == self.role(),
    {
        if self.stateful {
            None
        } else if self.markers.on && !self.markers.fault {
            Some(Indicator::On)
        } else if self.markers.fault && !self.markers.on {
            Some(Indicator::Fault)
        } else {
            None
        }
    }
}

/// The visibility that a state with the flags `toggled` and `fault` gives
/// `child`: that of the indicator the child stands for, and none where it
/// stands for neither.
pub open spec fn target_visibility(toggled: bool, fault: bool, child: Child) -> Option<Visibility> {
    match child.role() {
        Some(Indicator::On) => Some(Visibility::indicating(toggled)),
        Some(Indicator::Fault) => Some(Visibility::indicating(fault)),
        None => None,
    }
}

/// An entity that carries a toggle state, with what the host tracks of it.
#[derive(Debug)]
pub struct ToggleEntity<T> {
    pub markers: Markers,
    pub toggle: T,
    /// Raised when the state was written since the visibility pass last ran.
    pub toggle_changed: bool,
    pub interaction: Interaction,
    /// Raised when the interaction was written since the press pass last ran.
    pub interaction_changed: bool,
    pub children: Vec<Child>,
}

/// The mathematical reading of a [`ToggleEntity`].
pub struct ToggleEntityView<T> {
    pub markers: Markers,
    pub toggle: T,
    pub toggle_changed: bool,
    pub interaction: Interaction,
    pub interaction_changed: bool,
    pub children: Seq<Child>,
}

impl<T> View for ToggleEntity<T> {
    type V = ToggleEntityView<T>;

    open spec fn view(&self) -> ToggleEntityView<T> {
        ToggleEntityView {
            markers: self.markers,
            toggle: self.toggle,
            toggle_changed: self.toggle_changed,
            interaction: self.interaction,
            interaction_changed: self.interaction_changed,
            children: self.children@,
        }
    }
}

impl<T: Toggle> ToggleEntityView<T> {
    /// Every indicator child shows what the state says.
    pub open spec fn in_sync(self) -> bool {
        forall|k: int|
            0 <= k < self.children.len() ==> match target_visibility(
                self.toggle.toggled(),
                self.toggle.fault(),
                #[trigger] self.children[k],
            ) {
                Some(visibility) => self.children[k].visibility == visibility,
                None => true,
            }
    }

    /// No two children stand for the same indicator.
    pub open spec fn indicators_unique(self) -> bool {
        forall|j: int, k: int|
            0 <= j < self.children.len() && 0 <= k < self.children.len() && (
            #[trigger] self.children[j]).role() is Some && self.children[j].role() == (
            #[trigger] self.children[k]).role() ==> j == k
    }

    /// The invariant of a toggle entity: it has at most one indicator of each
    /// kind, and once the visibility pass has caught up with its state, the
    /// indicators show that state.
    pub open spec fn well_formed(self) -> bool {
        &&& self.indicators_unique()
        &&& self.markers.is_plain() && !self.toggle_changed ==> self.in_sync()
    }

    /// The entity once the host has recorded `interaction` on it.
    pub open spec fn with_interaction(self, interaction: Interaction) -> ToggleEntityView<T> {
        ToggleEntityView { interaction, interaction_changed: true, ..self }
    }
}

} // verus!
