//! What the widget registers with the host: its style and its two passes.

use core::marker::PhantomData;
use vstd::prelude::*;

use crate::entity::{ToggleEntity, ToggleEntityView};
use crate::style::ToggleButtonAssets;
use crate::systems::{handle_toggle_button_interactions, handled, sync_toggle_ui, synced};
use crate::toggle::Toggle;

verus! {

/// The widget for the state type `T`.
pub struct ToggleButtonPlugin<T: Toggle + Default>(pub PhantomData<T>);

impl<T: Toggle + Default> Default for ToggleButtonPlugin<T> {
    fn default() -> (plugin: Self)
        ensures
            plugin == ToggleButtonPlugin::<T>(PhantomData),
    {
        ToggleButtonPlugin(PhantomData)
    }
}

/// How one frame relates an entity before it to the entity after it: the
/// press pass has run to its end, and the visibility pass has then run on
/// what it left.
pub open spec fn updated<T: Toggle>(
    before: ToggleEntityView<T>,
    after: ToggleEntityView<T>,
) -> bool {
    exists|between: ToggleEntityView<T>| #[trigger]
        handled(before, between) && after == synced(between)
}

impl<T: Toggle + Default> ToggleButtonPlugin<T> {
    /// The style in force once the widget is registered: the one the
    /// application installed before, and the standard one where it installed
    /// none.
    pub fn build(&self, installed: Option<ToggleButtonAssets>) -> (assets: ToggleButtonAssets)
        ensures
            match installed {
                Some(chosen) => assets == chosen,
                None => assets.is_standard(),
            },
    {
        match installed {
            Some(chosen) => chosen,
            None => ToggleButtonAssets::default(),
        }
    }

    /// One frame of the widget: the press pass, then the visibility pass.
    pub fn update(&self, entities: &mut Vec<ToggleEntity<T>>)
        ensures
            final(entities).len() == old(entities).len(),
            forall|i: int|
                0 <= i < old(entities).len() ==> updated(
                    old(entities)[i]@,
                    #[trigger] final(entities)[i]@,
                ),
    {
        handle_toggle_button_interactions(entities);
        let ghost between = entities@;
        sync_toggle_ui(entities);
        assert forall|i: int| 0 <= i < old(entities).len() implies updated(
            old(entities)[i]@,
            #[trigger] entities[i]@,
        ) by {
            assert(handled(old(entities)[i]@, between[i]@));
        }
    }
}

} // verus!
