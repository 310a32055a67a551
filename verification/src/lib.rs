//! A toggle button widget: a pressable box that flips an application-defined
//! state and shows two indicators derived from it.
//!
//! The library decides; a host engine draws. [`SpawnToggleButton`] describes
//! the subtree of a new button, [`handle_toggle_button_interactions`] turns
//! presses into state changes, and [`sync_toggle_ui`] turns state changes
//! into indicator visibilities. What holds of these taken together is proved
//! in [`laws`].

pub mod engine;
pub mod entity;
pub mod indicator;
pub mod laws;
pub mod layout;
pub mod plugin;
pub mod spawn;
pub mod style;
pub mod systems;
pub mod toggle;

pub use crate::indicator::{ToggleFault, ToggleOn};
pub use crate::plugin::ToggleButtonPlugin;
pub use crate::spawn::SpawnToggleButton;
pub use crate::style::ToggleButtonAssets;
pub use crate::systems::{handle_toggle_button_interactions, sync_toggle_ui};
pub use crate::toggle::Toggle;
