//! Presentation constants of the widget.

use vstd::prelude::*;

use bevy::color::Color;
use bevy::text::TextFont;
use bevy::ui::Val;

use crate::engine::{
    clone_font, color_srgb_u8, font_from_size, px, srgb_u8, text_font_from_size, val_px,
};

verus! {

/// The style every toggle button is built with.
#[derive(Debug)]
pub struct ToggleButtonAssets {
    /// Edge of the pressable box, and width of the whole widget.
    pub size: Val,
    /// Corner radius; also the gap, padding and border width inside the widget.
    pub border_radius: Val,
    pub text_font: TextFont,
    /// Fill of the pressable box.
    pub background_color: Color,
    /// Colour of the fault caption.
    pub fault_color: Color,
    /// Colour of the "on" caption and of its frame.
    pub color: Color,
}

impl ToggleButtonAssets {
    /// Whether this is the style a widget gets when the application has
    /// chosen none.
    pub open spec fn is_standard(self) -> bool {
        &&& self.size == val_px(100)
        &&& self.border_radius == val_px(3)
        &&& self.text_font == text_font_from_size(15)
        &&& self.background_color == color_srgb_u8(0x1b, 0x1b, 0x1b)
        &&& self.fault_color == color_srgb_u8(0xf2, 0x83, 0x49)
        &&& self.color == color_srgb_u8(0x1a, 0xe1, 0x90)
    }
}

impl Clone for ToggleButtonAssets {
    fn clone(&self) -> (copy: Self)
        ensures
            copy == *self,
    {
        ToggleButtonAssets {
            size: self.size,
            border_radius: self.border_radius,
            text_font: clone_font(&self.text_font),
            background_color: self.background_color,
            fault_color: self.fault_color,
            color: self.color,
        }
    }
}

impl Default for ToggleButtonAssets {
    fn default() -> (assets: Self)
        ensures
            assets.is_standard(),
    {
        ToggleButtonAssets {
            size: px(100),
            border_radius: px(3),
            text_font: font_from_size(15),
            background_color: srgb_u8(0x1b, 0x1b, 0x1b),
            fault_color: srgb_u8(0xf2, 0x83, 0x49),
            color: srgb_u8(0x1a, 0xe1, 0x90),
        }
    }
}

} // verus!
