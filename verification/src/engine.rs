//! The values of the host engine that the widget hands on unread, and the
//! few engine constructors it calls to make its own.
//!
//! Nothing here is proved. Each type is opaque to the proofs, and each
//! function is believed to return what its contract names.

use vstd::prelude::*;

use bevy::color::Color;
use bevy::text::TextFont;
use bevy::ui::widget::Text;
use bevy::ui::Val;

verus! {

/// `bevy::ecs::entity::Entity`, the engine's handle of an entity.
#[verifier::external_type_specification]
#[verifier::external_body]
pub struct ExEntity(bevy::ecs::entity::Entity);

/// `bevy::ui::Val`, a length of the layout engine.
#[verifier::external_type_specification]
#[verifier::external_body]
pub struct ExVal(bevy::ui::Val);

/// `bevy::color::Color`, a colour in any of the engine's colour spaces.
#[verifier::external_type_specification]
#[verifier::external_body]
pub struct ExColor(bevy::color::Color);

/// `bevy::text::TextFont`, the face and size a text is set in.
#[verifier::external_type_specification]
#[verifier::external_body]
pub struct ExTextFont(bevy::text::TextFont);

/// `bevy::ui::widget::Text`, the text of a node.
#[verifier::external_type_specification]
#[verifier::external_body]
pub struct ExText(bevy::ui::widget::Text);

/// The length `Val::Px` makes of `value` pixels.
pub uninterp spec fn val_px(value: u16) -> Val;

/// The length `Val::Percent` makes of `value` percent.
pub uninterp spec fn val_percent(value: u16) -> Val;

/// The colour `Color::srgb_u8` makes of three sRGB channels.
pub uninterp spec fn color_srgb_u8(red: u8, green: u8, blue: u8) -> Color;

/// The font `TextFont::from_font_size` makes of a size in pixels.
pub uninterp spec fn text_font_from_size(size: u16) -> TextFont;

/// The text `Text::new` makes of a string.
pub uninterp spec fn text_of(content: Seq<char>) -> Text;

/// Calls `Val::Px` on `value` as a float. Believed: the result depends on
/// `value` alone.
#[verifier::external_body]
pub(crate) fn px(value: u16) -> (length: Val)
    ensures
        length == val_px(value),
{
    Val::Px(value.into())
}

/// Calls `Val::Percent` on `value` as a float. Believed: the result depends
/// on `value` alone.
#[verifier::external_body]
pub(crate) fn percent(value: u16) -> (length: Val)
    ensures
        length == val_percent(value),
{
    Val::Percent(value.into())
}

/// Calls `Color::srgb_u8`. Believed: the result depends on the three
/// channels alone.
#[verifier::external_body]
pub(crate) fn srgb_u8(red: u8, green: u8, blue: u8) -> (color: Color)
    ensures
        color == color_srgb_u8(red, green, blue),
{
    Color::srgb_u8(red, green, blue)
}

/// Calls `TextFont::from_font_size` on `size` as a float, which gives the
/// engine's default font in that size. Believed: the result depends on
/// `size` alone.
#[verifier::external_body]
pub(crate) fn font_from_size(size: u16) -> (font: TextFont)
    ensures
        font == text_font_from_size(size),
{
    TextFont::from_font_size(size.into())
}

/// Calls `TextFont::clone`. Believed: the copy has the face, the size and
/// the smoothing of `font`.
#[verifier::external_body]
pub(crate) fn clone_font(font: &TextFont) -> (copy: TextFont)
    ensures
        copy == *font,
{
    font.clone()
}

/// Calls `Text::new`. Believed: the result depends on the characters of
/// `content` alone.
#[verifier::external_body]
pub(crate) fn new_text(content: &str) -> (made: Text)
    ensures
        made == text_of(content@),
{
    Text::new(content)
}

} // verus!
