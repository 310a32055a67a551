//! The part of a node's layout that the widget sets.

use vstd::prelude::*;

use bevy::ui::Val;

verus! {

/// One length for each edge of a box.
#[derive(Clone, Copy, Debug, PartialEq)]
pub struct Sides {
    pub left: Val,
    pub right: Val,
    pub top: Val,
    pub bottom: Val,
}

impl Sides {
    /// The same length on every edge.
    pub open spec fn uniform(value: Val) -> Sides {
        Sides { left: value, right: value, top: value, bottom: value }
    }

    /// `horizontal` on the left and right edges, `vertical` on the top and
    /// bottom ones.
    pub open spec fn paired(horizontal: Val, vertical: Val) -> Sides {
        Sides { left: horizontal, right: horizontal, top: vertical, bottom: vertical }
    }

    /// A box with `value` on every edge.
    pub fn all(value: Val) -> (sides: Sides)
        ensures
            sides == Sides::uniform(value),
    {
        Sides { left: value, right: value, top: value, bottom: value }
    }

    /// A box with `horizontal` to the left and right and `vertical` above
    /// and below.
    pub fn axes(horizontal: Val, vertical: Val) -> (sides: Sides)
        ensures
            sides == Sides::paired(horizontal, vertical),
    {
        Sides { left: horizontal, right: horizontal, top: vertical, bottom: vertical }
    }
}

/// The axis along which a node lines up its children.
#[derive(Clone, Copy, Debug, PartialEq, Eq, Structural)]
pub enum FlexDirection {
    Row,
    Column,
}

/// How a node spreads its children along the main axis.
#[derive(Clone, Copy, Debug, PartialEq, Eq, Structural)]
pub enum JustifyContent {
    /// Left to the layout engine.
    Auto,
    SpaceEvenly,
}

/// How a node places each child inside the room the child is given.
#[derive(Clone, Copy, Debug, PartialEq, Eq, Structural)]
pub enum ItemAlignment {
    /// Left to the layout engine.
    Auto,
    Center,
}

/// How the lines of a text are set against each other.
#[derive(Clone, Copy, Debug, PartialEq, Eq, Structural)]
pub enum JustifyText {
    Left,
    Center,
}

/// Where a text may wrap.
#[derive(Clone, Copy, Debug, PartialEq, Eq, Structural)]
pub enum LineBreak {
    WordBoundary,
    AnyCharacter,
}

/// The layout properties of a node that the widget ever sets. A length or a
/// box that is `None` keeps the layout engine's default, as does every
/// property that is not listed.
#[derive(Clone, Copy, Debug, PartialEq)]
pub struct Layout {
    pub width: Option<Val>,
    pub height: Option<Val>,
    pub padding: Option<Sides>,
    pub border: Option<Sides>,
    pub flex_direction: FlexDirection,
    pub column_gap: Option<Val>,
    pub justify_content: JustifyContent,
    pub justify_items: ItemAlignment,
    pub align_items: ItemAlignment,
}

impl Layout {
    /// The layout of a node on which nothing was set.
    pub open spec fn unset() -> Layout {
        Layout {
            width: None,
            height: None,
            padding: None,
            border: None,
            flex_direction: FlexDirection::Row,
            column_gap: None,
            justify_content: JustifyContent::Auto,
            justify_items: ItemAlignment::Auto,
            align_items: ItemAlignment::Auto,
        }
    }
}

impl Default for Layout {
    fn default() -> (layout: Self)
        ensures
            layout == Layout::unset(),
    {
        Layout {
            width: None,
            height: None,
            padding: None,
            border: None,
            flex_direction: FlexDirection::Row,
            column_gap: None,
            justify_content: JustifyContent::Auto,
            justify_items: ItemAlignment::Auto,
            align_items: ItemAlignment::Auto,
        }
    }
}

} // verus!
