//! Building a toggle button: the command and the subtree it describes.

use vstd::prelude::*;

use bevy::color::Color;
use bevy::ecs::entity::Entity;
use bevy::text::TextFont;
use bevy::ui::widget::Text;
use bevy::ui::Val;

use crate::engine::{clone_font, new_text, percent, text_of, val_percent};
use crate::entity::{Child, Interaction, Markers, ToggleEntity, ToggleEntityView};
use crate::indicator::{ToggleFault, ToggleOn, Visibility};
use crate::layout::{
    FlexDirection, ItemAlignment, JustifyContent, JustifyText, Layout, LineBreak, Sides,
};
use crate::style::ToggleButtonAssets;
use crate::toggle::Toggle;

verus! {

/// The text above the pressable box.
#[derive(Debug)]
pub struct LabelNode {
    pub text: Text,
    pub font: TextFont,
    pub justify: JustifyText,
    pub linebreak: LineBreak,
}

/// The pressable box, which owns the state.
#[derive(Debug)]
pub struct ButtonNode<T> {
    pub toggle: T,
    pub layout: Layout,
    pub background_color: Color,
    /// Radius of all four corners.
    pub border_radius: Val,
}

/// An indicator inside the pressable box, with the caption it holds.
#[derive(Debug)]
pub struct IndicatorNode<M> {
    pub marker: M,
    pub visibility: Visibility,
    pub layout: Layout,
    /// Radius of all four corners of the frame, where the indicator has one.
    pub border_radius: Option<Val>,
    /// Colour of the frame, where the indicator has one.
    pub border_color: Option<Color>,
    pub caption: Text,
    pub caption_color: Color,
}

/// The subtree of one toggle button: a container that holds the label and
/// the pressable box, which in turn holds the fault indicator and the "on"
/// indicator, in this order.
#[derive(Debug)]
pub struct ToggleButtonTree<T> {
    /// The entity the container becomes a child of, if any.
    pub parent: Option<Entity>,
    pub container: Layout,
    pub label: LabelNode,
    pub button: ButtonNode<T>,
    pub fault: IndicatorNode<ToggleFault>,
    pub on: IndicatorNode<ToggleOn>,
}

/// Layout of the container: as wide as the box, its children in a column.
pub open spec fn container_layout(assets: ToggleButtonAssets) -> Layout {
    Layout {
        width: Some(assets.size),
        flex_direction: FlexDirection::Column,
        column_gap: Some(assets.border_radius),
        ..Layout::unset()
    }
}

/// Layout of the pressable box: a square that centres its indicators and
/// spreads them evenly.
pub open spec fn button_layout(assets: ToggleButtonAssets) -> Layout {
    Layout {
        width: Some(assets.size),
        height: Some(assets.size),
        padding: Some(Sides::uniform(assets.border_radius)),
        flex_direction: FlexDirection::Column,
        column_gap: Some(assets.border_radius),
        justify_content: JustifyContent::SpaceEvenly,
        justify_items: ItemAlignment::Center,
        align_items: ItemAlignment::Center,
        ..Layout::unset()
    }
}

/// The fault indicator under a state whose fault flag is `fault`: a bordered
/// caption in the fault colour.
pub open spec fn fault_indicator(assets: ToggleButtonAssets, fault: bool) -> IndicatorNode<
    ToggleFault,
> {
    IndicatorNode {
        marker: ToggleFault,
        visibility: Visibility::indicating(fault),
        layout: Layout {
            justify_items: ItemAlignment::Center,
            align_items: ItemAlignment::Center,
            border: Some(Sides::uniform(assets.border_radius)),
            ..Layout::unset()
        },
        border_radius: None,
        border_color: None,
        caption: text_of("FAULT"@),
        caption_color: assets.fault_color,
    }
}

/// The "on" indicator under a state whose toggled flag is `toggled`: a
/// caption in a rounded frame, both in the widget's colour.
pub open spec fn on_indicator(assets: ToggleButtonAssets, toggled: bool) -> IndicatorNode<
    ToggleOn,
> {
    IndicatorNode {
        marker: ToggleOn,
        visibility: Visibility::indicating(toggled),
        layout: Layout {
            padding: Some(Sides::paired(val_percent(25), val_percent(5))),
            justify_items: ItemAlignment::Center,
            align_items: ItemAlignment::Center,
            border: Some(Sides::uniform(assets.border_radius)),
            ..Layout::unset()
        },
        border_radius: Some(assets.border_radius),
        border_color: Some(assets.color),
        caption: text_of("ON"@),
        caption_color: assets.color,
    }
}

/// The pressable box right after the host has built it, with indicators that
/// start out as `fault` and `on`: everything on it counts as just written,
/// and the pointer has not touched it.
pub open spec fn spawned<T>(toggle: T, fault: Visibility, on: Visibility) -> ToggleEntityView<T> {
    ToggleEntityView {
        markers: Markers { on: false, fault: false },
        toggle,
        toggle_changed: true,
        interaction: Interaction::Idle,
        interaction_changed: true,
        children: seq![
            Child {
                markers: Markers { on: false, fault: true },
                stateful: false,
                visibility: fault,
                visibility_changed: true,
            },
            Child {
                markers: Markers { on: true, fault: false },
                stateful: false,
                visibility: on,
                visibility_changed: true,
            },
        ],
    }
}

impl<T> ToggleButtonTree<T> {
    /// The pressable box of this tree as the passes find it in their first
    /// frame.
    pub fn into_entity(self) -> (entity: ToggleEntity<T>)
        ensures
            entity@ == spawned(self.button.toggle, self.fault.visibility, self.on.visibility),
    {
        let mut children: Vec<Child> = Vec::new();
        children.push(
            Child {
                markers: Markers { on: false, fault: true },
                stateful: false,
                visibility: self.fault.visibility,
                visibility_changed: true,
            },
        );
        children.push(
            Child {
                markers: Markers { on: true, fault: false },
                stateful: false,
                visibility: self.on.visibility,
                visibility_changed: true,
            },
        );
        let entity = ToggleEntity {
            markers: Markers { on: false, fault: false },
            toggle: self.button.toggle,
            toggle_changed: true,
            interaction: Interaction::Idle,
            interaction_changed: true,
            children,
        };
        assert(entity@.children =~= spawned(
            self.button.toggle,
            self.fault.visibility,
            self.on.visibility,
        ).children);
        entity
    }
}

/// Command that builds one toggle button.
pub struct SpawnToggleButton<T: Toggle + Default> {
    /// The entity the widget is attached to, if any.
    pub parent: Option<Entity>,
    /// The label above the box.
    pub text: Text,
    pub toggle: T,
}

impl<T: Toggle + Default> Default for SpawnToggleButton<T> {
    fn default() -> (command: Self)
        ensures
            command.parent is None,
            command.text == text_of(""@),
            call_ensures(T::default, (), command.toggle),
    {
        SpawnToggleButton { parent: None, text: new_text(""), toggle: T::default() }
    }
}

impl<T: Toggle + Default> SpawnToggleButton<T> {
    /// Describes the subtree of the new button under the style `assets`.
    ///
    /// The button starts from a freshly default-constructed state, whatever
    /// the command's own `toggle` holds, and each indicator starts out as
    /// that state has it.
    pub fn apply(self, assets: &ToggleButtonAssets) -> (tree: ToggleButtonTree<T>)
        ensures
            call_ensures(T::default, (), tree.button.toggle),
            tree.parent == self.parent,
            tree.container == container_layout(*assets),
            tree.label.text == self.text,
            tree.label.font == assets.text_font,
            tree.label.justify == JustifyText::Center,
            tree.label.linebreak == LineBreak::WordBoundary,
            tree.button.layout == button_layout(*assets),
            tree.button.background_color == assets.background_color,
            tree.button.border_radius == assets.border_radius,
            tree.fault == fault_indicator(*assets, tree.button.toggle.fault()),
            tree.on == on_indicator(*assets, tree.button.toggle.toggled()),
            tree.fault.visibility == Visibility::indicating(tree.button.toggle.fault()),
            tree.on.visibility == Visibility::indicating(tree.button.toggle.toggled()),
    {
        let toggle = T::default();
        let is_toggled = toggle.is_toggled();
        let is_fault = toggle.is_fault();

        ToggleButtonTree {
            parent: self.parent,
            container: Layout {
                width: Some(assets.size),
                flex_direction: FlexDirection::Column,
                column_gap: Some(assets.border_radius),
                ..Default::default()
            },
            label: LabelNode {
                text: self.text,
                font: clone_font(&assets.text_font),
                justify: JustifyText::Center,
                linebreak: LineBreak::WordBoundary,
            },
            button: ButtonNode {
                toggle,
                layout: Layout {
                    width: Some(assets.size),
                    height: Some(assets.size),
                    padding: Some(Sides::all(assets.border_radius)),
                    flex_direction: FlexDirection::Column,
                    column_gap: Some(assets.border_radius),
                    justify_content: JustifyContent::SpaceEvenly,
                    justify_items: ItemAlignment::Center,
                    align_items: ItemAlignment::Center,
                    ..Default::default()
                },
                background_color: assets.background_color,
                border_radius: assets.border_radius,
            },
            fault: IndicatorNode {
                marker: ToggleFault,
                visibility: Visibility::of(is_fault),
                layout: Layout {
                    justify_items: ItemAlignment::Center,
                    align_items: ItemAlignment::Center,
                    border: Some(Sides::all(assets.border_radius)),
                    ..Default::default()
                },
                border_radius: None,
                border_color: None,
                caption: new_text("FAULT"),
                caption_color: assets.fault_color,
            },
            on: IndicatorNode {
                marker: ToggleOn,
                visibility: Visibility::of(is_toggled),
                layout: Layout {
                    padding: Some(Sides::axes(percent(25), percent(5))),
                    justify_items: ItemAlignment::Center,
                    align_items: ItemAlignment::Center,
                    border: Some(Sides::all(assets.border_radius)),
                    ..Default::default()
                },
                border_radius: Some(assets.border_radius),
                border_color: Some(assets.color),
                caption: new_text("ON"),
                caption_color: assets.color,
            },
        }
    }
}

} // verus!
