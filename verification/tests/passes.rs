use toggle_button::entity::{Child, Indicator, Interaction, Markers, ToggleEntity};
use toggle_button::indicator::{ToggleFault, ToggleOn, Visibility};
use toggle_button::plugin::ToggleButtonPlugin;
use toggle_button::spawn::SpawnToggleButton;
use toggle_button::style::ToggleButtonAssets;
use toggle_button::systems::{
    handle_interaction, handle_toggle_button_interactions, indicator_visibility, sync_toggle_ui,
};
use toggle_button::toggle::Toggle;

#[derive(Clone, Copy, Debug, Default, PartialEq, Eq)]
struct Switch {
    toggled: bool,
    fault: bool,
}

impl Toggle for Switch {
    fn toggled(&self) -> bool {
        self.toggled
    }

    fn fault(&self) -> bool {
        self.fault
    }

    fn is_toggled(&self) -> bool {
        self.toggled
    }

    fn is_fault(&self) -> bool {
        self.fault
    }

    fn toggle(&mut self) {
        self.toggled = !self.toggled;
    }
}

/// A state that clears its fault when it is switched.
#[derive(Clone, Copy, Debug, Default, PartialEq, Eq)]
struct Resetting {
    toggled: bool,
    fault: bool,
}

impl Toggle for Resetting {
    fn toggled(&self) -> bool {
        self.toggled
    }

    fn fault(&self) -> bool {
        self.fault
    }

    fn is_toggled(&self) -> bool {
        self.toggled
    }

    fn is_fault(&self) -> bool {
        self.fault
    }

    fn toggle(&mut self) {
        self.toggled = !self.toggled;
        self.fault = false;
    }
}

fn child(on: bool, fault: bool, stateful: bool, visibility: Visibility) -> Child {
    Child { markers: Markers { on, fault }, stateful, visibility, visibility_changed: false }
}

fn entity<T>(toggle: T, children: Vec<Child>) -> ToggleEntity<T> {
    ToggleEntity {
        markers: Markers { on: false, fault: false },
        toggle,
        toggle_changed: false,
        interaction: Interaction::Idle,
        interaction_changed: false,
        children,
    }
}

fn indicators(fault: Visibility, on: Visibility) -> Vec<Child> {
    vec![child(false, true, false, fault), child(true, false, false, on)]
}

fn press<T: Toggle>(entities: &mut Vec<ToggleEntity<T>>, index: usize) {
    entities[index].interaction = Interaction::Pressed;
    entities[index].interaction_changed = true;
}

fn lower_change_flags<T>(entities: &mut Vec<ToggleEntity<T>>) {
    for entity in entities.iter_mut() {
        for child in entity.children.iter_mut() {
            child.visibility_changed = false;
        }
    }
}

#[test]
fn one_press_shows_the_on_indicator() {
    let tree = SpawnToggleButton::<Switch>::default().apply(&ToggleButtonAssets::default());
    assert_eq!(tree.fault.visibility, Visibility::Hidden);
    assert_eq!(tree.on.visibility, Visibility::Hidden);

    let plugin = ToggleButtonPlugin::<Switch>::default();
    let mut entities = vec![tree.into_entity()];
    plugin.update(&mut entities);
    assert_eq!(entities[0].toggle, Switch { toggled: false, fault: false });

    press(&mut entities, 0);
    plugin.update(&mut entities);

    assert_eq!(entities[0].toggle, Switch { toggled: true, fault: false });
    assert_eq!(entities[0].children[0].visibility, Visibility::Hidden);
    assert_eq!(entities[0].children[1].visibility, Visibility::Inherited);
}

#[test]
fn a_press_flips_the_state() {
    let mut state = Switch { toggled: false, fault: true };
    assert!(handle_interaction(Interaction::Pressed, &mut state));
    assert_eq!(state, Switch { toggled: true, fault: true });
    assert!(handle_interaction(Interaction::Pressed, &mut state));
    assert_eq!(state, Switch { toggled: false, fault: true });
}

#[test]
fn hovering_never_writes_the_state() {
    let mut state = Switch { toggled: true, fault: false };
    assert!(!handle_interaction(Interaction::Hovered, &mut state));
    assert_eq!(state, Switch { toggled: true, fault: false });
    let mut state = Switch { toggled: false, fault: true };
    assert!(!handle_interaction(Interaction::Hovered, &mut state));
    assert_eq!(state, Switch { toggled: false, fault: true });
}

#[test]
fn releasing_never_writes_the_state() {
    let mut state = Switch { toggled: true, fault: true };
    assert!(!handle_interaction(Interaction::Idle, &mut state));
    assert_eq!(state, Switch { toggled: true, fault: true });
}

#[test]
fn presses_flip_the_state_by_their_parity() {
    for initial in [false, true] {
        let mut entities = vec![entity(Switch { toggled: initial, fault: false }, Vec::new())];
        for presses in 1..=9 {
            press(&mut entities, 0);
            handle_toggle_button_interactions(&mut entities);
            assert_eq!(entities[0].toggle.is_toggled(), initial != (presses % 2 == 1));
        }
    }
}

#[test]
fn interleaved_hovers_do_not_count_as_presses() {
    let sequence = [
        Interaction::Hovered,
        Interaction::Pressed,
        Interaction::Hovered,
        Interaction::Idle,
        Interaction::Hovered,
        Interaction::Pressed,
        Interaction::Idle,
        Interaction::Pressed,
    ];
    let mut entities = vec![entity(Switch::default(), Vec::new())];
    for interaction in sequence {
        entities[0].interaction = interaction;
        entities[0].interaction_changed = true;
        handle_toggle_button_interactions(&mut entities);
    }
    assert!(entities[0].toggle.is_toggled());
}

#[test]
fn the_press_pass_ignores_an_interaction_that_was_not_written() {
    let mut entities = vec![entity(Switch::default(), Vec::new())];
    entities[0].interaction = Interaction::Pressed;
    entities[0].interaction_changed = false;
    handle_toggle_button_interactions(&mut entities);
    assert_eq!(entities[0].toggle, Switch::default());
    assert!(!entities[0].toggle_changed);
}

#[test]
fn the_press_pass_marks_the_state_as_written_and_takes_the_interaction() {
    let mut entities = vec![entity(Switch::default(), indicators(Visibility::Hidden, Visibility::Hidden))];
    press(&mut entities, 0);
    handle_toggle_button_interactions(&mut entities);
    assert!(entities[0].toggle_changed);
    assert!(!entities[0].interaction_changed);
    assert_eq!(entities[0].interaction, Interaction::Pressed);
    assert_eq!(entities[0].children, indicators(Visibility::Hidden, Visibility::Hidden));
}

#[test]
fn a_held_press_flips_only_once() {
    let mut entities = vec![entity(Switch::default(), Vec::new())];
    press(&mut entities, 0);
    handle_toggle_button_interactions(&mut entities);
    handle_toggle_button_interactions(&mut entities);
    handle_toggle_button_interactions(&mut entities);
    assert!(entities[0].toggle.is_toggled());
}

#[test]
fn a_hover_leaves_the_change_flag_of_the_state_alone() {
    let mut entities = vec![entity(Switch::default(), Vec::new())];
    entities[0].interaction = Interaction::Hovered;
    entities[0].interaction_changed = true;
    handle_toggle_button_interactions(&mut entities);
    assert!(!entities[0].toggle_changed);
    assert!(!entities[0].interaction_changed);
    assert_eq!(entities[0].toggle, Switch::default());
}

#[test]
fn the_press_pass_visits_every_entity() {
    let mut entities = vec![
        entity(Switch { toggled: false, fault: false }, Vec::new()),
        entity(Switch { toggled: true, fault: false }, Vec::new()),
        entity(Switch { toggled: false, fault: true }, Vec::new()),
    ];
    press(&mut entities, 0);
    press(&mut entities, 2);
    entities[1].interaction = Interaction::Hovered;
    entities[1].interaction_changed = true;
    handle_toggle_button_interactions(&mut entities);
    assert_eq!(entities[0].toggle, Switch { toggled: true, fault: false });
    assert_eq!(entities[1].toggle, Switch { toggled: true, fault: false });
    assert_eq!(entities[2].toggle, Switch { toggled: true, fault: true });
    assert_eq!(entities.len(), 3);
}

#[test]
fn the_passes_accept_an_empty_world() {
    let mut entities: Vec<ToggleEntity<Switch>> = Vec::new();
    handle_toggle_button_interactions(&mut entities);
    sync_toggle_ui(&mut entities);
    ToggleButtonPlugin::<Switch>::default().update(&mut entities);
    assert!(entities.is_empty());
}

#[test]
fn a_state_change_sets_both_indicators_at_once() {
    for toggled in [false, true] {
        for fault in [false, true] {
            let mut entities = vec![entity(
                Switch { toggled, fault },
                indicators(Visibility::Visible, Visibility::Visible),
            )];
            entities[0].toggle_changed = true;
            sync_toggle_ui(&mut entities);
            let expected_fault = if fault { Visibility::Inherited } else { Visibility::Hidden };
            let expected_on = if toggled { Visibility::Inherited } else { Visibility::Hidden };
            assert_eq!(entities[0].children[0].visibility, expected_fault);
            assert_eq!(entities[0].children[1].visibility, expected_on);
            assert!(entities[0].children[0].visibility_changed);
            assert!(entities[0].children[1].visibility_changed);
            assert!(!entities[0].toggle_changed);
        }
    }
}

#[test]
fn a_second_visibility_pass_writes_nothing() {
    let mut entities = vec![entity(
        Switch { toggled: true, fault: false },
        indicators(Visibility::Inherited, Visibility::Hidden),
    )];
    entities[0].toggle_changed = true;
    sync_toggle_ui(&mut entities);
    assert_eq!(entities[0].children[0].visibility, Visibility::Hidden);
    assert_eq!(entities[0].children[1].visibility, Visibility::Inherited);

    lower_change_flags(&mut entities);
    let after_first = entities[0].children.clone();
    sync_toggle_ui(&mut entities);
    assert_eq!(entities[0].children, after_first);
    assert!(!entities[0].children[0].visibility_changed);
    assert!(!entities[0].children[1].visibility_changed);
    assert!(!entities[0].toggle_changed);
}

#[test]
fn the_visibility_pass_skips_a_state_that_was_not_written() {
    let stale = indicators(Visibility::Inherited, Visibility::Inherited);
    let mut entities = vec![entity(Switch::default(), stale.clone())];
    sync_toggle_ui(&mut entities);
    assert_eq!(entities[0].children, stale);
}

#[test]
fn an_entity_that_is_itself_an_indicator_is_no_toggle_entity() {
    let stale = indicators(Visibility::Inherited, Visibility::Inherited);
    for (on, fault) in [(true, false), (false, true), (true, true)] {
        let mut entities = vec![entity(Switch::default(), stale.clone())];
        entities[0].markers = Markers { on, fault };
        entities[0].toggle_changed = true;
        sync_toggle_ui(&mut entities);
        assert_eq!(entities[0].children, stale);
        assert!(entities[0].toggle_changed);
    }
}

#[test]
fn children_that_are_no_indicators_are_left_alone() {
    let children = vec![
        child(false, false, false, Visibility::Visible),
        child(true, true, false, Visibility::Visible),
        child(true, false, true, Visibility::Visible),
        child(false, true, true, Visibility::Visible),
        child(true, false, false, Visibility::Visible),
    ];
    let mut entities = vec![entity(Switch { toggled: false, fault: true }, children.clone())];
    entities[0].toggle_changed = true;
    sync_toggle_ui(&mut entities);
    assert_eq!(entities[0].children[0], children[0]);
    assert_eq!(entities[0].children[1], children[1]);
    assert_eq!(entities[0].children[2], children[2]);
    assert_eq!(entities[0].children[3], children[3]);
    assert_eq!(
        entities[0].children[4],
        Child {
            markers: Markers { on: true, fault: false },
            stateful: false,
            visibility: Visibility::Hidden,
            visibility_changed: true,
        }
    );
}

#[test]
fn the_visibility_pass_leaves_state_and_interaction_alone() {
    let mut entities = vec![entity(
        Switch { toggled: true, fault: true },
        indicators(Visibility::Hidden, Visibility::Hidden),
    )];
    entities[0].toggle_changed = true;
    entities[0].interaction = Interaction::Hovered;
    entities[0].interaction_changed = true;
    sync_toggle_ui(&mut entities);
    assert_eq!(entities[0].toggle, Switch { toggled: true, fault: true });
    assert_eq!(entities[0].interaction, Interaction::Hovered);
    assert!(entities[0].interaction_changed);
    assert_eq!(entities[0].markers, Markers { on: false, fault: false });
}

#[test]
fn a_toggle_that_clears_the_fault_hides_the_fault_indicator() {
    let plugin = ToggleButtonPlugin::<Resetting>::default();
    let mut entities = vec![entity(
        Resetting { toggled: false, fault: true },
        indicators(Visibility::Inherited, Visibility::Hidden),
    )];
    press(&mut entities, 0);
    plugin.update(&mut entities);
    assert_eq!(entities[0].toggle, Resetting { toggled: true, fault: false });
    assert_eq!(entities[0].children[0].visibility, Visibility::Hidden);
    assert_eq!(entities[0].children[1].visibility, Visibility::Inherited);
}

#[test]
fn a_frame_runs_the_press_pass_before_the_visibility_pass() {
    let plugin = ToggleButtonPlugin::<Switch>::default();
    let mut entities = vec![entity(
        Switch { toggled: true, fault: false },
        indicators(Visibility::Hidden, Visibility::Inherited),
    )];
    press(&mut entities, 0);
    plugin.update(&mut entities);
    assert!(!entities[0].toggle.is_toggled());
    assert_eq!(entities[0].children[1].visibility, Visibility::Hidden);
    assert!(!entities[0].toggle_changed);
    assert!(!entities[0].interaction_changed);
}

#[test]
fn a_frame_without_input_changes_nothing() {
    let plugin = ToggleButtonPlugin::<Switch>::default();
    let children = indicators(Visibility::Hidden, Visibility::Inherited);
    let mut entities = vec![entity(Switch { toggled: true, fault: false }, children.clone())];
    plugin.update(&mut entities);
    plugin.update(&mut entities);
    assert_eq!(entities[0].toggle, Switch { toggled: true, fault: false });
    assert_eq!(entities[0].children, children);
}

#[test]
fn a_child_stands_for_the_indicator_whose_marker_it_carries() {
    assert_eq!(child(true, false, false, Visibility::Hidden).indicator(), Some(Indicator::On));
    assert_eq!(child(false, true, false, Visibility::Hidden).indicator(), Some(Indicator::Fault));
    assert_eq!(child(false, false, false, Visibility::Hidden).indicator(), None);
    assert_eq!(child(true, true, false, Visibility::Hidden).indicator(), None);
    assert_eq!(child(true, false, true, Visibility::Hidden).indicator(), None);
    assert_eq!(child(false, true, true, Visibility::Hidden).indicator(), None);
}

#[test]
fn only_an_entity_without_markers_is_plain() {
    assert!(Markers { on: false, fault: false }.plain());
    assert!(!Markers { on: true, fault: false }.plain());
    assert!(!Markers { on: false, fault: true }.plain());
    assert!(!Markers { on: true, fault: true }.plain());
}

#[test]
fn the_write_to_a_child_follows_its_indicator() {
    let state = Switch { toggled: true, fault: false };
    let on = child(true, false, false, Visibility::Hidden);
    let fault = child(false, true, false, Visibility::Inherited);
    let other = child(false, false, false, Visibility::Visible);
    assert_eq!(indicator_visibility(&state, &on), Some(Visibility::Inherited));
    assert_eq!(indicator_visibility(&state, &fault), Some(Visibility::Hidden));
    assert_eq!(indicator_visibility(&state, &other), None);
}

#[test]
fn each_marker_reads_its_own_flag() {
    let state = Switch { toggled: false, fault: true };
    assert_eq!(ToggleFault::visibility(&state), Visibility::Inherited);
    assert_eq!(ToggleOn::visibility(&state), Visibility::Hidden);
    let state = Switch { toggled: true, fault: false };
    assert_eq!(ToggleFault::visibility(&state), Visibility::Hidden);
    assert_eq!(ToggleOn::visibility(&state), Visibility::Inherited);
}

#[test]
fn an_indicator_is_inherited_when_shown_and_hidden_otherwise() {
    assert_eq!(Visibility::of(true), Visibility::Inherited);
    assert_eq!(Visibility::of(false), Visibility::Hidden);
}
