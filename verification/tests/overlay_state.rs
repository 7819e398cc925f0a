//! The three states.

use uptake::overlay_state::{collapse, next, Event, OverlayState};

const TOGGLE: Event = Event::Toggle;
const ESC: Event = Event::Escape { mid_drag: false };
const ESC_DRAG: Event = Event::Escape { mid_drag: true };
const SUMMON: Event = Event::Summon;

#[test]
fn the_hotkey_brings_up_placement_from_hidden() {
    assert_eq!(next(OverlayState::Hidden, TOGGLE, false), OverlayState::Placement);
}

#[test]
fn the_hotkey_toggles_placement_back_to_the_real_screen() {
    assert_eq!(next(OverlayState::Placement, TOGGLE, false), OverlayState::Hidden);
    assert_eq!(next(OverlayState::Placement, TOGGLE, true), OverlayState::Living);
}

#[test]
fn esc_backs_out_of_placement_exactly_like_the_hotkey() {
    assert_eq!(next(OverlayState::Placement, ESC, false), OverlayState::Hidden);
    assert_eq!(next(OverlayState::Placement, ESC, true), OverlayState::Living);
}

#[test]
fn esc_mid_drag_cancels_without_leaving_placement() {
    assert_eq!(next(OverlayState::Placement, ESC_DRAG, false), OverlayState::Placement);
    assert_eq!(next(OverlayState::Placement, ESC_DRAG, true), OverlayState::Placement);
}

#[test]
fn the_hotkey_takes_control_back_from_living() {
    assert_eq!(next(OverlayState::Living, TOGGLE, true), OverlayState::Placement);
}

#[test]
fn a_summon_always_lands_in_placement() {
    for current in [OverlayState::Hidden, OverlayState::Placement, OverlayState::Living] {
        for has_areas in [false, true] {
            assert_eq!(next(current, SUMMON, has_areas), OverlayState::Placement);
        }
    }
}

#[test]
fn living_without_areas_is_never_a_reachable_target() {
    for current in [OverlayState::Hidden, OverlayState::Placement, OverlayState::Living] {
        for event in [TOGGLE, ESC, ESC_DRAG, SUMMON] {
            assert_ne!(
                next(current, event, false),
                OverlayState::Living,
                "reached Living with no areas from {current:?} on {event:?}"
            );
        }
    }
}

#[test]
fn esc_and_toggle_are_inert_from_hidden_except_the_summoning_toggle() {
    assert_eq!(next(OverlayState::Hidden, ESC, false), OverlayState::Hidden);
    assert_eq!(next(OverlayState::Hidden, ESC, true), OverlayState::Hidden);
}

#[test]
fn esc_leaves_the_areas_alone_in_living() {
    assert_eq!(next(OverlayState::Living, ESC, true), OverlayState::Living);
    assert_eq!(next(OverlayState::Living, ESC, false), OverlayState::Hidden);
    assert_eq!(collapse(OverlayState::Living, false), OverlayState::Hidden);
    assert_eq!(collapse(OverlayState::Placement, false), OverlayState::Placement);
}
