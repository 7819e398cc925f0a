//! The overlay's three states and what moves it between them.
//!
//! - `Hidden`: nothing on screen; the user's applications have input.
//! - `Placement`: the overlay has input focus, the whole surface is interactive,
//!   and dragging creates areas.
//! - `Living`: the user's applications have input; areas float and stay
//!   interactive, and everything between them is click-through.
//!
//! The hotkey toggles input focus, `Esc` backs out of `Placement`, and a summon
//! always lands in `Placement`. This is the decision alone, apart from every
//! effect.

use vstd::prelude::*;

verus! {

/// Which of the three states the overlay is in.
#[derive(Debug, Clone, Copy, PartialEq, Eq, Structural)]
pub enum OverlayState {
    /// Nothing on screen.
    Hidden,
    /// The overlay has input focus: drag to create.
    Placement,
    /// Applications have input; areas float.
    Living,
}

/// What can move the overlay.
#[derive(Debug, Clone, Copy, PartialEq, Eq, Structural)]
pub enum Event {
    /// The global hotkey.
    Toggle,
    /// `Esc` from the overlay.
    Escape {
        /// Whether a drag is in progress.
        mid_drag: bool,
    },
    /// The tray, a relaunch, or startup.
    Summon,
}

/// The state an event asks for, areas or no areas.
pub open spec fn requested(current: OverlayState, event: Event) -> OverlayState {
    match event {
        Event::Summon => OverlayState::Placement,
        Event::Toggle => if current == OverlayState::Placement {
            OverlayState::Living
        } else {
            OverlayState::Placement
        },
        Event::Escape { mid_drag } => if current == OverlayState::Placement && !mid_drag {
            OverlayState::Living
        } else {
            current
        },
    }
}

/// `Living` without areas is `Hidden`: a click-through overlay with nothing on
/// it is invisible.
pub open spec fn collapsed(target: OverlayState, has_areas: bool) -> OverlayState {
    if target == OverlayState::Living && !has_areas {
        OverlayState::Hidden
    } else {
        target
    }
}

/// The state after an event.
pub open spec fn next_state(
    current: OverlayState,
    event: Event,
    has_areas: bool,
) -> OverlayState {
    collapsed(requested(current, event), has_areas)
}

/// The next state, given the current one, the event, and whether any areas
/// exist.
#[must_use]
pub fn next(current: OverlayState, event: Event, has_areas: bool) -> (state: OverlayState)
    ensures
        state == next_state(current, event, has_areas),
{
    let target = match (current, event) {
        (_, Event::Summon) => OverlayState::Placement,
        (_, Event::Escape { mid_drag: true }) => current,
        (OverlayState::Hidden, Event::Toggle) => OverlayState::Placement,
        (OverlayState::Placement, Event::Toggle | Event::Escape { .. }) => OverlayState::Living,
        (OverlayState::Living, Event::Toggle) => OverlayState::Placement,
        (OverlayState::Living, Event::Escape { .. })
        | (OverlayState::Hidden, Event::Escape { .. }) => current,
    };
    collapse(target, has_areas)
}

/// Collapses `Living` without areas onto `Hidden`.
pub fn collapse(target: OverlayState, has_areas: bool) -> (state: OverlayState)
    ensures
        state == collapsed(target, has_areas),
{
    match target {
        OverlayState::Living => if has_areas {
            OverlayState::Living
        } else {
            OverlayState::Hidden
        },
        other => other,
    }
}

// ---------------------------------------------------------------------------
// Laws.
// ---------------------------------------------------------------------------

/// No event leads to `Living` without areas, from any state.
pub proof fn law_never_living_without_areas(current: OverlayState, event: Event)
    ensures
        next_state(current, event, false) != OverlayState::Living,
{
}

/// A summon lands in `Placement` from any state, with or without areas.
pub proof fn law_a_summon_lands_in_placement(current: OverlayState, has_areas: bool)
    ensures
        next_state(current, Event::Summon, has_areas) == OverlayState::Placement,
{
}

/// `Esc` backs out of `Placement` exactly like the hotkey.
pub proof fn law_escape_backs_out_like_the_hotkey(has_areas: bool)
    ensures
        next_state(OverlayState::Placement, Event::Escape { mid_drag: false }, has_areas)
            == next_state(OverlayState::Placement, Event::Toggle, has_areas),
        next_state(OverlayState::Placement, Event::Toggle, has_areas) != OverlayState::Placement,
{
}

/// `Esc` during a drag leaves the overlay in `Placement`.
pub proof fn law_escape_mid_drag_keeps_placement(has_areas: bool)
    ensures
        next_state(OverlayState::Placement, Event::Escape { mid_drag: true }, has_areas)
            == OverlayState::Placement,
{
}

/// The hotkey hands input over and takes it back: two presses return an
/// overlay that shows areas, or one that is in `Placement`, to where it was.
pub proof fn law_toggling_twice_returns(current: OverlayState, has_areas: bool)
    requires
        current == OverlayState::Placement || (current == OverlayState::Living && has_areas),
    ensures
        next_state(next_state(current, Event::Toggle, has_areas), Event::Toggle, has_areas)
            == current,
{
}

/// `Esc` moves nothing that is not in `Placement`, except that areas may have
/// gone.
pub proof fn law_escape_is_inert_outside_placement(
    current: OverlayState,
    mid_drag: bool,
    has_areas: bool,
)
    requires
        current != OverlayState::Placement,
    ensures
        next_state(current, Event::Escape { mid_drag }, has_areas) == collapsed(
            current,
            has_areas,
        ),
{
}

/// The hotkey brings the overlay up from being hidden or living, and from `Placement`
/// hands input back: to the areas if there are any, and else hides.
pub proof fn law_the_hotkey(current: OverlayState, has_areas: bool, state: OverlayState)
    requires
        call_ensures(next, (current, Event::Toggle, has_areas), state),
    ensures
        current == OverlayState::Hidden || current == OverlayState::Living ==> state
            == OverlayState::Placement,
        current == OverlayState::Placement && has_areas ==> state == OverlayState::Living,
        current == OverlayState::Placement && !has_areas ==> state == OverlayState::Hidden,
{
}

/// `Esc` leaves `Placement` for the areas if there are any, and else hides; in the middle
/// of a drag it does not, and anywhere else it moves nothing but a `Living` without areas.
pub proof fn law_the_escape_key(
    current: OverlayState,
    mid_drag: bool,
    has_areas: bool,
    state: OverlayState,
)
    requires
        call_ensures(next, (current, Event::Escape { mid_drag }, has_areas), state),
    ensures
        current == OverlayState::Placement && !mid_drag && has_areas ==> state
            == OverlayState::Living,
        current == OverlayState::Placement && !mid_drag && !has_areas ==> state
            == OverlayState::Hidden,
        current == OverlayState::Placement && mid_drag ==> state == OverlayState::Placement,
        current == OverlayState::Hidden ==> state == OverlayState::Hidden,
        current == OverlayState::Living && has_areas ==> state == OverlayState::Living,
        current == OverlayState::Living && !has_areas ==> state == OverlayState::Hidden,
{
}

/// A summon always brings `Placement`.
pub proof fn law_a_summon(current: OverlayState, has_areas: bool, state: OverlayState)
    requires
        call_ensures(next, (current, Event::Summon, has_areas), state),
    ensures
        state == OverlayState::Placement,
{
}

/// Only a `Living` without areas collapses, and it collapses to being hidden.
pub proof fn law_only_an_empty_living_collapses(
    target: OverlayState,
    has_areas: bool,
    state: OverlayState,
)
    requires
        call_ensures(collapse, (target, has_areas), state),
    ensures
        target == OverlayState::Living && !has_areas ==> state == OverlayState::Hidden,
        target != OverlayState::Living || has_areas ==> state == target,
{
}

} // verus!
