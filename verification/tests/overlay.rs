//! The overlay: its window, its states, and what its page is told.

use uptake::area::{AreaId, AreaType, Layer};
use uptake::geometry::{Point, Rect};
use uptake::gesture::Gesture;
use uptake::json::{member, Json};
use uptake::overlay::{
    apply, area_created, areas_payload, armable_type, collapse_living_if_empty, desired_bounds,
    dev_perturb_cached_scale, dismiss_area, drive, escape, flash_payload, froze, kind_name,
    layer_name, monitor_bounds_at, monitor_index_at, monitor_rects, needs_write, overlay_arm_type,
    overlay_dismiss_focused, overlay_request_state, refresh_monitor_cache, state_name,
    state_payload, summon, sync_bounds, sync_monitors, toggle, toggle_freeze, ActiveMonitorPayload,
    AreaShown, Dismissed, Effect, FlashPayload, FreezeReport, FreezeToggle, HoverPayload, Monitor,
    MonitorCost, PinPayload, WINDOW_LABEL, ACTIVE_MONITOR_EVENT, AREAS_EVENT, FLASH_EVENT,
    PERTURBED_SCALE, PIN_EVENT, STATE_EVENT,
};
use uptake::overlay_state::{Event, OverlayState};
use uptake::payload_keys::assert_keys;
use uptake::placement::{Action, HookState};
use uptake::precapture::Precapture;

#[test]
fn matching_bounds_are_never_rewritten() {
    let bounds = Rect::new(-1080, -1080, 5560, 2733);
    assert!(!needs_write(bounds, bounds));
}

#[test]
fn a_moved_origin_is_rewritten_even_when_the_size_is_unchanged() {
    let before = Rect::new(-1080, -1080, 5560, 2733);
    let after = Rect::new(0, -1080, 5560, 2733);
    assert!(needs_write(before, after));
}

#[test]
fn a_resized_desktop_is_rewritten() {
    let before = Rect::new(0, 0, 2560, 1440);
    let after = Rect::new(0, 0, 4480, 1440);
    assert!(needs_write(before, after));
}

#[test]
fn a_hidden_overlay_is_not_fitted() {
    let before = Rect::new(0, 0, 2560, 1440);
    let after = Rect::new(0, 0, 4480, 1440);
    assert_eq!(sync_bounds(true, before, after), Some(after));
    assert_eq!(sync_bounds(true, after, after), None);
    assert_eq!(sync_bounds(false, before, after), None);
}

#[test]
fn an_overlay_needs_a_monitor() {
    assert_eq!(desired_bounds(Some(Rect::new(0, 0, 5, 5))), Ok(Rect::new(0, 0, 5, 5)));
    assert_eq!(
        desired_bounds(None),
        Err("No display detected — the overlay needs at least one monitor.".to_string())
    );
}

#[test]
fn every_armable_name_round_trips_through_type_name() {
    for (name, kind) in [("screenshot", AreaType::Screenshot), ("filter", AreaType::Filter)] {
        assert_eq!(armable_type(name), Some(kind), "{name} must arm");
        assert_eq!(kind_name(kind), name, "{name} must round trip");
    }
}

#[test]
fn a_modelled_type_with_no_gesture_is_still_refused() {
    for name in ["default", "record", "ocr", "upscale", "analysis"] {
        assert_eq!(armable_type(name), None, "{name} has no gesture yet");
    }
    assert_eq!(armable_type("Filter"), None, "the wire name is lowercase");
    assert_eq!(armable_type(""), None);
}

#[test]
fn every_area_type_has_its_wire_name_pinned() {
    for (kind, name) in [
        (AreaType::Default, "default"),
        (AreaType::Screenshot, "screenshot"),
        (AreaType::Record, "record"),
        (AreaType::Ocr, "ocr"),
        (AreaType::Upscale, "upscale"),
        (AreaType::Analysis, "analysis"),
        (AreaType::Filter, "filter"),
    ] {
        assert_eq!(kind_name(kind), name);
    }
}

#[test]
fn states_layers_and_events_have_their_names() {
    assert_eq!(state_name(OverlayState::Hidden), "hidden");
    assert_eq!(state_name(OverlayState::Placement), "placement");
    assert_eq!(state_name(OverlayState::Living), "living");
    assert_eq!(layer_name(Layer::Front), "front");
    assert_eq!(layer_name(Layer::Auto), "auto");
    assert_eq!(layer_name(Layer::Back), "back");
    assert_eq!(WINDOW_LABEL, "overlay");
    assert_eq!(
        [STATE_EVENT, AREAS_EVENT, PIN_EVENT, ACTIVE_MONITOR_EVENT, FLASH_EVENT],
        [
            "overlay://state",
            "overlay://areas",
            "overlay://pin",
            "overlay://active-monitor",
            "overlay://flash",
        ]
    );
}

#[test]
fn arming_is_for_placement() {
    let mut hook = HookState::default();
    assert_eq!(
        overlay_arm_type(OverlayState::Placement, &mut hook, "record"),
        Err("record is not an armable area type".to_string())
    );
    assert_eq!(
        overlay_arm_type(OverlayState::Living, &mut hook, "filter"),
        Err("arming is only meaningful in placement".to_string())
    );
    assert_eq!(hook.armed, None);
    assert_eq!(overlay_arm_type(OverlayState::Placement, &mut hook, "filter"), Ok(()));
    assert_eq!(hook.armed, Some(AreaType::Filter));
}

#[test]
fn each_state_has_its_effects_in_order() {
    assert_eq!(
        apply(OverlayState::Hidden),
        vec![
            Effect::Thaw,
            Effect::SyncWarm { placing: false },
            Effect::EmitState,
            Effect::Exit,
            Effect::Hide,
        ]
    );
    assert_eq!(
        apply(OverlayState::Placement),
        vec![
            Effect::Thaw,
            Effect::SyncWarm { placing: true },
            Effect::Show,
            Effect::Enter,
            Effect::EmitState,
            Effect::EmitAreas,
        ]
    );
    assert_eq!(apply(OverlayState::Living)[3], Effect::EnterLiving);
    assert_eq!(overlay_request_state(), vec![Effect::EmitState, Effect::EmitAreas]);
}

#[test]
fn the_overlay_is_driven_by_its_events() {
    let mut cell = OverlayState::Hidden;
    assert_eq!(summon(&mut cell, false), OverlayState::Placement);
    assert_eq!(toggle(&mut cell, true), OverlayState::Living);
    assert_eq!(
        drive(&mut cell, Event::Escape { mid_drag: false }, true),
        OverlayState::Living
    );
    assert_eq!(cell, OverlayState::Living);
    assert_eq!(collapse_living_if_empty(&mut cell, true), None);
    assert_eq!(collapse_living_if_empty(&mut cell, false), Some(OverlayState::Hidden));
    assert_eq!(cell, OverlayState::Hidden);
    cell = OverlayState::Placement;
    assert_eq!(collapse_living_if_empty(&mut cell, false), None);
}

#[test]
fn esc_backs_out_of_one_thing_at_a_time() {
    let mut cell = OverlayState::Placement;
    let mut hook = HookState::default();
    let mut pre = Precapture::default();
    let mut actions = Vec::new();
    hook.armed = Some(AreaType::Screenshot);
    hook.dragging = true;
    hook.gesture = Some(Gesture::Create);
    pre.target = Some(Rect::new(0, 0, 10, 10));

    assert_eq!(
        escape(&mut cell, &mut hook, &mut pre, true, &mut actions),
        Some(OverlayState::Placement)
    );
    assert!(!hook.dragging && hook.gesture.is_none());
    assert_eq!(hook.armed, Some(AreaType::Screenshot), "a cancelled drag keeps its arming");
    assert_eq!(pre.target, None);

    assert_eq!(
        escape(&mut cell, &mut hook, &mut pre, true, &mut actions),
        Some(OverlayState::Placement)
    );
    assert_eq!(hook.armed, None);

    assert_eq!(
        escape(&mut cell, &mut hook, &mut pre, true, &mut actions),
        Some(OverlayState::Living)
    );
    assert!(actions.is_empty());
}

#[test]
fn removing_the_last_area_hides_a_living_overlay() {
    let mut cell = OverlayState::Living;
    assert_eq!(
        dismiss_area(&mut cell, false, false),
        Dismissed { forget: false, entered: None }
    );
    assert_eq!(
        dismiss_area(&mut cell, true, true),
        Dismissed { forget: true, entered: None }
    );
    assert_eq!(
        dismiss_area(&mut cell, true, false),
        Dismissed { forget: true, entered: Some(OverlayState::Hidden) }
    );
    let mut hook = HookState::default();
    let mut actions = Vec::new();
    overlay_dismiss_focused(&mut hook, false, &mut actions);
    assert!(actions.is_empty());
    overlay_dismiss_focused(&mut hook, true, &mut actions);
    assert_eq!(actions, vec![Action::EmitAreas]);
}

#[test]
fn a_type_that_leaves_placement_leaves_it() {
    let mut cell = OverlayState::Placement;
    assert_eq!(area_created(&mut cell, false, true), OverlayState::Placement);
    assert_eq!(area_created(&mut cell, true, true), OverlayState::Living);
    assert_eq!(area_created(&mut cell, true, true), OverlayState::Living);
}

fn monitor(x: i32, scale: u64) -> Monitor {
    Monitor { bounds: Rect::new(x, 0, 100, 100), scale }
}

#[test]
fn the_warm_captures_follow_a_change_of_monitors_only() {
    let one = 1.0_f64.to_bits();
    let mut cache = vec![monitor(0, one)];
    assert!(!refresh_monitor_cache(&mut cache, Some(vec![monitor(0, one)])));
    assert!(!refresh_monitor_cache(&mut cache, None));
    assert_eq!(cache, vec![monitor(0, one)]);
    let scaled = 1.25_f64.to_bits();
    assert!(refresh_monitor_cache(&mut cache, Some(vec![monitor(0, scaled)])));
    assert_eq!(cache, vec![monitor(0, scaled)], "a change of scale is a change");
    let two = vec![monitor(0, scaled), monitor(100, one)];
    assert_eq!(
        sync_monitors(&mut cache, Some(two.clone()), OverlayState::Placement),
        Some(true)
    );
    assert_eq!(sync_monitors(&mut cache, Some(two), OverlayState::Placement), None);
    assert_eq!(
        sync_monitors(&mut cache, Some(Vec::new()), OverlayState::Living),
        Some(false)
    );
    assert_eq!(dev_perturb_cached_scale(&mut cache), None);
    cache.push(monitor(7, one));
    assert_eq!(
        dev_perturb_cached_scale(&mut cache),
        Some((Rect::new(7, 0, 100, 100), one, PERTURBED_SCALE))
    );
    assert_eq!(cache[0].scale, 3.5_f64.to_bits());
}

#[test]
fn scale_factors_are_compared_as_numbers() {
    let zero = 0.0_f64.to_bits();
    let negative = (-0.0_f64).to_bits();
    let nan = f64::NAN.to_bits();
    let infinite = f64::INFINITY.to_bits();
    let values = [zero, negative, nan, infinite, 1.0_f64.to_bits(), (-1.0_f64).to_bits()];
    for a in values {
        for b in values {
            let same = f64::from_bits(a) == f64::from_bits(b);
            assert_eq!(monitor(0, a) == monitor(0, b), same, "{a:#x} and {b:#x}");
            let mut cache = vec![monitor(0, a)];
            assert_eq!(refresh_monitor_cache(&mut cache, Some(vec![monitor(0, b)])), !same);
            assert_eq!(cache[0].scale, if same { a } else { b }, "{a:#x} and {b:#x}");
        }
    }
    assert!(monitor(0, zero) != monitor(1, zero));
}

#[test]
fn a_perturbed_scale_is_a_change_and_a_steady_desktop_is_none() {
    let desktop = vec![monitor(0, 1.0_f64.to_bits()), monitor(100, 1.5_f64.to_bits())];
    let mut cache = desktop.clone();
    assert!(!refresh_monitor_cache(&mut cache, Some(desktop.clone())));
    assert!(dev_perturb_cached_scale(&mut cache).is_some());
    assert!(refresh_monitor_cache(&mut cache, Some(desktop.clone())));
    assert_eq!(cache, desktop);
}

#[test]
fn a_point_between_monitors_falls_back_to_the_desktop() {
    let cache = vec![monitor(0, 0), monitor(200, 0)];
    let rects = monitor_rects(&cache);
    assert_eq!(rects, vec![Rect::new(0, 0, 100, 100), Rect::new(200, 0, 100, 100)]);
    let desktop = Some(Rect::new(0, 0, 300, 100));
    let between = Point::new(150, 50);
    assert_eq!(monitor_bounds_at(&rects, desktop, Point::new(250, 50)), rects[1]);
    assert_eq!(monitor_bounds_at(&rects, desktop, between), Rect::new(0, 0, 300, 100));
    assert_eq!(monitor_bounds_at(&[], None, between), Rect::new(150, 50, 1, 1));
    assert_eq!(monitor_index_at(&cache, Point::new(299, 99)), Some(1));
    assert_eq!(monitor_index_at(&cache, between), None);
}

#[test]
fn freezing_is_for_placement() {
    assert_eq!(toggle_freeze(OverlayState::Placement, true), FreezeToggle::Thaw);
    assert_eq!(toggle_freeze(OverlayState::Placement, false), FreezeToggle::Freeze);
    assert_eq!(
        toggle_freeze(OverlayState::Living, false),
        FreezeToggle::Ignore(
            "overlay: freeze toggle ignored outside Placement (state Living)".to_string()
        )
    );
    assert_eq!(
        toggle_freeze(OverlayState::Hidden, true),
        FreezeToggle::Ignore(
            "overlay: freeze toggle ignored outside Placement (state Hidden)".to_string()
        )
    );
}

#[test]
fn a_freeze_is_logged_monitor_by_monitor() {
    let report = FreezeReport {
        count: 2,
        elapsed_ms: 411,
        warm_served: 1,
        slowest_capture_ms: 250,
        slowest_encode_ms: 37,
        per_monitor: vec![
            MonitorCost {
                rect: Rect::new(-1080, 0, 1080, 1920),
                capture_ms: 250,
                encode_ms: 30,
                encoded_bytes: 1234,
                served_warm: false,
            },
            MonitorCost {
                rect: Rect::new(0, 0, 2560, 1440),
                capture_ms: 0,
                encode_ms: 37,
                encoded_bytes: 99,
                served_warm: true,
            },
        ],
    };
    let frozen = froze(&Ok(report), 3, 4);
    assert!(frozen.emit);
    assert_eq!(
        frozen.lines,
        vec![
            "freeze: froze 2/3 monitor(s) in scope, 2 of 4 on the desktop, in 411 ms — warm 1/2, slowest monitor: capture 250 ms, encode 37 ms",
            "freeze:   1080x1920 at (-1080, 0) — capture 250 ms, encode 30 ms, 1234 bytes, cold",
            "freeze:   2560x1440 at (0, 0) — capture 0 ms, encode 37 ms, 99 bytes, warm",
        ]
    );
    let frozen = froze(&Err("no monitor".to_string()), 1, 1);
    assert!(!frozen.emit);
    assert_eq!(frozen.lines, vec!["freeze: no stills published — no monitor"]);
}

#[test]
fn the_page_is_told_the_state() {
    let monitors = [Rect::new(0, 0, 10, 20)];
    let stills = vec![(Rect::new(-5, 0, 10, 20), "still://1".to_string())];
    let mut probe = Some(77);
    let payload = state_payload(
        OverlayState::Living,
        (-3, 4),
        &monitors,
        Some(AreaType::Filter),
        &Vec::new(),
        &mut probe,
    );
    assert_eq!((payload.state, payload.origin), ("living", (-3, 4)));
    assert!(payload.monitors.is_empty() && payload.armed.is_none() && !payload.frozen);
    assert_eq!((payload.freeze_probe, probe), (None, Some(77)), "no stills, no probe");

    let payload = state_payload(
        OverlayState::Placement,
        (0, 0),
        &monitors,
        Some(AreaType::Filter),
        &stills,
        &mut probe,
    );
    assert_eq!(payload.monitors, vec![(0, 0, 10, 20)]);
    assert_eq!(payload.armed, Some("filter"));
    assert!(payload.frozen);
    assert_eq!((payload.freeze_probe, probe), (Some(77), None));
    let document = payload.to_json();
    let number = |n: &str| Json::Number(n.to_string());
    assert_eq!(
        member(&document, "stills"),
        Some(&Json::List(vec![Json::List(vec![
            number("-5"),
            number("0"),
            number("10"),
            number("20"),
            Json::Text("still://1".to_string()),
        ])]))
    );
    assert_eq!(member(&document, "freeze_probe"), Some(&number("77")));
    assert_eq!(
        assert_keys(
            "StatePayload",
            &document,
            &["state", "origin", "monitors", "armed", "frozen", "stills", "freeze_probe"],
        ),
        Ok(())
    );
}

#[test]
fn the_page_is_told_the_areas() {
    let payload = areas_payload(&[AreaShown {
        id: AreaId::new(9),
        bounds: Rect::new(1, 2, 3, 4),
        close: Rect::new(5, 6, 7, 8),
        layer: Layer::Back,
        kind: AreaType::Screenshot,
    }]);
    assert_eq!(payload.areas.len(), 1);
    let area = &payload.areas[0];
    assert_eq!((area.id, area.rect, area.close), (9, (1, 2, 3, 4), (5, 6, 7, 8)));
    assert_eq!((area.layer, area.kind), ("back", "screenshot"));
    assert_eq!(
        assert_keys("AreaPayload", &area.to_json(), &["id", "rect", "close", "layer", "kind"]),
        Ok(())
    );
    assert_eq!(assert_keys("AreasPayload", &payload.to_json(), &["areas"]), Ok(()));
}

#[test]
fn two_acknowledgements_in_a_row_differ() {
    let mut nonce = u64::MAX;
    let first = flash_payload(&mut nonce, AreaId::new(3));
    let second = flash_payload(&mut nonce, AreaId::new(3));
    assert_eq!(first, FlashPayload { id: 3, nonce: u64::MAX });
    assert_eq!(second, FlashPayload { id: 3, nonce: 0 });
    assert_eq!(assert_keys("FlashPayload", &first.to_json(), &["id", "nonce"]), Ok(()));
    assert_eq!(
        member(&first.to_json(), "nonce"),
        Some(&Json::Number("18446744073709551615".to_string()))
    );
}

#[test]
fn the_small_payloads_keep_their_keys() {
    let pin = PinPayload { id: 4, url: "pin://4/1".to_string() };
    assert_eq!(assert_keys("PinPayload", &pin.to_json(), &["id", "url"]), Ok(()));
    let active = ActiveMonitorPayload { index: None };
    assert_eq!(active.to_json(), Json::Object(vec![("index".to_string(), Json::Null)]));
    let hover = HoverPayload { id: None, chrome_only: false };
    assert_eq!(assert_keys("HoverPayload", &hover.to_json(), &["id", "chromeOnly"]), Ok(()));
}
