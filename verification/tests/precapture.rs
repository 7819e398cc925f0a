//! The frame held while a drag lasts.

use uptake::bitmap::RgbaBitmap;
use uptake::geometry::{Point, Rect, Size};
use uptake::precapture::{
    begin, discard, end_drag, finish_capture, monitor_holding, push_reason, refresh, take,
    CaptureJob, Fallback, Held, Precapture, CAPTURE_ALLOWANCE, FRESHNESS, REFRESH_AFTER,
};

const MILLISECOND: u64 = 1_000_000;

/// A moment with room before it.
const NOW: u64 = 10_000_000_000;

fn transparent(size: Size) -> RgbaBitmap {
    let pixels = vec![0_u8; size.width as usize * size.height as usize * 4];
    match RgbaBitmap::from_pixels(size, pixels) {
        Some(bitmap) => bitmap,
        None => panic!("the pixels are as many as the size asks for"),
    }
}

fn hold(rect: Rect, taken: u64) -> Precapture {
    Precapture {
        held: Some(Held { rect, bitmap: transparent(rect.size), taken }),
        ..Precapture::default()
    }
}

#[test]
fn a_fresh_frame_covering_the_area_serves_the_crop() {
    let mut state = hold(Rect::new(1920, -180, 1920, 1080), NOW);
    let Ok(cropped) = take(&mut state, Rect::new(2020, -80, 300, 200), NOW) else {
        panic!("the frame covers the area")
    };
    assert_eq!(cropped.size(), Size::new(300, 200));
}

#[test]
fn a_frame_is_used_once_and_then_gone() {
    let mut state = hold(Rect::new(0, 0, 800, 600), NOW);
    assert!(take(&mut state, Rect::new(10, 10, 20, 20), NOW).is_ok());
    assert_eq!(take(&mut state, Rect::new(10, 10, 20, 20), NOW).err(), Some(Fallback::NoFrame));
}

#[test]
fn a_frame_older_than_the_bound_is_refused() {
    let mut state = hold(Rect::new(0, 0, 800, 600), NOW - FRESHNESS - MILLISECOND);
    let Err(Fallback::Stale { age_ms }) = take(&mut state, Rect::new(0, 0, 100, 100), NOW) else {
        panic!("a frame past the freshness bound must not be served");
    };
    assert!(age_ms >= FRESHNESS / MILLISECOND);
    assert_eq!(age_ms, 751);
}

#[test]
fn a_frame_at_exactly_the_bound_is_still_served() {
    let mut state = hold(Rect::new(0, 0, 800, 600), NOW - FRESHNESS);
    assert!(take(&mut state, Rect::new(0, 0, 100, 100), NOW).is_ok());
}

#[test]
fn an_area_running_off_the_captured_monitor_falls_back() {
    let mut state = hold(Rect::new(0, 0, 1920, 1080), NOW);
    assert_eq!(
        take(&mut state, Rect::new(1600, 100, 400, 200), NOW).err(),
        Some(Fallback::Straddle)
    );
}

#[test]
fn an_area_on_a_different_monitor_entirely_falls_back() {
    let mut state = hold(Rect::new(0, 0, 1920, 1080), NOW);
    assert_eq!(
        take(&mut state, Rect::new(-500, -300, 100, 100), NOW).err(),
        Some(Fallback::Straddle)
    );
}

#[test]
fn an_area_at_the_far_end_of_the_numbers_falls_back() {
    let mut state = hold(Rect::new(i32::MIN, 0, 10, 10), NOW);
    assert_eq!(
        take(&mut state, Rect::new(i32::MAX, 0, 1, 1), NOW).err(),
        Some(Fallback::Straddle)
    );
}

#[test]
fn an_area_flush_against_the_monitors_far_edge_still_crops() {
    let mut state = hold(Rect::new(-1080, 200, 1080, 1920), NOW);
    assert!(take(&mut state, Rect::new(-80, 2020, 80, 100), NOW).is_ok());
}

#[test]
fn a_frame_still_in_the_slot_is_served_even_mid_discard() {
    let mut state = hold(Rect::new(0, 0, 800, 600), NOW);
    state.generation += 1;
    assert!(
        take(&mut state, Rect::new(10, 10, 20, 20), NOW).is_ok(),
        "a frame in the slot belongs to the drag that is consuming it"
    );
}

#[test]
fn discarding_leaves_nothing_for_the_next_drag() {
    let mut state = hold(Rect::new(0, 0, 800, 600), NOW);
    discard(&mut state);
    assert_eq!(take(&mut state, Rect::new(0, 0, 10, 10), NOW).err(), Some(Fallback::NoFrame));
}

#[test]
fn the_bound_must_exceed_what_a_capture_costs() {
    assert!(
        FRESHNESS > CAPTURE_ALLOWANCE,
        "a frame cannot be younger than the time it takes to produce one"
    );
    assert!(
        REFRESH_AFTER + CAPTURE_ALLOWANCE <= FRESHNESS,
        "a refresh started at {REFRESH_AFTER:?} and costing up to \
         {CAPTURE_ALLOWANCE:?} would land after {FRESHNESS:?}"
    );
    assert!(REFRESH_AFTER > 0);
}

#[test]
fn a_frame_is_refreshed_only_once_it_is_due() {
    let mut state = hold(Rect::new(0, 0, 100, 100), NOW);
    state.target = Some(Rect::new(0, 0, 100, 100));

    assert_eq!(refresh(&mut state, NOW), None);
    assert!(!state.in_flight, "a frame inside the refresh window must not be re-taken");

    let aged = NOW + REFRESH_AFTER + MILLISECOND;
    let job = refresh(&mut state, aged);
    assert_eq!(job, Some(CaptureJob { monitor: Rect::new(0, 0, 100, 100), generation: 0 }));
    assert!(state.in_flight, "an aged frame is re-taken");
    assert_eq!(refresh(&mut state, aged), None);
    assert!(
        state.in_flight,
        "the in-flight guard is what stops a 221 Hz poll starting hundreds"
    );
}

#[test]
fn a_frame_is_due_at_exactly_its_refresh_age() {
    let mut state = hold(Rect::new(0, 0, 100, 100), NOW);
    state.target = Some(Rect::new(0, 0, 100, 100));
    assert_eq!(refresh(&mut state, NOW + REFRESH_AFTER - 1), None);
    assert!(refresh(&mut state, NOW + REFRESH_AFTER).is_some());
}

#[test]
fn nothing_refreshes_once_the_drag_is_over() {
    let mut state = hold(Rect::new(0, 0, 100, 100), NOW);
    assert_eq!(refresh(&mut state, NOW + REFRESH_AFTER + MILLISECOND), None);
    assert!(!state.in_flight);
}

#[test]
fn the_monitor_under_the_point_is_the_one_that_contains_it() {
    let monitors = [
        Rect::new(0, 0, 2560, 1440),
        Rect::new(2560, 0, 1920, 1080),
        Rect::new(-1080, 0, 1080, 1920),
    ];
    assert_eq!(monitor_holding(&monitors, Point::new(2600, 40)), Some(monitors[1]));
    assert_eq!(monitor_holding(&monitors, Point::new(-500, 1500)), Some(monitors[2]));
    assert_eq!(monitor_holding(&monitors, Point::new(3000, 1300)), None);
    assert_eq!(monitor_holding(&[], Point::new(0, 0)), None);
}

#[test]
fn a_capture_for_an_earlier_drag_is_dropped() {
    let monitor = Rect::new(0, 0, 4, 4);
    let mut state = Precapture::default();
    let Some(job) = begin(&mut state, monitor) else { panic!("nothing else is under way") };
    assert_eq!(job, CaptureJob { monitor, generation: 1 });
    assert_eq!(begin(&mut state, monitor), None, "captures do not stack");
    finish_capture(&mut state, job, Some((monitor, transparent(monitor.size))), NOW);
    assert!(state.held.is_none());
    assert!(!state.in_flight);

    let Some(job) = refresh(&mut state, NOW) else { panic!("the drag has no frame yet") };
    finish_capture(&mut state, job, Some((monitor, transparent(monitor.size))), NOW + 7);
    assert!(state.held.as_ref().is_some_and(|held| held.taken == NOW + 7));

    // The drag ends with its frame kept, and what is still under way disowned.
    let Some(job) = refresh(&mut state, NOW + FRESHNESS) else { panic!("the frame has aged") };
    end_drag(&mut state);
    assert_eq!(state.target, None);
    finish_capture(&mut state, job, Some((monitor, transparent(monitor.size))), NOW + FRESHNESS);
    assert!(state.held.as_ref().is_some_and(|held| held.taken == NOW + 7));
}

#[test]
fn a_failed_capture_keeps_what_is_held() {
    let mut state = hold(Rect::new(0, 0, 4, 4), NOW);
    state.in_flight = true;
    let job = CaptureJob { monitor: Rect::new(0, 0, 4, 4), generation: 0 };
    finish_capture(&mut state, job, None, NOW + 1);
    assert!(state.held.is_some());
    assert!(!state.in_flight);
}

#[test]
fn the_crop_is_of_the_pixels_under_the_area() {
    let pixels: Vec<u8> = (0..3 * 2 * 4).map(|byte| byte as u8).collect();
    let Some(bitmap) = RgbaBitmap::from_pixels(Size::new(3, 2), pixels) else {
        panic!("the pixels are as many as the size asks for")
    };
    let mut state = Precapture {
        held: Some(Held { rect: Rect::new(-3, 5, 3, 2), bitmap, taken: NOW }),
        ..Precapture::default()
    };
    let Ok(cut) = take(&mut state, Rect::new(-2, 6, 2, 1), NOW) else {
        panic!("the frame covers the area")
    };
    assert_eq!(*cut.pixels(), vec![16, 17, 18, 19, 20, 21, 22, 23]);
}

#[test]
fn each_reason_is_told() {
    let told = |reason| {
        let mut out = String::from("> ");
        push_reason(&mut out, reason);
        out
    };
    assert_eq!(told(Fallback::NoFrame), "> no held frame");
    assert_eq!(
        told(Fallback::Stale { age_ms: 801 }),
        "> held frame was 801 ms old, over the 750 ms freshness bound"
    );
    assert_eq!(
        told(Fallback::Straddle),
        "> the area is not wholly on the pre-captured monitor"
    );
}
