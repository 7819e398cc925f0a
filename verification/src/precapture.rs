//! The frame captured while a drag is still going on.
//!
//! A drag that will capture on release starts capturing its monitor when the
//! button goes down, and the release crops what is held instead of waiting for
//! a capture. The frame is renewed while the drag lasts, belongs to one drag
//! only, and is never served once it is older than [`FRESHNESS`]. Times are
//! nanoseconds on one monotonic clock.

use vstd::prelude::*;
use crate::bitmap::RgbaBitmap;
use crate::bitmap;
use crate::geometry::{index_at, Point, Rect};
use crate::geometry;
use crate::search;
use crate::text::push_decimal;
use crate::text;

verus! {

/// The oldest a frame may be and still be served.
pub const FRESHNESS: u64 = 750_000_000;

/// What a capture may take.
pub const CAPTURE_ALLOWANCE: u64 = 300_000_000;

/// The age at which a held frame is renewed: early enough that the new one
/// arrives before the old one is too old.
pub const REFRESH_AFTER: u64 = FRESHNESS - CAPTURE_ALLOWANCE;

/// A captured frame.
#[derive(Debug)]
pub struct Held {
    /// The rectangle the capture reports it took.
    pub rect: Rect,
    pub bitmap: RgbaBitmap,
    /// When the capture was complete.
    pub taken: u64,
}

/// A capture to be made, and the drag it is made for.
#[derive(Debug, Clone, Copy, PartialEq, Eq, Structural)]
pub struct CaptureJob {
    pub monitor: Rect,
    pub generation: u64,
}

/// Why no held frame could be served.
#[derive(Debug, Clone, Copy, PartialEq, Eq, Structural)]
pub enum Fallback {
    /// None is held.
    NoFrame,
    /// The one held is too old.
    Stale { age_ms: u64 },
    /// The area is not wholly on the captured monitor.
    Straddle,
}

/// The held frame and what is under way to renew it.
#[derive(Debug)]
pub struct Precapture {
    pub held: Option<Held>,
    /// Counts drags: a capture made for an earlier one is dropped.
    pub generation: u64,
    /// The monitor to keep a frame of while a drag lasts.
    pub target: Option<Rect>,
    /// Whether a capture is under way. There is never more than one.
    pub in_flight: bool,
}

impl Default for Precapture {
    /// Nothing held, nothing wanted, nothing under way.
    fn default() -> (fresh: Self)
        ensures
            fresh == (Precapture { held: None, generation: 0, target: None, in_flight: false }),
    {
        Precapture { held: None, generation: 0, target: None, in_flight: false }
    }
}

/// The drag after this one.
pub open spec fn next_generation(generation: u64) -> u64 {
    if generation == u64::MAX {
        0
    } else {
        (generation + 1) as u64
    }
}

/// The age of something that happened at `taken`.
pub open spec fn age(taken: u64, now: u64) -> int {
    if now >= taken {
        now - taken
    } else {
        0
    }
}

/// The state once a capture of `monitor` was asked for.
pub open spec fn claimed(state: Precapture) -> Precapture {
    Precapture { in_flight: true, ..state }
}

/// The capture that is started when one of `monitor` is asked for: none while
/// another is under way.
pub open spec fn job_for(
    state: Precapture,
    monitor: Rect,
    generation: u64,
) -> Option<CaptureJob> {
    if state.in_flight {
        None
    } else {
        Some(CaptureJob { monitor, generation })
    }
}

/// Asks for a capture of `monitor` on behalf of a drag.
fn spawn_capture(state: &mut Precapture, monitor: Rect, generation: u64) -> (job: Option<
    CaptureJob,
>)
    ensures
        job == job_for(*old(state), monitor, generation),
        *final(state) == claimed(*old(state)),
{
    let busy = state.in_flight;
    state.in_flight = true;
    if busy {
        None
    } else {
        Some(CaptureJob { monitor, generation })
    }
}

/// The state once a drag over `monitor` has begun.
pub open spec fn begun(state: Precapture, monitor: Rect) -> Precapture {
    Precapture {
        held: None,
        generation: next_generation(state.generation),
        target: Some(monitor),
        in_flight: true,
    }
}

/// Begins a drag: drops what an earlier one left and starts capturing its
/// monitor.
pub fn begin(state: &mut Precapture, monitor: Rect) -> (job: Option<CaptureJob>)
    ensures
        *final(state) == begun(*old(state), monitor),
        job == job_for(*old(state), monitor, next_generation(old(state).generation)),
{
    let generation: u64 = state.generation.wrapping_add(1);
    state.generation = generation;
    state.held = None;
    state.target = Some(monitor);
    spawn_capture(state, monitor, generation)
}

/// Whether the frame has to be renewed at `now`: a drag wants one, none is
/// under way, and there is none or it has reached the age for it.
pub open spec fn refresh_due(state: Precapture, now: u64) -> bool {
    &&& state.target is Some
    &&& !state.in_flight
    &&& match state.held {
        Some(frame) => age(frame.taken, now) >= REFRESH_AFTER,
        None => true,
    }
}

/// Renews the frame if it is due.
pub fn refresh(state: &mut Precapture, now: u64) -> (job: Option<CaptureJob>)
    ensures
        refresh_due(*old(state), now) ==> {
            &&& job == Some(
                CaptureJob { monitor: old(state).target->0, generation: old(state).generation },
            )
            &&& *final(state) == claimed(*old(state))
        },
        !refresh_due(*old(state), now) ==> job is None && *final(state) == *old(state),
{
    let monitor = match state.target {
        Some(monitor) => monitor,
        None => {
            return None;
        },
    };
    if state.in_flight {
        return None;
    }
    let due = match &state.held {
        Some(frame) => now.saturating_sub(frame.taken) >= REFRESH_AFTER,
        None => true,
    };
    if due {
        let generation: u64 = state.generation;
        spawn_capture(state, monitor, generation)
    } else {
        None
    }
}

/// Takes in what a capture came to: none if it failed. A frame for a drag that
/// is over is dropped.
pub fn finish_capture(
    state: &mut Precapture,
    job: CaptureJob,
    captured: Option<(Rect, RgbaBitmap)>,
    now: u64,
)
    ensures
        final(state).in_flight == false,
        final(state).generation == old(state).generation,
        final(state).target == old(state).target,
        final(state).held == match captured {
            Some((rect, bitmap)) => if job.generation == old(state).generation {
                Some(Held { rect, bitmap, taken: now })
            } else {
                old(state).held
            },
            None => old(state).held,
        },
{
    state.in_flight = false;
    if let Some((rect, bitmap)) = captured {
        if state.generation == job.generation {
            state.held = Some(Held { rect, bitmap, taken: now });
        }
    }
}

/// The state once a drag is over without a use for its frame.
pub open spec fn discarded(state: Precapture) -> Precapture {
    Precapture {
        held: None,
        generation: next_generation(state.generation),
        target: None,
        in_flight: state.in_flight,
    }
}

/// Ends a drag that has no use for its frame: drops the frame and disowns a
/// capture still under way.
pub fn discard(state: &mut Precapture)
    ensures
        *final(state) == discarded(*old(state)),
{
    state.generation = state.generation.wrapping_add(1);
    state.held = None;
    state.target = None;
}

/// The state once a drag is over and its frame is about to be taken.
pub open spec fn ended(state: Precapture) -> Precapture {
    Precapture {
        held: state.held,
        generation: next_generation(state.generation),
        target: None,
        in_flight: state.in_flight,
    }
}

/// Ends a drag whose frame is about to be taken: the frame stays, and a capture
/// still under way is disowned.
pub fn end_drag(state: &mut Precapture)
    ensures
        *final(state) == ended(*old(state)),
{
    state.generation = state.generation.wrapping_add(1);
    state.target = None;
}

/// `bounds` relative to the corner of a captured rectangle, where that can be
/// said in 32 bits.
pub open spec fn local_to(bounds: Rect, captured: Rect) -> Option<Rect> {
    let x = bounds.origin.x - captured.origin.x;
    let y = bounds.origin.y - captured.origin.y;
    if i32::MIN <= x <= i32::MAX && i32::MIN <= y <= i32::MAX {
        Some(Rect { origin: Point { x: x as i32, y: y as i32 }, size: bounds.size })
    } else {
        None
    }
}

/// `bounds` relative to the corner of a captured rectangle.
fn localize(bounds: Rect, captured: Rect) -> (local: Option<Rect>)
    ensures
        local == local_to(bounds, captured),
{
    let x: i64 = bounds.origin.x as i64 - captured.origin.x as i64;
    let y: i64 = bounds.origin.y as i64 - captured.origin.y as i64;
    if x < i32::MIN as i64 || x > i32::MAX as i64 || y < i32::MIN as i64 || y > i32::MAX as i64 {
        return None;
    }
    Some(Rect::new(x as i32, y as i32, bounds.size.width, bounds.size.height))
}

/// Whether an area lies wholly on a held frame.
pub open spec fn on_frame(frame: Held, bounds: Rect) -> bool {
    local_to(bounds, frame.rect) matches Some(local) && bitmap::fits_in(
        local,
        frame.bitmap.extent(),
    )
}

/// Why a frame cannot be served for an area, if it cannot.
pub open spec fn refusal(held: Option<Held>, bounds: Rect, now: u64) -> Option<Fallback> {
    match held {
        None => Some(Fallback::NoFrame),
        Some(frame) => if age(frame.taken, now) > FRESHNESS {
            Some(Fallback::Stale { age_ms: (age(frame.taken, now) / 1_000_000) as u64 })
        } else if !on_frame(frame, bounds) {
            Some(Fallback::Straddle)
        } else {
            None
        },
    }
}

/// The state once the frame has been taken: it is used once.
pub open spec fn taken(state: Precapture) -> Precapture {
    Precapture { held: None, target: None, ..state }
}

/// Takes the pixels of an area out of the held frame, or says why it cannot.
pub fn take(state: &mut Precapture, bounds: Rect, now: u64) -> (cut: Result<RgbaBitmap, Fallback>)
    ensures
        *final(state) == taken(*old(state)),
        match cut {
            Ok(cut) => {
                &&& refusal(old(state).held, bounds, now) is None
                &&& cut.extent() == bounds.size
                &&& bitmap::is_cut(
                    cut.bytes(),
                    old(state).held->0.bitmap.bytes(),
                    old(state).held->0.bitmap.extent(),
                    local_to(bounds, old(state).held->0.rect)->0,
                )
            },
            Err(reason) => refusal(old(state).held, bounds, now) == Some(reason),
        },
{
    state.target = None;
    let frame = match state.held.take() {
        Some(frame) => frame,
        None => {
            return Err(Fallback::NoFrame);
        },
    };
    let age: u64 = now.saturating_sub(frame.taken);
    if age > FRESHNESS {
        return Err(Fallback::Stale { age_ms: age / 1_000_000 });
    }
    match localize(bounds, frame.rect) {
        Some(local) => match frame.bitmap.crop(local) {
            Some(cut) => Ok(cut),
            None => Err(Fallback::Straddle),
        },
        None => Err(Fallback::Straddle),
    }
}

/// The first monitor that contains a point.
pub fn monitor_holding(monitors: &[Rect], point: Point) -> (monitor: Option<Rect>)
    ensures
        monitor == match search::first(monitors@, geometry::holding(point)) {
            Some(index) => Some(monitors@[index as int]),
            None => None,
        },
{
    proof {
        search::lemma_first_from(monitors@, geometry::holding(point), 0);
    }
    match index_at(monitors, point) {
        Some(index) => Some(monitors[index]),
        None => None,
    }
}

/// A reason as the log says it.
pub open spec fn reason_text(reason: Fallback) -> Seq<char> {
    match reason {
        Fallback::NoFrame => "no held frame"@,
        Fallback::Stale { age_ms } => "held frame was "@ + text::decimal(age_ms as nat)
            + " ms old, over the "@ + text::decimal((FRESHNESS / 1_000_000) as nat)
            + " ms freshness bound"@,
        Fallback::Straddle => "the area is not wholly on the pre-captured monitor"@,
    }
}

/// Appends a reason as the log says it.
pub fn push_reason(out: &mut String, reason: Fallback)
    ensures
        final(out)@ == old(out)@ + reason_text(reason),
{
    match reason {
        Fallback::NoFrame => {
            out.append("no held frame");
        },
        Fallback::Stale { age_ms } => {
            out.append("held frame was ");
            push_decimal(out, age_ms as u128);
            out.append(" ms old, over the ");
            push_decimal(out, (FRESHNESS / 1_000_000) as u128);
            out.append(" ms freshness bound");
            assert(out@ =~= old(out)@ + reason_text(reason));
        },
        Fallback::Straddle => {
            out.append("the area is not wholly on the pre-captured monitor");
        },
    }
}

// ---------------------------------------------------------------------------
// Laws.
// ---------------------------------------------------------------------------

/// A frame is used once: after a frame was taken, and after one was discarded,
/// there is none to take.
pub proof fn law_a_frame_is_used_once(state: Precapture, bounds: Rect, now: u64)
    ensures
        refusal(taken(state).held, bounds, now) == Some(Fallback::NoFrame),
        refusal(discarded(state).held, bounds, now) == Some(Fallback::NoFrame),
{
}

/// A served frame is never older than the bound, and one exactly at it is not
/// yet refused for its age.
pub proof fn law_a_served_frame_is_fresh(held: Option<Held>, bounds: Rect, now: u64)
    ensures
        refusal(held, bounds, now) is None ==> held is Some && age(held->0.taken, now)
            <= FRESHNESS,
        held is Some && age(held->0.taken, now) == FRESHNESS ==> !(refusal(held, bounds, now)
            is Some && refusal(held, bounds, now)->0 is Stale),
{
}

/// A frame renewed when it is due, by a capture that keeps to its allowance,
/// arrives while the old one can still be served.
pub proof fn law_a_refresh_arrives_in_time(taken: u64, started: u64, arrived: u64)
    requires
        taken <= started <= arrived,
        age(taken, started) == REFRESH_AFTER,
        arrived - started <= CAPTURE_ALLOWANCE,
    ensures
        age(taken, arrived) <= FRESHNESS,
        FRESHNESS > CAPTURE_ALLOWANCE,
        REFRESH_AFTER > 0,
{
}

/// Nothing is renewed once a drag is over, however it ended.
pub proof fn law_nothing_refreshes_after_the_drag(state: Precapture, now: u64)
    ensures
        !refresh_due(taken(state), now),
        !refresh_due(discarded(state), now),
        !refresh_due(ended(state), now),
{
}

/// A capture made for one drag does not answer for the next: beginning,
/// discarding and ending a drag each leave a generation no earlier job carries.
pub proof fn law_a_later_drag_disowns_the_capture(state: Precapture, monitor: Rect)
    ensures
        begun(state, monitor).generation != state.generation,
        discarded(state).generation != state.generation,
        ended(state).generation != state.generation,
{
}

/// A capture is never started while another is under way.
pub proof fn law_captures_do_not_stack(state: Precapture, monitor: Rect, generation: u64, now: u64)
    requires
        state.in_flight,
    ensures
        job_for(state, monitor, generation) is None,
        !refresh_due(state, now),
        !refresh_due(begun(state, monitor), now),
{
}

/// What is taken from the held frame is what lay under the area: each pixel is the one
/// the frame has at the same place of the desktop.
pub proof fn law_a_taken_picture_is_what_lay_there(
    state: &mut Precapture,
    bounds: Rect,
    now: u64,
    cut: RgbaBitmap,
    x: int,
    y: int,
    channel: int,
)
    requires
        call_ensures(take, (state, bounds, now), Ok(cut)),
        0 <= x < bounds.size.width,
        0 <= y < bounds.size.height,
        0 <= channel < 4,
    ensures
        old(state).held is Some,
        ({
            let frame = old(state).held->0;
            let column = bounds.origin.x + x - frame.rect.origin.x;
            let line = bounds.origin.y + y - frame.rect.origin.y;
            &&& cut.extent() == bounds.size
            &&& 0 <= column < frame.bitmap.extent().width
            &&& 0 <= line < frame.bitmap.extent().height
            &&& cut.bytes()[4 * (y * bounds.size.width + x) + channel] == frame.bitmap.bytes()[4 * (
            line * frame.bitmap.extent().width + column) + channel]
        }),
{
    let frame = old(state).held->0;
    let local = local_to(bounds, frame.rect)->0;
    let narrow = bitmap::stride(bounds.size);
    let wide = bitmap::stride(frame.bitmap.extent());
    let line = local.origin.y + y;
    let b = 4 * x + channel;
    assert(y * (4 * bounds.size.width) == 4 * (y * bounds.size.width)) by (nonlinear_arith);
    assert(line * (4 * frame.bitmap.extent().width) == 4 * (line * frame.bitmap.extent().width))
        by (nonlinear_arith);
    assert(cut.bytes()[y * narrow + b] == frame.bitmap.bytes()[(local.origin.y + y) * wide + 4
        * local.origin.x + b]);
}

/// A frame serves an area exactly where there is one, it is at most three quarters of a
/// second old, and the whole area is on it; and why it does not is said in this order.
pub proof fn law_why_a_frame_does_not_serve(
    state: &mut Precapture,
    bounds: Rect,
    now: u64,
    cut: Result<RgbaBitmap, Fallback>,
)
    requires
        call_ensures(take, (state, bounds, now), cut),
    ensures
        ({
            let frame = old(state).held->0;
            let old_now = if now >= frame.taken {
                now - frame.taken
            } else {
                0
            };
            let x = bounds.origin.x - frame.rect.origin.x;
            let y = bounds.origin.y - frame.rect.origin.y;
            let on_it = 0 <= x <= i32::MAX && 0 <= y <= i32::MAX && x + bounds.size.width
                <= frame.bitmap.extent().width && y + bounds.size.height
                <= frame.bitmap.extent().height;
            &&& old(state).held is None ==> cut == Err::<RgbaBitmap, Fallback>(Fallback::NoFrame)
            &&& old(state).held is Some && old_now > 750_000_000 ==> cut == Err::<
                RgbaBitmap,
                Fallback,
            >(Fallback::Stale { age_ms: (old_now / 1_000_000) as u64 })
            &&& old(state).held is Some && old_now <= 750_000_000 && !on_it ==> cut == Err::<
                RgbaBitmap,
                Fallback,
            >(Fallback::Straddle)
            &&& old(state).held is Some && old_now <= 750_000_000 && on_it ==> cut is Ok
        }),
        final(state).held is None,
        final(state).target is None,
        final(state).generation == old(state).generation,
        final(state).in_flight == old(state).in_flight,
{
}

/// A drag begins afresh: what an earlier one held is gone, its monitor is wanted, and one
/// capture of it is asked for, unless one is still under way.
pub proof fn law_a_drag_begins_afresh(
    state: &mut Precapture,
    monitor: Rect,
    job: Option<CaptureJob>,
)
    requires
        call_ensures(begin, (state, monitor), job),
    ensures
        final(state).held is None,
        final(state).target == Some(monitor),
        final(state).in_flight,
        final(state).generation != old(state).generation,
        old(state).in_flight ==> job is None,
        !old(state).in_flight ==> job == Some(
            CaptureJob { monitor, generation: final(state).generation },
        ),
{
}

/// A frame that arrives for the drag that asked for it is held, with its rectangle and
/// its time; one for a drag that is over, and a capture that failed, change nothing but
/// that none is under way.
pub proof fn law_a_frame_belongs_to_its_drag(
    state: &mut Precapture,
    job: CaptureJob,
    captured: Option<(Rect, RgbaBitmap)>,
    now: u64,
)
    requires
        call_ensures(finish_capture, (state, job, captured, now), ()),
    ensures
        !final(state).in_flight,
        final(state).generation == old(state).generation,
        final(state).target == old(state).target,
        captured is Some && job.generation == old(state).generation ==> final(state).held == Some(
            Held { rect: (captured->0).0, bitmap: (captured->0).1, taken: now },
        ),
        captured is None || job.generation != old(state).generation ==> final(state).held
            == old(state).held,
{
}

/// What is begun, captured and taken in one drag, in time, is what was captured; and a
/// second taking finds none.
pub proof fn law_a_drag_gets_its_own_frame(
    state: &mut Precapture,
    monitor: Rect,
    job: Option<CaptureJob>,
    during: &mut Precapture,
    rect: Rect,
    bitmap: RgbaBitmap,
    taken_at: u64,
    release: &mut Precapture,
    bounds: Rect,
    now: u64,
    cut: Result<RgbaBitmap, Fallback>,
    later: &mut Precapture,
    again: Result<RgbaBitmap, Fallback>,
)
    requires
        call_ensures(begin, (state, monitor), job),
        job is Some,
        *old(during) == *final(state),
        call_ensures(finish_capture, (during, job->0, Some((rect, bitmap)), taken_at), ()),
        *old(release) == *final(during),
        call_ensures(take, (release, bounds, now), cut),
        taken_at <= now <= taken_at + 750_000_000,
        bounds.origin.x >= rect.origin.x,
        bounds.origin.y >= rect.origin.y,
        bounds.origin.x - rect.origin.x <= i32::MAX,
        bounds.origin.y - rect.origin.y <= i32::MAX,
        bounds.origin.x - rect.origin.x + bounds.size.width <= bitmap.extent().width,
        bounds.origin.y - rect.origin.y + bounds.size.height <= bitmap.extent().height,
        *old(later) == *final(release),
        call_ensures(take, (later, bounds, now), again),
    ensures
        cut is Ok,
        cut->Ok_0.extent() == bounds.size,
        again == Err::<RgbaBitmap, Fallback>(Fallback::NoFrame),
{
}

/// A frame is renewed exactly while a drag wants one and none is under way, where there is
/// none or it is at least 450 milliseconds old: on the same monitor, for the same drag.
pub proof fn law_a_frame_is_renewed_in_time(
    state: &mut Precapture,
    now: u64,
    job: Option<CaptureJob>,
)
    requires
        call_ensures(refresh, (state, now), job),
    ensures
        job is Some <==> old(state).target is Some && !old(state).in_flight && (old(state).held
            is None || now >= old(state).held->0.taken + 450_000_000),
        job is Some ==> job->0.monitor == old(state).target->0 && job->0.generation
            == old(state).generation && final(state).in_flight,
        job is None ==> *final(state) == *old(state),
        final(state).held == old(state).held,
        final(state).target == old(state).target,
        final(state).generation == old(state).generation,
{
}

/// A drag that is over wants no frame: where it has no use for its own that is dropped,
/// and where it is about to be taken that stays; a capture under way is disowned in
/// either case.
pub proof fn law_a_drag_that_is_over(dropped: &mut Precapture, kept: &mut Precapture)
    requires
        call_ensures(discard, (dropped,), ()),
        call_ensures(end_drag, (kept,), ()),
    ensures
        final(dropped).held is None,
        final(dropped).target is None,
        final(dropped).generation != old(dropped).generation,
        final(dropped).in_flight == old(dropped).in_flight,
        final(kept).held == old(kept).held,
        final(kept).target is None,
        final(kept).generation != old(kept).generation,
        final(kept).in_flight == old(kept).in_flight,
{
}

/// The monitor of a point is the first that contains it, and none where none does.
pub proof fn law_the_monitor_of_a_point(
    monitors: &[Rect],
    point: Point,
    monitor: Option<Rect>,
    i: int,
)
    requires
        call_ensures(monitor_holding, (monitors, point), monitor),
        monitors@.len() <= usize::MAX,
        0 <= i < monitors@.len(),
    ensures
        monitor is None ==> !monitors@[i].holds(point),
        monitor is Some ==> monitor->0.holds(point) && monitors@.contains(monitor->0),
        monitors@[i].holds(point) && (forall|k: int|
            0 <= k < i ==> !(#[trigger] monitors@[k]).holds(point)) ==> monitor == Some(
            monitors@[i],
        ),
{
    search::lemma_first_from(monitors@, geometry::holding(point), 0);
    assert(geometry::holding(point)(monitors@[i]) == monitors@[i].holds(point));
}

/// A reason says which it is, and of an old frame how old it was and how old it may be.
pub proof fn law_a_reason_is_told(out: &mut String, reason: Fallback)
    requires
        call_ensures(push_reason, (out, reason), ()),
    ensures
        final(out)@ == old(out)@ + match reason {
            Fallback::NoFrame => "no held frame"@,
            Fallback::Stale { age_ms } => "held frame was "@ + text::decimal(age_ms as nat)
                + " ms old, over the "@ + text::decimal(750) + " ms freshness bound"@,
            Fallback::Straddle => "the area is not wholly on the pre-captured monitor"@,
        },
{
}

/// At the start no frame is held, no monitor is wanted and no capture is under way.
pub proof fn law_nothing_is_held_at_the_start(fresh: Precapture)
    requires
        call_ensures(Precapture::default, (), fresh),
    ensures
        fresh.held is None,
        fresh.generation == 0,
        fresh.target is None,
        !fresh.in_flight,
{
}

} // verus!
