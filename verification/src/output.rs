//! What leaves the overlay: where the pixels of an export come from, the order
//! in which an export does its work, what the log says of it, and the name a
//! saved file gets.

use vstd::prelude::*;
use crate::area::AreaId;
use crate::bitmap::RgbaBitmap;
use crate::geometry::{Point, Rect};
use crate::precapture::{push_reason, take, Fallback, Precapture};
use crate::precapture;
use crate::search;
use crate::text::{push_decimal, push_padded, push_signed};
use crate::text;

verus! {

/// An action is over its target past this, in milliseconds.
pub const BUDGET_TARGET_MS: u128 = 300;

/// An action has failed its budget past this, in milliseconds.
pub const BUDGET_HARD_FAIL_MS: u128 = 600;

/// The variable that turns the line for every action on in a release build.
pub const REPORT_VAR: &'static str = "UPTAKE_DEV_REPORT";

/// What is shown for a value of [`REPORT_VAR`] that cannot be.
pub const NOT_UNICODE: &'static str = "<set, but not valid Unicode>";

// ---------------------------------------------------------------------------
// What one action cost.
// ---------------------------------------------------------------------------

/// Where the pixels of an export came from.
#[derive(Debug, Clone, Copy, PartialEq, Eq, Structural)]
pub enum Source {
    /// A capture made for it.
    Live,
    /// The area's own capture, made when it was created.
    Pinned,
    /// The frame held since the button went down.
    Held,
    /// The frozen still on screen.
    Frozen,
    /// A capture made for it because no held frame could be served.
    Fell(Fallback),
}

/// A source as the log says it.
pub open spec fn source_text(source: Source) -> Seq<char> {
    match source {
        Source::Live => "live capture"@,
        Source::Pinned => "pinned capture, not re-taken"@,
        Source::Held => "held frame"@,
        Source::Frozen => "frozen still"@,
        Source::Fell(reason) => "live capture — fell back: "@ + precapture::reason_text(reason),
    }
}

/// Appends a source as the log says it.
pub fn push_source(out: &mut String, source: Source)
    ensures
        final(out)@ == old(out)@ + source_text(source),
{
    match source {
        Source::Live => {
            out.append("live capture");
        },
        Source::Pinned => {
            out.append("pinned capture, not re-taken");
        },
        Source::Held => {
            out.append("held frame");
        },
        Source::Frozen => {
            out.append("frozen still");
        },
        Source::Fell(reason) => {
            out.append("live capture — fell back: ");
            push_reason(out, reason);
            assert(out@ =~= old(out)@ + source_text(source));
        },
    }
}

/// Where the time of an action went, in milliseconds, and on what.
#[derive(Debug, Clone, Copy, PartialEq, Eq)]
pub struct Split {
    pub capture_ms: u128,
    pub encode_ms: u128,
    /// Whatever is done with the bytes.
    pub publish_ms: u128,
    /// The rectangle the pixels came from, where it is known.
    pub bounds: Option<Rect>,
    /// The length of the encoded image.
    pub encoded_bytes: usize,
    pub source: Source,
}

impl Default for Split {
    /// Nothing done yet.
    fn default() -> (split: Self)
        ensures
            split == (Split {
                capture_ms: 0,
                encode_ms: 0,
                publish_ms: 0,
                bounds: None,
                encoded_bytes: 0,
                source: Source::Live,
            }),
    {
        Split {
            capture_ms: 0,
            encode_ms: 0,
            publish_ms: 0,
            bounds: None,
            encoded_bytes: 0,
            source: Source::Live,
        }
    }
}

/// A rectangle as the log says it; nothing where there is none.
pub open spec fn bounds_text(bounds: Option<Rect>) -> Seq<char> {
    match bounds {
        Some(rect) => text::decimal(rect.size.width as nat) + "x"@ + text::decimal(
            rect.size.height as nat,
        ) + " at ("@ + text::signed_decimal(rect.origin.x as int) + ", "@ + text::signed_decimal(
            rect.origin.y as int,
        ) + ") — "@,
        None => Seq::<char>::empty(),
    }
}

/// The line on where the time went.
pub open spec fn stage_text(split: Split) -> Seq<char> {
    bounds_text(split.bounds) + "capture "@ + text::decimal(split.capture_ms as nat)
        + " ms, encode "@ + text::decimal(split.encode_ms as nat) + " ms, publish "@
        + text::decimal(split.publish_ms as nat) + " ms, "@ + text::decimal(
        split.encoded_bytes as nat,
    ) + " bytes ("@ + source_text(split.source) + ")"@
}

/// The line on where the time went: the rectangle first, where it is known,
/// then the stages, the bytes and the source.
pub fn stage_line(split: &Split) -> (line: String)
    ensures
        line@ == stage_text(*split),
{
    let mut line = String::new();
    if let Some(rect) = split.bounds {
        push_decimal(&mut line, rect.size.width as u128);
        line.append("x");
        push_decimal(&mut line, rect.size.height as u128);
        line.append(" at (");
        push_signed(&mut line, rect.origin.x as i64);
        line.append(", ");
        push_signed(&mut line, rect.origin.y as i64);
        line.append(") — ");
    }
    assert(line@ =~= bounds_text(split.bounds));
    line.append("capture ");
    push_decimal(&mut line, split.capture_ms);
    line.append(" ms, encode ");
    push_decimal(&mut line, split.encode_ms);
    line.append(" ms, publish ");
    push_decimal(&mut line, split.publish_ms);
    line.append(" ms, ");
    push_decimal(&mut line, split.encoded_bytes as u128);
    line.append(" bytes (");
    push_source(&mut line, split.source);
    line.append(")");
    line
}

// ---------------------------------------------------------------------------
// What the log says.
// ---------------------------------------------------------------------------

/// What some lines say.
pub open spec fn texts(lines: Seq<String>) -> Seq<Seq<char>> {
    Seq::new(lines.len(), |i: int| lines[i]@)
}

/// The line on an action over the hard budget.
pub open spec fn hard_fail_text(action: Seq<char>, elapsed: u128, stages: Seq<char>) -> Seq<char> {
    "output: "@ + action + " took "@ + text::decimal(elapsed as nat)
        + " ms — over the §1 hard-fail budget ("@ + text::decimal(BUDGET_HARD_FAIL_MS as nat)
        + " ms) — "@ + stages
}

/// The line on an action over the target.
pub open spec fn over_target_text(
    action: Seq<char>,
    elapsed: u128,
    stages: Seq<char>,
) -> Seq<char> {
    "output: "@ + action + " took "@ + text::decimal(elapsed as nat)
        + " ms — over the §1 target ("@ + text::decimal(BUDGET_TARGET_MS as nat)
        + " ms), within the hard fail — "@ + stages
}

/// The line on an action as such.
pub open spec fn finished_text(action: Seq<char>, elapsed: u128, stages: Seq<char>) -> Seq<char> {
    "output: "@ + action + " finished in "@ + text::decimal(elapsed as nat) + " ms — "@ + stages
}

/// The line on a failed action.
pub open spec fn failed_text(
    action: Seq<char>,
    elapsed: u128,
    reason: Seq<char>,
    stages: Seq<char>,
) -> Seq<char> {
    "output: "@ + action + " failed after "@ + text::decimal(elapsed as nat) + " ms: "@ + reason
        + " — "@ + stages
}

/// What the log says of an action: always that it failed; else that it is over
/// one of its budgets, if it is, and that it is finished, if every action is to
/// be reported.
pub open spec fn report_text(
    action: Seq<char>,
    elapsed: u128,
    stages: Seq<char>,
    outcome: Result<(), String>,
    every_action: bool,
) -> Seq<Seq<char>> {
    match outcome {
        Err(reason) => seq![failed_text(action, elapsed, reason@, stages)],
        Ok(_) => (if elapsed > BUDGET_HARD_FAIL_MS {
            seq![hard_fail_text(action, elapsed, stages)]
        } else if elapsed > BUDGET_TARGET_MS {
            seq![over_target_text(action, elapsed, stages)]
        } else {
            seq![]
        }) + if every_action {
            seq![finished_text(action, elapsed, stages)]
        } else {
            seq![]
        },
    }
}

/// The lines the log gets on an action.
pub fn report_lines(
    action: &str,
    elapsed: u128,
    stages: &str,
    outcome: Result<(), String>,
    every_action: bool,
) -> (lines: Vec<String>)
    ensures
        texts(lines@) == report_text(action@, elapsed, stages@, outcome, every_action),
{
    let mut lines: Vec<String> = Vec::new();
    match outcome {
        Err(reason) => {
            let mut line = "output: ".to_owned();
            line.append(action);
            line.append(" failed after ");
            push_decimal(&mut line, elapsed);
            line.append(" ms: ");
            line.append(&reason);
            line.append(" — ");
            line.append(stages);
            lines.push(line);
        },
        Ok(_) => {
            if elapsed > BUDGET_HARD_FAIL_MS {
                let mut line = "output: ".to_owned();
                line.append(action);
                line.append(" took ");
                push_decimal(&mut line, elapsed);
                line.append(" ms — over the §1 hard-fail budget (");
                push_decimal(&mut line, BUDGET_HARD_FAIL_MS);
                line.append(" ms) — ");
                line.append(stages);
                lines.push(line);
            } else if elapsed > BUDGET_TARGET_MS {
                let mut line = "output: ".to_owned();
                line.append(action);
                line.append(" took ");
                push_decimal(&mut line, elapsed);
                line.append(" ms — over the §1 target (");
                push_decimal(&mut line, BUDGET_TARGET_MS);
                line.append(" ms), within the hard fail — ");
                line.append(stages);
                lines.push(line);
            }
            if every_action {
                let mut line = "output: ".to_owned();
                line.append(action);
                line.append(" finished in ");
                push_decimal(&mut line, elapsed);
                line.append(" ms — ");
                line.append(stages);
                lines.push(line);
            }
        },
    }
    assert(texts(lines@) =~= report_text(action@, elapsed, stages@, outcome, every_action));
    lines
}

/// Whether every action is reported before the variable is looked at: in a
/// debug build and in no other.
pub fn report_line_default(debug_build: bool) -> (every_action: bool)
    ensures
        every_action == debug_build,
{
    debug_build
}

/// A text as `str`'s `Debug` formatting writes it.
pub uninterp spec fn debug_form(text: Seq<char>) -> Seq<char>;

/// A text in quotes, with whatever in it needs escaping escaped.
///
/// Calls the `Debug` formatting of `str`, which depends on the text alone and
/// whose escapes are not written out here: the result is known by its name.
#[verifier::external_body]
fn quoted(text: &str) -> (quoted: String)
    ensures
        quoted@ == debug_form(text@),
{
    format!("{text:?}")
}

/// The line for a run whose variable is set, given its value in quotes.
pub open spec fn armed_text(quoted: Seq<char>) -> Seq<char> {
    "output: every action prints a timing line, ARMED by "@ + REPORT_VAR@ + "="@ + quoted
        + ". Any value counts as on, including \"0\" and the empty string, the same rule as UPTAKE_DEV_PACING."@
}

/// The line for a run whose variable is set, given its value in quotes.
pub fn armed_line(quoted: &str) -> (line: String)
    ensures
        line@ == armed_text(quoted@),
{
    let mut line = "output: every action prints a timing line, ARMED by ".to_owned();
    line.append(REPORT_VAR);
    line.append("=");
    line.append(quoted);
    line.append(
        ". Any value counts as on, including \"0\" and the empty string, the same rule as UPTAKE_DEV_PACING.",
    );
    line
}

/// The line for a debug build.
pub open spec fn debug_line_text() -> Seq<char> {
    "output: every action prints a timing line (debug build), so "@ + REPORT_VAR@
        + " is not consulted. A RELEASE build without it prints only actions over "@
        + text::decimal(BUDGET_TARGET_MS as nat) + " ms."@
}

/// The line for a run whose variable is not set.
pub open spec fn unarmed_text() -> Seq<char> {
    let target = text::decimal(BUDGET_TARGET_MS as nat);
    "output: only actions OVER "@ + target + " ms print a line ("@ + REPORT_VAR@
        + " unset). An action UNDER it prints NOTHING, so counting lines counts the misses and not the actions: set "@
        + REPORT_VAR@ + "=1 before a measurement pass. "@ + target
        + " ms is the SELECTION budget and every action is compared against it, so for a grab this is a cutoff and not a target it can meet."@
}

/// What a run says at startup of what its log leaves out.
pub open spec fn verbosity_text(
    every_action: bool,
    debug_build: bool,
    raw: Option<&str>,
) -> Seq<char> {
    if !every_action {
        unarmed_text()
    } else if debug_build {
        debug_line_text()
    } else {
        armed_text(
            debug_form(
                match raw {
                    Some(value) => value@,
                    None => "<unset>"@,
                },
            ),
        )
    }
}

/// The line a run prints at startup on what its log leaves out.
pub fn verbosity_line(every_action: bool, debug_build: bool, raw: Option<&str>) -> (line: String)
    ensures
        line@ == verbosity_text(every_action, debug_build, raw),
{
    if !every_action {
        let mut line = "output: only actions OVER ".to_owned();
        push_decimal(&mut line, BUDGET_TARGET_MS);
        line.append(" ms print a line (");
        line.append(REPORT_VAR);
        line.append(
            " unset). An action UNDER it prints NOTHING, so counting lines counts the misses and not the actions: set ",
        );
        line.append(REPORT_VAR);
        line.append("=1 before a measurement pass. ");
        push_decimal(&mut line, BUDGET_TARGET_MS);
        line.append(
            " ms is the SELECTION budget and every action is compared against it, so for a grab this is a cutoff and not a target it can meet.",
        );
        line
    } else if debug_build {
        let mut line = "output: every action prints a timing line (debug build), so ".to_owned();
        line.append(REPORT_VAR);
        line.append(" is not consulted. A RELEASE build without it prints only actions over ");
        push_decimal(&mut line, BUDGET_TARGET_MS);
        line.append(" ms.");
        line
    } else {
        let value = match raw {
            Some(value) => value,
            None => "<unset>",
        };
        armed_line(&quoted(value))
    }
}

/// Applies the variable, which only ever raises the flag, and gives the line
/// to print.
pub fn apply_report_verbosity(every_action: &mut bool, debug_build: bool, raw: Option<&str>) -> (
    line: String)
    ensures
        *final(every_action) == (*old(every_action) || raw is Some),
        line@ == verbosity_text(*old(every_action) || raw is Some, debug_build, raw),
{
    if raw.is_some() {
        *every_action = true;
    }
    verbosity_line(*every_action, debug_build, raw)
}

// ---------------------------------------------------------------------------
// Which monitor a grab takes.
// ---------------------------------------------------------------------------

/// A monitor as the capture enumerates it.
#[derive(Debug, Clone, Copy, PartialEq, Eq, Structural)]
pub struct MonitorInfo {
    pub handle: isize,
    pub bounds: Rect,
}

impl MonitorInfo {
    pub fn new(handle: isize, bounds: Rect) -> (info: Self)
        ensures
            info == (MonitorInfo { handle, bounds }),
    {
        MonitorInfo { handle, bounds }
    }
}

/// The test "holds `point`".
pub open spec fn monitor_under(point: Point) -> spec_fn(MonitorInfo) -> bool {
    |monitor: MonitorInfo| monitor.bounds.holds(point)
}

/// Why a grab is declined.
pub open spec fn decline_text(monitors: nat, cursor: Option<Point>) -> Seq<char> {
    match cursor {
        Some(point) => "the cursor at ("@ + text::signed_decimal(point.x as int) + ", "@
            + text::signed_decimal(point.y as int) + ") is on none of the "@ + text::decimal(
            monitors,
        ) + " monitor(s) enumerated"@,
        None => "the cursor position could not be read"@,
    }
}

/// The monitor a grab takes: the first that contains the cursor. One that
/// cannot be named is declined, never guessed.
pub fn monitor_at(monitors: &[MonitorInfo], cursor: Option<Point>) -> (monitor: Result<
    Rect,
    String,
>)
    ensures
        match monitor {
            Ok(bounds) => {
                &&& cursor is Some
                &&& search::first(monitors@, monitor_under(cursor->0)) matches Some(index)
                    && bounds == monitors@[index as int].bounds
            },
            Err(reason) => {
                &&& cursor is None || search::first(monitors@, monitor_under(cursor->0)) is None
                &&& reason@ == decline_text(monitors@.len(), cursor)
            },
        },
{
    let point = match cursor {
        Some(point) => point,
        None => {
            return Err("the cursor position could not be read".to_owned());
        },
    };
    let mut i: usize = 0;
    while i < monitors.len()
        invariant
            i <= monitors.len(),
            cursor == Some(point),
            search::first_from(monitors@, monitor_under(point), 0) == search::first_from(
                monitors@,
                monitor_under(point),
                i as int,
            ),
        decreases monitors.len() - i,
    {
        if monitors[i].bounds.contains(point) {
            return Ok(monitors[i].bounds);
        }
        i += 1;
    }
    let mut reason = "the cursor at (".to_owned();
    push_signed(&mut reason, point.x as i64);
    reason.append(", ");
    push_signed(&mut reason, point.y as i64);
    reason.append(") is on none of the ");
    push_decimal(&mut reason, monitors.len() as u128);
    reason.append(" monitor(s) enumerated");
    Err(reason)
}

// ---------------------------------------------------------------------------
// Where the pixels come from.
// ---------------------------------------------------------------------------

/// What is exported, and how.
#[derive(Debug, Clone, Copy, PartialEq, Eq, Structural)]
pub enum Export {
    /// An area's picture to the clipboard.
    Copy,
    /// An area's picture to a file.
    Save,
    /// A whole monitor to the clipboard.
    Grab,
    /// What is under a new area, to it and to the clipboard.
    Capture,
    /// What is under an area, magnified, to it alone.
    Magnify,
}

/// Where an export takes its pixels.
#[derive(Debug, Clone, Copy, PartialEq, Eq, Structural)]
pub enum Pixels {
    /// The area's own capture, made when it was created.
    Pinned,
    /// The frozen still on screen, cropped.
    Frozen,
    /// The frame held since the button went down, and a capture where that cannot
    /// be served.
    Held,
    /// A capture made for it.
    Live,
}

/// Where an export takes its pixels, given whether the area has a capture of its
/// own and whether there is a frozen still of the rectangle.
pub open spec fn pixels_for(export: Export, pinned: bool, frozen: bool) -> Pixels {
    match export {
        Export::Copy | Export::Save => if pinned {
            Pixels::Pinned
        } else {
            Pixels::Live
        },
        Export::Grab => Pixels::Live,
        Export::Magnify => if frozen {
            Pixels::Frozen
        } else {
            Pixels::Live
        },
        Export::Capture => if frozen {
            Pixels::Frozen
        } else {
            Pixels::Held
        },
    }
}

/// Picks where an export takes its pixels. An area that has a capture exports what
/// it shows, not what is under it; a zoom shows the frozen still if there is one;
/// a grab is always a capture of its own.
pub fn export_source(export: Export, pinned: bool, frozen: bool) -> (from: Pixels)
    ensures
        from == pixels_for(export, pinned, frozen),
{
    match export {
        Export::Copy | Export::Save => {
            if pinned {
                Pixels::Pinned
            } else {
                Pixels::Live
            }
        },
        Export::Grab => Pixels::Live,
        Export::Magnify => {
            if frozen {
                Pixels::Frozen
            } else {
                Pixels::Live
            }
        },
        Export::Capture => {
            if frozen {
                Pixels::Frozen
            } else {
                Pixels::Held
            }
        },
    }
}

/// The pixels of an export, or that they have to be captured, and why.
#[derive(Debug)]
pub enum Route {
    /// The frozen still on screen, cropped.
    Frozen(RgbaBitmap),
    /// The held frame, cropped.
    Held(RgbaBitmap),
    /// A capture, because no held frame could be served.
    Capture(Fallback),
}

/// Whether a route is the one for a new area: the frozen still wins, because
/// what is on screen at the release is what is meant; then the held frame; then
/// a capture.
pub open spec fn is_route(
    route: Route,
    frozen: Option<RgbaBitmap>,
    pre: Precapture,
    bounds: Rect,
    now: u64,
) -> bool {
    match frozen {
        Some(still) => route == Route::Frozen(still),
        None => match precapture::refusal(pre.held, bounds, now) {
            Some(reason) => route == Route::Capture(reason),
            None => route matches Route::Held(cut) && cut.extent() == bounds.size
                && crate::bitmap::is_cut(
                cut.bytes(),
                pre.held->0.bitmap.bytes(),
                pre.held->0.bitmap.extent(),
                precapture::local_to(bounds, pre.held->0.rect)->0,
            ),
        },
    }
}

/// Picks where the pixels of a new area come from. A frozen still leaves the
/// held frame as it is; otherwise that is used up, served or not.
pub fn capture_or_crop(
    pre: &mut Precapture,
    frozen: Option<RgbaBitmap>,
    bounds: Rect,
    now: u64,
) -> (route: Route)
    ensures
        is_route(route, frozen, *old(pre), bounds, now),
        *final(pre) == if frozen is Some {
            *old(pre)
        } else {
            precapture::taken(*old(pre))
        },
{
    match frozen {
        Some(still) => Route::Frozen(still),
        None => match take(pre, bounds, now) {
            Ok(cut) => Route::Held(cut),
            Err(reason) => Route::Capture(reason),
        },
    }
}

/// Notes that pixels were at hand and only had to be encoded: no capture was
/// made, and they are of `bounds`.
pub fn note_crop(split: &mut Split, source: Source, bounds: Rect, encode_ms: u128, bytes: usize)
    ensures
        *final(split) == (Split {
            source,
            encode_ms,
            bounds: Some(bounds),
            encoded_bytes: bytes,
            ..*old(split)
        }),
{
    split.source = source;
    split.encode_ms = encode_ms;
    split.bounds = Some(bounds);
    split.encoded_bytes = bytes;
}

/// Notes a capture: the rectangle it reports it took, never the one asked for.
pub fn note_capture(
    split: &mut Split,
    taken: Rect,
    capture_ms: u128,
    encode_ms: u128,
    bytes: usize,
)
    ensures
        *final(split) == (Split {
            capture_ms,
            encode_ms,
            bounds: Some(taken),
            encoded_bytes: bytes,
            ..*old(split)
        }),
{
    split.capture_ms = capture_ms;
    split.encode_ms = encode_ms;
    split.bounds = Some(taken);
    split.encoded_bytes = bytes;
}

/// Notes that an area's own capture is exported. Its rectangle is not known:
/// the area may have moved since.
pub fn note_pinned(split: &mut Split, bytes: usize)
    ensures
        *final(split) == (Split {
            source: Source::Pinned,
            encoded_bytes: bytes,
            ..*old(split)
        }),
{
    split.source = Source::Pinned;
    split.encoded_bytes = bytes;
}

// ---------------------------------------------------------------------------
// The order of an export.
// ---------------------------------------------------------------------------

/// What an export does next.
#[derive(Debug, Clone, Copy, PartialEq, Eq, Structural)]
pub enum ExportStep {
    /// Find the monitor to grab.
    Locate,
    /// Get the pixels.
    Acquire,
    /// See whether the zoom they are for is still the one on screen.
    Check,
    /// Store them as the area's picture.
    Pin,
    /// Tell the page about it.
    Announce,
    /// Put them in the clipboard's form.
    Convert,
    /// Put them on the clipboard.
    Publish,
    /// Write them to a file.
    Write,
    /// Show on screen that it is done.
    Flash,
    /// Report it, as done or as failed.
    Report { ok: bool },
}

/// What an export does first.
pub open spec fn opening_step(export: Export) -> ExportStep {
    if export == Export::Grab {
        ExportStep::Locate
    } else {
        ExportStep::Acquire
    }
}

/// What an export does first.
pub fn first_step(export: Export) -> (step: ExportStep)
    ensures
        step == opening_step(export),
{
    match export {
        Export::Grab => ExportStep::Locate,
        _ => ExportStep::Acquire,
    }
}

/// What an export does after a step, given whether the step worked. A picture
/// that could not be announced is still there, so a new area's goes on to the
/// clipboard; and a zoom that has been scrolled past is let go without fault.
pub open spec fn step_after(export: Export, step: ExportStep, ok: bool) -> ExportStep {
    match step {
        ExportStep::Report { ok } => ExportStep::Report { ok },
        ExportStep::Check => if ok {
            ExportStep::Pin
        } else {
            ExportStep::Report { ok: true }
        },
        ExportStep::Announce => if export == Export::Capture {
            ExportStep::Convert
        } else {
            ExportStep::Report { ok }
        },
        ExportStep::Flash => ExportStep::Report { ok: true },
        _ => if !ok {
            ExportStep::Report { ok: false }
        } else {
            match step {
                ExportStep::Locate => ExportStep::Acquire,
                ExportStep::Acquire => match export {
                    Export::Copy | Export::Grab => ExportStep::Convert,
                    Export::Save => ExportStep::Write,
                    Export::Capture => ExportStep::Pin,
                    Export::Magnify => ExportStep::Check,
                },
                ExportStep::Pin => ExportStep::Announce,
                ExportStep::Convert => ExportStep::Publish,
                ExportStep::Publish => if export == Export::Copy {
                    ExportStep::Flash
                } else {
                    ExportStep::Report { ok: true }
                },
                _ => ExportStep::Flash,
            }
        },
    }
}

/// What an export does after a step, given whether the step worked.
pub fn next_step(export: Export, step: ExportStep, ok: bool) -> (next: ExportStep)
    ensures
        next == step_after(export, step, ok),
{
    match step {
        ExportStep::Report { ok } => ExportStep::Report { ok },
        ExportStep::Check => if ok {
            ExportStep::Pin
        } else {
            ExportStep::Report { ok: true }
        },
        ExportStep::Announce => match export {
            Export::Capture => ExportStep::Convert,
            _ => ExportStep::Report { ok },
        },
        ExportStep::Flash => ExportStep::Report { ok: true },
        _ => {
            if !ok {
                return ExportStep::Report { ok: false };
            }
            match step {
                ExportStep::Locate => ExportStep::Acquire,
                ExportStep::Acquire => match export {
                    Export::Copy | Export::Grab => ExportStep::Convert,
                    Export::Save => ExportStep::Write,
                    Export::Capture => ExportStep::Pin,
                    Export::Magnify => ExportStep::Check,
                },
                ExportStep::Pin => ExportStep::Announce,
                ExportStep::Convert => ExportStep::Publish,
                ExportStep::Publish => match export {
                    Export::Copy => ExportStep::Flash,
                    _ => ExportStep::Report { ok: true },
                },
                _ => ExportStep::Flash,
            }
        },
    }
}

// ---------------------------------------------------------------------------
// Magnification.
// ---------------------------------------------------------------------------

/// A magnified picture that was asked for.
#[derive(Debug, Clone, Copy, PartialEq, Eq, Structural)]
pub struct MagnifyRequest {
    pub id: AreaId,
    /// What is shown stretched over the area.
    pub source: Rect,
    pub generation: u64,
}

/// The magnified picture that is wanted, and whether something is making one.
/// One place, not a queue: a newer request replaces one not yet served.
#[derive(Debug, Clone, Copy, PartialEq, Eq)]
pub struct Magnifier {
    pub pending: Option<MagnifyRequest>,
    /// Counts zooms: a picture made for an earlier one is let go.
    pub generation: u64,
    pub in_flight: bool,
}

/// A request that is waiting is always going to be served.
pub open spec fn attended(magnifier: Magnifier) -> bool {
    magnifier.pending is Some ==> magnifier.in_flight
}

impl Default for Magnifier {
    fn default() -> (magnifier: Self)
        ensures
            magnifier == (Magnifier { pending: None, generation: 0, in_flight: false }),
            attended(magnifier),
    {
        Magnifier { pending: None, generation: 0, in_flight: false }
    }
}

/// The state once a magnified picture has been asked for.
pub open spec fn asked(magnifier: Magnifier, id: AreaId, source: Rect) -> Magnifier {
    let generation = precapture::next_generation(magnifier.generation);
    Magnifier {
        pending: Some(MagnifyRequest { id, source, generation }),
        generation,
        in_flight: true,
    }
}

/// Asks for a magnified picture of an area; says whether a worker has to be
/// started, as none is running.
pub fn magnify_into_area(magnifier: &mut Magnifier, id: AreaId, source: Rect) -> (start: bool)
    ensures
        *final(magnifier) == asked(*old(magnifier), id, source),
        start == !old(magnifier).in_flight,
        attended(*final(magnifier)),
{
    let generation: u64 = magnifier.generation.wrapping_add(1);
    magnifier.generation = generation;
    magnifier.pending = Some(MagnifyRequest { id, source, generation });
    let start = !magnifier.in_flight;
    magnifier.in_flight = true;
    start
}

/// What the worker does next: make a picture, or stop.
pub fn next_request(magnifier: &mut Magnifier) -> (next: Option<MagnifyRequest>)
    ensures
        next == old(magnifier).pending,
        *final(magnifier) == (Magnifier {
            pending: None,
            in_flight: old(magnifier).pending is Some && old(magnifier).in_flight,
            ..*old(magnifier)
        }),
        attended(*final(magnifier)),
{
    match magnifier.pending.take() {
        Some(request) => Some(request),
        None => {
            magnifier.in_flight = false;
            None
        },
    }
}

/// Whether the zoom a picture was made for is still the one on screen.
pub fn is_current(magnifier: &Magnifier, request: MagnifyRequest) -> (current: bool)
    ensures
        current == (magnifier.generation == request.generation),
{
    magnifier.generation == request.generation
}

/// The state once an area is back at its natural size.
pub open spec fn cleared(magnifier: Magnifier, id: AreaId) -> Magnifier {
    Magnifier {
        pending: match magnifier.pending {
            Some(request) => if request.id == id {
                None
            } else {
                Some(request)
            },
            None => None,
        },
        generation: precapture::next_generation(magnifier.generation),
        in_flight: magnifier.in_flight,
    }
}

/// Lets an area's magnification go: a request that is waiting is dropped, and
/// a picture that is being made is disowned.
pub fn clear_magnification(magnifier: &mut Magnifier, id: AreaId)
    ensures
        *final(magnifier) == cleared(*old(magnifier), id),
        attended(*old(magnifier)) ==> attended(*final(magnifier)),
{
    let drop_it = match magnifier.pending {
        Some(request) => request.id == id,
        None => false,
    };
    if drop_it {
        magnifier.pending = None;
    }
    magnifier.generation = magnifier.generation.wrapping_add(1);
}

// ---------------------------------------------------------------------------
// The name of a saved file.
// ---------------------------------------------------------------------------

/// A moment on the wall clock.
#[derive(Debug, Clone, Copy, PartialEq, Eq, Structural)]
pub struct WallClock {
    pub year: u16,
    pub month: u16,
    pub day: u16,
    pub hour: u16,
    pub minute: u16,
    pub second: u16,
}

/// The name a file saved at `time` starts with.
pub open spec fn stem_text(time: WallClock) -> Seq<char> {
    "UP-TAKE_"@ + text::padded(time.year as nat, 4) + "-"@ + text::padded(time.month as nat, 2)
        + "-"@ + text::padded(time.day as nat, 2) + "_"@ + text::padded(time.hour as nat, 2) + "-"@
        + text::padded(time.minute as nat, 2) + "-"@ + text::padded(time.second as nat, 2)
}

/// The name a file saved at `time` starts with.
pub fn timestamp_name(time: WallClock) -> (stem: String)
    ensures
        stem@ == stem_text(time),
{
    let mut stem = "UP-TAKE_".to_owned();
    push_padded(&mut stem, time.year as u128, 4);
    stem.append("-");
    push_padded(&mut stem, time.month as u128, 2);
    stem.append("-");
    push_padded(&mut stem, time.day as u128, 2);
    stem.append("_");
    push_padded(&mut stem, time.hour as u128, 2);
    stem.append("-");
    push_padded(&mut stem, time.minute as u128, 2);
    stem.append("-");
    push_padded(&mut stem, time.second as u128, 2);
    stem
}

/// The names tried in turn: the plain one, then with `_2`, `_3` and so on.
pub open spec fn candidate(stem: Seq<char>, attempt: nat) -> Seq<char> {
    if attempt <= 1 {
        stem + ".png"@
    } else {
        stem + "_"@ + text::decimal(attempt) + ".png"@
    }
}

/// The name tried at an attempt, counted from 1.
pub fn candidate_name(stem: &str, attempt: u32) -> (name: String)
    ensures
        name@ == candidate(stem@, attempt as nat),
{
    let mut name = stem.to_owned();
    if attempt > 1 {
        name.append("_");
        push_decimal(&mut name, attempt as u128);
    }
    name.append(".png");
    name
}

/// Whether the test may call a name taken.
pub open spec fn may_be<F: Fn(&String) -> bool>(taken: F, name: Seq<char>, answer: bool) -> bool {
    exists|text: String| text@ == name && #[trigger] taken.ensures((&text,), answer)
}

/// Whether a name is the first the test does not call taken; none, if it calls every
/// one of them taken.
pub open spec fn is_first_free<F: Fn(&String) -> bool>(
    stem: Seq<char>,
    taken: F,
    name: Option<String>,
) -> bool {
    match name {
        Some(name) => exists|attempt: nat|
            {
                &&& 1 <= attempt <= u32::MAX
                &&& name@ == #[trigger] candidate(stem, attempt)
                &&& may_be(taken, name@, false)
                &&& forall|k: nat|
                    1 <= k < attempt ==> may_be(taken, #[trigger] candidate(stem, k), true)
            },
        None => forall|k: nat|
            1 <= k <= u32::MAX ==> may_be(taken, #[trigger] candidate(stem, k), true),
    }
}

/// The first name that is free, among the plain one and those with a suffix.
/// There is none only if every suffix a `u32` can count is taken.
pub fn unique_path<F: Fn(&String) -> bool>(stem: &str, taken: F) -> (name: Option<String>)
    requires
        forall|text: String| taken.requires((&text,)),
    ensures
        is_first_free(stem@, taken, name),
{
    let mut attempt: u32 = 1;
    loop
        invariant
            1 <= attempt <= u32::MAX,
            forall|text: String| taken.requires((&text,)),
            forall|k: nat|
                1 <= k < attempt ==> may_be(taken, #[trigger] candidate(stem@, k), true),
        decreases u32::MAX - attempt,
    {
        let name = candidate_name(stem, attempt);
        if !taken(&name) {
            assert(may_be(taken, candidate(stem@, attempt as nat), false));
            return Some(name);
        }
        assert(may_be(taken, candidate(stem@, attempt as nat), true));
        if attempt == u32::MAX {
            return None;
        }
        attempt += 1;
    }
}

// ---------------------------------------------------------------------------
// Laws.
// ---------------------------------------------------------------------------

/// A failure is reported whatever the flag says, in one line.
pub proof fn law_a_failure_is_always_reported(
    action: Seq<char>,
    elapsed: u128,
    stages: Seq<char>,
    outcome: Result<(), String>,
    every_action: bool,
)
    requires
        outcome is Err,
    ensures
        report_text(action, elapsed, stages, outcome, every_action) == seq![
            failed_text(action, elapsed, outcome->Err_0@, stages),
        ],
{
}

/// An action within its target is silent unless every action is reported, and
/// one over it never is; both budgets may be used up exactly.
pub proof fn law_only_an_action_within_target_is_silent(
    action: Seq<char>,
    elapsed: u128,
    stages: Seq<char>,
    every_action: bool,
)
    ensures
        (report_text(action, elapsed, stages, Ok(()), every_action).len() == 0) <==> (elapsed
            <= BUDGET_TARGET_MS && !every_action),
        report_text(action, elapsed, stages, Ok(()), true).len() == report_text(
            action,
            elapsed,
            stages,
            Ok(()),
            false,
        ).len() + 1,
        report_text(action, elapsed, stages, Ok(()), every_action).contains(
            hard_fail_text(action, elapsed, stages),
        ) <== elapsed > BUDGET_HARD_FAIL_MS,
{
    let lines = report_text(action, elapsed, stages, Ok(()), every_action);
    if elapsed > BUDGET_HARD_FAIL_MS {
        assert(lines[0] == hard_fail_text(action, elapsed, stages));
    }
}

/// A grab takes a monitor the cursor is on, and no other.
pub proof fn law_a_grab_takes_the_monitor_under_the_cursor(
    monitors: Seq<MonitorInfo>,
    point: Point,
)
    requires
        monitors.len() <= usize::MAX,
    ensures
        match search::first(monitors, monitor_under(point)) {
            Some(index) => index < monitors.len() && monitors[index as int].bounds.holds(point),
            None => forall|i: int|
                0 <= i < monitors.len() ==> !(#[trigger] monitors[i]).bounds.holds(point),
        },
{
    search::lemma_first_from(monitors, monitor_under(point), 0);
    assert forall|i: int| 0 <= i < monitors.len() implies monitor_under(point)(monitors[i])
        == (#[trigger] monitors[i]).bounds.holds(point) by {}
}

/// Copying or saving an area that has a capture exports that capture, whatever is
/// under the area and whether or not the screen is frozen.
pub proof fn law_a_pinned_area_exports_what_it_shows(export: Export, frozen: bool)
    requires
        export == Export::Copy || export == Export::Save,
    ensures
        pixels_for(export, true, frozen) == Pixels::Pinned,
{
}

/// A zoom and a new area show what is on screen: the frozen still, if there is
/// one, whatever capture the area has already.
pub proof fn law_a_frozen_screen_is_what_is_shown(export: Export, pinned: bool)
    requires
        export == Export::Magnify || export == Export::Capture,
    ensures
        pixels_for(export, pinned, true) == Pixels::Frozen,
{
}

/// The route of a new area is the one its pixels are taken by.
pub proof fn law_a_new_area_takes_its_route(
    route: Route,
    pinned: bool,
    frozen: Option<RgbaBitmap>,
    pre: Precapture,
    bounds: Rect,
    now: u64,
)
    requires
        is_route(route, frozen, pre, bounds, now),
    ensures
        pixels_for(Export::Capture, pinned, frozen is Some) == if route is Frozen {
            Pixels::Frozen
        } else {
            Pixels::Held
        },
{
}

/// An export acknowledges itself on screen only when everything it does has
/// worked.
pub proof fn law_only_success_is_acknowledged(export: Export, step: ExportStep, ok: bool)
    ensures
        step_after(export, step, ok) == ExportStep::Flash ==> ok && (step == ExportStep::Publish
            || step == ExportStep::Write),
        !ok && (step == ExportStep::Publish || step == ExportStep::Write) ==> step_after(
            export,
            step,
            ok,
        ) == (ExportStep::Report { ok: false }),
{
}

/// The steps an export can come to.
pub open spec fn reachable(export: Export, step: ExportStep) -> bool {
    match step {
        ExportStep::Locate => export == Export::Grab,
        ExportStep::Acquire | ExportStep::Report { .. } => true,
        ExportStep::Check => export == Export::Magnify,
        ExportStep::Pin | ExportStep::Announce => export == Export::Capture || export
            == Export::Magnify,
        ExportStep::Convert | ExportStep::Publish => export == Export::Copy || export
            == Export::Grab || export == Export::Capture,
        ExportStep::Write => export == Export::Save,
        ExportStep::Flash => export == Export::Copy || export == Export::Save,
    }
}

/// Copying and grabbing never write a file, saving never touches the clipboard,
/// magnifying does neither, and only copying and saving flash.
pub proof fn law_an_export_keeps_to_its_own(export: Export, step: ExportStep, ok: bool)
    requires
        reachable(export, step),
    ensures
        reachable(export, opening_step(export)),
        reachable(export, step_after(export, step, ok)),
{
}

/// A new area has its picture before the clipboard is touched: the way to the
/// clipboard leads through storing and announcing it.
pub proof fn law_a_capture_is_pinned_before_it_is_published(step: ExportStep, ok: bool)
    ensures
        step_after(Export::Capture, step, ok) == ExportStep::Publish ==> step
            == ExportStep::Convert,
        step_after(Export::Capture, step, ok) == ExportStep::Convert ==> step
            == ExportStep::Announce,
        step_after(Export::Capture, step, ok) == ExportStep::Announce ==> step == ExportStep::Pin
            && ok,
{
}

/// How many steps an export is from its report.
pub open spec fn steps_left(export: Export, step: ExportStep) -> nat {
    match step {
        ExportStep::Locate => 8,
        ExportStep::Acquire => 7,
        ExportStep::Check => 6,
        ExportStep::Pin => 5,
        ExportStep::Announce => 4,
        ExportStep::Convert => 3,
        ExportStep::Publish | ExportStep::Write => 2,
        ExportStep::Flash => 1,
        ExportStep::Report { .. } => 0,
    }
}

/// Every export comes to its report.
pub proof fn law_every_export_is_reported(export: Export, step: ExportStep, ok: bool)
    requires
        !(step is Report),
    ensures
        steps_left(export, step_after(export, step, ok)) < steps_left(export, step),
{
}

/// A picture made for an earlier zoom is never shown: another request, or the
/// return to natural size, disowns what is being made.
pub proof fn law_an_overtaken_zoom_is_not_shown(
    magnifier: Magnifier,
    request: MagnifyRequest,
    id: AreaId,
    source: Rect,
)
    requires
        magnifier.generation == request.generation,
    ensures
        asked(magnifier, id, source).generation != request.generation,
        cleared(magnifier, id).generation != request.generation,
        asked(magnifier, id, source).pending == Some(
            MagnifyRequest { id, source, generation: asked(magnifier, id, source).generation },
        ),
{
}

/// No two attempts try the same name.
pub proof fn law_attempts_try_different_names(stem: Seq<char>, a: nat, b: nat)
    requires
        1 <= a < b,
    ensures
        candidate(stem, a) != candidate(stem, b),
{
    lemma_decimal_is_injective(a, b);
    reveal_strlit("_");
    reveal_strlit(".png");
    let left = candidate(stem, a);
    let right = candidate(stem, b);
    assert("_"@.len() == 1 && ".png"@.len() == 4);
    assert(right[stem.len() as int] == '_');
    if a == 1 {
        assert(left[stem.len() as int] == '.');
    } else {
        let from = stem.len() as int + 1;
        if left == right {
            assert(text::decimal(a) =~= left.subrange(from, left.len() - 4));
            assert(text::decimal(b) =~= right.subrange(from, right.len() - 4));
        }
    }
}

/// Different numbers are written differently.
pub proof fn lemma_decimal_is_injective(a: nat, b: nat)
    requires
        a != b,
    ensures
        text::decimal(a) != text::decimal(b),
    decreases a + b,
{
    let left = text::decimal(a);
    let right = text::decimal(b);
    if left == right {
        assert(left.last() == right.last());
        assert(a % 10 == b % 10);
        if a >= 10 && b >= 10 {
            lemma_decimal_is_injective(a / 10, b / 10);
            assert(left.drop_last() =~= text::decimal(a / 10));
            assert(right.drop_last() =~= text::decimal(b / 10));
        } else if a >= 10 {
            assert(left.len() == 1);
            assert(text::decimal(a / 10).len() == 0);
            lemma_decimal_has_a_digit(a / 10);
        } else if b >= 10 {
            assert(right.len() == 1);
            lemma_decimal_has_a_digit(b / 10);
        }
    }
}

/// A written number has at least one digit.
proof fn lemma_decimal_has_a_digit(n: nat)
    ensures
        text::decimal(n).len() >= 1,
{
}

/// Copying and grabbing end on the clipboard, saving in a file, a new area's capture in
/// the area and on the clipboard, and a zoom in the area alone: these are the steps where
/// each works, in order, and then success is reported.
pub proof fn law_the_steps_of_an_export_that_works(
    export: Export,
    first: ExportStep,
    second: ExportStep,
    third: ExportStep,
    fourth: ExportStep,
    fifth: ExportStep,
    sixth: ExportStep,
)
    requires
        call_ensures(first_step, (export,), first),
        call_ensures(next_step, (export, first, true), second),
        call_ensures(next_step, (export, second, true), third),
        call_ensures(next_step, (export, third, true), fourth),
        call_ensures(next_step, (export, fourth, true), fifth),
        call_ensures(next_step, (export, fifth, true), sixth),
    ensures
        export == Export::Copy ==> first == ExportStep::Acquire && second == ExportStep::Convert
            && third == ExportStep::Publish && fourth == ExportStep::Flash && fifth == (
        ExportStep::Report { ok: true }),
        export == Export::Save ==> first == ExportStep::Acquire && second == ExportStep::Write
            && third == ExportStep::Flash && fourth == (ExportStep::Report { ok: true }),
        export == Export::Grab ==> first == ExportStep::Locate && second == ExportStep::Acquire
            && third == ExportStep::Convert && fourth == ExportStep::Publish && fifth == (
        ExportStep::Report { ok: true }),
        export == Export::Capture ==> first == ExportStep::Acquire && second == ExportStep::Pin
            && third == ExportStep::Announce && fourth == ExportStep::Convert && fifth
            == ExportStep::Publish && sixth == (ExportStep::Report { ok: true }),
        export == Export::Magnify ==> first == ExportStep::Acquire && second == ExportStep::Check
            && third == ExportStep::Pin && fourth == ExportStep::Announce && fifth == (
        ExportStep::Report { ok: true }),
{
}

/// A step that fails ends the export as failed, but for two: a zoom that was scrolled past
/// is let go as done, and a new area whose picture could not be announced goes on to the
/// clipboard.
pub proof fn law_a_step_that_fails_ends_the_export(
    export: Export,
    step: ExportStep,
    next: ExportStep,
)
    requires
        call_ensures(next_step, (export, step, false), next),
        !(step is Report),
    ensures
        step == ExportStep::Check ==> next == (ExportStep::Report { ok: true }),
        step == ExportStep::Announce && export == Export::Capture ==> next == ExportStep::Convert,
        step != ExportStep::Check && step != ExportStep::Flash && !(step == ExportStep::Announce
            && export == Export::Capture) ==> next == (ExportStep::Report { ok: false }),
{
}

/// Where the pixels of an export are taken from.
pub proof fn law_where_an_export_takes_its_pixels(
    export: Export,
    pinned: bool,
    frozen: bool,
    from: Pixels,
)
    requires
        call_ensures(export_source, (export, pinned, frozen), from),
    ensures
        from == Pixels::Pinned <==> (export == Export::Copy || export == Export::Save) && pinned,
        from == Pixels::Frozen <==> (export == Export::Magnify || export == Export::Capture)
            && frozen,
        from == Pixels::Held <==> export == Export::Capture && !frozen,
        export == Export::Grab ==> from == Pixels::Live,
{
}

/// A new area gets the frozen still as it is, where there is one, and the held frame is
/// kept; otherwise what taking from the held frame gives, and that is used up.
pub proof fn law_a_new_area_gets_what_was_on_screen(
    pre: &mut Precapture,
    frozen: Option<RgbaBitmap>,
    bounds: Rect,
    now: u64,
    route: Route,
    alone: &mut Precapture,
    cut: Result<RgbaBitmap, Fallback>,
)
    requires
        call_ensures(capture_or_crop, (pre, frozen, bounds, now), route),
        *old(alone) == *old(pre),
        call_ensures(take, (alone, bounds, now), cut),
    ensures
        frozen matches Some(still) ==> route == Route::Frozen(still) && *final(pre) == *old(pre),
        frozen is None ==> *final(pre) == *final(alone),
        frozen is None ==> (cut matches Err(reason) ==> route == Route::Capture(reason)),
        frozen is None ==> (cut matches Ok(part) ==> route matches Route::Held(held)
            && held.extent() == part.extent()),
{
}

/// The pixels a new area gets out of the held frame are those that lay under it.
pub proof fn law_a_new_area_gets_its_own_pixels(
    pre: &mut Precapture,
    bounds: Rect,
    now: u64,
    cut: RgbaBitmap,
    x: int,
    y: int,
    channel: int,
)
    requires
        call_ensures(
            capture_or_crop,
            (pre, None::<RgbaBitmap>, bounds, now),
            Route::Held(cut),
        ),
        0 <= x < bounds.size.width,
        0 <= y < bounds.size.height,
        0 <= channel < 4,
    ensures
        old(pre).held is Some,
        ({
            let frame = old(pre).held->0;
            let column = bounds.origin.x + x - frame.rect.origin.x;
            let line = bounds.origin.y + y - frame.rect.origin.y;
            &&& cut.extent() == bounds.size
            &&& cut.bytes()[4 * (y * bounds.size.width + x) + channel] == frame.bitmap.bytes()[4 * (
            line * frame.bitmap.extent().width + column) + channel]
        }),
{
    let frame = old(pre).held->0;
    let local = precapture::local_to(bounds, frame.rect)->0;
    let narrow = crate::bitmap::stride(bounds.size);
    let wide = crate::bitmap::stride(frame.bitmap.extent());
    let line = local.origin.y + y;
    let b = 4 * x + channel;
    assert(y * (4 * bounds.size.width) == 4 * (y * bounds.size.width)) by (nonlinear_arith);
    assert(line * (4 * frame.bitmap.extent().width) == 4 * (line * frame.bitmap.extent().width))
        by (nonlinear_arith);
    assert(cut.bytes()[y * narrow + b] == frame.bitmap.bytes()[(local.origin.y + y) * wide + 4
        * local.origin.x + b]);
}

/// A grab takes the first monitor the cursor is on; where it is on none, or cannot be
/// read, the grab is declined with the reason.
pub proof fn law_a_grab_takes_where_the_cursor_is(
    monitors: &[MonitorInfo],
    cursor: Option<Point>,
    monitor: Result<Rect, String>,
    i: int,
)
    requires
        call_ensures(monitor_at, (monitors, cursor), monitor),
        monitors@.len() <= usize::MAX,
        0 <= i < monitors@.len(),
    ensures
        cursor is None ==> monitor is Err && monitor->Err_0@
            == "the cursor position could not be read"@,
        cursor matches Some(point) ==> {
            &&& monitor is Err ==> !monitors@[i].bounds.holds(point)
            &&& monitor is Ok ==> monitor->Ok_0.holds(point)
            &&& monitors@[i].bounds.holds(point) && (forall|k: int|
                0 <= k < i ==> !(#[trigger] monitors@[k]).bounds.holds(point)) ==> monitor == Ok::<
                Rect,
                String,
            >(monitors@[i].bounds)
        },
{
    if cursor is Some {
        search::lemma_first_from(monitors@, monitor_under(cursor->0), 0);
        assert(monitor_under(cursor->0)(monitors@[i]) == monitors@[i].bounds.holds(cursor->0));
    }
}

/// What went into an export is noted as it was: of a crop where it came from and of which
/// rectangle, of a capture the rectangle it took, and of an area's own picture that alone.
pub proof fn law_what_went_in_is_noted(
    crop: &mut Split,
    source: Source,
    bounds: Rect,
    encode_ms: u128,
    bytes: usize,
    capture: &mut Split,
    taken: Rect,
    capture_ms: u128,
    pinned: &mut Split,
)
    requires
        call_ensures(note_crop, (crop, source, bounds, encode_ms, bytes), ()),
        call_ensures(note_capture, (capture, taken, capture_ms, encode_ms, bytes), ()),
        call_ensures(note_pinned, (pinned, bytes), ()),
    ensures
        final(crop).source == source,
        final(crop).bounds == Some(bounds),
        final(crop).encode_ms == encode_ms,
        final(crop).encoded_bytes == bytes,
        final(crop).capture_ms == old(crop).capture_ms,
        final(crop).publish_ms == old(crop).publish_ms,
        final(capture).source == old(capture).source,
        final(capture).bounds == Some(taken),
        final(capture).capture_ms == capture_ms,
        final(capture).encode_ms == encode_ms,
        final(capture).encoded_bytes == bytes,
        final(capture).publish_ms == old(capture).publish_ms,
        final(pinned).source == Source::Pinned,
        final(pinned).bounds == old(pinned).bounds,
        final(pinned).encoded_bytes == bytes,
        final(pinned).capture_ms == old(pinned).capture_ms,
        final(pinned).encode_ms == old(pinned).encode_ms,
        final(pinned).publish_ms == old(pinned).publish_ms,
{
}

/// The line on where the time went says each time under its name, the bytes, and the
/// source; and the rectangle before all, where it is known.
pub proof fn law_the_stages_are_told_apart(split: Split, line: String, source: &mut String)
    requires
        call_ensures(stage_line, (&split,), line),
        old(source)@.len() == 0,
        call_ensures(push_source, (source, split.source), ()),
    ensures
        split.bounds is None ==> line@ == "capture "@ + text::decimal(split.capture_ms as nat)
            + " ms, encode "@ + text::decimal(split.encode_ms as nat) + " ms, publish "@
            + text::decimal(split.publish_ms as nat) + " ms, "@ + text::decimal(
            split.encoded_bytes as nat,
        ) + " bytes ("@ + final(source)@ + ")"@,
        split.bounds matches Some(rect) ==> line@ == text::decimal(rect.size.width as nat) + "x"@
            + text::decimal(rect.size.height as nat) + " at ("@ + text::signed_decimal(
            rect.origin.x as int,
        ) + ", "@ + text::signed_decimal(rect.origin.y as int) + ") — "@ + "capture "@
            + text::decimal(split.capture_ms as nat) + " ms, encode "@ + text::decimal(
            split.encode_ms as nat,
        ) + " ms, publish "@ + text::decimal(split.publish_ms as nat) + " ms, "@ + text::decimal(
            split.encoded_bytes as nat,
        ) + " bytes ("@ + final(source)@ + ")"@,
{
    assert(final(source)@ =~= source_text(split.source));
    if split.bounds is None {
        assert(line@ =~= "capture "@ + text::decimal(split.capture_ms as nat) + " ms, encode "@
            + text::decimal(split.encode_ms as nat) + " ms, publish "@ + text::decimal(
            split.publish_ms as nat,
        ) + " ms, "@ + text::decimal(split.encoded_bytes as nat) + " bytes ("@ + final(source)@
            + ")"@);
    }
}

/// Each source is told by its own words.
pub proof fn law_a_source_is_told_by_its_words(
    out: &mut String,
    source: Source,
    why: &mut String,
)
    requires
        call_ensures(push_source, (out, source), ()),
        old(out)@.len() == 0,
        old(why)@.len() == 0,
        source matches Source::Fell(reason) ==> call_ensures(push_reason, (why, reason), ()),
    ensures
        source == Source::Live ==> final(out)@ == "live capture"@,
        source == Source::Pinned ==> final(out)@ == "pinned capture, not re-taken"@,
        source == Source::Held ==> final(out)@ == "held frame"@,
        source == Source::Frozen ==> final(out)@ == "frozen still"@,
        source is Fell ==> final(out)@ == "live capture — fell back: "@ + final(why)@,
{
    assert(final(out)@ =~= source_text(source));
    if source is Fell {
        assert(final(why)@ =~= precapture::reason_text(source->Fell_0));
    }
}

/// What the log says of an action: that it failed, why and after how long; that it took
/// more than 300 or more than 600 milliseconds; and, where every action is reported, that
/// it is finished.
pub proof fn law_what_is_reported_of_an_action(
    action: &str,
    elapsed: u128,
    stages: &str,
    outcome: Result<(), String>,
    every_action: bool,
    lines: Vec<String>,
)
    requires
        call_ensures(report_lines, (action, elapsed, stages, outcome, every_action), lines),
    ensures
        ({
            let late = elapsed > 300;
            let finished = "output: "@ + action@ + " finished in "@ + text::decimal(elapsed as nat)
                + " ms — "@ + stages@;
            &&& outcome matches Err(reason) ==> lines@.len() == 1 && lines@[0]@ == "output: "@
                + action@ + " failed after "@ + text::decimal(elapsed as nat) + " ms: "@ + reason@
                + " — "@ + stages@
            &&& outcome is Ok ==> lines@.len() == (if late {
                1nat
            } else {
                0nat
            }) + (if every_action {
                1nat
            } else {
                0nat
            })
            &&& outcome is Ok && elapsed > 600 ==> lines@[0]@ == "output: "@ + action@ + " took "@
                + text::decimal(elapsed as nat) + " ms — over the §1 hard-fail budget ("@
                + text::decimal(600) + " ms) — "@ + stages@
            &&& outcome is Ok && late && elapsed <= 600 ==> lines@[0]@ == "output: "@ + action@
                + " took "@ + text::decimal(elapsed as nat) + " ms — over the §1 target ("@
                + text::decimal(300) + " ms), within the hard fail — "@ + stages@
            &&& outcome is Ok && every_action ==> lines@.last()@ == finished
        }),
{
    let said = texts(lines@);
    assert(said.len() == lines@.len());
    assert(lines@.len() > 0 ==> said[0] == lines@[0]@ && said.last() == lines@.last()@);
}

/// Every action is reported in a debug build and wherever the variable is set, and a set
/// variable is never ignored; what the run says of it at startup is which of these holds.
pub proof fn law_when_every_action_is_reported(
    debug_build: bool,
    default: bool,
    every_action: &mut bool,
    raw: Option<&str>,
    line: String,
    said: String,
)
    requires
        call_ensures(report_line_default, (debug_build,), default),
        *old(every_action) == default,
        call_ensures(apply_report_verbosity, (every_action, debug_build, raw), line),
        call_ensures(verbosity_line, (*final(every_action), debug_build, raw), said),
    ensures
        *final(every_action) <==> debug_build || raw is Some,
        line@ == said@,
{
}

/// What the run says at startup names the variable, and of a set one its value.
pub proof fn law_the_startup_line_says_what_is_left_out(
    every_action: bool,
    debug_build: bool,
    raw: Option<&str>,
    line: String,
    value: &str,
    armed: String,
)
    requires
        call_ensures(verbosity_line, (every_action, debug_build, raw), line),
        raw is Some ==> value@ == debug_form((raw->0)@),
        raw is None ==> value@ == debug_form("<unset>"@),
        call_ensures(armed_line, (value,), armed),
    ensures
        !every_action ==> line@ == "output: only actions OVER "@ + text::decimal(300)
            + " ms print a line ("@ + "UPTAKE_DEV_REPORT"@
            + " unset). An action UNDER it prints NOTHING, so counting lines counts the misses and not the actions: set "@
            + "UPTAKE_DEV_REPORT"@ + "=1 before a measurement pass. "@ + text::decimal(300)
            + " ms is the SELECTION budget and every action is compared against it, so for a grab this is a cutoff and not a target it can meet."@,
        every_action && debug_build ==> line@
            == "output: every action prints a timing line (debug build), so "@
            + "UPTAKE_DEV_REPORT"@
            + " is not consulted. A RELEASE build without it prints only actions over "@
            + text::decimal(300) + " ms."@,
        every_action && !debug_build ==> line@ == armed@,
        armed@ == "output: every action prints a timing line, ARMED by "@ + "UPTAKE_DEV_REPORT"@
            + "="@ + value@
            + ". Any value counts as on, including \"0\" and the empty string, the same rule as UPTAKE_DEV_PACING."@,
{
}

/// A zoom is served by the request that was made last, of its area and its source, by one
/// worker; it is current until another zoom or the way back to natural size overtakes it.
pub proof fn law_the_last_zoom_is_the_one_that_is_made(
    magnifier: &mut Magnifier,
    id: AreaId,
    source: Rect,
    start: bool,
    later: &mut Magnifier,
    next: Option<MagnifyRequest>,
    current: bool,
    idle: &mut Magnifier,
    none: Option<MagnifyRequest>,
)
    requires
        call_ensures(magnify_into_area, (magnifier, id, source), start),
        *old(later) == *final(magnifier),
        call_ensures(next_request, (later,), next),
        next is Some ==> call_ensures(is_current, (&*final(later), next->0), current),
        *old(idle) == *final(later),
        call_ensures(next_request, (idle,), none),
    ensures
        start <==> !old(magnifier).in_flight,
        next is Some,
        next->0.id == id,
        next->0.source == source,
        current,
        none is None,
        !final(idle).in_flight,
{
}

/// A zoom that is overtaken is not current any more, and one that is let go is dropped
/// where it waits; a request for another area still waits.
pub proof fn law_a_zoom_that_is_let_go(
    magnifier: &mut Magnifier,
    id: AreaId,
    request: MagnifyRequest,
    before: bool,
    after: bool,
    other: &mut Magnifier,
    source: Rect,
    start: bool,
    overtaken: bool,
)
    requires
        call_ensures(is_current, (&*old(magnifier), request), before),
        before,
        call_ensures(clear_magnification, (magnifier, id), ()),
        call_ensures(is_current, (&*final(magnifier), request), after),
        *old(other) == *old(magnifier),
        call_ensures(magnify_into_area, (other, id, source), start),
        call_ensures(is_current, (&*final(other), request), overtaken),
    ensures
        !after,
        !overtaken,
        old(magnifier).pending matches Some(waiting) ==> final(magnifier).pending == if waiting.id
            == id {
            None
        } else {
            Some(waiting)
        },
        old(magnifier).pending is None ==> final(magnifier).pending is None,
        final(magnifier).in_flight == old(magnifier).in_flight,
{
}

/// A file is named by the moment it is saved: the date, then the time, each part under its
/// own place and padded, so that names sort as the moments do.
pub proof fn law_a_file_is_named_by_its_moment(time: WallClock, stem: String)
    requires
        call_ensures(timestamp_name, (time,), stem),
        1000 <= time.year <= 9999,
        time.month <= 99,
        time.day <= 99,
        time.hour <= 99,
        time.minute <= 99,
        time.second <= 99,
    ensures
        stem@.len() == 27,
        stem@.take(8) == "UP-TAKE_"@,
        text::number_said(stem@.subrange(8, 12)) == time.year,
        stem@[12] == '-',
        text::number_said(stem@.subrange(13, 15)) == time.month,
        stem@[15] == '-',
        text::number_said(stem@.subrange(16, 18)) == time.day,
        stem@[18] == '_',
        text::number_said(stem@.subrange(19, 21)) == time.hour,
        stem@[21] == '-',
        text::number_said(stem@.subrange(22, 24)) == time.minute,
        stem@[24] == '-',
        text::number_said(stem@.subrange(25, 27)) == time.second,
{
    reveal_strlit("UP-TAKE_");
    reveal_strlit("-");
    reveal_strlit("_");
    assert("UP-TAKE_"@.len() == 8 && "-"@.len() == 1 && "_"@.len() == 1);
    lemma_four_digits(time.year as nat);
    lemma_two_digits(time.month as nat);
    lemma_two_digits(time.day as nat);
    lemma_two_digits(time.hour as nat);
    lemma_two_digits(time.minute as nat);
    lemma_two_digits(time.second as nat);
    assert(stem@.take(8) =~= "UP-TAKE_"@);
    assert(stem@.subrange(8, 12) =~= text::padded(time.year as nat, 4));
    assert(stem@.subrange(13, 15) =~= text::padded(time.month as nat, 2));
    assert(stem@.subrange(16, 18) =~= text::padded(time.day as nat, 2));
    assert(stem@.subrange(19, 21) =~= text::padded(time.hour as nat, 2));
    assert(stem@.subrange(22, 24) =~= text::padded(time.minute as nat, 2));
    assert(stem@.subrange(25, 27) =~= text::padded(time.second as nat, 2));
}

/// A number below a hundred is written with two digits.
proof fn lemma_two_digits(n: nat)
    requires
        n <= 99,
    ensures
        text::padded(n, 2).len() == 2,
        text::number_said(text::padded(n, 2)) == n,
{
    reveal_with_fuel(text::decimal, 3);
    reveal_with_fuel(text::number_said, 3);
    let digits = text::padded(n, 2);
    text::lemma_decimal_says_its_number(n);
    if n < 10 {
        assert(digits =~= seq!['0', text::digit(n as int)]);
        assert(digits.drop_last() =~= seq!['0']);
        assert(digits.drop_last().drop_last() =~= Seq::empty());
    } else {
        assert(digits =~= text::decimal(n));
    }
}

/// A number of four digits is written as it is.
proof fn lemma_four_digits(n: nat)
    requires
        1000 <= n <= 9999,
    ensures
        text::padded(n, 4).len() == 4,
        text::number_said(text::padded(n, 4)) == n,
{
    reveal_with_fuel(text::decimal, 5);
    text::lemma_decimal_says_its_number(n);
    assert(text::decimal(n).len() == 4);
    assert(text::padded(n, 4) =~= text::decimal(n));
}

/// The name tried first is the plain one, and from the second on the number of the attempt
/// stands behind it; every name is a PNG's.
pub proof fn law_the_names_that_are_tried(stem: &str, attempt: u32, name: String)
    requires
        call_ensures(candidate_name, (stem, attempt), name),
    ensures
        attempt == 1 ==> name@ == stem@ + ".png"@,
        attempt > 1 ==> name@ == stem@ + "_"@ + text::decimal(attempt as nat) + ".png"@,
{
}

/// A saved file gets a name that is free: the plain one if it is, and else the first of
/// those with a number, from `_2` on, that is.
pub proof fn law_a_saved_file_replaces_none<F: Fn(&String) -> bool>(
    stem: &str,
    taken: F,
    busy: spec_fn(Seq<char>) -> bool,
    name: Option<String>,
    n: nat,
)
    requires
        call_ensures(unique_path::<F>, (stem, taken), name),
        forall|text: String, answer: bool| #[trigger]
            taken.ensures((&text,), answer) ==> answer == busy(text@),
        2 <= n <= u32::MAX,
    ensures
        name is Some ==> !busy(name->0@),
        !busy(stem@ + ".png"@) ==> name is Some && name->0@ == stem@ + ".png"@,
        busy(stem@ + ".png"@) && !busy(stem@ + "_"@ + text::decimal(n) + ".png"@) && (forall|k: nat|
            2 <= k < n ==> busy(#[trigger] (stem@ + "_"@ + text::decimal(k) + ".png"@))) ==> name
            is Some && name->0@ == stem@ + "_"@ + text::decimal(n) + ".png"@,
{
    let plain = candidate(stem@, 1);
    let numbered = candidate(stem@, n);
    assert(plain == stem@ + ".png"@);
    assert(numbered == stem@ + "_"@ + text::decimal(n) + ".png"@);
    assert forall|k: nat|
        2 <= k < n && busy(stem@ + "_"@ + text::decimal(k) + ".png"@) implies busy(
        #[trigger] candidate(stem@, k),
    ) by {}
    if name is None {
        lemma_no_name_is_left(stem, taken, name, 1);
        lemma_no_name_is_left(stem, taken, name, n);
    }
}

/// Where no name is given, the test may call every one of them taken.
proof fn lemma_no_name_is_left<F: Fn(&String) -> bool>(
    stem: &str,
    taken: F,
    name: Option<String>,
    k: nat,
)
    requires
        call_ensures(unique_path::<F>, (stem, taken), name),
        name is None,
        1 <= k <= u32::MAX,
    ensures
        may_be(taken, candidate(stem@, k), true),
{
}

/// At the start no stage has taken time, nothing was written, and no zoom is asked for or
/// under way.
pub proof fn law_nothing_has_gone_out_at_the_start(split: Split, magnifier: Magnifier)
    requires
        call_ensures(Split::default, (), split),
        call_ensures(Magnifier::default, (), magnifier),
    ensures
        split.capture_ms == 0,
        split.encode_ms == 0,
        split.publish_ms == 0,
        split.bounds is None,
        split.encoded_bytes == 0,
        split.source == Source::Live,
        magnifier.pending is None,
        magnifier.generation == 0,
        !magnifier.in_flight,
{
}

} // verus!
