//! Exports: what is reported of them, where their pixels come from, and what
//! they are put as.

use uptake::area::AreaId;
use uptake::bitmap::RgbaBitmap;
use uptake::clipboard::{
    bottom_up_bgra, dibv5_bytes, publish_clipboard, set_clipboard_data, Handover, Publish,
    BI_BITFIELDS, CF_DIBV5, HEADER_LEN, LCS_GM_IMAGES, LCS_S_RGB,
};
use uptake::geometry::{Point, Rect, Size};
use uptake::output::{
    apply_report_verbosity, armed_line, candidate_name, capture_or_crop, clear_magnification,
    export_source, first_step, is_current, magnify_into_area, monitor_at, next_request, next_step, note_capture,
    note_crop, note_pinned, report_line_default, report_lines, stage_line, timestamp_name,
    unique_path, verbosity_line, Export, ExportStep, Magnifier, MonitorInfo, Pixels, Route, Source,
    Split, WallClock, BUDGET_HARD_FAIL_MS, BUDGET_TARGET_MS, NOT_UNICODE, REPORT_VAR,
};
use uptake::precapture::{Fallback, Held, Precapture};
use windows_sys::Win32::Graphics::Gdi as gdi;

#[test]
fn the_unarmed_line_states_that_a_met_target_prints_nothing() {
    let line = verbosity_line(false, false, None);
    assert!(line.contains(&BUDGET_TARGET_MS.to_string()), "{line}");
    assert!(line.contains("NOTHING"), "{line}");
    assert!(line.contains("counts the misses"), "{line}");
    assert!(line.contains(REPORT_VAR), "{line}");
}

#[test]
fn the_unarmed_line_takes_its_threshold_from_the_budget_constant() {
    assert!(
        verbosity_line(false, false, None).contains(&format!("OVER {BUDGET_TARGET_MS} ms")),
        "the threshold is not interpolated from BUDGET_TARGET_MS"
    );
}

#[test]
fn the_armed_line_names_the_variable_and_the_value_it_read() {
    let line = verbosity_line(true, false, Some("0"));
    assert!(line.contains("ARMED"), "{line}");
    assert!(line.contains(&format!("{REPORT_VAR}=\"0\"")), "{line}");
    assert!(line.contains("Any value counts as on"), "{line}");
    assert_eq!(line, armed_line("\"0\""));
}

#[test]
fn a_value_is_quoted_as_the_standard_library_quotes_it() {
    let line = verbosity_line(true, false, Some("a\"b\n\u{7f}"));
    assert!(line.contains(&format!("{REPORT_VAR}={:?}", "a\"b\n\u{7f}")), "{line}");
    assert!(verbosity_line(true, false, None).contains("=\"<unset>\"."));
}

#[test]
fn a_non_unicode_value_arms_the_switch_and_is_not_rendered_as_empty() {
    let line = verbosity_line(true, false, Some(NOT_UNICODE));
    assert!(line.contains("ARMED"), "{line}");
    assert!(line.contains("not valid Unicode"), "{line}");
    assert!(
        !line.contains(&format!("{REPORT_VAR}=\"\"")),
        "a value that could not be read must not be shown as empty: {line}"
    );
}

#[test]
fn the_debug_line_says_the_variable_is_not_consulted() {
    let line = verbosity_line(true, true, Some("1"));
    assert!(line.contains("not consulted"), "{line}");
    assert!(line.contains("RELEASE"), "{line}");
    assert!(!line.contains("ARMED"), "{line}");
}

#[test]
fn the_three_verbosity_lines_are_all_different() {
    let debug = verbosity_line(true, true, None);
    let armed = verbosity_line(true, false, Some("1"));
    let off = verbosity_line(false, false, None);
    assert_ne!(debug, armed);
    assert_ne!(armed, off);
    assert_ne!(debug, off);
}

#[test]
fn an_under_budget_action_is_silent_unless_every_action_is_on() {
    let quiet = report_lines("grab", 120, "STAGES", Ok(()), false);
    assert!(
        quiet.is_empty(),
        "an under-budget action must produce no line at all: {quiet:?}"
    );
    let loud = report_lines("grab", 120, "STAGES", Ok(()), true);
    assert_eq!(loud.len(), 1, "{loud:?}");
    assert!(loud[0].contains("finished in 120 ms"), "{loud:?}");
}

#[test]
fn the_2026_08_11_sample_is_one_line_from_four_actions_when_unarmed() {
    let grabs = [281_u128, 297, 300, 488];
    let unarmed: Vec<String> = grabs
        .iter()
        .flat_map(|ms| report_lines("grab", *ms, "STAGES", Ok(()), false))
        .collect();
    assert_eq!(unarmed.len(), 1, "{unarmed:?}");
    assert!(unarmed[0].contains("488"), "{unarmed:?}");
    let armed: Vec<String> = grabs
        .iter()
        .flat_map(|ms| report_lines("grab", *ms, "STAGES", Ok(()), true))
        .collect();
    assert_eq!(armed.len(), 5, "four finished lines plus one budget line");
}

#[test]
fn the_budget_comparison_is_strict_at_both_thresholds() {
    assert!(report_lines("grab", BUDGET_TARGET_MS, "S", Ok(()), false).is_empty());
    assert_eq!(
        report_lines("grab", BUDGET_TARGET_MS + 1, "S", Ok(()), false).len(),
        1
    );
    let hard = report_lines("grab", BUDGET_HARD_FAIL_MS + 1, "S", Ok(()), false);
    assert!(hard[0].contains("hard-fail"), "{hard:?}");
    let at_hard = report_lines("grab", BUDGET_HARD_FAIL_MS, "S", Ok(()), false);
    assert_eq!(at_hard.len(), 1, "{at_hard:?}");
    assert!(
        at_hard[0].contains("over the §1 target") && !at_hard[0].contains("hard-fail"),
        "exactly the hard-fail budget is still WITHIN it: {at_hard:?}"
    );
}

#[test]
fn a_failure_prints_whatever_the_flag_says() {
    for every_action in [false, true] {
        let lines = report_lines("grab", 12, "S", Err("no monitor".into()), every_action);
        assert_eq!(lines.len(), 1, "{lines:?}");
        assert!(lines[0].contains("failed after 12 ms: no monitor"), "{lines:?}");
    }
}

#[test]
fn the_report_lines_read_in_full() {
    assert_eq!(
        report_lines("copy", 601, "S", Ok(()), true),
        vec![
            "output: copy took 601 ms — over the §1 hard-fail budget (600 ms) — S",
            "output: copy finished in 601 ms — S",
        ]
    );
    assert_eq!(
        report_lines("copy", 301, "S", Ok(()), false),
        vec!["output: copy took 301 ms — over the §1 target (300 ms), within the hard fail — S"]
    );
    assert_eq!(
        report_lines("save", 0, "S", Err("e".to_string()), true),
        vec!["output: save failed after 0 ms: e — S"]
    );
}

#[test]
fn a_release_build_starts_quiet_and_a_debug_build_starts_loud() {
    assert!(!report_line_default(false), "a release build must start quiet");
    assert!(report_line_default(true), "a debug build must keep its line");
}

#[test]
fn the_variable_raises_the_flag_and_its_absence_never_lowers_it() {
    for debug_build in [false, true] {
        let default = report_line_default(debug_build);
        let mut every_action = default;
        apply_report_verbosity(&mut every_action, debug_build, None);
        assert_eq!(every_action, default, "an absent variable moved the flag");
        let line = apply_report_verbosity(&mut every_action, debug_build, Some("0"));
        assert!(every_action);
        assert_eq!(line, verbosity_line(true, debug_build, Some("0")));
    }
}

#[test]
fn unique_path_returns_the_plain_name_when_nothing_collides() {
    let name = unique_path("UP-TAKE_2026-07-25_12-00-00", |_| false);
    assert_eq!(name, Some("UP-TAKE_2026-07-25_12-00-00.png".to_string()));
}

#[test]
fn unique_path_appends_a_collision_suffix_starting_at_2() {
    let stem = "UP-TAKE_2026-07-25_12-00-00";
    let mut written = vec![format!("{stem}.png")];
    let name = unique_path(stem, |name| written.contains(name));
    assert_eq!(name, Some(format!("{stem}_2.png")));
    written.extend(name);
    let name = unique_path(stem, |name| written.contains(name));
    assert_eq!(name, Some(format!("{stem}_3.png")));
    assert_eq!(candidate_name("x", 1), "x.png");
    assert_eq!(candidate_name("x", 12), "x_12.png");
}

#[test]
fn a_file_is_named_for_the_moment_it_is_saved() {
    let time = WallClock { year: 2026, month: 7, day: 5, hour: 9, minute: 0, second: 59 };
    assert_eq!(timestamp_name(time), "UP-TAKE_2026-07-05_09-00-59");
}

fn bitmap(width: u32, height: u32, pixels: Vec<u8>) -> RgbaBitmap {
    match RgbaBitmap::from_pixels(Size::new(width, height), pixels) {
        Some(bitmap) => bitmap,
        None => panic!("the pixels are as many as the size asks for"),
    }
}

fn word(bytes: &[u8], at: usize) -> u32 {
    u32::from_le_bytes([bytes[at], bytes[at + 1], bytes[at + 2], bytes[at + 3]])
}

#[test]
fn the_dib_is_a_v5_header_followed_by_its_pixels_with_a_real_size_image() {
    let bitmap = bitmap(3, 2, vec![0_u8; 3 * 2 * 4]);
    let Ok(dib) = dibv5_bytes(&bitmap) else { panic!("the bitmap is small") };
    assert_eq!(dib.len(), 124 + 3 * 2 * 4);
    assert_eq!(word(&dib, 0), 124);
    assert_eq!(word(&dib, 20), 3 * 2 * 4);
}

#[test]
fn the_header_lies_as_the_system_lays_it_out() {
    let Ok(dib) = dibv5_bytes(&bitmap(3, 2, vec![7_u8; 3 * 2 * 4])) else {
        panic!("the bitmap is small")
    };
    assert_eq!(std::mem::size_of::<gdi::BITMAPV5HEADER>(), HEADER_LEN as usize);
    let at = |offset: usize| word(&dib, offset);
    assert_eq!(at(4), 3);
    assert_eq!(at(8), 2);
    assert_eq!(at(12), 1 | 32 << 16);
    assert_eq!(at(16), gdi::BI_BITFIELDS);
    assert_eq!(at(40), 0x00ff_0000);
    assert_eq!(at(44), 0x0000_ff00);
    assert_eq!(at(48), 0x0000_00ff);
    assert_eq!(at(52), 0xff00_0000);
    assert_eq!(at(56), LCS_S_RGB);
    assert_eq!(at(108), LCS_GM_IMAGES);
    assert_eq!(BI_BITFIELDS, gdi::BI_BITFIELDS);
    assert_eq!(CF_DIBV5, 17);
}

/// The dev rig: a 2560x1440 primary, two 1920x1080 to its right, and a portrait
/// 1080x1920 at a negative origin. The handles are not in position order.
fn rig() -> Vec<MonitorInfo> {
    [
        (0x40, Rect::new(0, 0, 2560, 1440)),
        (0x10, Rect::new(2560, 0, 1920, 1080)),
        (0x30, Rect::new(4480, 0, 1920, 1080)),
        (0x20, Rect::new(-1080, 0, 1080, 1920)),
    ]
    .into_iter()
    .map(|(handle, bounds)| MonitorInfo::new(handle, bounds))
    .collect()
}

#[test]
fn a_grab_takes_the_monitor_the_cursor_is_on() {
    for monitor in rig() {
        let expected = monitor.bounds;
        let inside = Point::new(
            expected.origin.x + (expected.size.width / 2) as i32,
            expected.origin.y + (expected.size.height / 2) as i32,
        );
        assert_eq!(monitor_at(&rig(), Some(inside)), Ok(expected));
    }
    assert_eq!(
        monitor_at(&rig(), Some(Point::new(-1000, 1800))),
        Ok(Rect::new(-1080, 0, 1080, 1920))
    );
}

#[test]
fn a_grab_declines_rather_than_guessing() {
    assert!(monitor_at(&rig(), None).is_err());
    assert!(monitor_at(&rig(), Some(Point::new(3000, 1300))).is_err());
    assert!(monitor_at(&[], Some(Point::new(0, 0))).is_err());
}

#[test]
fn the_decline_message_names_what_was_looked_at() {
    let Err(error) = monitor_at(&rig(), Some(Point::new(3000, 1300))) else {
        panic!("the point is on no monitor")
    };
    assert!(error.contains("3000"), "{error}");
    assert!(error.contains("1300"), "{error}");
    assert!(error.contains("4 monitor(s)"), "{error}");
    assert_eq!(
        monitor_at(&rig(), None),
        Err("the cursor position could not be read".to_string())
    );
    assert_eq!(
        monitor_at(&[], Some(Point::new(-7, 0))),
        Err("the cursor at (-7, 0) is on none of the 0 monitor(s) enumerated".to_string())
    );
}

#[test]
fn a_stage_line_names_the_monitor_and_the_byte_length() {
    let split = Split {
        capture_ms: 254,
        encode_ms: 38,
        publish_ms: 79,
        bounds: Some(Rect::new(0, 0, 2560, 1440)),
        encoded_bytes: 86_113,
        source: Source::Live,
    };
    let line = stage_line(&split);
    assert!(line.contains("2560x1440"), "no monitor size: {line}");
    assert!(line.contains("at (0, 0)"), "no monitor origin: {line}");
    assert!(line.contains("86113 bytes"), "no byte length: {line}");
    assert!(line.contains("capture 254 ms"), "{line}");
    assert!(line.contains("live capture"), "{line}");
    assert_eq!(
        line,
        "2560x1440 at (0, 0) — capture 254 ms, encode 38 ms, publish 79 ms, 86113 bytes (live capture)"
    );
}

#[test]
fn a_stage_line_omits_the_rectangle_rather_than_inventing_one() {
    let line = stage_line(&Split::default());
    assert!(!line.contains(" at ("), "invented a rectangle: {line}");
    assert!(line.contains("0 bytes"), "{line}");
}

#[test]
fn a_stage_line_names_the_source() {
    let line = |source| stage_line(&Split { source, ..Split::default() });
    assert!(line(Source::Pinned).ends_with("(pinned capture, not re-taken)"));
    assert!(line(Source::Held).ends_with("(held frame)"));
    assert!(line(Source::Frozen).ends_with("(frozen still)"));
    assert!(line(Source::Fell(Fallback::NoFrame))
        .ends_with("(live capture — fell back: no held frame)"));
}

#[test]
fn bottom_up_bgra_flips_rows_and_swaps_red_and_blue() {
    let bitmap = bitmap(1, 2, vec![255, 0, 0, 255, 0, 255, 0, 128]);
    let out = bottom_up_bgra(&bitmap);
    assert_eq!(out, vec![0, 255, 0, 128, 0, 0, 255, 255]);
}

#[test]
fn turning_a_picture_round_twice_gives_it_back() {
    let pixels: Vec<u8> = (0..5 * 3 * 4).map(|byte| byte as u8).collect();
    let once = bottom_up_bgra(&bitmap(5, 3, pixels.clone()));
    assert_ne!(once, pixels);
    assert_eq!(bottom_up_bgra(&bitmap(5, 3, once)), pixels);
}

#[test]
fn a_bitmap_has_as_many_bytes_as_its_size_asks_for() {
    assert!(RgbaBitmap::from_pixels(Size::new(2, 2), vec![0; 15]).is_none());
    assert!(RgbaBitmap::from_pixels(Size::new(2, 2), vec![0; 16]).is_some());
    let whole = bitmap(2, 2, (0..16).collect());
    assert_eq!((whole.width(), whole.height()), (2, 2));
    let Some(cut) = whole.crop(Rect::new(1, 0, 1, 2)) else { panic!("the cut is inside") };
    assert_eq!(*cut.pixels(), vec![4, 5, 6, 7, 12, 13, 14, 15]);
    assert!(whole.crop(Rect::new(1, 0, 2, 1)).is_none());
    assert!(whole.crop(Rect::new(-1, 0, 1, 1)).is_none());
}

#[test]
fn a_frozen_still_wins_over_the_held_frame() {
    let held = || Precapture {
        held: Some(Held {
            rect: Rect::new(0, 0, 2, 2),
            bitmap: bitmap(2, 2, vec![9; 16]),
            taken: 100,
        }),
        ..Precapture::default()
    };
    let area = Rect::new(0, 0, 1, 1);
    let mut pre = held();
    let route = capture_or_crop(&mut pre, Some(bitmap(1, 1, vec![1; 4])), area, 100);
    assert!(matches!(route, Route::Frozen(still) if *still.pixels() == vec![1; 4]));
    assert!(pre.held.is_some());
    let route = capture_or_crop(&mut pre, None, area, 100);
    assert!(matches!(route, Route::Held(cut) if *cut.pixels() == vec![9; 4]));
    assert!(pre.held.is_none());
    let route = capture_or_crop(&mut pre, None, area, 100);
    assert!(matches!(route, Route::Capture(Fallback::NoFrame)));
}

#[test]
fn what_an_export_did_is_noted() {
    let mut split = Split::default();
    note_crop(&mut split, Source::Held, Rect::new(1, 2, 3, 4), 5, 6);
    assert_eq!(
        split,
        Split {
            source: Source::Held,
            encode_ms: 5,
            bounds: Some(Rect::new(1, 2, 3, 4)),
            encoded_bytes: 6,
            ..Split::default()
        }
    );
    note_capture(&mut split, Rect::new(0, 0, 9, 9), 7, 8, 10);
    assert_eq!((split.capture_ms, split.encode_ms, split.encoded_bytes), (7, 8, 10));
    assert_eq!(split.bounds, Some(Rect::new(0, 0, 9, 9)));
    let mut split = Split::default();
    note_pinned(&mut split, 11);
    assert_eq!((split.source, split.bounds, split.encoded_bytes), (Source::Pinned, None, 11));
}

/// The steps an export takes if the one numbered `failing` fails.
fn steps(export: Export, failing: Option<usize>) -> Vec<ExportStep> {
    let mut taken = Vec::new();
    let mut step = first_step(export);
    while !matches!(step, ExportStep::Report { .. }) {
        let ok = failing != Some(taken.len());
        taken.push(step);
        step = next_step(export, step, ok);
    }
    taken.push(step);
    taken
}

#[test]
fn each_export_takes_its_steps() {
    let (acquire, announce, check, convert, flash, locate, pin, publish, write) = (
        ExportStep::Acquire,
        ExportStep::Announce,
        ExportStep::Check,
        ExportStep::Convert,
        ExportStep::Flash,
        ExportStep::Locate,
        ExportStep::Pin,
        ExportStep::Publish,
        ExportStep::Write,
    );
    let done = ExportStep::Report { ok: true };
    let failed = ExportStep::Report { ok: false };
    assert_eq!(steps(Export::Copy, None), vec![acquire, convert, publish, flash, done]);
    assert_eq!(steps(Export::Save, None), vec![acquire, write, flash, done]);
    assert_eq!(steps(Export::Grab, None), vec![locate, acquire, convert, publish, done]);
    assert_eq!(
        steps(Export::Capture, None),
        vec![acquire, pin, announce, convert, publish, done]
    );
    assert_eq!(steps(Export::Magnify, None), vec![acquire, check, pin, announce, done]);
    assert_eq!(steps(Export::Copy, Some(2)), vec![acquire, convert, publish, failed]);
    assert_eq!(steps(Export::Grab, Some(0)), vec![locate, failed]);
    assert_eq!(
        steps(Export::Capture, Some(2)),
        vec![acquire, pin, announce, convert, publish, done],
        "a picture that could not be announced still goes to the clipboard"
    );
    assert_eq!(
        steps(Export::Magnify, Some(1)),
        vec![acquire, check, done],
        "a zoom scrolled past is let go without fault"
    );
    assert_eq!(steps(Export::Magnify, Some(3)), vec![acquire, check, pin, announce, failed]);
}

#[test]
fn a_zoom_that_was_overtaken_is_not_shown() {
    let mut magnifier = Magnifier::default();
    let (one, two) = (AreaId::new(1), AreaId::new(2));
    assert!(magnify_into_area(&mut magnifier, one, Rect::new(0, 0, 5, 5)));
    let Some(first) = next_request(&mut magnifier) else { panic!("a picture was asked for") };
    assert!(is_current(&magnifier, first));
    assert!(!magnify_into_area(&mut magnifier, two, Rect::new(1, 1, 5, 5)), "a worker runs");
    assert!(!is_current(&magnifier, first));
    let Some(second) = next_request(&mut magnifier) else { panic!("a picture was asked for") };
    assert_eq!((second.id, second.source), (two, Rect::new(1, 1, 5, 5)));
    clear_magnification(&mut magnifier, two);
    assert!(!is_current(&magnifier, second));
    assert_eq!(next_request(&mut magnifier), None);
    assert!(!magnifier.in_flight);
    assert!(magnify_into_area(&mut magnifier, one, Rect::new(0, 0, 5, 5)));
    clear_magnification(&mut magnifier, two);
    assert!(magnifier.pending.is_some(), "another area's picture is still wanted");
    clear_magnification(&mut magnifier, one);
    assert_eq!(magnifier.pending, None);
}

#[test]
fn an_open_clipboard_is_closed_whatever_happens() {
    let bad = || Err("why".to_string());
    assert_eq!(publish_clipboard(Publish::default(), Ok(())), Publish::Empty);
    assert_eq!(
        publish_clipboard(Publish::Open, bad()),
        Publish::Finished(Err("could not open the clipboard".to_string()))
    );
    assert_eq!(publish_clipboard(Publish::Empty, Ok(())), Publish::SetDib);
    assert_eq!(
        publish_clipboard(Publish::Empty, bad()),
        Publish::Close(Err("could not empty the clipboard".to_string()))
    );
    assert_eq!(publish_clipboard(Publish::SetDib, Ok(())), Publish::SetPng);
    assert_eq!(publish_clipboard(Publish::SetDib, bad()), Publish::Close(bad()));
    assert_eq!(publish_clipboard(Publish::SetPng, Ok(())), Publish::Close(Ok(())));
    assert_eq!(publish_clipboard(Publish::SetPng, bad()), Publish::Close(bad()));
    assert_eq!(
        publish_clipboard(Publish::Close(bad()), Ok(())),
        Publish::Finished(bad())
    );
}

#[test]
fn memory_is_freed_where_it_is_still_ours() {
    assert_eq!(set_clipboard_data(17, Handover::Allocate, true), Handover::Lock);
    assert_eq!(
        set_clipboard_data(17, Handover::Allocate, false),
        Handover::Finished(Err("could not allocate clipboard memory for format 17".to_string()))
    );
    assert_eq!(
        set_clipboard_data(17, Handover::Lock, false),
        Handover::Free("could not lock clipboard memory for format 17".to_string())
    );
    assert_eq!(set_clipboard_data(17, Handover::Lock, true), Handover::HandOver);
    assert_eq!(set_clipboard_data(17, Handover::HandOver, true), Handover::Finished(Ok(())));
    assert_eq!(
        set_clipboard_data(49_158, Handover::HandOver, false),
        Handover::Free("could not publish clipboard format 49158".to_string())
    );
    assert_eq!(
        set_clipboard_data(17, Handover::Free("x".to_string()), true),
        Handover::Finished(Err("x".to_string()))
    );
}

#[test]
fn a_pinned_area_exports_what_it_shows() {
    for frozen in [false, true] {
        for export in [Export::Copy, Export::Save] {
            assert_eq!(export_source(export, true, frozen), Pixels::Pinned);
            assert_eq!(export_source(export, false, frozen), Pixels::Live);
        }
        for pinned in [false, true] {
            assert_eq!(export_source(Export::Grab, pinned, frozen), Pixels::Live);
        }
    }
}

#[test]
fn a_zoom_and_a_new_area_take_the_frozen_still() {
    for pinned in [false, true] {
        assert_eq!(export_source(Export::Magnify, pinned, true), Pixels::Frozen);
        assert_eq!(export_source(Export::Magnify, pinned, false), Pixels::Live);
        assert_eq!(export_source(Export::Capture, pinned, true), Pixels::Frozen);
        assert_eq!(export_source(Export::Capture, pinned, false), Pixels::Held);
    }
}
