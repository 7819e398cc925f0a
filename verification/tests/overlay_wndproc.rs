//! The messages of the overlay's window.

use uptake::overlay_wndproc::{
    subclass_proc, Answer, SC_KEYMENU, SUBCLASS_ID, WM_DISPLAYCHANGE, WM_NCDESTROY, WM_SYSCOMMAND,
};
use windows_sys::Win32::UI::WindowsAndMessaging as messages;

#[test]
fn menu_mode_is_declined_whatever_the_low_bits() {
    for low in 0..16 {
        assert_eq!(subclass_proc(WM_SYSCOMMAND, SC_KEYMENU + low), Answer::Consume);
    }
    assert_eq!(subclass_proc(WM_SYSCOMMAND, 0xf060), Answer::Forward);
    assert_eq!(subclass_proc(0x0111, SC_KEYMENU), Answer::Forward);
}

#[test]
fn a_display_change_is_watched_and_passed_on() {
    assert_eq!(subclass_proc(WM_DISPLAYCHANGE, 32), Answer::Resync);
    assert_eq!(subclass_proc(WM_NCDESTROY, 0), Answer::Release);
    assert_eq!(subclass_proc(0, 0), Answer::Forward);
}

#[test]
fn the_messages_have_the_systems_numbers() {
    assert_eq!(WM_DISPLAYCHANGE, messages::WM_DISPLAYCHANGE);
    assert_eq!(WM_NCDESTROY, messages::WM_NCDESTROY);
    assert_eq!(WM_SYSCOMMAND, messages::WM_SYSCOMMAND);
    assert_eq!(SC_KEYMENU, messages::SC_KEYMENU as usize);
    assert_eq!(SUBCLASS_ID.to_be_bytes()[4..], *b"UPTK");
}
