//! The messages of the overlay's own window: a display change is watched for, and
//! menu mode is declined.
//!
//! Releasing `Alt` has Windows ask the focused window to enter menu mode, a
//! modal loop in which the mouse hook would not be served and would be removed.
//! The overlay has no menu, so that message is taken and goes no further. Every
//! other message is passed on.

use vstd::prelude::*;

verus! {

pub const WM_DISPLAYCHANGE: u32 = 0x007e;

pub const WM_NCDESTROY: u32 = 0x0082;

pub const WM_SYSCOMMAND: u32 = 0x0112;

pub const SC_KEYMENU: usize = 0xf100;

/// Tells this registration from any other on the window.
pub const SUBCLASS_ID: usize = 0x5550_544b;

/// What becomes of a message.
#[derive(Debug, Clone, Copy, PartialEq, Eq, Structural)]
pub enum Answer {
    /// It is taken, and answered with zero.
    Consume,
    /// The overlay is fitted to the displays, and the message is passed on.
    Resync,
    /// What the registration holds is let go, and the message is passed on.
    Release,
    /// It is passed on.
    Forward,
}

/// Whether a message asks for menu mode. The low four bits of its argument are
/// the system's own.
pub open spec fn asks_for_menu_mode(message: u32, wparam: usize) -> bool {
    message == WM_SYSCOMMAND && wparam & 0xfff0 == SC_KEYMENU
}

/// What becomes of a message.
pub fn subclass_proc(message: u32, wparam: usize) -> (answer: Answer)
    ensures
        answer == if asks_for_menu_mode(message, wparam) {
            Answer::Consume
        } else if message == WM_DISPLAYCHANGE {
            Answer::Resync
        } else if message == WM_NCDESTROY {
            Answer::Release
        } else {
            Answer::Forward
        },
{
    if message == WM_SYSCOMMAND && wparam & 0xfff0 == SC_KEYMENU {
        return Answer::Consume;
    }
    if message == WM_DISPLAYCHANGE {
        Answer::Resync
    } else if message == WM_NCDESTROY {
        Answer::Release
    } else {
        Answer::Forward
    }
}

// ---------------------------------------------------------------------------
// Laws.
// ---------------------------------------------------------------------------

/// The system's four bits make no difference: whatever they are, menu mode is
/// declined.
pub proof fn law_menu_mode_is_declined_whatever_the_low_bits(low: usize)
    requires
        low < 16,
    ensures
        asks_for_menu_mode(WM_SYSCOMMAND, (SC_KEYMENU + low) as usize),
{
    let wparam: usize = (SC_KEYMENU + low) as usize;
    assert(wparam & 0xfff0 == 0xf100) by (bit_vector)
        requires
            wparam == 0xf100 + low,
            low < 16,
    ;
}

/// Only menu mode is declined: no other message is kept from the window.
pub proof fn law_nothing_else_is_taken(message: u32, wparam: usize)
    requires
        message != WM_SYSCOMMAND,
    ensures
        !asks_for_menu_mode(message, wparam),
{
}

/// What becomes of each message: menu mode is declined, a display change is followed, the
/// window's end lets go, and everything else goes its way.
pub proof fn law_what_becomes_of_a_message(message: u32, wparam: usize, answer: Answer)
    requires
        call_ensures(subclass_proc, (message, wparam), answer),
    ensures
        answer == Answer::Consume <==> message == 0x0112 && wparam & 0xfff0 == 0xf100,
        answer == Answer::Resync <==> message == 0x007e,
        answer == Answer::Release <==> message == 0x0082,
{
}

} // verus!
