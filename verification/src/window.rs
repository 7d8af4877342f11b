//! Hiding the maximize button of the launcher's window.
use vstd::prelude::*;

verus! {

/// The launcher looks so often for its window.
pub const WINDOW_ATTEMPTS: u32 = 50;

/// The pause between two looks.
pub const WINDOW_POLL_MS: u64 = 100;

/// What a look for the window leads to.
#[derive(Clone, Copy, Debug, PartialEq, Eq, Structural)]
pub enum WindowSearch {
    /// Look for the window, after so many looks.
    Look(u32),
    /// Sleep for so many milliseconds, after so many looks.
    Sleep(u64, u32),
    /// The window is there: change its style.
    Restyle,
    /// The window did not appear.
    GiveUp,
}

/// What follows a look for the window that was the one after `looks` others.
pub fn after_look(looks: u32, found: bool) -> (next: WindowSearch)
    requires
        looks < WINDOW_ATTEMPTS,
    ensures
        next == if found {
            WindowSearch::Restyle
        } else {
            WindowSearch::Sleep(WINDOW_POLL_MS, (looks + 1) as u32)
        },
{
    if found {
        WindowSearch::Restyle
    } else {
        WindowSearch::Sleep(WINDOW_POLL_MS, looks + 1)
    }
}

/// What follows the pause after a number of looks.
pub fn after_sleep(looks: u32) -> (next: WindowSearch)
    ensures
        next == if looks < WINDOW_ATTEMPTS {
            WindowSearch::Look(looks)
        } else {
            WindowSearch::GiveUp
        },
{
    if looks < WINDOW_ATTEMPTS {
        WindowSearch::Look(looks)
    } else {
        WindowSearch::GiveUp
    }
}

/// A window's style without the bits of a flag.
pub fn without_flag(style: i64, flag: u32) -> (restyled: i64)
    ensures
        restyled == style & !(flag as i64),
        restyled & (flag as i64) == 0,
        restyled | (style & (flag as i64)) == style,
{
    let bits = flag as i64;
    let restyled = style & !bits;
    assert((style & !bits) & bits == 0) by (bit_vector);
    assert((style & !bits) | (style & bits) == style) by (bit_vector);
    restyled
}

/// The launcher looks for its window fifty times, a tenth of a second apart: for
/// five seconds in all.
pub proof fn law_window_is_sought_for_five_seconds(looks: u32)
    ensures
        looks < WINDOW_ATTEMPTS <==> looks * WINDOW_POLL_MS < 5000,
        WINDOW_POLL_MS == 100,
{
}

} // verus!
