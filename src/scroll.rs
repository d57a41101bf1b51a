use vstd::prelude::*;

verus! {

/// Why a scroll bound could not be computed.
#[derive(Debug, PartialEq, Eq, Structural, Clone, Copy)]
pub enum ScrollError {
    /// The render target is zero columns wide.
    InvalidViewport,
}

/// The lines that the reader's frame and margins take from the screen; the
/// bound below compensates for them.
pub const VIEWPORT_COMPENSATION: i128 = 50;

/// The furthest scroll offset for rendered text of `chars` characters and
/// `lines` lines wrapped at `width` columns. Short text gives a negative
/// bound, which disables scrolling down.
pub open spec fn max_scroll_of(chars: int, lines: int, width: int) -> int {
    chars / width + lines - 50
}

/// The number of `'\n'` in `s`.
pub open spec fn newline_total(s: Seq<char>) -> nat
    decreases s.len(),
{
    if s.len() == 0 {
        0
    } else {
        newline_total(s.drop_last()) + if s.last() == '\n' { 1nat } else { 0nat }
    }
}

/// The number of lines of `s`: each `'\n'` ends one, and text after the last
/// `'\n'` makes one more.
pub open spec fn line_total(s: Seq<char>) -> nat {
    newline_total(s) + if s.len() > 0 && s.last() != '\n' { 1nat } else { 0nat }
}

/// The furthest scroll offset, by the formula `chars / width + lines - 50`,
/// kept exactly as written: it is negative for short text.
pub fn max_scroll(char_count: usize, line_count: usize, viewport_width: usize) -> (r: Result<
    i128,
    ScrollError,
>)
    ensures
        viewport_width == 0 <==> r == Err::<i128, ScrollError>(ScrollError::InvalidViewport),
        viewport_width > 0 ==> r == Ok::<i128, ScrollError>(
            max_scroll_of(char_count as int, line_count as int, viewport_width as int) as i128,
        ),
{
    if viewport_width == 0 {
        Err(ScrollError::InvalidViewport)
    } else {
        let per_width = (char_count / viewport_width) as i128;
        Ok(per_width + line_count as i128 - VIEWPORT_COMPENSATION)
    }
}

/// The offset after one step down: the step is taken while `current` is at
/// most `max`, the bound included, and never past `u16::MAX`.
pub open spec fn scrolled_down(current: u16, max: int) -> u16 {
    if current as int <= max && current < u16::MAX {
        (current + 1) as u16
    } else {
        current
    }
}

/// The offset after one step up, which stops at zero.
pub open spec fn scrolled_up(current: u16) -> u16 {
    if current > 0 {
        (current - 1) as u16
    } else {
        0
    }
}

/// Scrolling down never passes one line beyond the bound (or the start
/// offset, where that is further), and once past the bound it stops.
pub proof fn lemma_scroll_down_stops(current: u16, max: int)
    ensures
        current as int > max ==> scrolled_down(current, max) == current,
        scrolled_down(current, max) as int <= if current as int > max + 1 {
            current as int
        } else {
            max + 1
        },
        scrolled_down(current, max) >= current,
{
}

/// `k` steps down in a row against the bound `max`.
pub open spec fn scrolled_down_times(current: u16, max: int, k: nat) -> u16
    decreases k,
{
    if k == 0 {
        current
    } else {
        scrolled_down(scrolled_down_times(current, max, (k - 1) as nat), max)
    }
}

/// Where `k` steps down from the top end: one line per step until one line
/// past the bound (none at all when the bound is negative), and never past
/// `u16::MAX`. From there on further steps change nothing.
pub proof fn lemma_scroll_down_from_top(max: int, k: nat)
    ensures
        scrolled_down_times(0, max, k) as int == if k <= max + 1 && k <= u16::MAX {
            k as int
        } else if max + 1 <= u16::MAX {
            if max + 1 >= 0 {
                max + 1
            } else {
                0
            }
        } else {
            u16::MAX as int
        },
        scrolled_down(scrolled_down_times(0, max, k), max) == scrolled_down_times(0, max, k)
            <==> (k > max || k >= u16::MAX),
    decreases k,
{
    if k > 0 {
        lemma_scroll_down_from_top(max, (k - 1) as nat);
    }
}

/// One step down against a computed bound.
pub fn scroll_down_step(current: u16, max: i128) -> (r: u16)
    ensures
        r == scrolled_down(current, max as int),
{
    if (current as i128) <= max && current < u16::MAX {
        current + 1
    } else {
        current
    }
}

/// One step up.
pub fn scroll_up_step(current: u16) -> (r: u16)
    ensures
        r == scrolled_up(current),
{
    if current > 0 {
        current - 1
    } else {
        0
    }
}

} // verus!
