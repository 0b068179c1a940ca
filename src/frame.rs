use vstd::prelude::*;

use crate::config::{CURSOR_PERIOD, FILL_COLOR, FRAME_PIXELS, H_RES, SPRITE_COLOR, SPRITE_PIXELS, SPRITE_SIZE};

verus! {

/// The sprite position that follows `x`.
pub open spec fn next_cursor(x: int) -> int {
    (x + 1) % (CURSOR_PERIOD as int)
}

/// The sprite position after `n` frames, starting from the left edge.
pub open spec fn cursor_after(n: nat) -> int
    decreases n,
{
    if n == 0 {
        0
    } else {
        next_cursor(cursor_after((n - 1) as nat))
    }
}

/// Moves the sprite one pixel to the right, wrapping before it would leave
/// the screen.
pub fn advance_cursor(x: u32) -> (r: u32)
    requires
        x < CURSOR_PERIOD,
    ensures
        r == next_cursor(x as int),
        r < CURSOR_PERIOD,
        r + SPRITE_SIZE <= H_RES,
{
    (x + 1) % CURSOR_PERIOD
}

proof fn lemma_cursor_after_mod(n: nat)
    ensures
        cursor_after(n) == n % (CURSOR_PERIOD as nat),
    decreases n,
{
    let p = CURSOR_PERIOD as nat;
    if n > 0 {
        lemma_cursor_after_mod((n - 1) as nat);
        vstd::arithmetic::div_mod::lemma_add_mod_noop((n - 1) as int, 1, p as int);
        vstd::arithmetic::div_mod::lemma_mod_twice((n - 1) as int, p as int);
        vstd::arithmetic::div_mod::lemma_small_mod(1, p);
    }
}

/// The animation visits every position from the left edge in turn and starts
/// over after `CURSOR_PERIOD` frames; no position lets the sprite cross the
/// right edge of the screen.
pub proof fn lemma_cursor_sequence(n: nat)
    ensures
        cursor_after(n) == n % (CURSOR_PERIOD as nat),
        cursor_after(n + (CURSOR_PERIOD as nat)) == cursor_after(n),
        0 <= cursor_after(n),
        cursor_after(n) + SPRITE_SIZE <= H_RES,
{
    let p = CURSOR_PERIOD as nat;
    lemma_cursor_after_mod(n);
    lemma_cursor_after_mod(n + p);
    vstd::arithmetic::div_mod::lemma_mod_add_multiples_vanish(n as int, p as int);
}

/// Paints every pixel of a framebuffer view with the background colour.
pub fn fill_frame(frame: &mut [u16])
    requires
        old(frame)@.len() == FRAME_PIXELS,
    ensures
        final(frame)@.len() == FRAME_PIXELS,
        forall|i: int| 0 <= i < FRAME_PIXELS ==> final(frame)@[i] == FILL_COLOR,
{
    let mut idx: usize = 0;
    while idx < FRAME_PIXELS
        invariant
            idx <= FRAME_PIXELS,
            frame@.len() == FRAME_PIXELS,
            forall|i: int| 0 <= i < idx ==> frame@[i] == FILL_COLOR,
        decreases FRAME_PIXELS - idx,
    {
        frame[idx] = FILL_COLOR;
        idx = idx + 1;
    }
}

/// The square sprite: `SPRITE_SIZE` rows of `SPRITE_SIZE` pixels, all of the
/// sprite colour.
pub fn sprite_bitmap() -> (r: Vec<u16>)
    ensures
        r@.len() == SPRITE_PIXELS,
        forall|i: int| 0 <= i < SPRITE_PIXELS ==> r@[i] == SPRITE_COLOR,
{
    let mut v: Vec<u16> = Vec::with_capacity(SPRITE_PIXELS);
    let mut idx: usize = 0;
    while idx < SPRITE_PIXELS
        invariant
            idx <= SPRITE_PIXELS,
            v@.len() == idx,
            forall|i: int| 0 <= i < idx ==> v@[i] == SPRITE_COLOR,
        decreases SPRITE_PIXELS - idx,
    {
        v.push(SPRITE_COLOR);
        idx = idx + 1;
    }
    v
}

/// The backlight duty cycle: half of the channel's maximum duty.
pub fn backlight_duty(max_duty: u32) -> (r: u32)
    ensures
        r == max_duty / 2,
{
    max_duty / 2
}

} // verus!
