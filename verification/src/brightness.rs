//! The user-facing 0–100 brightness scale and its mapping onto each device.
use vstd::prelude::*;

verus! {

/// The percentage actually used: anything above 100 counts as 100.
pub open spec fn clamp_percent(pct: u8) -> int {
    if pct <= 100 { pct as int } else { 100 }
}

/// 0–100 mapped onto the keyboard firmware's 0–9 scale, rounded to nearest.
pub open spec fn keyboard_level(pct: u8) -> int {
    (clamp_percent(pct) * 9 + 50) / 100
}

/// 0–100 mapped onto the mouse's 0–255 scale, rounded to nearest.
pub open spec fn mouse_level(pct: u8) -> int {
    (clamp_percent(pct) * 255 + 50) / 100
}

/// Maps a 0–100 brightness onto the keyboard's 0–9 scale, rounding to the
/// nearest step (40 % gives 4). Values above 100 are treated as 100.
pub fn kb_brightness(pct: u8) -> (level: u8)
    ensures
        level == keyboard_level(pct),
        level <= 9,
{
    let p: u16 = if pct < 100 { pct as u16 } else { 100 };
    let level: u16 = (p * 9 + 50) / 100;
    level as u8
}

/// Maps a 0–100 brightness onto the mouse's 0–255 scale, rounding to the
/// nearest step. Values above 100 are treated as 100.
pub fn mouse_brightness(pct: u8) -> (level: u8)
    ensures
        level == mouse_level(pct),
{
    let p: u16 = if pct < 100 { pct as u16 } else { 100 };
    let level: u16 = (p * 255 + 50) / 100;
    level as u8
}

/// Both mappings stay within the device's scale, send 0 % to 0 and 100 % to the
/// top of the scale, and treat anything above 100 as 100.
pub proof fn lemma_brightness_range(pct: u8)
    ensures
        0 <= keyboard_level(pct) <= 9,
        0 <= mouse_level(pct) <= 255,
        keyboard_level(0) == 0,
        mouse_level(0) == 0,
        keyboard_level(100) == 9,
        mouse_level(100) == 255,
        pct >= 100 ==> keyboard_level(pct) == 9 && mouse_level(pct) == 255,
{
}

/// A brighter percentage never gives a dimmer device level.
pub proof fn lemma_brightness_monotone(p: u8, q: u8)
    requires
        p <= q,
    ensures
        keyboard_level(p) <= keyboard_level(q),
        mouse_level(p) <= mouse_level(q),
{
    let a: int = clamp_percent(p);
    let b: int = clamp_percent(q);
    assert(a <= b);
    vstd::arithmetic::div_mod::lemma_div_is_ordered(a * 9 + 50, b * 9 + 50, 100);
    vstd::arithmetic::div_mod::lemma_div_is_ordered(a * 255 + 50, b * 255 + 50, 100);
}

/// The mapping rounds to the nearest device step: the level differs from the
/// exact scaled value by at most half a step, and an exact half rounds up.
pub proof fn lemma_brightness_rounds_to_nearest(pct: u8)
    ensures
        -50 < keyboard_level(pct) * 100 - clamp_percent(pct) * 9 <= 50,
        -50 < mouse_level(pct) * 100 - clamp_percent(pct) * 255 <= 50,
{
    let a: int = clamp_percent(pct);
    vstd::arithmetic::div_mod::lemma_fundamental_div_mod(a * 9 + 50, 100);
    vstd::arithmetic::div_mod::lemma_fundamental_div_mod(a * 255 + 50, 100);
    vstd::arithmetic::div_mod::lemma_mod_bound(a * 9 + 50, 100);
    vstd::arithmetic::div_mod::lemma_mod_bound(a * 255 + 50, 100);
}

} // verus!
