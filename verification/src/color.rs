//! Read and write helpers over a single 4-byte RGBA pixel view.

use vstd::prelude::*;

verus! {

/// Fixed channel offsets within one 4-byte pixel window.
pub struct Rgba;

impl Rgba {
    pub const RED: usize = 0;
    pub const GREEN: usize = 1;
    pub const BLUE: usize = 2;
    pub const ALPHA: usize = 3;
}

/// The 8-bit inversion of a channel value. A channel value is at most 255,
/// so the subtraction never underflows.
pub open spec fn inverted(value: u8) -> u8 {
    (255 - value) as u8
}

/// The unweighted average of the three color channels, rounded down.
/// The sum is at most 765, so the average always fits in 8 bits.
pub open spec fn channel_average(r: u8, g: u8, b: u8) -> u8 {
    ((r + g + b) / 3) as u8
}

pub fn get_red(raw_pixel: &[u8]) -> (value: u8)
    requires
        raw_pixel@.len() >= 4,
    ensures
        value == raw_pixel@[0],
{
    raw_pixel[Rgba::RED]
}

pub fn get_inverted_red(raw_pixel: &[u8]) -> (value: u8)
    requires
        raw_pixel@.len() >= 4,
    ensures
        value == inverted(raw_pixel@[0]),
{
    255 - get_red(raw_pixel)
}

pub fn get_green(raw_pixel: &[u8]) -> (value: u8)
    requires
        raw_pixel@.len() >= 4,
    ensures
        value == raw_pixel@[1],
{
    raw_pixel[Rgba::GREEN]
}

pub fn get_inverted_green(raw_pixel: &[u8]) -> (value: u8)
    requires
        raw_pixel@.len() >= 4,
    ensures
        value == inverted(raw_pixel@[1]),
{
    255 - get_green(raw_pixel)
}

pub fn get_blue(raw_pixel: &[u8]) -> (value: u8)
    requires
        raw_pixel@.len() >= 4,
    ensures
        value == raw_pixel@[2],
{
    raw_pixel[Rgba::BLUE]
}

pub fn get_inverted_blue(raw_pixel: &[u8]) -> (value: u8)
    requires
        raw_pixel@.len() >= 4,
    ensures
        value == inverted(raw_pixel@[2]),
{
    255 - get_blue(raw_pixel)
}

pub fn get_alpha(raw_pixel: &[u8]) -> (value: u8)
    requires
        raw_pixel@.len() >= 4,
    ensures
        value == raw_pixel@[3],
{
    raw_pixel[Rgba::ALPHA]
}

pub fn get_avg(raw_pixel: &[u8]) -> (value: u8)
    requires
        raw_pixel@.len() >= 4,
    ensures
        value == channel_average(raw_pixel@[0], raw_pixel@[1], raw_pixel@[2]),
{
    let avg = (get_red(raw_pixel) as u32 + get_green(raw_pixel) as u32 + get_blue(raw_pixel) as u32)
        / 3;
    avg as u8
}

pub fn set_red(raw_pixel: &mut [u8], value: u8)
    requires
        old(raw_pixel)@.len() >= 4,
    ensures
        final(raw_pixel)@ == old(raw_pixel)@.update(0, value),
{
    raw_pixel[Rgba::RED] = value;
}

pub fn set_green(raw_pixel: &mut [u8], value: u8)
    requires
        old(raw_pixel)@.len() >= 4,
    ensures
        final(raw_pixel)@ == old(raw_pixel)@.update(1, value),
{
    raw_pixel[Rgba::GREEN] = value;
}

pub fn set_blue(raw_pixel: &mut [u8], value: u8)
    requires
        old(raw_pixel)@.len() >= 4,
    ensures
        final(raw_pixel)@ == old(raw_pixel)@.update(2, value),
{
    raw_pixel[Rgba::BLUE] = value;
}

pub fn set_alpha(raw_pixel: &mut [u8], value: u8)
    requires
        old(raw_pixel)@.len() >= 4,
    ensures
        final(raw_pixel)@ == old(raw_pixel)@.update(3, value),
{
    raw_pixel[Rgba::ALPHA] = value;
}

} // verus!
