//! The catalog of stateless per-pixel transforms and their exact
//! specifications.

use vstd::prelude::*;

use crate::color::{
    channel_average, get_alpha, get_blue, get_green, get_red, inverted, set_alpha, set_blue,
    set_green, set_red,
};

verus! {

/// One named transform from the catalog. Every transform is a pure function
/// of the four channel values of a single pixel.
#[derive(Clone, Copy, PartialEq, Eq, Structural, Debug)]
pub enum Transform {
    Grayscale,
    RemoveRed,
    RemoveGreen,
    RemoveBlue,
    SwapRedBlue,
    SwapRedGreen,
    SwapBlueGreen,
    SwapAlphaRed,
    SwapAlphaGreen,
    SwapAlphaBlue,
    Sepia,
    Invert,
    Redden,
    Neue,
    Lix,
    Ryo,
    RedGrayscale,
    GreenGrayscale,
    BlueGrayscale,
}

/// The integer sepia luminance: a weighted sum of the color channels with
/// weights 30/100, 59/100 and 11/100, rounded down. The weights sum to 1,
/// so the result is at most 255.
pub open spec fn sepia_weight(r: u8, g: u8, b: u8) -> int {
    (30 * r + 59 * g + 11 * b) / 100
}

/// The sepia shift of one channel: the luminance plus a fixed offset,
/// saturating at 255.
pub open spec fn sepia_shifted(weight: int, shift: int) -> u8 {
    if weight + shift < 255 {
        (weight + shift) as u8
    } else {
        255u8
    }
}

/// What one transform does to the four channel values (red, green, blue,
/// alpha) of a single pixel.
pub open spec fn transformed_rgba(t: Transform, r: u8, g: u8, b: u8, a: u8) -> (u8, u8, u8, u8) {
    match t {
        Transform::Grayscale => {
            let avg = channel_average(r, g, b);
            (avg, avg, avg, a)
        },
        Transform::RemoveRed => (0u8, g, b, a),
        Transform::RemoveGreen => (r, 0u8, b, a),
        Transform::RemoveBlue => (r, g, 0u8, a),
        Transform::SwapRedBlue => (b, g, r, a),
        Transform::SwapRedGreen => (g, r, b, a),
        Transform::SwapBlueGreen => (r, b, g, a),
        Transform::SwapAlphaRed => (a, g, b, r),
        Transform::SwapAlphaGreen => (r, a, b, g),
        Transform::SwapAlphaBlue => (r, g, a, b),
        Transform::Sepia => {
            let w = sepia_weight(r, g, b);
            (sepia_shifted(w, 100), sepia_shifted(w, 50), b, a)
        },
        Transform::Invert => (inverted(r), inverted(g), inverted(b), a),
        Transform::Redden => (inverted(r), g, b, a),
        Transform::Neue => (r, g, inverted(b), a),
        Transform::Lix => (inverted(r), inverted(g), b, a),
        Transform::Ryo => (inverted(r), g, inverted(b), a),
        Transform::RedGrayscale => (r, r, r, a),
        Transform::GreenGrayscale => (g, g, g, a),
        Transform::BlueGrayscale => (b, b, b, a),
    }
}

/// What one transform does to a 4-byte pixel window, as a sequence.
pub open spec fn transformed_pixel(t: Transform, p: Seq<u8>) -> Seq<u8>
    recommends
        p.len() == 4,
{
    let (r, g, b, a) = transformed_rgba(t, p[0], p[1], p[2], p[3]);
    seq![r, g, b, a]
}

/// Applies one transform to four channel values, returning the new
/// (red, green, blue, alpha) values.
pub fn transform_rgba(t: Transform, r: u8, g: u8, b: u8, a: u8) -> (res: (u8, u8, u8, u8))
    ensures
        res == transformed_rgba(t, r, g, b, a),
{
    match t {
        Transform::Grayscale => {
            let sum = r as u32 + g as u32 + b as u32;
            let avg = (sum / 3) as u8;
            (avg, avg, avg, a)
        },
        Transform::RemoveRed => (0, g, b, a),
        Transform::RemoveGreen => (r, 0, b, a),
        Transform::RemoveBlue => (r, g, 0, a),
        Transform::SwapRedBlue => (b, g, r, a),
        Transform::SwapRedGreen => (g, r, b, a),
        Transform::SwapBlueGreen => (r, b, g, a),
        Transform::SwapAlphaRed => (a, g, b, r),
        Transform::SwapAlphaGreen => (r, a, b, g),
        Transform::SwapAlphaBlue => (r, g, a, b),
        Transform::Sepia => {
            let weight = (30 * r as u32 + 59 * g as u32 + 11 * b as u32) / 100;
            let new_red = if weight + 100 < 255 {
                (weight + 100) as u8
            } else {
                255
            };
            let new_green = if weight + 50 < 255 {
                (weight + 50) as u8
            } else {
                255
            };
            (new_red, new_green, b, a)
        },
        Transform::Invert => (255 - r, 255 - g, 255 - b, a),
        Transform::Redden => (255 - r, g, b, a),
        Transform::Neue => (r, g, 255 - b, a),
        Transform::Lix => (255 - r, 255 - g, b, a),
        Transform::Ryo => (255 - r, g, 255 - b, a),
        Transform::RedGrayscale => (r, r, r, a),
        Transform::GreenGrayscale => (g, g, g, a),
        Transform::BlueGrayscale => (b, b, b, a),
    }
}

/// Applies one transform in place to a single 4-byte pixel window.
pub fn apply_pixel(raw_pixel: &mut [u8], t: Transform)
    requires
        old(raw_pixel)@.len() == 4,
    ensures
        final(raw_pixel)@ == transformed_pixel(t, old(raw_pixel)@),
{
    let r = get_red(raw_pixel);
    let g = get_green(raw_pixel);
    let b = get_blue(raw_pixel);
    let a = get_alpha(raw_pixel);
    let (new_r, new_g, new_b, new_a) = transform_rgba(t, r, g, b, a);
    set_red(raw_pixel, new_r);
    set_green(raw_pixel, new_g);
    set_blue(raw_pixel, new_b);
    set_alpha(raw_pixel, new_a);
    assert(raw_pixel@ =~= transformed_pixel(t, old(raw_pixel)@));
}

} // verus!
