//! General laws of the transform catalog, stated over the specification
//! functions and proved for every input.

use vstd::prelude::*;

use crate::color::channel_average;
use crate::dispatch::{lemma_transformed_buffer_pixel, transformed_buffer};
use crate::transform::{sepia_weight, transformed_pixel, transformed_rgba, Transform};

verus! {

/// A transform whose per-pixel action is its own inverse restores the whole
/// buffer when applied twice: this holds for the inversion and for every
/// channel swap.
proof fn lemma_twice_identity(t: Transform, s: Seq<u8>)
    requires
        s.len() % 4 == 0,
        t is Invert || t is SwapRedBlue || t is SwapRedGreen || t is SwapBlueGreen
            || t is SwapAlphaRed || t is SwapAlphaGreen || t is SwapAlphaBlue,
    ensures
        transformed_buffer(t, transformed_buffer(t, s)) == s,
{
    let s1 = transformed_buffer(t, s);
    let s2 = transformed_buffer(t, s1);
    assert(s1.len() == s.len());
    assert forall|i: int| 0 <= i < s.len() implies s2[i] == s[i] by {
        let p = i / 4;
        assert(4 * p <= i < 4 * p + 4);
        assert(4 * p + 4 <= s.len());
        lemma_transformed_buffer_pixel(t, s, p);
        lemma_transformed_buffer_pixel(t, s1, p);
        let chunk = s.subrange(4 * p, 4 * p + 4);
        let chunk1 = s1.subrange(4 * p, 4 * p + 4);
        assert(chunk1 == transformed_pixel(t, chunk));
        assert(s2[i] == s2.subrange(4 * p, 4 * p + 4)[i - 4 * p]);
        assert(s2.subrange(4 * p, 4 * p + 4) == transformed_pixel(t, chunk1));
        assert(transformed_pixel(t, transformed_pixel(t, chunk))[i - 4 * p] == chunk[i - 4 * p]);
    }
    assert(s2 =~= s);
}

/// Law: applying `invert` twice restores every byte of the buffer.
pub proof fn lemma_invert_involutive(s: Seq<u8>)
    requires
        s.len() % 4 == 0,
    ensures
        transformed_buffer(Transform::Invert, transformed_buffer(Transform::Invert, s)) == s,
{
    lemma_twice_identity(Transform::Invert, s);
}

/// Law: `swapRedBlue` composed with itself is the identity on the buffer.
pub proof fn lemma_swap_red_blue_involutive(s: Seq<u8>)
    requires
        s.len() % 4 == 0,
    ensures
        transformed_buffer(Transform::SwapRedBlue, transformed_buffer(Transform::SwapRedBlue, s))
            == s,
{
    lemma_twice_identity(Transform::SwapRedBlue, s);
}

/// Law: every alpha byte of the buffer is untouched by every transform
/// outside the alpha-swap family.
pub proof fn lemma_alpha_preserved(t: Transform, s: Seq<u8>)
    requires
        s.len() % 4 == 0,
        !(t is SwapAlphaRed),
        !(t is SwapAlphaGreen),
        !(t is SwapAlphaBlue),
    ensures
        transformed_buffer(t, s).len() == s.len(),
        forall|i: int| 0 <= i < s.len() && i % 4 == 3 ==> transformed_buffer(t, s)[i] == s[i],
{
    assert forall|i: int| 0 <= i < s.len() && i % 4 == 3 implies transformed_buffer(t, s)[i]
        == s[i] by {
        let p = i / 4;
        assert(4 * p + 4 <= s.len());
        lemma_transformed_buffer_pixel(t, s, p);
        let chunk = s.subrange(4 * p, 4 * p + 4);
        assert(transformed_buffer(t, s)[i] == transformed_buffer(t, s).subrange(
            4 * p,
            4 * p + 4,
        )[i - 4 * p]);
        assert(transformed_pixel(t, chunk)[3] == chunk[3]);
    }
}

/// Law: a pixel whose three color channels already hold one common value is
/// left unchanged by `grayscale`.
pub proof fn lemma_grayscale_uniform_fixed(v: u8, a: u8)
    ensures
        transformed_rgba(Transform::Grayscale, v, v, v, a) == (v, v, v, a),
        transformed_pixel(Transform::Grayscale, seq![v, v, v, a]) == seq![v, v, v, a],
{
    assert(channel_average(v, v, v) == v);
    assert(transformed_pixel(Transform::Grayscale, seq![v, v, v, a]) =~= seq![v, v, v, a]);
}

/// Law: sepia's red and green outputs saturate at 255 independently, even
/// when the luminance approaches its maximum; at full luminance both
/// channels clamp to exactly 255.
pub proof fn lemma_sepia_clamped(r: u8, g: u8, b: u8, a: u8)
    ensures
        transformed_rgba(Transform::Sepia, r, g, b, a).0 <= 255,
        transformed_rgba(Transform::Sepia, r, g, b, a).1 <= 255,
        sepia_weight(r, g, b) + 100 >= 255 ==> transformed_rgba(Transform::Sepia, r, g, b, a).0
            == 255,
        sepia_weight(r, g, b) + 50 >= 255 ==> transformed_rgba(Transform::Sepia, r, g, b, a).1
            == 255,
        r == 255 && g == 255 && b == 255 ==> transformed_rgba(Transform::Sepia, r, g, b, a).0
            == 255 && transformed_rgba(Transform::Sepia, r, g, b, a).1 == 255,
{
}

} // verus!
