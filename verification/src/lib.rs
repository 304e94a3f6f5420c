//! Per-pixel RGBA color transforms over a flat byte buffer: a catalog of
//! stateless transforms, typed pixel accessors, and a chunk dispatcher with
//! interchangeable sequential and data-parallel strategies.

use vstd::prelude::*;

pub mod color;
pub mod dispatch;
pub mod laws;
pub mod transform;

use crate::dispatch::{dispatch, transformed_buffer};
use crate::transform::Transform;

verus! {

/// An owned RGBA pixel buffer, 4 bytes per pixel, mutated in place by the
/// transform operations below.
pub struct ImageWasm {
    raw_pixels: Vec<u8>,
}

impl View for ImageWasm {
    type V = Seq<u8>;

    closed spec fn view(&self) -> Seq<u8> {
        self.raw_pixels@
    }
}

impl ImageWasm {
    /// A pixel buffer is well formed when it holds whole 4-byte pixels.
    pub open spec fn wf(&self) -> bool {
        self@.len() % 4 == 0
    }
}

/// Takes ownership of a flat RGBA byte buffer obtained from an image-data
/// source.
pub fn open_image(raw_pixels: Vec<u8>) -> (img: ImageWasm)
    ensures
        img@ == raw_pixels@,
{
    ImageWasm { raw_pixels }
}

/// Whether the buffer divides into whole 4-byte pixels: the condition under
/// which the transform operations are callable.
pub fn is_well_formed(img: &ImageWasm) -> (b: bool)
    ensures
        b == img.wf(),
{
    img.raw_pixels.len() % 4 == 0
}

/// Hands out a copy of the current buffer contents, in the same RGBA layout.
pub fn get_raw_image_data(img: &ImageWasm) -> (raw: Vec<u8>)
    ensures
        raw@ == img@,
{
    img.raw_pixels.clone()
}

/// Applies one transform from the catalog to every pixel of the image.
fn run_transform(img: &mut ImageWasm, t: Transform)
    requires
        old(img).wf(),
    ensures
        final(img).wf(),
        final(img)@ == transformed_buffer(t, old(img)@),
{
    let _res = dispatch(&mut img.raw_pixels, t);
}

pub fn grayscale(img: &mut ImageWasm)
    requires
        old(img).wf(),
    ensures
        final(img).wf(),
        final(img)@ == transformed_buffer(Transform::Grayscale, old(img)@),
{
    run_transform(img, Transform::Grayscale)
}

pub fn remove_red(img: &mut ImageWasm)
    requires
        old(img).wf(),
    ensures
        final(img).wf(),
        final(img)@ == transformed_buffer(Transform::RemoveRed, old(img)@),
{
    run_transform(img, Transform::RemoveRed)
}

pub fn remove_green(img: &mut ImageWasm)
    requires
        old(img).wf(),
    ensures
        final(img).wf(),
        final(img)@ == transformed_buffer(Transform::RemoveGreen, old(img)@),
{
    run_transform(img, Transform::RemoveGreen)
}

pub fn remove_blue(img: &mut ImageWasm)
    requires
        old(img).wf(),
    ensures
        final(img).wf(),
        final(img)@ == transformed_buffer(Transform::RemoveBlue, old(img)@),
{
    run_transform(img, Transform::RemoveBlue)
}

pub fn swap_red_blue(img: &mut ImageWasm)
    requires
        old(img).wf(),
    ensures
        final(img).wf(),
        final(img)@ == transformed_buffer(Transform::SwapRedBlue, old(img)@),
{
    run_transform(img, Transform::SwapRedBlue)
}

pub fn swap_red_green(img: &mut ImageWasm)
    requires
        old(img).wf(),
    ensures
        final(img).wf(),
        final(img)@ == transformed_buffer(Transform::SwapRedGreen, old(img)@),
{
    run_transform(img, Transform::SwapRedGreen)
}

pub fn swap_blue_green(img: &mut ImageWasm)
    requires
        old(img).wf(),
    ensures
        final(img).wf(),
        final(img)@ == transformed_buffer(Transform::SwapBlueGreen, old(img)@),
{
    run_transform(img, Transform::SwapBlueGreen)
}

pub fn swap_alpha_red(img: &mut ImageWasm)
    requires
        old(img).wf(),
    ensures
        final(img).wf(),
        final(img)@ == transformed_buffer(Transform::SwapAlphaRed, old(img)@),
{
    run_transform(img, Transform::SwapAlphaRed)
}

pub fn swap_alpha_green(img: &mut ImageWasm)
    requires
        old(img).wf(),
    ensures
        final(img).wf(),
        final(img)@ == transformed_buffer(Transform::SwapAlphaGreen, old(img)@),
{
    run_transform(img, Transform::SwapAlphaGreen)
}

pub fn swap_alpha_blue(img: &mut ImageWasm)
    requires
        old(img).wf(),
    ensures
        final(img).wf(),
        final(img)@ == transformed_buffer(Transform::SwapAlphaBlue, old(img)@),
{
    run_transform(img, Transform::SwapAlphaBlue)
}

pub fn sepia(img: &mut ImageWasm)
    requires
        old(img).wf(),
    ensures
        final(img).wf(),
        final(img)@ == transformed_buffer(Transform::Sepia, old(img)@),
{
    run_transform(img, Transform::Sepia)
}

pub fn invert(img: &mut ImageWasm)
    requires
        old(img).wf(),
    ensures
        final(img).wf(),
        final(img)@ == transformed_buffer(Transform::Invert, old(img)@),
{
    run_transform(img, Transform::Invert)
}

pub fn redden(img: &mut ImageWasm)
    requires
        old(img).wf(),
    ensures
        final(img).wf(),
        final(img)@ == transformed_buffer(Transform::Redden, old(img)@),
{
    run_transform(img, Transform::Redden)
}

pub fn neue(img: &mut ImageWasm)
    requires
        old(img).wf(),
    ensures
        final(img).wf(),
        final(img)@ == transformed_buffer(Transform::Neue, old(img)@),
{
    run_transform(img, Transform::Neue)
}

pub fn lix(img: &mut ImageWasm)
    requires
        old(img).wf(),
    ensures
        final(img).wf(),
        final(img)@ == transformed_buffer(Transform::Lix, old(img)@),
{
    run_transform(img, Transform::Lix)
}

pub fn ryo(img: &mut ImageWasm)
    requires
        old(img).wf(),
    ensures
        final(img).wf(),
        final(img)@ == transformed_buffer(Transform::Ryo, old(img)@),
{
    run_transform(img, Transform::Ryo)
}

pub fn red_grayscale(img: &mut ImageWasm)
    requires
        old(img).wf(),
    ensures
        final(img).wf(),
        final(img)@ == transformed_buffer(Transform::RedGrayscale, old(img)@),
{
    run_transform(img, Transform::RedGrayscale)
}

pub fn green_grayscale(img: &mut ImageWasm)
    requires
        old(img).wf(),
    ensures
        final(img).wf(),
        final(img)@ == transformed_buffer(Transform::GreenGrayscale, old(img)@),
{
    run_transform(img, Transform::GreenGrayscale)
}

pub fn blue_grayscale(img: &mut ImageWasm)
    requires
        old(img).wf(),
    ensures
        final(img).wf(),
        final(img)@ == transformed_buffer(Transform::BlueGrayscale, old(img)@),
{
    run_transform(img, Transform::BlueGrayscale)
}

} // verus!
