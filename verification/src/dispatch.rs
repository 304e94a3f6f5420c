//! Splits the flat pixel buffer into non-overlapping 4-byte chunks and
//! applies one transform to every chunk, either sequentially or across a
//! worker pool. Both strategies leave the buffer equal to
//! `transformed_buffer` of its old contents, so they are observably
//! interchangeable.

use vstd::prelude::*;

use crate::transform::{apply_pixel, transform_rgba, transformed_pixel, Transform};
use rayon::iter::ParallelIterator;
use rayon::slice::ParallelSliceMut;

verus! {

/// Number of bytes per pixel chunk.
pub const PIXEL_SIZE: usize = 4;

/// A dispatch is rejected, before any mutation, when the buffer does not
/// divide into whole 4-byte pixels.
#[derive(Clone, Copy, PartialEq, Eq, Structural, Debug)]
pub enum DispatchError {
    MalformedBufferLength,
}

/// What one dispatch does to the whole buffer: every aligned 4-byte window
/// is replaced by the transformed pixel, and the length is unchanged.
pub open spec fn transformed_buffer(t: Transform, s: Seq<u8>) -> Seq<u8> {
    Seq::new(
        s.len(),
        |i: int| transformed_pixel(t, s.subrange(4 * (i / 4), 4 * (i / 4) + 4))[i % 4],
    )
}

/// Every aligned 4-byte window of the transformed buffer equals the
/// transformed pixel of the matching window of the source buffer.
pub proof fn lemma_transformed_buffer_pixel(t: Transform, s: Seq<u8>, p: int)
    requires
        0 <= p,
        4 * p + 4 <= s.len(),
    ensures
        transformed_buffer(t, s).subrange(4 * p, 4 * p + 4) == transformed_pixel(
            t,
            s.subrange(4 * p, 4 * p + 4),
        ),
{
    let chunk = s.subrange(4 * p, 4 * p + 4);
    assert forall|k: int| 0 <= k < 4 implies transformed_buffer(t, s)[4 * p + k]
        == transformed_pixel(t, chunk)[k] by {
        assert((4 * p + k) / 4 == p);
        assert((4 * p + k) % 4 == k);
        assert(s.subrange(4 * (p as int), 4 * (p as int) + 4) == chunk);
    }
    assert(transformed_buffer(t, s).subrange(4 * p, 4 * p + 4) =~= transformed_pixel(t, chunk));
}

/// Iterates the chunks in ascending buffer order, applying the transform to
/// each before moving to the next.
#[verifier::rlimit(50)]
fn apply_sequential(buf: &mut Vec<u8>, t: Transform)
    requires
        old(buf)@.len() % 4 == 0,
    ensures
        final(buf)@ == transformed_buffer(t, old(buf)@),
{
    let ghost orig = buf@;
    let n = buf.len();
    let mut i: usize = 0;
    while i < n
        invariant
            buf@.len() == n,
            n == orig.len(),
            n % 4 == 0,
            i % 4 == 0,
            i <= n,
            forall|j: int| 0 <= j < i ==> buf@[j] == transformed_buffer(t, orig)[j],
            forall|j: int| i <= j < n ==> buf@[j] == orig[j],
        decreases n - i,
    {
        proof {
            assert(i + 4 <= n);
        }
        let r = buf[i];
        let g = buf[i + 1];
        let b = buf[i + 2];
        let a = buf[i + 3];
        let (new_r, new_g, new_b, new_a) = transform_rgba(t, r, g, b, a);
        buf[i] = new_r;
        buf[i + 1] = new_g;
        buf[i + 2] = new_b;
        buf[i + 3] = new_a;
        proof {
            let p = i as int / 4;
            lemma_transformed_buffer_pixel(t, orig, p);
            assert(orig.subrange(4 * p, 4 * p + 4) =~= seq![r, g, b, a]);
            assert forall|k: int| 0 <= k < 4 implies #[trigger] buf@[i + k] == transformed_buffer(
                t,
                orig,
            )[i + k] by {
                assert(transformed_buffer(t, orig)[4 * p + k] == transformed_buffer(t, orig)
                    .subrange(4 * p, 4 * p + 4)[k]);
                assert(transformed_pixel(t, seq![r, g, b, a])[k] == seq![
                    new_r,
                    new_g,
                    new_b,
                    new_a,
                ][k]);
            }
        }
        i = i + 4;
    }
    assert(buf@ =~= transformed_buffer(t, orig));
}

/// Relies on rayon's `par_chunks_mut` and `ParallelIterator::for_each`: the
/// buffer is split into disjoint, consecutive chunks of exactly 4 bytes
/// (the length is a multiple of 4), and the closure runs exactly once on
/// each chunk. The closure only calls the verified `apply_pixel`, whose
/// contract gives each chunk its transformed value; chunks are disjoint, so
/// the assignment order cannot be observed.
#[verifier::external_body]
fn par_apply(buf: &mut Vec<u8>, t: Transform)
    requires
        old(buf)@.len() % 4 == 0,
    ensures
        final(buf)@ == transformed_buffer(t, old(buf)@),
{
    buf.par_chunks_mut(PIXEL_SIZE).for_each(|raw_pixel| apply_pixel(raw_pixel, t));
}

/// Relies on rayon's `ThreadPoolBuilder::build` and `ThreadPool::install`:
/// the same chunked iteration as `par_apply`, run inside a worker pool of
/// the requested size (0 asks for the default size). Building the pool can
/// fail; then the buffer is untouched and `false` comes back.
#[verifier::external_body]
fn par_apply_with_pool(buf: &mut Vec<u8>, t: Transform, workers: usize) -> (ok: bool)
    requires
        old(buf)@.len() % 4 == 0,
    ensures
        ok ==> final(buf)@ == transformed_buffer(t, old(buf)@),
        !ok ==> final(buf)@ == old(buf)@,
{
    match rayon::ThreadPoolBuilder::new().num_threads(workers).build() {
        Ok(pool) => {
            pool.install(
                || buf.par_chunks_mut(PIXEL_SIZE).for_each(|raw_pixel| apply_pixel(raw_pixel, t)),
            );
            true
        },
        Err(_) => false,
    }
}

/// Sequential dispatch: applies one transform to every 4-byte pixel of the
/// buffer, in place and in ascending order. A buffer whose length is not a
/// multiple of 4 is rejected before any mutation.
pub fn dispatch(buf: &mut Vec<u8>, t: Transform) -> (res: Result<(), DispatchError>)
    ensures
        res is Ok <==> old(buf)@.len() % 4 == 0,
        res is Ok ==> final(buf)@ == transformed_buffer(t, old(buf)@),
        res is Err ==> final(buf)@ == old(buf)@ && res == Err::<(), DispatchError>(
            DispatchError::MalformedBufferLength,
        ),
{
    if buf.len() % PIXEL_SIZE != 0 {
        return Err(DispatchError::MalformedBufferLength);
    }
    apply_sequential(buf, t);
    Ok(())
}

/// Data-parallel dispatch over the default worker pool. The contract is the
/// same as `dispatch`'s: for every input and transform the two strategies
/// leave byte-identical buffers.
pub fn dispatch_parallel(buf: &mut Vec<u8>, t: Transform) -> (res: Result<(), DispatchError>)
    ensures
        res is Ok <==> old(buf)@.len() % 4 == 0,
        res is Ok ==> final(buf)@ == transformed_buffer(t, old(buf)@),
        res is Err ==> final(buf)@ == old(buf)@ && res == Err::<(), DispatchError>(
            DispatchError::MalformedBufferLength,
        ),
{
    if buf.len() % PIXEL_SIZE != 0 {
        return Err(DispatchError::MalformedBufferLength);
    }
    par_apply(buf, t);
    Ok(())
}

/// Data-parallel dispatch over a worker pool of the given size (0 asks for
/// the default size). When the pool cannot be built, the chunks are applied
/// sequentially instead; the result is byte-identical either way.
pub fn dispatch_parallel_with_workers(buf: &mut Vec<u8>, t: Transform, workers: usize) -> (res:
    Result<(), DispatchError>)
    ensures
        res is Ok <==> old(buf)@.len() % 4 == 0,
        res is Ok ==> final(buf)@ == transformed_buffer(t, old(buf)@),
        res is Err ==> final(buf)@ == old(buf)@ && res == Err::<(), DispatchError>(
            DispatchError::MalformedBufferLength,
        ),
{
    if buf.len() % PIXEL_SIZE != 0 {
        return Err(DispatchError::MalformedBufferLength);
    }
    let ok = par_apply_with_pool(buf, t, workers);
    if !ok {
        apply_sequential(buf, t);
    }
    Ok(())
}

} // verus!
