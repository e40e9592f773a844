//! Cutting a run of samples into chunks of one length, the last of which is
//! filled up with zeros.

use vstd::prelude::*;
use vstd::slice::{slice_subrange, slice_to_vec};

verus! {

/// The number of chunks of `chunk_size` samples that `input_size` samples
/// are cut into, the last of which may be partly filled.
pub open spec fn chunk_count(input_size: nat, chunk_size: nat) -> nat {
    if input_size % chunk_size == 0 {
        input_size / chunk_size
    } else {
        input_size / chunk_size + 1
    }
}

/// Chunk `k` of `input`: the `chunk_size` samples from `k * chunk_size` on,
/// with zeros where the input has ended.
pub open spec fn padded_chunk(input: Seq<i16>, chunk_size: nat, k: nat) -> Seq<i16> {
    Seq::new(
        chunk_size,
        |j: int|
            if k * chunk_size + j < input.len() {
                input[k * chunk_size + j]
            } else {
                0i16
            },
    )
}

/// An input of more than one chunk and at most two is cut into two chunks.
/// The second holds what the first left of the input, then zeros up to the
/// length of a chunk.
pub proof fn lemma_two_chunks(input: Seq<i16>, chunk_size: nat)
    requires
        chunk_size < input.len() <= 2 * chunk_size,
    ensures
        chunk_count(input.len(), chunk_size) == 2,
        padded_chunk(input, chunk_size, 0) == input.take(chunk_size as int),
        padded_chunk(input, chunk_size, 1) == input.skip(chunk_size as int) + Seq::new(
            (2 * chunk_size - input.len()) as nat,
            |j: int| 0i16,
        ),
{
    let n = input.len();
    vstd::arithmetic::div_mod::lemma_fundamental_div_mod(n as int, chunk_size as int);
    let q = n / chunk_size;
    assert(q == 1 || (q == 2 && n % chunk_size == 0)) by (nonlinear_arith)
        requires
            n == chunk_size * q + n % chunk_size,
            0 <= n % chunk_size < chunk_size,
            chunk_size < n <= 2 * chunk_size,
    ;
    assert(q == 1 ==> n % chunk_size != 0) by (nonlinear_arith)
        requires
            n == chunk_size * q + n % chunk_size,
            chunk_size < n,
    ;
}

/// Every chunk has the full length, and the chunks hold the input in order:
/// sample `j` of chunk `k` is sample `k * chunk_size + j` of the input as
/// long as the input reaches that far, and zero after it.
pub proof fn lemma_chunks_cover_input(input: Seq<i16>, chunk_size: nat, k: nat, j: int)
    requires
        0 <= j < chunk_size,
    ensures
        padded_chunk(input, chunk_size, k).len() == chunk_size,
        k * chunk_size + j < input.len() ==> padded_chunk(input, chunk_size, k)[j] == input[k
            * chunk_size + j],
        k * chunk_size + j >= input.len() ==> padded_chunk(input, chunk_size, k)[j] == 0,
{
}

/// The chunks before the last are full: chunk `k` of an input starts within
/// the input.
proof fn lemma_chunk_starts_inside(input_size: nat, chunk_size: nat, k: nat)
    requires
        chunk_size > 0,
        k < chunk_count(input_size, chunk_size),
    ensures
        k * chunk_size < input_size,
{
    let q = input_size / chunk_size;
    vstd::arithmetic::div_mod::lemma_fundamental_div_mod(input_size as int, chunk_size as int);
    assert(k * chunk_size <= q * chunk_size - if input_size % chunk_size == 0 {
        chunk_size
    } else {
        0
    }) by (nonlinear_arith)
        requires
            chunk_size > 0,
            k < if input_size % chunk_size == 0 {
                q
            } else {
                q + 1
            },
    ;
    assert(q * chunk_size == chunk_size * q) by (nonlinear_arith);
}

/// The number of chunks of `input_size` samples.
pub(crate) fn count_chunks(input_size: usize, chunk_size: usize) -> (n: usize)
    requires
        chunk_size > 0,
    ensures
        n == chunk_count(input_size as nat, chunk_size as nat),
{
    let whole = input_size / chunk_size;
    if input_size % chunk_size == 0 {
        whole
    } else {
        assert(whole < usize::MAX) by {
            assert(whole <= input_size / 1) by {
                vstd::arithmetic::div_mod::lemma_div_is_ordered_by_denominator(
                    input_size as int,
                    1,
                    chunk_size as int,
                );
            }
            if whole == input_size {
                vstd::arithmetic::div_mod::lemma_fundamental_div_mod(
                    input_size as int,
                    chunk_size as int,
                );
                assert(chunk_size * whole >= whole) by (nonlinear_arith)
                    requires
                        chunk_size >= 1,
                        whole >= 0,
                ;
            }
        }
        whole + 1
    }
}

/// Chunk `k` of the first `input_size` samples of `input`, filled up with
/// zeros.
pub(crate) fn padded(input: &[i16], input_size: usize, chunk_size: usize, k: usize) -> (chunk: Vec<
    i16,
>)
    requires
        input_size <= input@.len(),
        chunk_size > 0,
        k < chunk_count(input_size as nat, chunk_size as nat),
    ensures
        chunk@ == padded_chunk(input@.take(input_size as int), chunk_size as nat, k as nat),
{
    proof {
        lemma_chunk_starts_inside(input_size as nat, chunk_size as nat, k as nat);
    }
    let start = k * chunk_size;
    let left = input_size - start;
    let len = if left < chunk_size {
        left
    } else {
        chunk_size
    };
    let mut chunk = slice_to_vec(slice_subrange(input, start, start + len));
    let ghost copied = chunk@;
    chunk.resize(chunk_size, 0);
    proof {
        let wanted = padded_chunk(input@.take(input_size as int), chunk_size as nat, k as nat);
        assert forall|j: int| 0 <= j < len implies chunk@[j] == wanted[j] by {
            assert(copied[j] == input@[start + j]);
        }
    }
    chunk
}

} // verus!
