//! An owned byte buffer that is rewritten in place, chunk by chunk and in
//! parallel, by the substitution rule.

use rayon::prelude::{IntoParallelRefMutIterator, ParallelIterator};
use rayon::slice::ParallelSliceMut;
use vstd::prelude::*;
use vstd::utf8::{decode_utf8, valid_utf8};

use crate::substitution::{substitute_in_place, substituted};

verus! {

/// Length of the chunks that are handed out to the worker pool.
pub const CHUNK_SIZE: usize = 8196;

/// Length of the part of an `n`-byte buffer that lies in no full chunk.
/// Full chunks are counted from the end, so this part is the buffer's head.
pub open spec fn remainder_len(n: nat) -> nat {
    n % (CHUNK_SIZE as nat)
}

/// The remainder and the full chunks partition a buffer of any length: the
/// remainder is shorter than a chunk, and with the `n / CHUNK_SIZE` full
/// chunks it covers the buffer exactly.
pub proof fn lemma_chunks_partition(n: nat)
    ensures
        remainder_len(n) < CHUNK_SIZE,
        remainder_len(n) + (n / (CHUNK_SIZE as nat)) * CHUNK_SIZE == n,
{
    vstd::arithmetic::div_mod::lemma_fundamental_div_mod(n as int, CHUNK_SIZE as int);
}

/// Why the buffer could not be handed out.
#[derive(Debug, PartialEq, Eq, Structural)]
pub enum ChunkerError {
    /// The bytes are not valid UTF-8, so they cannot be shown as text.
    InvalidUtf8,
}

/// A byte buffer loaded once and then rewritten in place.
#[derive(Debug)]
pub struct Chunker {
    contents: Vec<u8>,
}

impl View for Chunker {
    type V = Seq<u8>;

    closed spec fn view(&self) -> Seq<u8> {
        self.contents@
    }
}

/// Relies on rayon's `par_iter_mut` and `ParallelIterator::for_each`: the
/// operation is run exactly once on each element of the slice, and the call
/// returns once every run is done.
#[verifier::external_body]
fn par_substitute_each(chunk: &mut [u8])
    ensures
        final(chunk)@ == substituted(old(chunk)@),
{
    chunk.par_iter_mut().for_each(substitute_in_place);
}

/// Relies on rayon's `par_rchunks_exact_mut` and `ParallelIterator::for_each`:
/// the slice's last `len - len % CHUNK_SIZE` elements are cut, from the end,
/// into disjoint chunks of exactly `CHUNK_SIZE` elements; the operation is run
/// once on each chunk; the first `len % CHUNK_SIZE` elements are in no chunk
/// and are left alone.
#[verifier::external_body]
fn par_substitute_full_chunks(contents: &mut Vec<u8>)
    ensures
        final(contents)@ == old(contents)@.subrange(0, remainder_len(old(contents)@.len()) as int)
            + substituted(
            old(contents)@.subrange(
                remainder_len(old(contents)@.len()) as int,
                old(contents)@.len() as int,
            ),
        ),
{
    contents.par_rchunks_exact_mut(CHUNK_SIZE).for_each(substitute_chunk);
}

/// Relies on rayon's `RChunksExactMut::take_remainder`: it hands out the
/// elements that no chunk of exactly `CHUNK_SIZE` covers, which, for chunks
/// counted from the end, are the first `len % CHUNK_SIZE` elements.
#[verifier::external_body]
fn rchunks_remainder(contents: &mut Vec<u8>) -> (rem: &mut [u8])
    ensures
        rem@ == old(contents)@.subrange(0, remainder_len(old(contents)@.len()) as int),
        final(contents)@ == final(rem)@ + old(contents)@.subrange(
            remainder_len(old(contents)@.len()) as int,
            old(contents)@.len() as int,
        ),
{
    contents.par_rchunks_exact_mut(CHUNK_SIZE).take_remainder()
}

/// Relies on `std::str::from_utf8`: it succeeds exactly on valid UTF-8, and
/// then the text is what the bytes encode.
#[verifier::external_body]
fn utf8_text(bytes: &[u8]) -> (r: Option<&str>)
    ensures
        r is Some <==> valid_utf8(bytes@),
        r matches Some(s) ==> s@ == decode_utf8(bytes@),
{
    std::str::from_utf8(bytes).ok()
}

/// Rewrites every byte of one chunk by the substitution rule, the bytes in
/// parallel.
pub fn substitute_chunk(chunk: &mut [u8])
    ensures
        final(chunk)@ == substituted(old(chunk)@),
{
    par_substitute_each(chunk);
}

impl Chunker {
    /// A buffer holding exactly the given bytes.
    pub fn from_bytes(contents: Vec<u8>) -> (r: Chunker)
        ensures
            r@ == contents@,
    {
        Chunker { contents }
    }

    /// The bytes currently held.
    pub fn contents(&self) -> (r: &Vec<u8>)
        ensures
            r@ == self@,
    {
        &self.contents
    }

    /// Rewrites every `;` of the buffer to `:` and leaves every other byte as
    /// it is. The full chunks are processed in parallel first, then the
    /// remainder. This never fails.
    pub fn process(&mut self) -> (r: Result<(), ChunkerError>)
        ensures
            r is Ok,
            final(self)@ == substituted(old(self)@),
    {
        par_substitute_full_chunks(&mut self.contents);
        let rem = rchunks_remainder(&mut self.contents);
        substitute_chunk(rem);
        proof {
            assert(self.contents@ =~= substituted(old(self).contents@));
        }
        Ok(())
    }

    /// The buffer read as UTF-8 text; an error where the bytes are not valid
    /// UTF-8.
    pub fn output(&self) -> (r: Result<&str, ChunkerError>)
        ensures
            r is Ok <==> valid_utf8(self@),
            r matches Ok(s) ==> s@ == decode_utf8(self@),
            r matches Err(e) ==> e == ChunkerError::InvalidUtf8,
    {
        match utf8_text(self.contents.as_slice()) {
            Some(s) => Ok(s),
            None => Err(ChunkerError::InvalidUtf8),
        }
    }
}

} // verus!
