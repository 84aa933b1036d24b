//! The gzip compressor that a chunk's bytes stream into.

use vstd::prelude::*;
use std::io::Write;
use flate2::write::GzEncoder;

verus! {

/// A gzip compressor writing into memory. Verus refuses the declaration of
/// flate2's generic encoder, so it is held here out of Verus's sight and seen
/// through `gz_input` and `gz_stream`.
#[verifier::external_body]
pub struct GzSink {
    enc: GzEncoder<Vec<u8>>,
}

/// The bytes that have been handed to the compressor so far, before compression.
pub uninterp spec fn gz_input(e: GzSink) -> Seq<u8>;

/// The finished gzip stream that the compressor in state `e` produces.
pub uninterp spec fn gz_stream(e: GzSink) -> Seq<u8>;

/// Relies on flate2::write::GzEncoder::new: a compressor over an empty buffer,
/// with nothing written to it yet.
#[verifier::external_body]
pub(crate) fn gz_open() -> (r: GzSink)
    ensures
        gz_input(r) == Seq::<u8>::empty(),
{
    GzSink { enc: GzEncoder::new(Vec::new(), flate2::Compression::default()) }
}

/// Relies on Write::write_all of flate2::write::GzEncoder: every byte of `b` is
/// taken into the compressed stream, after what was there. The output goes into
/// a `Vec<u8>`, whose writes never fail, and the compressor fails only on misuse,
/// so the call succeeds.
#[verifier::external_body]
pub(crate) fn gz_write(e: &mut GzSink, b: &[u8]) -> (r: Result<(), std::io::Error>)
    ensures
        r is Ok,
        gz_input(*final(e)) == gz_input(*old(e)) + b@,
{
    e.enc.write_all(b)
}

/// Relies on flate2::write::GzEncoder::finish: writes the trailer and hands back
/// the buffer, which then holds the whole gzip stream; writing into a `Vec<u8>`,
/// it succeeds.
#[verifier::external_body]
pub(crate) fn gz_finish(e: GzSink) -> (r: Result<Vec<u8>, std::io::Error>)
    ensures
        r is Ok,
        r->Ok_0@ == gz_stream(e),
{
    e.enc.finish()
}

} // verus!
