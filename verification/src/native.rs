//! The boundary to the native codec.
//!
//! Everything the adapter asks of the codec passes through the three
//! `external_body` functions here; their contracts state what the codec's
//! documentation and source promise, and nothing more. The bytes a transform
//! produces are named by the two uninterpreted functions [`deflate_of`] and
//! [`inflate_of`]: the codec is deterministic, so its output is a function of
//! the input bytes (and, for compression, the level) alone.

use vstd::prelude::*;

verus! {

/// The compressed representation the codec produces for `data` at `level`.
pub uninterp spec fn deflate_of(data: Seq<u8>, level: int) -> Seq<u8>;

/// What `data` decompresses to: `Some(d)` when the codec, given room enough,
/// accepts `data` and yields `d`; `None` when the codec rejects `data`.
pub uninterp spec fn inflate_of(data: Seq<u8>) -> Option<Seq<u8>>;

/// The codec's worst-case output capacity for an input of `len` bytes:
/// the input itself, one byte when the input is empty, one more for inputs
/// under nine bytes, an encoding overhead of one bit per byte rounded up,
/// three bytes of block overhead, and six bytes of stream wrapping.
pub open spec fn capacity_bound(len: nat) -> nat {
    len + (if len == 0 {
        1nat
    } else {
        0nat
    }) + (if len < 9 {
        1nat
    } else {
        0nat
    }) + (len + 7) / 8 + 9
}

/// Relies on `zlib_rs::compress_bound`: a pure function of the input length
/// computing exactly the sum stated by [`capacity_bound`] (its additions wrap,
/// which the bound on `len` rules out).
#[verifier::external_body]
pub(crate) fn bound(len: usize) -> (r: usize)
    requires
        len <= usize::MAX / 2,
    ensures
        r == capacity_bound(len as nat),
{
    zlib_rs::compress_bound(len)
}

/// Relies on `zlib_rs::compress_slice` (the codec's one-shot `compress2`):
/// it deflates `src` into the front of `dest`, reports how many bytes it
/// wrote, and returns status 0 on success. Its documentation promises that a
/// destination of `compress_bound` bytes never runs out of space, and its
/// source accepts exactly the levels -1 (default) and 0 through 9, so with a
/// valid level and a large enough destination only success (0) or the
/// codec's memory failure (-4) can come back. The codec also documents that
/// decompressing what it wrote recovers `src`, stated here over
/// [`inflate_of`], and the stream it writes always carries its two header
/// bytes and four checksum bytes, so a successful result is never shorter
/// than six bytes.
#[verifier::external_body]
pub(crate) fn compress_into(dest: &mut Vec<u8>, src: &[u8], level: i32) -> (r: (i32, usize))
    ensures
        final(dest)@.len() == old(dest)@.len(),
        r.0 == 0 ==> 6 <= r.1 <= final(dest)@.len()
            && final(dest)@.subrange(0, r.1 as int) == deflate_of(src@, level as int)
            && inflate_of(final(dest)@.subrange(0, r.1 as int)) == Some(src@),
        (level == -1 || 0 <= level <= 9) && old(dest)@.len() >= capacity_bound(src@.len())
            ==> r.0 == 0 || r.0 == -4,
{
    let config = zlib_rs::DeflateConfig::new(level);
    let (written, code) = zlib_rs::compress_slice(dest.as_mut_slice(), src, config);
    let n = written.len();
    (code as i32, n)
}

/// Relies on `zlib_rs::decompress_slice` (the codec's one-shot `uncompress`):
/// it inflates `src` into the front of `dest`, reports how many bytes it
/// wrote, and returns status 0 on success. Per its source, a valid stream
/// whose decompressed form fits the destination yields success (0) barring
/// the codec's memory failure (-4), and one that does not fit a nonempty
/// destination yields the buffer failure (-5). An empty destination is
/// special: the codec substitutes an internal one-byte buffer, so a
/// decompressed form of exactly one byte still reaches stream end and
/// returns success reporting zero bytes written, while a longer one is
/// reported as the data failure (-3). An invalid stream never yields
/// success — it is reported as a data failure, or as a buffer failure when
/// the destination fills up first, barring the memory failure.
#[verifier::external_body]
pub(crate) fn decompress_into(dest: &mut Vec<u8>, src: &[u8]) -> (r: (i32, usize))
    ensures
        final(dest)@.len() == old(dest)@.len(),
        r.1 <= final(dest)@.len(),
        r.0 == 0 && old(dest)@.len() > 0
            ==> inflate_of(src@) == Some(final(dest)@.subrange(0, r.1 as int)),
        r.0 == 0 && old(dest)@.len() == 0
            ==> r.1 == 0 && (inflate_of(src@) matches Some(d) && d.len() <= 1),
        inflate_of(src@) matches Some(d) ==> (d.len() <= old(dest)@.len()
            ==> (r.0 == 0 && r.1 == d.len()) || r.0 == -4),
        inflate_of(src@) matches Some(d) ==> (d.len() > old(dest)@.len() && old(dest)@.len() > 0
            ==> r.0 == -5 || r.0 == -4),
        inflate_of(src@) matches Some(d) ==> (d.len() > 1 && old(dest)@.len() == 0
            ==> r.0 == -3 || r.0 == -4),
        inflate_of(src@) matches Some(d) ==> (d.len() == 1 && old(dest)@.len() == 0
            ==> (r.0 == 0 && r.1 == 0) || r.0 == -4),
        inflate_of(src@) is None ==> r.0 == -3 || r.0 == -5 || r.0 == -4,
{
    let config = zlib_rs::InflateConfig::default();
    let (written, code) = zlib_rs::decompress_slice(dest.as_mut_slice(), src, config);
    let n = written.len();
    (code as i32, n)
}

} // verus!
