//! A safe adapter over a DEFLATE-family block codec.
//!
//! The adapter exposes two request/response operations, [`compress`] and
//! [`uncompress`]. It owns the buffer sizing, the trimming of the output to
//! the length the codec reports, and the translation of the codec's integer
//! status codes into the structured [`Error`] type. The transform itself is
//! performed by the native codec behind the [`native`] module's boundary.

use vstd::prelude::*;

pub mod native;

use crate::native::{capacity_bound, deflate_of, inflate_of};

verus! {

/// The closed set of failure outcomes of the adapter, each standing for one
/// of the native codec's nonzero status codes.
#[derive(Debug, Clone, Copy, PartialEq, Eq, Structural)]
pub enum Error {
    /// Internal inconsistency in the transform invocation itself.
    StreamError,
    /// The compressed input is corrupt, truncated, or otherwise invalid.
    DataError,
    /// The native layer could not allocate internal working memory.
    MemError,
    /// The destination buffer was too small for the result.
    BufError,
    /// Any other nonzero status code, preserved for diagnostics.
    UnknownError(i32),
}

/// The structured error that a native status code translates to.
pub open spec fn error_of_code(r: int) -> Error {
    if r == -2 {
        Error::StreamError
    } else if r == -3 {
        Error::DataError
    } else if r == -4 {
        Error::MemError
    } else if r == -5 {
        Error::BufError
    } else {
        Error::UnknownError(r as i32)
    }
}

/// Translates a native status code into the structured [`Error`].
pub fn convert_error(r: i32) -> (e: Error)
    ensures
        e == error_of_code(r as int),
{
    match r {
        -2 => Error::StreamError,
        -3 => Error::DataError,
        -4 => Error::MemError,
        -5 => Error::BufError,
        _ => Error::UnknownError(r),
    }
}

/// The level code handed to the codec: the caller's level, or the codec's
/// default-level sentinel when none was given.
pub open spec fn level_code(level: Option<i32>) -> int {
    match level {
        None => -1,
        Some(l) => l as int,
    }
}

/// A fresh scratch buffer of `n` zeroed bytes.
fn zeroed(n: usize) -> (v: Vec<u8>)
    ensures
        v@.len() == n,
        forall|i: int| 0 <= i < n ==> v@[i] == 0,
{
    let mut v: Vec<u8> = Vec::new();
    while v.len() < n
        invariant
            v@.len() <= n,
            forall|i: int| 0 <= i < v@.len() ==> v@[i] == 0,
        decreases n - v@.len(),
    {
        v.push(0);
    }
    v
}

/// Law: the capacity bound is sufficient — for every input length it covers
/// the input itself plus the codec's fixed overhead of eleven bytes, so an
/// output buffer of [`capacity_bound`] bytes is never smaller than the input
/// it must hold.
pub proof fn lemma_capacity_sufficient(len: nat)
    ensures
        capacity_bound(len) >= len + 11,
{
}

/// Asks the codec for the worst-case output capacity for an input of `len`
/// bytes; every compress call sizes its scratch buffer by this.
pub fn capacity_for(len: usize) -> (r: usize)
    requires
        len <= usize::MAX / 2,
    ensures
        r == capacity_bound(len as nat),
        r >= len + 11,
{
    let r = native::bound(len);
    proof {
        lemma_capacity_sufficient(len as nat);
    }
    r
}

/// Compresses `src` at the given level (`None` asks for the codec's default
/// behavior).
///
/// On success the result is exactly the codec's compressed representation of
/// `src` — a function of the input bytes and the level alone, so two calls
/// with the same arguments return byte-identical output — it decompresses
/// back to `src`, it holds at least the six bytes of stream wrapping, and it
/// never exceeds the capacity the adapter requested, [`capacity_bound`] of
/// the input length. The only failure left to the codec is running out of
/// working memory.
pub fn compress(src: &[u8], level: Option<i32>) -> (r: Result<Vec<u8>, Error>)
    requires
        level matches Some(l) ==> 0 <= l <= 9,
        src@.len() <= usize::MAX / 2,
    ensures
        r matches Ok(v) ==> v@ == deflate_of(src@, level_code(level))
            && inflate_of(v@) == Some(src@) && 6 <= v@.len() <= capacity_bound(src@.len()),
        r is Err ==> r == Err::<Vec<u8>, Error>(Error::MemError),
{
    let lvl: i32 = match level {
        None => -1,
        Some(l) => l,
    };
    let cap = capacity_for(src.len());
    let mut dest = zeroed(cap);
    let (code, written) = native::compress_into(&mut dest, src, lvl);
    if code == 0 {
        dest.truncate(written);
        Ok(dest)
    } else {
        Err(convert_error(code))
    }
}

/// Decompresses `src` into a buffer of `destlen` bytes, trimmed to the
/// length the codec reports.
///
/// On success with a nonzero `destlen` the result is exactly what `src` is
/// the compressed representation of. When `src` is a valid stream whose
/// decompressed form fits in `destlen` bytes, the call succeeds unless the
/// codec runs out of working memory; when the decompressed form does not fit
/// in a nonzero `destlen`, the call fails with [`Error::BufError`]. A zero
/// `destlen` follows the codec's own convention: a decompressed form of
/// exactly one byte still succeeds with an empty result, a longer one fails
/// with [`Error::DataError`]. When `src` is not a valid stream, the call
/// always fails — with [`Error::DataError`], unless the destination filled
/// up before the codec reached the flaw.
pub fn uncompress(src: &[u8], destlen: usize) -> (r: Result<Vec<u8>, Error>)
    ensures
        r matches Ok(v) ==> v@.len() <= destlen,
        destlen > 0 ==> (r matches Ok(v) ==> inflate_of(src@) == Some(v@)),
        destlen == 0 && r is Ok ==> (inflate_of(src@) matches Some(d) && d.len() <= 1),
        inflate_of(src@) matches Some(d) ==> (d.len() <= destlen
            ==> (r matches Ok(v) && v@ == d) || r == Err::<Vec<u8>, Error>(Error::MemError)),
        inflate_of(src@) matches Some(d) ==> (d.len() > destlen && destlen > 0
            ==> r == Err::<Vec<u8>, Error>(Error::BufError)
                || r == Err::<Vec<u8>, Error>(Error::MemError)),
        inflate_of(src@) matches Some(d) ==> (d.len() > 1 && destlen == 0
            ==> r == Err::<Vec<u8>, Error>(Error::DataError)
                || r == Err::<Vec<u8>, Error>(Error::MemError)),
        inflate_of(src@) matches Some(d) ==> (d.len() == 1 && destlen == 0
            ==> (r matches Ok(v) && v@.len() == 0)
                || r == Err::<Vec<u8>, Error>(Error::MemError)),
        inflate_of(src@) is None ==> r == Err::<Vec<u8>, Error>(Error::DataError)
            || r == Err::<Vec<u8>, Error>(Error::BufError)
            || r == Err::<Vec<u8>, Error>(Error::MemError),
{
    let mut dest = zeroed(destlen);
    let (code, written) = native::decompress_into(&mut dest, src);
    if code == 0 {
        dest.truncate(written);
        proof {
            if dest@.len() == 0 {
                assert forall|d: Seq<u8>| d.len() == 0 implies d == dest@ by {
                    assert(d =~= dest@);
                }
            }
        }
        Ok(dest)
    } else {
        Err(convert_error(code))
    }
}

} // verus!
