//! The frame checksum: `0xFF` minus the low byte of the sum of every byte
//! that follows the three-byte header.

use vstd::prelude::*;
use crate::error::Error;

verus! {

/// Number of bytes in front of the checksummed region: the start delimiter
/// and the 16-bit length.
pub const HEADER_LEN: usize = 3;

/// Smallest input `calc_checksum` accepts.
pub const MIN_CHECKSUM_INPUT: usize = 5;

/// Sum of all bytes of `s`, as a mathematical integer.
pub open spec fn byte_sum(s: Seq<u8>) -> nat
    decreases s.len(),
{
    if s.len() == 0 {
        0
    } else {
        byte_sum(s.drop_last()) + s.last() as nat
    }
}

/// The checksum of a frame given without its trailing checksum byte: the
/// header is skipped, the rest is summed modulo 256 and subtracted from 255.
pub open spec fn checksum_of(frame: Seq<u8>) -> u8 {
    (255 - byte_sum(frame.skip(3)) % 256) as u8
}

/// Whether the last byte of `frame` is the checksum of what precedes it.
pub open spec fn checksum_ok(frame: Seq<u8>) -> bool {
    frame.len() >= 1 && frame.last() == checksum_of(frame.drop_last())
}

/// Appending a byte adds it to the sum.
pub proof fn lemma_byte_sum_push(s: Seq<u8>, b: u8)
    ensures
        byte_sum(s.push(b)) == byte_sum(s) + b as nat,
{
    assert(s.push(b).drop_last() =~= s);
}

/// Replacing one byte moves the sum by the difference of the two values.
pub proof fn lemma_byte_sum_update(s: Seq<u8>, i: int, v: u8)
    requires
        0 <= i < s.len(),
    ensures
        byte_sum(s.update(i, v)) + s[i] as nat == byte_sum(s) + v as nat,
    decreases s.len(),
{
    if i == s.len() - 1 {
        assert(s.update(i, v).drop_last() =~= s.drop_last());
    } else {
        lemma_byte_sum_update(s.drop_last(), i, v);
        assert(s.update(i, v).drop_last() =~= s.drop_last().update(i, v));
    }
}

/// A frame sealed with its own checksum passes the check.
pub proof fn lemma_sealed_frame_checks(unsealed: Seq<u8>)
    ensures
        checksum_ok(unsealed.push(checksum_of(unsealed))),
{
    assert(unsealed.push(checksum_of(unsealed)).drop_last() =~= unsealed);
}

/// Changing any one byte behind the header of a frame that passes the check,
/// the checksum byte included, makes the check fail.
pub proof fn lemma_corruption_detected(frame: Seq<u8>, i: int, v: u8)
    requires
        checksum_ok(frame),
        3 <= i < frame.len(),
        v != frame[i],
    ensures
        !checksum_ok(frame.update(i, v)),
{
    let changed = frame.update(i, v);
    if i == frame.len() - 1 {
        assert(changed.drop_last() =~= frame.drop_last());
    } else {
        let summed = frame.drop_last().skip(3);
        lemma_byte_sum_update(summed, i - 3, v);
        assert(changed.drop_last().skip(3) =~= summed.update(i - 3, v));
    }
}

/// Computes the checksum of `frame`, which holds the header and the body but
/// not yet the checksum byte.
pub fn calc_checksum(frame: &[u8]) -> (r: Result<u8, Error>)
    ensures
        frame@.len() < 5 <==> r is Err,
        r matches Err(e) ==> e == Error::FrameTooShort,
        r matches Ok(c) ==> c == checksum_of(frame@),
{
    if frame.len() < MIN_CHECKSUM_INPUT {
        return Err(Error::FrameTooShort);
    }
    let mut sum: u64 = 0;
    let mut pos: usize = HEADER_LEN;
    while pos < frame.len()
        invariant
            3 <= pos <= frame@.len(),
            sum < 256,
            sum as nat == byte_sum(frame@.subrange(3, pos as int)) % 256,
        decreases frame@.len() - pos,
    {
        proof {
            lemma_byte_sum_push(frame@.subrange(3, pos as int), frame@[pos as int]);
            assert(frame@.subrange(3, pos as int).push(frame@[pos as int]) =~= frame@.subrange(
                3,
                pos + 1,
            ));
        }
        sum = (sum + frame[pos] as u64) % 256;
        pos = pos + 1;
    }
    Ok((255 - sum) as u8)
}

/// Checks the trailing checksum byte of a complete frame.
pub fn verify_checksum(frame: &[u8]) -> (r: Result<bool, Error>)
    ensures
        frame@.len() < 6 <==> r is Err,
        r matches Err(e) ==> e == Error::FrameTooShort,
        r matches Ok(ok) ==> ok == checksum_ok(frame@),
{
    if frame.len() < MIN_CHECKSUM_INPUT + 1 {
        return Err(Error::FrameTooShort);
    }
    let body = vstd::slice::slice_subrange(frame, 0, frame.len() - 1);
    let provided = frame[frame.len() - 1];
    match calc_checksum(body) {
        Ok(computed) => Ok(provided == computed),
        Err(e) => Err(e),
    }
}

} // verus!
