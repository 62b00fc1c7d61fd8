//! Splitting a signing-request payload into fixed-size frames for display
//! as a sequence of scannable codes: each frame is at most 400 bytes of the
//! payload, in order, encoded as base58 text. Rendering the frames is the
//! surrounding application's concern.

use vstd::prelude::*;

use crate::encoding::{base58_encode, base58_encoded};

verus! {

/// The greatest number of payload bytes carried by one frame.
pub const FRAME_BYTES: usize = 400;

/// How many frames a payload of the given length occupies.
pub open spec fn frame_count(len: nat) -> int {
    (len + (FRAME_BYTES as int) - 1) / (FRAME_BYTES as int)
}

/// The bytes of the `i`-th frame: the `i`-th 400-byte slice of the payload,
/// shortened at the end of the payload.
pub open spec fn frame_at(data: Seq<u8>, i: int) -> Seq<u8> {
    let start = (FRAME_BYTES as int) * i;
    let stop = (FRAME_BYTES as int) * (i + 1);
    data.subrange(start, if stop <= data.len() { stop } else { data.len() as int })
}

/// Splits a payload into its frames, in order.
pub fn frame_payload(data: &Vec<u8>) -> (frames: Vec<Vec<u8>>)
    ensures
        frames@.len() == frame_count(data@.len()),
        forall|i: int| 0 <= i < frames@.len() ==> (#[trigger] frames@[i])@ == frame_at(data@, i),
{
    let mut frames: Vec<Vec<u8>> = Vec::new();
    let mut pos: usize = 0;
    while pos < data.len()
        invariant
            pos <= data@.len(),
            pos == (FRAME_BYTES as int) * frames@.len() || (pos == data@.len() && frames@.len()
                == frame_count(data@.len())),
            forall|i: int| 0 <= i < frames@.len() ==> (#[trigger] frames@[i])@ == frame_at(
                data@,
                i,
            ),
        decreases data@.len() - pos,
    {
        let remaining = data.len() - pos;
        let take = if remaining < FRAME_BYTES {
            remaining
        } else {
            FRAME_BYTES
        };
        let mut chunk: Vec<u8> = Vec::new();
        let mut j: usize = 0;
        while j < take
            invariant
                j <= take,
                pos + take <= data@.len(),
                data@.len() <= usize::MAX,
                chunk@ == data@.subrange(pos as int, pos + j as int),
            decreases take - j,
        {
            chunk.push(data[pos + j]);
            assert(data@.subrange(pos as int, pos + (j + 1) as int) =~= data@.subrange(
                pos as int,
                pos + j as int,
            ).push(data@[pos + j as int]));
            j = j + 1;
        }
        assert(chunk@ =~= frame_at(data@, frames@.len() as int));
        frames.push(chunk);
        pos = pos + take;
    }
    frames
}

/// The frames of a payload as base58 text, in order: what a frame-by-frame
/// display shows.
pub fn frame_texts(data: &Vec<u8>) -> (texts: Vec<String>)
    ensures
        texts@.len() == frame_count(data@.len()),
        forall|i: int| 0 <= i < texts@.len() ==> (#[trigger] texts@[i])@ == base58_encoded(
            frame_at(data@, i),
        ),
{
    let frames = frame_payload(data);
    let mut texts: Vec<String> = Vec::new();
    let mut i: usize = 0;
    while i < frames.len()
        invariant
            i <= frames@.len(),
            texts@.len() == i,
            frames@.len() == frame_count(data@.len()),
            forall|k: int| 0 <= k < frames@.len() ==> (#[trigger] frames@[k])@ == frame_at(
                data@,
                k,
            ),
            forall|k: int| 0 <= k < i ==> (#[trigger] texts@[k])@ == base58_encoded(
                frame_at(data@, k),
            ),
        decreases frames@.len() - i,
    {
        let text = base58_encode(&frames[i]);
        texts.push(text);
        i = i + 1;
    }
    texts
}

} // verus!
