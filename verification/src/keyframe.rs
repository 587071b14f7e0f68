//! Keyframe detection on RTP payloads.

use crate::track_def::Codec;
use vstd::prelude::*;

verus! {

/// Whether any bit of `mask` is set in `b`.
pub open spec fn has_bit(b: u8, mask: u8) -> bool {
    b & mask != 0
}

/// Length of the VP8 payload descriptor that opens the payload, or `None`
/// where the payload ends inside it.
///
/// The first byte is `X R N S R PID`. With `X` set a second byte `I L T K`
/// follows; `I` announces a picture id of one byte, or of two where its own
/// high bit is set; `L` one more byte; `T` or `K` one more byte.
pub open spec fn vp8_descriptor_len(p: Seq<u8>) -> Option<int> {
    if p.len() < 1 {
        None
    } else if !has_bit(p[0], 0x80) {
        Some(1)
    } else if p.len() < 2 {
        None
    } else {
        let i = has_bit(p[1], 0x80);
        let l = has_bit(p[1], 0x40);
        let tk = has_bit(p[1], 0x20) || has_bit(p[1], 0x10);
        if i && p.len() < 3 {
            None
        } else {
            let picture_id: int = if !i {
                0
            } else if has_bit(p[2], 0x80) {
                2
            } else {
                1
            };
            Some(2 + picture_id + (if l { 1int } else { 0 }) + (if tk { 1int } else { 0 }))
        }
    }
}

/// A VP8 packet opens a keyframe when it starts partition 0 (`S` set, `PID`
/// zero) and the inverse-keyframe bit of the payload header, the lowest bit
/// of the first byte after the descriptor, is clear. A payload that ends
/// before that byte opens nothing.
pub open spec fn vp8_is_keyframe(p: Seq<u8>) -> bool {
    match vp8_descriptor_len(p) {
        Some(n) => {
            &&& n < p.len()
            &&& !has_bit(p[n], 0x01)
            &&& has_bit(p[0], 0x10)
            &&& p[0] & 0x0f == 0
        },
        None => false,
    }
}

/// An H264 packet carries a keyframe when it is a single IDR unit (type 5),
/// or the first fragment (start bit set) of a fragmented IDR unit (FU-A or
/// FU-B, types 28 and 29, with inner type 5).
pub open spec fn h264_is_keyframe(p: Seq<u8>) -> bool {
    p.len() >= 1 && {
        let fragment_type = p[0] & 0x1f;
        ||| fragment_type == 5
        ||| {
            &&& fragment_type == 28 || fragment_type == 29
            &&& p.len() >= 2
            &&& p[1] & 0x1f == 5
            &&& p[1] & 0x80 == 0x80
        }
    }
}

/// Whether a payload of the given codec carries the start of a keyframe.
pub open spec fn is_keyframe_payload(codec: Codec, p: Seq<u8>) -> bool {
    match codec {
        Codec::VP8 => vp8_is_keyframe(p),
        Codec::H264 => h264_is_keyframe(p),
    }
}

/// Decides `vp8_is_keyframe`.
pub fn vp8_keyframe(p: &[u8]) -> (r: bool)
    ensures
        r == vp8_is_keyframe(p@),
{
    if p.len() < 1 {
        return false;
    }
    let first: u8 = p[0];
    let s: bool = first & 0x10 != 0;
    let pid: u8 = first & 0x0f;
    let mut at: usize = 1;
    if first & 0x80 != 0 {
        if p.len() < 2 {
            return false;
        }
        let ext: u8 = p[1];
        at = 2;
        if ext & 0x80 != 0 {
            if p.len() < 3 {
                return false;
            }
            if p[2] & 0x80 != 0 {
                at = at + 2;
            } else {
                at = at + 1;
            }
        }
        if ext & 0x40 != 0 {
            at = at + 1;
        }
        if ext & 0x20 != 0 || ext & 0x10 != 0 {
            at = at + 1;
        }
    }
    if at >= p.len() {
        return false;
    }
    p[at] & 0x01 == 0 && s && pid == 0
}

/// Decides `h264_is_keyframe`.
pub fn h264_keyframe(p: &[u8]) -> (r: bool)
    ensures
        r == h264_is_keyframe(p@),
{
    if p.len() < 1 {
        return false;
    }
    let fragment_type: u8 = p[0] & 0x1f;
    if fragment_type == 5 {
        return true;
    }
    if fragment_type != 28 && fragment_type != 29 {
        return false;
    }
    if p.len() < 2 {
        return false;
    }
    p[1] & 0x1f == 5 && p[1] & 0x80 == 0x80
}

/// Decides `is_keyframe_payload`.
pub fn keyframe_payload(codec: Codec, p: &[u8]) -> (r: bool)
    ensures
        r == is_keyframe_payload(codec, p@),
{
    match codec {
        Codec::VP8 => vp8_keyframe(p),
        Codec::H264 => h264_keyframe(p),
    }
}

} // verus!
