//! The capture daemon's wire format: a 24-byte banner, sent once, then any
//! number of frames, each a 4-byte little-endian length followed by that many
//! payload bytes.

use vstd::prelude::*;

verus! {

/// Size of the banner that opens every connection.
pub const BANNER_LEN: usize = 24;

/// Size of the length prefix in front of every frame.
pub const LENGTH_PREFIX_LEN: usize = 4;

/// The unsigned integer that four bytes stand for, least significant first.
pub open spec fn le_u32(b: Seq<u8>) -> int
    recommends
        b.len() == 4,
{
    b[0] as int + 256 * (b[1] as int) + 65536 * (b[2] as int) + 16777216 * (b[3] as int)
}

/// The four bytes that stand for `n`, least significant first.
pub open spec fn le_bytes(n: int) -> Seq<u8>
    recommends
        0 <= n <= u32::MAX,
{
    seq![
        (n % 256) as u8,
        ((n / 256) % 256) as u8,
        ((n / 65536) % 256) as u8,
        ((n / 16777216) % 256) as u8,
    ]
}

/// One frame as it travels: its length prefix, then the payload.
pub open spec fn encode_frame(payload: Seq<u8>) -> Seq<u8>
    recommends
        payload.len() <= u32::MAX,
{
    le_bytes(payload.len() as int) + payload
}

/// The frames of `frames`, one after the other, as they travel.
pub open spec fn encode_frames(frames: Seq<Seq<u8>>) -> Seq<u8>
    decreases frames.len(),
{
    if frames.len() == 0 {
        Seq::<u8>::empty()
    } else {
        encode_frame(frames[0]) + encode_frames(frames.skip(1))
    }
}

/// A whole stream: the banner, then the frames.
pub open spec fn encode_stream(banner: Seq<u8>, frames: Seq<Seq<u8>>) -> Seq<u8>
    recommends
        banner.len() == BANNER_LEN,
{
    banner + encode_frames(frames)
}

/// Every payload is short enough for its length to fit the prefix.
pub open spec fn frames_fit(frames: Seq<Seq<u8>>) -> bool {
    forall|i: int| 0 <= i < frames.len() ==> (#[trigger] frames[i]).len() <= u32::MAX
}

/// Whether `bytes` starts with a complete frame.
pub open spec fn has_frame(bytes: Seq<u8>) -> bool {
    bytes.len() >= 4 && bytes.len() - 4 >= le_u32(bytes.subrange(0, 4))
}

/// Payload of the frame at the start of `bytes`.
pub open spec fn first_payload(bytes: Seq<u8>) -> Seq<u8>
    recommends
        has_frame(bytes),
{
    bytes.subrange(4, 4 + le_u32(bytes.subrange(0, 4)))
}

/// What follows the frame at the start of `bytes`.
pub open spec fn after_first_frame(bytes: Seq<u8>) -> Seq<u8>
    recommends
        has_frame(bytes),
{
    bytes.skip(4 + le_u32(bytes.subrange(0, 4)))
}

/// The complete frames at the start of `bytes`, in wire order.
pub open spec fn complete_frames(bytes: Seq<u8>) -> Seq<Seq<u8>>
    decreases bytes.len(),
{
    if has_frame(bytes) {
        seq![first_payload(bytes)] + complete_frames(after_first_frame(bytes))
    } else {
        Seq::<Seq<u8>>::empty()
    }
}

/// What is left of `bytes` behind its complete frames: empty, or the start
/// of a frame that the stream broke off in.
pub open spec fn trailing_bytes(bytes: Seq<u8>) -> Seq<u8>
    decreases bytes.len(),
{
    if has_frame(bytes) {
        trailing_bytes(after_first_frame(bytes))
    } else {
        bytes
    }
}

/// Reads a length prefix.
pub fn read_u32_le(b: &[u8]) -> (n: u32)
    requires
        b@.len() == 4,
    ensures
        n == le_u32(b@),
{
    let b0: u32 = b[0] as u32;
    let b1: u32 = b[1] as u32;
    let b2: u32 = b[2] as u32;
    let b3: u32 = b[3] as u32;
    b0 + 256 * b1 + 65536 * b2 + 16777216 * b3
}

/// The prefix of a length reads back as that length.
pub proof fn lemma_le_roundtrip(n: int)
    requires
        0 <= n <= u32::MAX,
    ensures
        le_bytes(n).len() == 4,
        le_u32(le_bytes(n)) == n,
{
    let b = le_bytes(n);
    assert(b[0] as int == n % 256);
    assert(b[1] as int == (n / 256) % 256);
    assert(b[2] as int == (n / 65536) % 256);
    assert(b[3] as int == (n / 16777216) % 256);
    assert(n / 16777216 < 256);
}

/// A payload is exactly as long as its length prefix says.
pub proof fn lemma_payload_has_announced_length(bytes: Seq<u8>)
    requires
        has_frame(bytes),
    ensures
        first_payload(bytes).len() == le_u32(bytes.subrange(0, 4)),
        first_payload(bytes).len() + after_first_frame(bytes).len() + 4 == bytes.len(),
{
    let b = bytes.subrange(0, 4);
    assert(le_u32(b) >= 0);
}

/// A length prefix of zero is a whole frame: its payload is empty, and the
/// next frame starts right behind the prefix.
pub proof fn lemma_zero_length_frame(bytes: Seq<u8>)
    requires
        bytes.len() >= 4,
        le_u32(bytes.subrange(0, 4)) == 0,
    ensures
        has_frame(bytes),
        first_payload(bytes) == Seq::<u8>::empty(),
        after_first_frame(bytes) == bytes.skip(4),
{
}

/// An encoded frame, whatever follows it, reads back as its payload, and
/// what followed it is what is left.
pub proof fn lemma_encoded_frame_reads_back(payload: Seq<u8>, rest: Seq<u8>)
    requires
        payload.len() <= u32::MAX,
    ensures
        has_frame(encode_frame(payload) + rest),
        first_payload(encode_frame(payload) + rest) == payload,
        after_first_frame(encode_frame(payload) + rest) == rest,
{
    let n = payload.len() as int;
    let bytes = encode_frame(payload) + rest;
    lemma_le_roundtrip(n);
    assert(bytes.subrange(0, 4) == le_bytes(n));
    assert(bytes.subrange(4, 4 + n) == payload);
    assert(bytes.skip(4 + n) == rest);
}

/// An encoded frame that is cut short, anywhere in its length prefix or in
/// its payload, holds no frame.
pub proof fn lemma_cut_frame_has_no_frame(payload: Seq<u8>, cut: int)
    requires
        payload.len() <= u32::MAX,
        0 <= cut < encode_frame(payload).len(),
    ensures
        !has_frame(encode_frame(payload).take(cut)),
{
    let n = payload.len() as int;
    let whole = encode_frame(payload);
    lemma_le_roundtrip(n);
    if cut >= 4 {
        assert(whole.take(cut).subrange(0, 4) == le_bytes(n));
    }
}

/// Decoding a valid stream of frames yields exactly the payloads, in wire
/// order, and leaves nothing over.
pub proof fn lemma_encoded_frames_decode(frames: Seq<Seq<u8>>)
    requires
        frames_fit(frames),
    ensures
        complete_frames(encode_frames(frames)) == frames,
        trailing_bytes(encode_frames(frames)).len() == 0,
    decreases frames.len(),
{
    if frames.len() > 0 {
        let rest = frames.skip(1);
        assert(frames_fit(rest)) by {
            assert forall|i: int| 0 <= i < rest.len() implies (#[trigger] rest[i]).len()
                <= u32::MAX by {
                assert(rest[i] == frames[i + 1]);
            }
        }
        lemma_encoded_frames_decode(rest);
        lemma_encoded_frame_reads_back(frames[0], encode_frames(rest));
        assert(seq![frames[0]] + rest == frames);
    }
}

/// A valid stream that closes early, at any byte, decodes to the frames
/// that arrived whole and to no other: never to a shortened frame.
pub proof fn lemma_cut_stream_decodes_to_whole_frames(frames: Seq<Seq<u8>>, cut: int) -> (whole:
    int)
    requires
        frames_fit(frames),
        0 <= cut <= encode_frames(frames).len(),
    ensures
        0 <= whole <= frames.len(),
        complete_frames(encode_frames(frames).take(cut)) == frames.take(whole),
        whole == frames.len() <==> cut == encode_frames(frames).len(),
    decreases frames.len(),
{
    let stream = encode_frames(frames);
    if frames.len() == 0 {
        assert(!has_frame(stream.take(cut)));
        assert(frames.take(0) == Seq::<Seq<u8>>::empty());
        0
    } else {
        let head = encode_frame(frames[0]);
        let rest = frames.skip(1);
        let tail = encode_frames(rest);
        assert(frames_fit(rest)) by {
            assert forall|i: int| 0 <= i < rest.len() implies (#[trigger] rest[i]).len()
                <= u32::MAX by {
                assert(rest[i] == frames[i + 1]);
            }
        }
        if cut < head.len() {
            assert(stream.take(cut) == head.take(cut));
            lemma_cut_frame_has_no_frame(frames[0], cut);
            assert(frames.take(0) == Seq::<Seq<u8>>::empty());
            0
        } else {
            let more = lemma_cut_stream_decodes_to_whole_frames(rest, cut - head.len());
            assert(stream.take(cut) == head + tail.take(cut - head.len()));
            lemma_encoded_frame_reads_back(frames[0], tail.take(cut - head.len()));
            assert(seq![frames[0]] + rest.take(more) == frames.take(more + 1));
            more + 1
        }
    }
}

} // verus!
