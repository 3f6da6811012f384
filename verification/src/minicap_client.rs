//! The frame decoder. It never touches a socket: it says how many bytes the
//! next read has to deliver, and is told what that read came back with.

use crate::byte_stream::ByteStream;
use crate::frame_buf::bytes_from_vec;
use crate::frame_buf::frame_bytes;
use crate::wire::after_first_frame;
use crate::wire::BANNER_LEN;
use crate::wire::complete_frames;
use crate::wire::encode_frame;
use crate::wire::encode_frames;
use crate::wire::encode_stream;
use crate::wire::first_payload;
use crate::wire::frames_fit;
use crate::wire::has_frame;
use crate::wire::le_u32;
use crate::wire::lemma_cut_frame_has_no_frame;
use crate::wire::lemma_encoded_frame_reads_back;
use crate::wire::lemma_encoded_frames_decode;
use crate::wire::lemma_payload_has_announced_length;
use crate::wire::LENGTH_PREFIX_LEN;
use crate::wire::read_u32_le;
use bytes::Bytes;
use vstd::prelude::*;

verus! {

/// Why a frame could not be read.
#[derive(Clone, Copy, Debug, PartialEq, Eq, Structural)]
pub enum FrameError {
    /// The stream broke the framing: it closed inside the banner, inside a
    /// length prefix or inside a payload.
    Protocol,
    /// The transport itself failed.
    Io,
}

/// What an exact read of the transport came back with.
#[derive(Debug)]
pub enum ReadOutcome {
    /// The bytes that were asked for.
    Data(Vec<u8>),
    /// The stream closed before the read was complete.
    Closed,
    /// The transport reported an error.
    Failed,
}

/// What the decoder is waiting for.
#[derive(Clone, Copy, Debug, PartialEq, Eq, Structural)]
pub enum Phase {
    /// The banner that opens the connection.
    Banner,
    /// The length prefix of the next frame.
    Length,
    /// The payload of a frame whose prefix announced this many bytes. No
    /// length is turned down: the prefix is trusted up to `u32::MAX`.
    Payload(u32),
}

impl Phase {
    /// Size of the read that this phase waits for.
    pub open spec fn wanted(self) -> nat {
        match self {
            Phase::Banner => BANNER_LEN as nat,
            Phase::Length => LENGTH_PREFIX_LEN as nat,
            Phase::Payload(len) => len as nat,
        }
    }

    /// The phase that follows once a read of the wanted size delivered
    /// `chunk`.
    pub open spec fn after(self, chunk: Seq<u8>) -> Phase {
        match self {
            Phase::Banner => Phase::Length,
            Phase::Length => Phase::Payload(le_u32(chunk) as u32),
            Phase::Payload(_) => Phase::Length,
        }
    }

    /// The next frame of a stream that still holds `bytes`, read from this
    /// phase on: its payload and the bytes behind it. `None` where the stream
    /// closes before the frame is complete.
    pub open spec fn next_frame(self, bytes: Seq<u8>) -> Option<(Seq<u8>, Seq<u8>)> {
        match self {
            Phase::Banner => if bytes.len() >= BANNER_LEN {
                frame_at(bytes.skip(BANNER_LEN as int))
            } else {
                None
            },
            Phase::Length => frame_at(bytes),
            Phase::Payload(len) => if bytes.len() >= len {
                Some((bytes.take(len as int), bytes.skip(len as int)))
            } else {
                None
            },
        }
    }

    /// The phase in which reading comes to a halt on a stream that closes
    /// after `bytes`, where `next_frame` finds no frame.
    pub open spec fn stalls_in(self, bytes: Seq<u8>) -> Phase {
        match self {
            Phase::Banner => if bytes.len() >= BANNER_LEN {
                stall_at(bytes.skip(BANNER_LEN as int))
            } else {
                Phase::Banner
            },
            Phase::Length => stall_at(bytes),
            Phase::Payload(len) => Phase::Payload(len),
        }
    }
}

/// The frame at the start of `bytes`: its payload and the bytes behind it.
pub open spec fn frame_at(bytes: Seq<u8>) -> Option<(Seq<u8>, Seq<u8>)> {
    if has_frame(bytes) {
        Some((first_payload(bytes), after_first_frame(bytes)))
    } else {
        None
    }
}

/// The frames that a stream which still holds `bytes` gives, read from
/// `phase` on, until it closes.
pub open spec fn frames_from(phase: Phase, bytes: Seq<u8>) -> Seq<Seq<u8>> {
    match phase.next_frame(bytes) {
        Some((payload, rest)) => seq![payload] + complete_frames(rest),
        None => Seq::empty(),
    }
}

/// The payloads that a vector of frames holds.
pub open spec fn payloads(frames: Seq<Bytes>) -> Seq<Seq<u8>> {
    frames.map_values(|frame: Bytes| frame_bytes(frame))
}

/// Where reading halts on `bytes` that hold no complete frame: at the length
/// prefix if that is cut short, else at the payload.
pub open spec fn stall_at(bytes: Seq<u8>) -> Phase {
    if bytes.len() >= LENGTH_PREFIX_LEN {
        Phase::Payload(le_u32(bytes.take(LENGTH_PREFIX_LEN as int)) as u32)
    } else {
        Phase::Length
    }
}

/// Decoder for one connection to the capture daemon.
pub struct MinicapClient {
    phase: Phase,
}

impl MinicapClient {
    /// What the decoder is waiting for.
    pub closed spec fn phase(self) -> Phase {
        self.phase
    }

    /// Whether the banner has been consumed.
    pub open spec fn banner_parsed(self) -> bool {
        self.phase() != Phase::Banner
    }

    /// A decoder at the start of a connection: the banner is still to come.
    pub fn new() -> (client: MinicapClient)
        ensures
            client.phase() == Phase::Banner,
            !client.banner_parsed(),
    {
        MinicapClient { phase: Phase::Banner }
    }

    /// What the decoder is waiting for.
    pub fn current_phase(&self) -> (phase: Phase)
        ensures
            phase == self.phase(),
    {
        self.phase
    }

    /// Size of the exact read that the decoder needs next.
    pub fn wanted(&self) -> (n: usize)
        ensures
            n == self.phase().wanted(),
    {
        match self.phase {
            Phase::Banner => BANNER_LEN,
            Phase::Length => LENGTH_PREFIX_LEN,
            Phase::Payload(len) => len as usize,
        }
    }

    /// Takes the outcome of the read that `wanted` asked for.
    ///
    /// A closed stream, or a chunk of another size than was asked for, is a
    /// protocol error; a transport error is an I/O error; either leaves the
    /// decoder as it was. A chunk of the right size moves the decoder on, and
    /// where it was a payload, it comes back as the frame.
    pub fn advance(&mut self, outcome: ReadOutcome) -> (r: Result<Option<Bytes>, FrameError>)
        ensures
            match outcome {
                ReadOutcome::Closed => r == Err::<Option<Bytes>, FrameError>(FrameError::Protocol)
                    && final(self).phase() == old(self).phase(),
                ReadOutcome::Failed => r == Err::<Option<Bytes>, FrameError>(FrameError::Io)
                    && final(self).phase() == old(self).phase(),
                ReadOutcome::Data(chunk) => if chunk@.len() != old(self).phase().wanted() {
                    r == Err::<Option<Bytes>, FrameError>(FrameError::Protocol)
                        && final(self).phase() == old(self).phase()
                } else if old(self).phase() is Payload {
                    (r matches Ok(Some(frame)) && frame_bytes(frame) == chunk@)
                        && final(self).phase() == Phase::Length
                } else {
                    r == Ok::<Option<Bytes>, FrameError>(None)
                        && final(self).phase() == old(self).phase().after(chunk@)
                },
            },
    {
        match outcome {
            ReadOutcome::Closed => Err(FrameError::Protocol),
            ReadOutcome::Failed => Err(FrameError::Io),
            ReadOutcome::Data(chunk) => {
                if chunk.len() != self.wanted() {
                    Err(FrameError::Protocol)
                } else {
                    match self.phase {
                        Phase::Banner => {
                            self.phase = Phase::Length;
                            Ok(None)
                        },
                        Phase::Length => {
                            let len = read_u32_le(chunk.as_slice());
                            self.phase = Phase::Payload(len);
                            Ok(None)
                        },
                        Phase::Payload(_) => {
                            self.phase = Phase::Length;
                            Ok(Some(bytes_from_vec(chunk)))
                        },
                    }
                }
            },
        }
    }

    /// Consumes the banner from `stream`: exactly 24 bytes.
    pub fn read_banner(&mut self, stream: &mut ByteStream) -> (r: Result<(), FrameError>)
        requires
            !old(self).banner_parsed(),
        ensures
            old(stream).remaining().len() >= BANNER_LEN ==> r is Ok && final(self).phase()
                == Phase::Length && final(stream).remaining() == old(stream).remaining().skip(
                BANNER_LEN as int,
            ),
            old(stream).remaining().len() < BANNER_LEN ==> r == Err::<(), FrameError>(
                FrameError::Protocol,
            ) && !final(self).banner_parsed() && final(stream).remaining().len() == 0,
    {
        let outcome = stream.read_exact(self.wanted());
        match self.advance(outcome) {
            Ok(_) => Ok(()),
            Err(e) => Err(e),
        }
    }

    /// Reads the next frame from `stream`, after the banner where that is
    /// still to come.
    ///
    /// The frame is the payload that the wire format lays out at this point
    /// of the stream, whole; where the stream closes before the frame is
    /// complete, the result is a protocol error and never a shorter frame.
    pub fn read_frame(&mut self, stream: &mut ByteStream) -> (r: Result<Bytes, FrameError>)
        ensures
            match old(self).phase().next_frame(old(stream).remaining()) {
                Some((payload, rest)) => {
                    &&& r matches Ok(frame) && frame_bytes(frame) == payload
                    &&& final(stream).remaining() == rest
                    &&& final(self).phase() == Phase::Length
                },
                None => {
                    &&& r == Err::<Bytes, FrameError>(FrameError::Protocol)
                    &&& final(stream).remaining().len() == 0
                    &&& final(self).phase() == old(self).phase().stalls_in(
                        old(stream).remaining(),
                    )
                },
            },
    {
        loop
            invariant
                self.phase().next_frame(stream.remaining()) == old(self).phase().next_frame(
                    old(stream).remaining(),
                ),
                self.phase().next_frame(stream.remaining()) is None ==> self.phase().stalls_in(
                    stream.remaining(),
                ) == old(self).phase().stalls_in(old(stream).remaining()),
            decreases
                    match self.phase() {
                        Phase::Banner => 2int,
                        Phase::Length => 1int,
                        Phase::Payload(_) => 0int,
                    },
        {
            let ghost before = stream.remaining();
            let outcome = stream.read_exact(self.wanted());
            proof {
                if self.phase() == Phase::Length && before.len() >= 4 {
                    assert(before.take(4) == before.subrange(0, 4));
                    assert(stream.remaining() == before.skip(4));
                    let len = le_u32(before.take(4));
                    assert(len == le_u32(before.take(4)) as u32);
                    if stream.remaining().len() >= len {
                        assert(stream.remaining().take(len) == before.subrange(4, 4 + len));
                        assert(stream.remaining().skip(len) == before.skip(4 + len));
                    }
                }
            }
            match self.advance(outcome) {
                Ok(Some(frame)) => {
                    return Ok(frame);
                },
                Ok(None) => {},
                Err(e) => {
                    return Err(e);
                },
            }
        }
    }

    /// Reads frames from `stream` until it closes. A stream always closes on
    /// the decoder sooner or later, so there is always an error to report:
    /// the frames that arrived whole come back with it, in wire order.
    pub fn read_frames(&mut self, stream: &mut ByteStream) -> (r: (Vec<Bytes>, FrameError))
        ensures
            payloads(r.0@) == frames_from(old(self).phase(), old(stream).remaining()),
            r.1 == FrameError::Protocol,
            final(stream).remaining().len() == 0,
    {
        let mut frames: Vec<Bytes> = Vec::new();
        assert(payloads(frames@) =~= Seq::<Seq<u8>>::empty());
        loop
            invariant
                payloads(frames@) + frames_from(self.phase(), stream.remaining()) == frames_from(
                    old(self).phase(),
                    old(stream).remaining(),
                ),
            decreases
                    stream.remaining().len() + (if self.phase() == Phase::Length {
                        0int
                    } else {
                        1int
                    }),
        {
            let ghost phase = self.phase();
            let ghost bytes = stream.remaining();
            let ghost so_far = payloads(frames@);
            match self.read_frame(stream) {
                Ok(frame) => {
                    frames.push(frame);
                    proof {
                        let rest = stream.remaining();
                        assert(payloads(frames@) =~= so_far + seq![frame_bytes(frame)]);
                        assert(frames_from(Phase::Length, rest) == complete_frames(rest));
                        assert(so_far + (seq![frame_bytes(frame)] + complete_frames(rest))
                            =~= (so_far + seq![frame_bytes(frame)]) + complete_frames(rest));
                        if phase == Phase::Length {
                            lemma_payload_has_announced_length(bytes);
                        }
                    }
                },
                Err(error) => {
                    assert(so_far + Seq::<Seq<u8>>::empty() =~= so_far);
                    return (frames, error);
                },
            }
        }
    }
}

/// On a valid stream the decoder reads the first frame that was sent, whole,
/// and is left with the stream of the frames behind it: read after read, the
/// frames come out in wire order.
pub proof fn lemma_reads_frames_in_wire_order(banner: Seq<u8>, frames: Seq<Seq<u8>>)
    requires
        banner.len() == BANNER_LEN,
        frames_fit(frames),
        frames.len() > 0,
    ensures
        Phase::Banner.next_frame(encode_stream(banner, frames)) == Some(
            (frames[0], encode_frames(frames.skip(1))),
        ),
        Phase::Length.next_frame(encode_frames(frames)) == Some(
            (frames[0], encode_frames(frames.skip(1))),
        ),
{
    let body = encode_frames(frames);
    assert(encode_stream(banner, frames).skip(BANNER_LEN as int) == body);
    lemma_encoded_frame_reads_back(frames[0], encode_frames(frames.skip(1)));
}

/// A stream that closes inside the banner gives no frame: the read fails.
pub proof fn lemma_cut_banner_gives_no_frame(banner: Seq<u8>, cut: int)
    requires
        banner.len() == BANNER_LEN,
        0 <= cut < BANNER_LEN,
    ensures
        Phase::Banner.next_frame(banner.take(cut)) is None,
        Phase::Banner.stalls_in(banner.take(cut)) == Phase::Banner,
{
}

/// A stream that closes inside a length prefix or inside a payload gives no
/// frame: the read fails, and nothing shorter than the frame comes out.
pub proof fn lemma_cut_stream_gives_no_frame(banner: Seq<u8>, payload: Seq<u8>, cut: int)
    requires
        banner.len() == BANNER_LEN,
        payload.len() <= u32::MAX,
        0 <= cut < encode_frame(payload).len(),
    ensures
        Phase::Banner.next_frame(banner + encode_frame(payload).take(cut)) is None,
        Phase::Length.next_frame(encode_frame(payload).take(cut)) is None,
        cut < payload.len() ==> Phase::Payload(payload.len() as u32).next_frame(payload.take(cut))
            is None,
{
    let head = encode_frame(payload).take(cut);
    lemma_cut_frame_has_no_frame(payload, cut);
    assert((banner + head).skip(BANNER_LEN as int) == head);
}

/// Reading a valid stream to its end gives exactly the frames that were
/// sent, in wire order.
pub proof fn lemma_valid_stream_gives_its_frames(banner: Seq<u8>, frames: Seq<Seq<u8>>)
    requires
        banner.len() == BANNER_LEN,
        frames_fit(frames),
    ensures
        frames_from(Phase::Banner, encode_stream(banner, frames)) == frames,
        frames_from(Phase::Length, encode_frames(frames)) == frames,
{
    let body = encode_frames(frames);
    assert(encode_stream(banner, frames).skip(BANNER_LEN as int) == body);
    lemma_encoded_frames_decode(frames);
    assert(frames_from(Phase::Length, body) == complete_frames(body));
}

} // verus!
