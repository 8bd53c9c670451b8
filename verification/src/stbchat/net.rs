//! The frame codec: one serialized packet travels as a two-byte big-endian
//! length followed by exactly that many payload bytes.
//!
//! The codec is transport-agnostic. A stream is the byte sequence that went
//! over the wire: the outgoing side appends whole frames to it, the incoming
//! side takes whole frames off its front.

use vstd::prelude::*;
use vstd::slice::slice_to_vec;
use crate::stbchat::error::CommunicationError;

verus! {

/// The largest payload that a frame can carry.
pub const MAX_PAYLOAD_LEN: usize = 65535;

/// The two bytes that announce a payload of `n` bytes, high byte first.
pub open spec fn length_prefix(n: nat) -> Seq<u8> {
    seq![(n / 256) as u8, (n % 256) as u8]
}

/// The frame that carries `payload`.
pub open spec fn frame_of(payload: Seq<u8>) -> Seq<u8> {
    length_prefix(payload.len()) + payload
}

/// The payload length that the first two bytes of `bytes` announce.
pub open spec fn declared_len(bytes: Seq<u8>) -> nat
    recommends
        bytes.len() >= 2,
{
    (bytes[0] as nat) * 256 + (bytes[1] as nat)
}

/// Whether `bytes` begins with a complete frame.
pub open spec fn frame_complete(bytes: Seq<u8>) -> bool {
    bytes.len() >= 2 && bytes.len() >= 2 + declared_len(bytes)
}

/// The payload of the frame that `bytes` begins with.
pub open spec fn first_payload(bytes: Seq<u8>) -> Seq<u8>
    recommends
        frame_complete(bytes),
{
    bytes.subrange(2, 2 + declared_len(bytes) as int)
}

/// What follows the frame that `bytes` begins with.
pub open spec fn after_first(bytes: Seq<u8>) -> Seq<u8>
    recommends
        frame_complete(bytes),
{
    bytes.subrange(2 + declared_len(bytes) as int, bytes.len() as int)
}

/// The frames of `payloads`, one after the other.
pub open spec fn frames_of(payloads: Seq<Seq<u8>>) -> Seq<u8>
    decreases payloads.len(),
{
    if payloads.len() == 0 {
        Seq::empty()
    } else {
        frame_of(payloads[0]) + frames_of(payloads.drop_first())
    }
}

/// The payloads of the complete frames that `bytes` begins with, in order.
pub open spec fn payloads_of(bytes: Seq<u8>) -> Seq<Seq<u8>>
    decreases bytes.len(),
{
    if frame_complete(bytes) {
        seq![first_payload(bytes)] + payloads_of(after_first(bytes))
    } else {
        Seq::empty()
    }
}

/// Whether every payload fits a frame.
pub open spec fn all_fit(payloads: Seq<Seq<u8>>) -> bool {
    forall|i: int| 0 <= i < payloads.len() ==> (#[trigger] payloads[i]).len() <= MAX_PAYLOAD_LEN
}

/// A frame followed by anything decodes to its payload and leaves what
/// followed.
pub proof fn lemma_frame_round_trip(payload: Seq<u8>, rest: Seq<u8>)
    requires
        payload.len() <= MAX_PAYLOAD_LEN,
    ensures
        frame_complete(frame_of(payload) + rest),
        first_payload(frame_of(payload) + rest) == payload,
        after_first(frame_of(payload) + rest) == rest,
        declared_len(frame_of(payload) + rest) == payload.len(),
{
    let n = payload.len();
    let bytes = frame_of(payload) + rest;
    assert(bytes[0] == (n / 256) as u8);
    assert(bytes[1] == (n % 256) as u8);
    assert(declared_len(bytes) == n);
    assert(first_payload(bytes) =~= payload);
    assert(after_first(bytes) =~= rest);
}

/// A stream that ends before the announced payload is complete holds no
/// frame. In particular a bare length prefix that announces at least one
/// byte holds none.
pub proof fn lemma_truncated_frame(payload: Seq<u8>, delivered: int)
    requires
        payload.len() <= MAX_PAYLOAD_LEN,
        0 <= delivered < 2 + payload.len(),
    ensures
        !frame_complete(frame_of(payload).take(delivered)),
        payloads_of(frame_of(payload).take(delivered)) == Seq::<Seq<u8>>::empty(),
{
    let cut = frame_of(payload).take(delivered);
    if delivered >= 2 {
        lemma_frame_round_trip(payload, Seq::empty());
        assert(frame_of(payload) + Seq::<u8>::empty() == frame_of(payload));
        assert(cut[0] == frame_of(payload)[0]);
        assert(cut[1] == frame_of(payload)[1]);
        assert(declared_len(cut) == payload.len());
    }
}

/// Frames are self-delimiting: frames written one after the other,
/// followed by anything, decode to the payloads that were written, in the
/// order of writing, and then to whatever the rest decodes to.
pub proof fn lemma_stream_then_rest(payloads: Seq<Seq<u8>>, rest: Seq<u8>)
    requires
        all_fit(payloads),
    ensures
        payloads_of(frames_of(payloads) + rest) == payloads + payloads_of(rest),
    decreases payloads.len(),
{
    if payloads.len() == 0 {
        assert(frames_of(payloads) + rest =~= rest);
        assert(payloads + payloads_of(rest) =~= payloads_of(rest));
    } else {
        let tail = payloads.drop_first();
        assert(all_fit(tail)) by {
            assert forall|i: int| 0 <= i < tail.len() implies (#[trigger] tail[i]).len()
                <= MAX_PAYLOAD_LEN by {
                assert(tail[i] == payloads[i + 1]);
            }
        }
        assert(payloads[0].len() <= MAX_PAYLOAD_LEN);
        let after = frames_of(tail) + rest;
        lemma_frame_round_trip(payloads[0], after);
        lemma_stream_then_rest(tail, rest);
        assert(frames_of(payloads) + rest =~= frame_of(payloads[0]) + after);
        assert(payloads + payloads_of(rest) =~= seq![payloads[0]] + (tail + payloads_of(rest)));
    }
}

/// Frames written one after the other decode to exactly the payloads that
/// were written, in the order of writing: a receiver that replays the bytes
/// finds each payload whole and nothing else.
pub proof fn lemma_stream_round_trip(payloads: Seq<Seq<u8>>)
    requires
        all_fit(payloads),
    ensures
        payloads_of(frames_of(payloads)) == payloads,
{
    lemma_stream_then_rest(payloads, Seq::empty());
    assert(frames_of(payloads) + Seq::<u8>::empty() =~= frames_of(payloads));
    assert(!frame_complete(Seq::<u8>::empty()));
    assert(payloads + Seq::<Seq<u8>>::empty() =~= payloads);
}

/// Two frames written back to back, in either order of writing, decode to
/// the two payloads in that order.
pub proof fn lemma_two_writes(first: Seq<u8>, second: Seq<u8>)
    requires
        first.len() <= MAX_PAYLOAD_LEN,
        second.len() <= MAX_PAYLOAD_LEN,
    ensures
        payloads_of(frame_of(first) + frame_of(second)) == seq![first, second],
{
    let both = seq![first, second];
    assert(all_fit(both));
    lemma_stream_round_trip(both);
    assert(both.drop_first() =~= seq![second]);
    assert(seq![second].drop_first() =~= Seq::<Seq<u8>>::empty());
    assert(frames_of(seq![second]) =~= frame_of(second)) by {
        assert(frames_of(seq![second]) == frame_of(second) + frames_of(
            Seq::<Seq<u8>>::empty(),
        ));
    }
    assert(frames_of(both) =~= frame_of(first) + frame_of(second));
}

/// The payload length that a length prefix announces.
pub fn decode_length(high: u8, low: u8) -> (n: usize)
    ensures
        n == declared_len(seq![high, low]),
        n <= MAX_PAYLOAD_LEN,
{
    let h: usize = high as usize;
    let l: usize = low as usize;
    h * 256 + l
}

/// One length-prefixed unit of wire data: a payload and its length, which
/// always agree.
#[derive(Debug)]
pub struct Frame {
    length: u16,
    payload: Vec<u8>,
}

impl View for Frame {
    type V = Seq<u8>;

    /// The payload that the frame carries.
    closed spec fn view(&self) -> Seq<u8> {
        self.payload@
    }
}

impl Frame {
    #[verifier::type_invariant]
    spec fn length_matches(self) -> bool {
        self.payload@.len() == self.length
    }

    /// Makes the frame that carries `payload`.
    ///
    /// Fails with `PacketTooLarge`, carrying the payload's size, exactly
    /// when the payload has more than 65535 bytes.
    pub fn new(payload: Vec<u8>) -> (r: Result<Frame, CommunicationError>)
        ensures
            match r {
                Ok(frame) => payload@.len() <= MAX_PAYLOAD_LEN && frame@ == payload@,
                Err(e) => payload@.len() > MAX_PAYLOAD_LEN && e
                    == CommunicationError::PacketTooLarge(payload@.len() as usize),
            },
    {
        let len: usize = payload.len();
        if len > MAX_PAYLOAD_LEN {
            return Err(CommunicationError::PacketTooLarge(len));
        }
        Ok(Frame { length: len as u16, payload })
    }

    /// The length of the payload, as the prefix announces it.
    pub fn length(&self) -> (n: u16)
        ensures
            n == self@.len(),
    {
        proof {
            use_type_invariant(self);
        }
        self.length
    }

    /// The payload.
    pub fn payload(&self) -> (r: &Vec<u8>)
        ensures
            r@ == self@,
            r@.len() <= MAX_PAYLOAD_LEN,
    {
        proof {
            use_type_invariant(self);
        }
        &self.payload
    }

    /// The bytes of the frame on the wire: the length, high byte first,
    /// then the payload.
    pub fn to_bytes(&self) -> (r: Vec<u8>)
        ensures
            r@ == frame_of(self@),
            self@.len() <= MAX_PAYLOAD_LEN,
    {
        proof {
            use_type_invariant(self);
        }
        let mut bytes: Vec<u8> = Vec::new();
        bytes.push((self.length / 256) as u8);
        bytes.push((self.length % 256) as u8);
        bytes.extend_from_slice(self.payload.as_slice());
        assert(bytes@ =~= frame_of(self@));
        bytes
    }

    /// Takes the first frame off `bytes`, and says how many bytes it
    /// occupied.
    ///
    /// Fails with `FrameIncomplete` exactly when `bytes` ends before the
    /// frame does; no partial frame is ever returned.
    pub fn from_bytes(bytes: &[u8]) -> (r: Result<(Frame, usize), CommunicationError>)
        ensures
            match r {
                Ok((frame, used)) => {
                    &&& frame_complete(bytes@)
                    &&& frame@ == first_payload(bytes@)
                    &&& used == 2 + declared_len(bytes@)
                },
                Err(e) => !frame_complete(bytes@) && e == CommunicationError::FrameIncomplete,
            },
    {
        if bytes.len() < 2 {
            return Err(CommunicationError::FrameIncomplete);
        }
        let n: usize = decode_length(bytes[0], bytes[1]);
        assert(declared_len(seq![bytes@[0], bytes@[1]]) == declared_len(bytes@));
        if bytes.len() - 2 < n {
            return Err(CommunicationError::FrameIncomplete);
        }
        let mut payload: Vec<u8> = Vec::new();
        let mut i: usize = 0;
        while i < n
            invariant
                i <= n,
                2 + n <= bytes.len(),
                payload@ == bytes@.subrange(2, 2 + i),
            decreases n - i,
        {
            payload.push(bytes[2 + i]);
            assert(bytes@.subrange(2, 2 + i + 1) == bytes@.subrange(2, 2 + i).push(bytes@[2 + i]));
            i += 1;
        }
        Ok((Frame { length: n as u16, payload }, 2 + n))
    }

    /// Gives the payload up.
    pub fn into_payload(self) -> (r: Vec<u8>)
        ensures
            r@ == self@,
            r@.len() <= MAX_PAYLOAD_LEN,
    {
        proof {
            use_type_invariant(&self);
        }
        self.payload
    }
}

/// Frames one serialized packet.
///
/// Fails with `PacketTooLarge`, carrying the payload's size, exactly when
/// the payload has more than 65535 bytes; nothing is ever truncated.
pub fn encode_frame(payload: &[u8]) -> (r: Result<Vec<u8>, CommunicationError>)
    ensures
        match r {
            Ok(frame) => payload@.len() <= MAX_PAYLOAD_LEN && frame@ == frame_of(payload@),
            Err(e) => payload@.len() > MAX_PAYLOAD_LEN && e == CommunicationError::PacketTooLarge(
                payload@.len() as usize,
            ),
        },
{
    match Frame::new(slice_to_vec(payload)) {
        Ok(frame) => Ok(frame.to_bytes()),
        Err(e) => Err(e),
    }
}

/// Takes the first frame off `bytes`: its payload and the number of bytes
/// that the frame occupied.
///
/// Fails with `FrameIncomplete` exactly when `bytes` ends before the frame
/// does; no partial payload is ever returned.
pub fn decode_frame(bytes: &[u8]) -> (r: Result<(Vec<u8>, usize), CommunicationError>)
    ensures
        match r {
            Ok((payload, used)) => {
                &&& frame_complete(bytes@)
                &&& payload@ == first_payload(bytes@)
                &&& used == 2 + declared_len(bytes@)
            },
            Err(e) => !frame_complete(bytes@) && e == CommunicationError::FrameIncomplete,
        },
{
    match Frame::from_bytes(bytes) {
        Ok((frame, used)) => Ok((frame.into_payload(), used)),
        Err(e) => Err(e),
    }
}

/// The writing side of a stream: every write appends one whole frame.
#[derive(Debug)]
pub struct OutgoingPacketStream {
    stream: Vec<u8>,
}

impl View for OutgoingPacketStream {
    type V = Seq<u8>;

    /// The bytes written so far.
    closed spec fn view(&self) -> Seq<u8> {
        self.stream@
    }
}

impl OutgoingPacketStream {
    /// Wraps the bytes that a stream holds already.
    pub fn wrap(stream: Vec<u8>) -> (r: Self)
        ensures
            r@ == stream@,
    {
        Self { stream }
    }

    /// Writes one serialized packet as one frame.
    ///
    /// A payload of more than 65535 bytes is refused with `PacketTooLarge`
    /// and leaves the stream as it was. The exclusive borrow keeps two
    /// writes from interleaving: each frame lands whole.
    pub fn write(&mut self, payload: &[u8]) -> (r: Result<(), CommunicationError>)
        ensures
            match r {
                Ok(()) => payload@.len() <= MAX_PAYLOAD_LEN && final(self)@ == old(self)@
                    + frame_of(payload@),
                Err(e) => payload@.len() > MAX_PAYLOAD_LEN && final(self)@ == old(self)@ && e
                    == CommunicationError::PacketTooLarge(payload@.len() as usize),
            },
    {
        match encode_frame(payload) {
            Ok(frame) => {
                self.stream.extend_from_slice(frame.as_slice());
                Ok(())
            },
            Err(e) => Err(e),
        }
    }

    /// Returns the wrapped stream.
    pub fn unwrap(self) -> (r: Vec<u8>)
        ensures
            r@ == self@,
    {
        self.stream
    }

    /// Hands out the bytes written so far and starts over with none.
    pub fn take_bytes(&mut self) -> (r: Vec<u8>)
        ensures
            r@ == old(self)@,
            final(self)@ == Seq::<u8>::empty(),
    {
        let mut taken: Vec<u8> = Vec::new();
        std::mem::swap(&mut self.stream, &mut taken);
        taken
    }

    /// Returns the wrapped stream as a mutable.
    pub fn inner_mut(&mut self) -> (r: &mut Vec<u8>)
        ensures
            r@ == old(self)@,
            final(self)@ == final(r)@,
    {
        &mut self.stream
    }
}

/// The reading side of a stream: every read takes one whole frame.
#[derive(Debug)]
pub struct IncomingPacketStream {
    stream: Vec<u8>,
    cursor: usize,
}

impl View for IncomingPacketStream {
    type V = Seq<u8>;

    /// The bytes not read yet.
    closed spec fn view(&self) -> Seq<u8> {
        if self.cursor <= self.stream@.len() {
            self.stream@.subrange(self.cursor as int, self.stream@.len() as int)
        } else {
            Seq::empty()
        }
    }
}

impl IncomingPacketStream {
    /// Wraps the bytes that arrived.
    pub fn wrap(stream: Vec<u8>) -> (r: Self)
        ensures
            r@ == stream@,
    {
        assert(stream@.subrange(0, stream@.len() as int) == stream@);
        Self { stream, cursor: 0 }
    }

    /// Reads the payload of the next frame.
    ///
    /// Fails with `FrameIncomplete` exactly when the stream ends before the
    /// next frame does, and then takes nothing off the stream.
    pub fn read(&mut self) -> (r: Result<Vec<u8>, CommunicationError>)
        ensures
            match r {
                Ok(payload) => {
                    &&& frame_complete(old(self)@)
                    &&& payload@ == first_payload(old(self)@)
                    &&& final(self)@ == after_first(old(self)@)
                    &&& payloads_of(old(self)@) == seq![payload@] + payloads_of(final(self)@)
                },
                Err(e) => {
                    &&& !frame_complete(old(self)@)
                    &&& e == CommunicationError::FrameIncomplete
                    &&& final(self)@ == old(self)@
                    &&& payloads_of(old(self)@) == Seq::<Seq<u8>>::empty()
                },
            },
    {
        let total: usize = self.stream.len();
        let start: usize = if self.cursor <= total {
            self.cursor
        } else {
            total
        };
        let rest = vstd::slice::slice_subrange(self.stream.as_slice(), start, total);
        assert(rest@ =~= self@);
        match decode_frame(rest) {
            Ok((payload, used)) => {
                assert(after_first(rest@) =~= self.stream@.subrange(start + used, total as int));
                self.cursor = start + used;
                Ok(payload)
            },
            Err(e) => Err(e),
        }
    }

    /// Takes in bytes that arrived: they follow what is not read yet.
    pub fn feed(&mut self, bytes: &[u8])
        ensures
            final(self)@ == old(self)@ + bytes@,
    {
        let total: usize = self.stream.len();
        if self.cursor >= total {
            self.stream.clear();
        } else if self.cursor > 0 {
            let rest = self.stream.split_off(self.cursor);
            self.stream = rest;
        }
        self.cursor = 0;
        assert(self.stream@ =~= old(self)@);
        self.stream.extend_from_slice(bytes);
        assert(self@ =~= old(self)@ + bytes@);
    }

    /// Returns what is left of the wrapped stream.
    pub fn unwrap(self) -> (r: Vec<u8>)
        ensures
            r@ == self@,
    {
        let mut stream = self.stream;
        if self.cursor <= stream.len() {
            let rest = stream.split_off(self.cursor);
            assert(rest@ =~= self@);
            rest
        } else {
            Vec::new()
        }
    }
}

} // verus!
