use vstd::prelude::*;

use crate::attributes::{valid_channel_number, ChannelNumber};
use crate::channel_data::{be16, channel_data_bytes, channel_data_header, padding, zeros, ChannelData};

verus! {

/// Length of the fixed STUN message header.
pub const STUN_HEADER_LEN: usize = 20;

/// Failures of the TURN message codec.
#[derive(Debug, Clone, Copy, PartialEq, Eq, Structural, Hash)]
pub enum CodecError {
    /// The two high bits of a frame's first byte are neither `00` (STUN) nor `01` (ChannelData).
    UnknownPrefix,
    /// No complete frame has been read yet.
    IncompleteDecoding,
    /// The encoder still holds bytes of an earlier item.
    EncoderFull,
}

/// A frame of the shared transport: the bytes of a STUN message, or a ChannelData message.
#[derive(Debug)]
pub enum TurnMessage {
    Stun(Vec<u8>),
    ChannelData(ChannelData),
}

pub ghost enum TurnMessageView {
    Stun(Seq<u8>),
    ChannelData(u16, Seq<u8>),
}

impl View for TurnMessage {
    type V = TurnMessageView;

    open spec fn view(&self) -> TurnMessageView {
        match self {
            TurnMessage::Stun(b) => TurnMessageView::Stun(b@),
            TurnMessage::ChannelData(c) => TurnMessageView::ChannelData(c@.0, c@.1),
        }
    }
}

/// The two high bits of a frame's first byte.
pub open spec fn prefix(b: u8) -> nat {
    b as nat / 64
}

/// Whether a first byte opens a frame this codec knows: `00` STUN, `01` ChannelData.
pub open spec fn known_prefix(b: u8) -> bool {
    prefix(b) < 2
}

/// Length of the whole frame whose first four bytes are `h`.
pub open spec fn frame_total(h: Seq<u8>, padded: bool) -> nat
    recommends
        h.len() >= 4,
{
    let len = be16(h[2], h[3]);
    if prefix(h[0]) == 0 {
        STUN_HEADER_LEN as nat + len
    } else {
        4 + len + padding(len, padded)
    }
}

/// Whether `buf` is exactly one whole frame.
pub open spec fn is_complete(buf: Seq<u8>, padded: bool) -> bool {
    buf.len() >= 4 && buf.len() == frame_total(buf, padded)
}

/// What the decoder may hold between calls: the start of one frame, never more.
pub open spec fn partial_frame(buf: Seq<u8>, padded: bool) -> bool {
    buf.len() == 0 || (known_prefix(buf[0]) && (buf.len() < 4 || buf.len() <= frame_total(
        buf,
        padded,
    )))
}

/// Whether a decoder holding `buf` rejects `input` at once: a new frame with an unknown prefix.
pub open spec fn rejects(buf: Seq<u8>, input: Seq<u8>) -> bool {
    buf.len() == 0 && input.len() > 0 && !known_prefix(input[0])
}

/// How many bytes of `input` a decoder holding `buf` takes: up to the end of the current
/// frame, and no further.
pub open spec fn take_count(buf: Seq<u8>, input: Seq<u8>, padded: bool) -> nat {
    let all = buf + input;
    if rejects(buf, input) {
        0
    } else if all.len() < 4 {
        input.len()
    } else if all.len() >= frame_total(all, padded) {
        (frame_total(all, padded) - buf.len()) as nat
    } else {
        input.len()
    }
}

/// The message that a whole frame holds; `None` for a channel number out of range, which a
/// frame with prefix `01` cannot have.
pub open spec fn frame_message(frame: Seq<u8>) -> Option<TurnMessageView> {
    if prefix(frame[0]) == 0 {
        Some(TurnMessageView::Stun(frame))
    } else {
        let number = be16(frame[0], frame[1]);
        if valid_channel_number(number as u16) {
            Some(
                TurnMessageView::ChannelData(
                    number as u16,
                    frame.subrange(4, 4 + be16(frame[2], frame[3]) as int),
                ),
            )
        } else {
            None
        }
    }
}

/// Whether `frame` has the shape of a STUN message: prefix `00`, a 20-byte header and a
/// length field that counts the rest.
pub open spec fn stun_frame(frame: Seq<u8>) -> bool {
    frame.len() >= STUN_HEADER_LEN && prefix(frame[0]) == 0 && be16(frame[2], frame[3])
        == frame.len() - STUN_HEADER_LEN
}

/// The bytes the encoder writes for a message.
pub open spec fn message_bytes(m: TurnMessageView, padded: bool) -> Seq<u8> {
    match m {
        TurnMessageView::Stun(b) => b,
        TurnMessageView::ChannelData(n, d) => channel_data_bytes(n, d, padded),
    }
}

/// Decoder of the frames on one transport, STUN and ChannelData mixed. A partial frame is
/// kept across calls.
#[derive(Debug)]
pub struct TurnMessageDecoder {
    buf: Vec<u8>,
    padded: bool,
}

impl TurnMessageDecoder {
    pub closed spec fn buffered(&self) -> Seq<u8> {
        self.buf@
    }

    pub closed spec fn spec_padded(&self) -> bool {
        self.padded
    }

    pub open spec fn wf(&self) -> bool {
        partial_frame(self.buffered(), self.spec_padded())
    }

    /// A decoder for a stream transport (TCP, padded frames) or a datagram one (UDP).
    pub fn new(padded: bool) -> (r: TurnMessageDecoder)
        ensures
            r.wf(),
            r.buffered() == Seq::<u8>::empty(),
            r.spec_padded() == padded,
    {
        TurnMessageDecoder { buf: Vec::new(), padded }
    }

    pub fn is_idle(&self) -> (r: bool)
        ensures
            r == (self.buffered().len() == 0),
    {
        self.buf.len() == 0
    }

    pub fn is_complete(&self) -> (r: bool)
        requires
            self.wf(),
        ensures
            r == is_complete(self.buffered(), self.spec_padded()),
    {
        self.buf.len() >= 4 && self.buf.len() == self.total()
    }

    fn total(&self) -> (r: usize)
        requires
            self.buf@.len() >= 4,
        ensures
            r == frame_total(self.buf@, self.padded),
    {
        let len: usize = (self.buf[2] as usize) * 256 + (self.buf[3] as usize);
        if self.buf[0] / 64 == 0 {
            STUN_HEADER_LEN + len
        } else if self.padded && len % 4 != 0 {
            4 + len + (4 - len % 4)
        } else {
            4 + len
        }
    }

    /// Takes bytes of `input` up to the end of the current frame and returns how many it
    /// took. A new frame whose first byte has an unknown prefix is rejected, and nothing
    /// is taken.
    pub fn decode(&mut self, input: &[u8]) -> (r: Result<usize, CodecError>)
        requires
            old(self).wf(),
        ensures
            final(self).wf(),
            final(self).spec_padded() == old(self).spec_padded(),
            rejects(old(self).buffered(), input@) ==> r == Err::<usize, CodecError>(
                CodecError::UnknownPrefix,
            ) && final(self).buffered() == old(self).buffered(),
            !rejects(old(self).buffered(), input@) ==> r == Ok::<usize, CodecError>(
                take_count(old(self).buffered(), input@, old(self).spec_padded()) as usize,
            ),
            r is Ok ==> final(self).buffered() == old(self).buffered() + input@.subrange(
                0,
                r->Ok_0 as int,
            ),
    {
        if self.buf.len() == 0 && input.len() > 0 && input[0] / 64 >= 2 {
            return Err(CodecError::UnknownPrefix);
        }
        let ghost old_buf = self.buf@;
        let ghost all = old_buf + input@;
        let mut i: usize = 0;
        while self.buf.len() < 4 && i < input.len()
            invariant
                i <= input@.len(),
                self.buf@ == old_buf + input@.subrange(0, i as int),
                self.padded == old(self).padded,
                all == old_buf + input@,
                partial_frame(old_buf, self.padded),
                !rejects(old_buf, input@),
                old_buf.len() < 4 || i == 0,
                old_buf.len() >= 4 || self.buf@.len() <= 4,
            decreases input@.len() - i,
        {
            self.buf.push(input[i]);
            i = i + 1;
            assert(input@.subrange(0, i as int) == input@.subrange(0, i - 1) + seq![
                input@[i - 1],
            ]);
        }
        assert(self.buf@.len() > 0 ==> self.buf@[0] == all[0]);
        if self.buf.len() < 4 {
            assert(input@.subrange(0, i as int) == input@);
            return Ok(i);
        }
        assert(self.buf@[0] == all[0] && self.buf@[2] == all[2] && self.buf@[3] == all[3]);
        proof {
            if old_buf.len() >= 4 {
                assert(input@.subrange(0, 0) =~= Seq::<u8>::empty());
                assert(self.buf@ =~= old_buf);
            }
        }
        let total = self.total();
        proof {
            if old_buf.len() >= 4 {
                assert(self.buf@.len() <= total);
            } else {
                assert(self.buf@.len() == 4);
                assert(total >= 4);
            }
        }
        assert(total == frame_total(all, self.padded));
        while self.buf.len() < total && i < input.len()
            invariant
                i <= input@.len(),
                self.buf@ == old_buf + input@.subrange(0, i as int),
                self.buf@.len() >= 4,
                self.buf@.len() <= total,
                total == frame_total(all, self.padded),
                total == frame_total(self.buf@, self.padded),
                self.padded == old(self).padded,
                all == old_buf + input@,
                known_prefix(self.buf@[0]),
            decreases input@.len() - i,
        {
            self.buf.push(input[i]);
            i = i + 1;
            assert(input@.subrange(0, i as int) == input@.subrange(0, i - 1) + seq![
                input@[i - 1],
            ]);
        }
        if i == input.len() {
            assert(input@.subrange(0, i as int) == input@);
        }
        Ok(i)
    }

    /// Hands out the frame read so far and makes the decoder idle again.
    pub fn finish_decoding(&mut self) -> (r: Result<TurnMessage, CodecError>)
        requires
            old(self).wf(),
        ensures
            final(self).wf(),
            final(self).spec_padded() == old(self).spec_padded(),
            !is_complete(old(self).buffered(), old(self).spec_padded()) ==> r
                == Err::<TurnMessage, CodecError>(CodecError::IncompleteDecoding)
                && final(self).buffered() == old(self).buffered(),
            is_complete(old(self).buffered(), old(self).spec_padded()) ==> {
                &&& final(self).buffered().len() == 0
                &&& r is Ok
                &&& frame_message(old(self).buffered()) is Some
                &&& r->Ok_0@ == frame_message(old(self).buffered())->0
            },
    {
        if !self.is_complete() {
            return Err(CodecError::IncompleteDecoding);
        }
        let mut frame: Vec<u8> = Vec::new();
        core::mem::swap(&mut frame, &mut self.buf);
        if frame[0] / 64 == 0 {
            return Ok(TurnMessage::Stun(frame));
        }
        let number: u16 = (frame[0] as u16) * 256 + (frame[1] as u16);
        assert(valid_channel_number(number));
        let len: usize = (frame[2] as usize) * 256 + (frame[3] as usize);
        match ChannelNumber::new(number) {
            Err(_) => {
                assert(false);
                Err(CodecError::IncompleteDecoding)
            },
            Ok(channel_number) => {
                let mut data: Vec<u8> = Vec::new();
                let mut i: usize = 0;
                while i < len
                    invariant
                        i <= len,
                        len <= 0xFFFF,
                        4 + len <= frame@.len(),
                        data@ == frame@.subrange(4, 4 + i),
                    decreases len - i,
                {
                    data.push(frame[4 + i]);
                    i = i + 1;
                    assert(frame@.subrange(4, 4 + i) == frame@.subrange(4, 4 + i - 1) + seq![
                        frame@[4 + i - 1],
                    ]);
                }
                match ChannelData::new(channel_number, data) {
                    Ok(cd) => Ok(TurnMessage::ChannelData(cd)),
                    Err(_) => {
                        assert(false);
                        Err(CodecError::IncompleteDecoding)
                    },
                }
            },
        }
    }
}

/// Encoder of STUN and ChannelData frames onto one transport. It takes one item at a time.
#[derive(Debug)]
pub struct TurnMessageEncoder {
    bytes: Vec<u8>,
    offset: usize,
    padded: bool,
}

impl TurnMessageEncoder {
    /// The bytes not yet handed out.
    pub closed spec fn pending(&self) -> Seq<u8> {
        self.bytes@.subrange(self.offset as int, self.bytes@.len() as int)
    }

    pub closed spec fn spec_padded(&self) -> bool {
        self.padded
    }

    pub closed spec fn wf(&self) -> bool {
        self.offset <= self.bytes@.len()
    }

    /// An encoder for a stream transport (TCP, padded frames) or a datagram one (UDP).
    pub fn new(padded: bool) -> (r: TurnMessageEncoder)
        ensures
            r.wf(),
            r.pending() == Seq::<u8>::empty(),
            r.spec_padded() == padded,
    {
        let r = TurnMessageEncoder { bytes: Vec::new(), offset: 0, padded };
        assert(r.pending() =~= Seq::<u8>::empty());
        r
    }

    pub fn is_idle(&self) -> (r: bool)
        requires
            self.wf(),
        ensures
            r == (self.pending().len() == 0),
    {
        self.offset == self.bytes.len()
    }

    /// How many bytes are left to hand out.
    pub fn exact_requiring_bytes(&self) -> (r: u64)
        requires
            self.wf(),
        ensures
            r == self.pending().len(),
    {
        (self.bytes.len() - self.offset) as u64
    }

    /// Takes the next item; fails with `EncoderFull` while bytes of the previous one are left.
    pub fn start_encoding(&mut self, item: TurnMessage) -> (r: Result<(), CodecError>)
        requires
            old(self).wf(),
        ensures
            final(self).wf(),
            final(self).spec_padded() == old(self).spec_padded(),
            old(self).pending().len() != 0 ==> r == Err::<(), CodecError>(CodecError::EncoderFull)
                && final(self).pending() == old(self).pending(),
            old(self).pending().len() == 0 ==> r == Ok::<(), CodecError>(())
                && final(self).pending() == message_bytes(item@, old(self).spec_padded()),
    {
        if self.offset != self.bytes.len() {
            return Err(CodecError::EncoderFull);
        }
        let bytes = match item {
            TurnMessage::Stun(b) => b,
            TurnMessage::ChannelData(cd) => cd.encode(self.padded),
        };
        self.bytes = bytes;
        self.offset = 0;
        assert(self.pending() =~= self.bytes@);
        Ok(())
    }

    /// Appends to `out` up to `max` pending bytes and returns how many.
    pub fn encode(&mut self, out: &mut Vec<u8>, max: usize) -> (r: usize)
        requires
            old(self).wf(),
        ensures
            final(self).wf(),
            final(self).spec_padded() == old(self).spec_padded(),
            r as nat == if max < old(self).pending().len() {
                max as nat
            } else {
                old(self).pending().len()
            },
            final(out)@ == old(out)@ + old(self).pending().subrange(0, r as int),
            final(self).pending() == old(self).pending().subrange(
                r as int,
                old(self).pending().len() as int,
            ),
    {
        let ghost p = self.pending();
        let start = self.offset;
        let mut n: usize = 0;
        while n < max && self.offset < self.bytes.len()
            invariant
                self.offset == start + n,
                start <= self.offset <= self.bytes@.len(),
                p == self.bytes@.subrange(start as int, self.bytes@.len() as int),
                n <= max,
                out@ == old(out)@ + p.subrange(0, n as int),
                self.bytes == old(self).bytes,
                self.padded == old(self).padded,
            decreases self.bytes@.len() - self.offset,
        {
            out.push(self.bytes[self.offset]);
            self.offset = self.offset + 1;
            n = n + 1;
            assert(p.subrange(0, n as int) == p.subrange(0, n - 1) + seq![p[n - 1]]);
        }
        assert(self.pending() =~= p.subrange(n as int, p.len() as int));
        n
    }
}

proof fn lemma_be16_split(n: nat)
    requires
        n < 0x1_0000,
    ensures
        be16((n / 256) as u8, (n % 256) as u8) == n,
        (n / 256) < 256,
{
}

/// Decoding what the encoder wrote gives back the message: a fresh decoder takes exactly the
/// frame from a stream that goes on with anything else, the frame is complete, and it holds
/// the message that was encoded. This holds for a ChannelData message with a valid channel
/// number and at most `0xFFFF` bytes, and for the bytes of a STUN message.
pub proof fn lemma_round_trip(m: TurnMessageView, padded: bool, rest: Seq<u8>)
    requires
        match m {
            TurnMessageView::Stun(b) => stun_frame(b),
            TurnMessageView::ChannelData(n, d) => valid_channel_number(n) && d.len() <= 0xFFFF,
        },
    ensures
        !rejects(Seq::empty(), message_bytes(m, padded) + rest),
        take_count(Seq::empty(), message_bytes(m, padded) + rest, padded) == message_bytes(
            m,
            padded,
        ).len(),
        is_complete(message_bytes(m, padded), padded),
        frame_message(message_bytes(m, padded)) == Some(m),
{
    let bytes = message_bytes(m, padded);
    let all = Seq::<u8>::empty() + bytes + rest;
    assert(Seq::<u8>::empty() + (bytes + rest) =~= bytes + rest);
    match m {
        TurnMessageView::Stun(b) => {
            assert(all[0] == b[0] && all[2] == b[2] && all[3] == b[3]);
            assert(frame_total(all, padded) == b.len());
        },
        TurnMessageView::ChannelData(n, d) => {
            lemma_be16_split(n as nat);
            lemma_be16_split(d.len());
            let h = channel_data_header(n, d.len());
            assert(bytes == h + d + zeros(padding(d.len(), padded)));
            assert(bytes[0] == h[0] && bytes[1] == h[1] && bytes[2] == h[2] && bytes[3] == h[3]);
            assert(all[0] == h[0] && all[2] == h[2] && all[3] == h[3]);
            assert(prefix(h[0]) == 1);
            assert(frame_total(all, padded) == bytes.len());
            assert(frame_total(bytes, padded) == bytes.len());
            assert(bytes.subrange(4, 4 + d.len() as int) =~= d);
        },
    }
}

/// Every ChannelData message that the decoder hands out has a channel number in
/// `0x4000..=0x7FFF` and at most `0xFFFF` bytes of payload.
pub proof fn lemma_decoded_channel_data_bounds(frame: Seq<u8>, padded: bool, n: u16, d: Seq<u8>)
    requires
        is_complete(frame, padded),
        frame_message(frame) == Some(TurnMessageView::ChannelData(n, d)),
    ensures
        valid_channel_number(n),
        d.len() <= 0xFFFF,
{
}

} // verus!
