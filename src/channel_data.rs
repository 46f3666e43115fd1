use vstd::prelude::*;

use crate::attributes::{valid_channel_number, ChannelNumber, DATA_MAX_LEN};
use crate::error::ErrorKind;

verus! {

/// A big-endian 16-bit number from two bytes.
pub open spec fn be16(hi: u8, lo: u8) -> nat {
    hi as nat * 256 + lo as nat
}

/// The bytes that pad a payload of `len` bytes to a multiple of four (on TCP only).
pub open spec fn padding(len: nat, padded: bool) -> nat {
    if padded && len % 4 != 0 {
        (4 - len % 4) as nat
    } else {
        0
    }
}

pub open spec fn zeros(n: nat) -> Seq<u8> {
    Seq::new(n, |i: int| 0u8)
}

/// The four header bytes of a ChannelData frame: channel number and payload length.
pub open spec fn channel_data_header(number: u16, len: nat) -> Seq<u8> {
    seq![(number / 256) as u8, (number % 256) as u8, (len / 256) as u8, (len % 256) as u8]
}

/// A ChannelData frame on the wire.
pub open spec fn channel_data_bytes(number: u16, data: Seq<u8>, padded: bool) -> Seq<u8> {
    channel_data_header(number, data.len()) + data + zeros(padding(data.len(), padded))
}

/// A ChannelData message: a channel number and at most `0xFFFF` bytes of payload.
#[derive(Debug)]
pub struct ChannelData {
    channel_number: ChannelNumber,
    data: Vec<u8>,
}

impl View for ChannelData {
    type V = (u16, Seq<u8>);

    closed spec fn view(&self) -> (u16, Seq<u8>) {
        (self.channel_number.spec_number(), self.data@)
    }
}

impl ChannelData {
    #[verifier::type_invariant]
    spec fn inv(self) -> bool {
        self.data@.len() <= DATA_MAX_LEN
    }

    /// Rejects a payload longer than `0xFFFF` bytes with `InvalidInput`.
    pub fn new(channel_number: ChannelNumber, data: Vec<u8>) -> (r: Result<ChannelData, ErrorKind>)
        ensures
            r is Ok <==> data@.len() <= DATA_MAX_LEN,
            r is Ok ==> r->Ok_0@ == (channel_number.spec_number(), data@),
            r is Ok ==> r->Ok_0.channel() == channel_number,
            r is Err ==> r->Err_0 == ErrorKind::InvalidInput,
    {
        if data.len() <= DATA_MAX_LEN {
            Ok(ChannelData { channel_number, data })
        } else {
            Err(ErrorKind::InvalidInput)
        }
    }

    pub closed spec fn channel(&self) -> ChannelNumber {
        self.channel_number
    }

    pub fn channel_number(&self) -> (r: ChannelNumber)
        ensures
            r.spec_number() == self@.0,
            r == self.channel(),
    {
        self.channel_number
    }

    pub fn data(&self) -> (r: &Vec<u8>)
        ensures
            r@ == self@.1,
    {
        &self.data
    }

    pub fn into_data(self) -> (r: Vec<u8>)
        ensures
            r@ == self@.1,
    {
        self.data
    }

    /// Every ChannelData holds a valid channel number and at most `0xFFFF` bytes.
    pub fn check_bounds(&self)
        ensures
            valid_channel_number(self@.0),
            self@.1.len() <= DATA_MAX_LEN,
    {
        proof {
            use_type_invariant(self);
        }
        let _ = self.channel_number.number();
    }

    /// The frame on the wire, padded to a multiple of four bytes when `padded` (TCP).
    pub fn encode(&self, padded: bool) -> (r: Vec<u8>)
        ensures
            r@ == channel_data_bytes(self@.0, self@.1, padded),
    {
        proof {
            use_type_invariant(self);
        }
        let number = self.channel_number.number();
        let len = self.data.len();
        let mut out: Vec<u8> = Vec::new();
        out.push((number / 256) as u8);
        out.push((number % 256) as u8);
        out.push((len / 256) as u8);
        out.push((len % 256) as u8);
        assert(out@ == channel_data_header(number, len as nat));
        let mut i: usize = 0;
        while i < len
            invariant
                len == self.data@.len(),
                i <= len,
                out@ == channel_data_header(number, len as nat) + self.data@.subrange(0, i as int),
            decreases len - i,
        {
            out.push(self.data[i]);
            i = i + 1;
            assert(self.data@.subrange(0, i as int) == self.data@.subrange(0, i - 1) + seq![
                self.data@[i - 1],
            ]);
        }
        assert(self.data@.subrange(0, len as int) == self.data@);
        let pad: usize = if padded && len % 4 != 0 {
            4 - len % 4
        } else {
            0
        };
        let mut k: usize = 0;
        while k < pad
            invariant
                k <= pad,
                pad == padding(len as nat, padded),
                len == self.data@.len(),
                out@ == channel_data_header(number, len as nat) + self.data@ + zeros(k as nat),
            decreases pad - k,
        {
            out.push(0u8);
            k = k + 1;
            assert(zeros(k as nat) == zeros((k - 1) as nat).push(0u8));
        }
        out
    }
}

} // verus!
