use vstd::prelude::*;
use vstd::string::*;

use crate::error::ErrorKind;
use crate::types::SocketAddress;

verus! {

pub const TYPE_USERNAME: u16 = 0x0006;
pub const TYPE_ERROR_CODE: u16 = 0x0009;
pub const TYPE_UNKNOWN_ATTRIBUTES: u16 = 0x000A;
pub const TYPE_CHANNEL_NUMBER: u16 = 0x000C;
pub const TYPE_LIFETIME: u16 = 0x000D;
pub const TYPE_XOR_PEER_ADDRESS: u16 = 0x0012;
pub const TYPE_DATA: u16 = 0x0013;
pub const TYPE_REALM: u16 = 0x0014;
pub const TYPE_NONCE: u16 = 0x0015;
pub const TYPE_XOR_RELAYED_ADDRESS: u16 = 0x0016;
pub const TYPE_EVEN_PORT: u16 = 0x0018;
pub const TYPE_REQUESTED_TRANSPORT: u16 = 0x0019;
pub const TYPE_DONT_FRAGMENT: u16 = 0x001A;
pub const TYPE_RESERVATION_TOKEN: u16 = 0x0022;

/// Protocol number of UDP in REQUESTED-TRANSPORT.
pub const PROTOCOL_UDP: u8 = 17;

/// Smallest and largest channel numbers a ChannelData frame may carry.
pub const CHANNEL_NUMBER_MIN: u16 = 0x4000;
pub const CHANNEL_NUMBER_MAX: u16 = 0x7FFF;

/// Longest USERNAME value, in bytes, plus one.
pub const USERNAME_BYTES_LIMIT: usize = 513;
/// Longest REALM or NONCE value, in characters, plus one.
pub const TEXT_CHARS_LIMIT: usize = 128;
/// Longest DATA value, in bytes.
pub const DATA_MAX_LEN: usize = 0xFFFF;

pub open spec fn valid_channel_number(n: u16) -> bool {
    CHANNEL_NUMBER_MIN <= n <= CHANNEL_NUMBER_MAX
}

/// CHANNEL-NUMBER attribute: a number in `0x4000..=0x7FFF`.
#[derive(Debug, Clone, Copy, PartialEq, Eq, Structural, Hash)]
pub struct ChannelNumber(u16);

impl ChannelNumber {
    #[verifier::type_invariant]
    spec fn inv(self) -> bool {
        valid_channel_number(self.0)
    }

    pub closed spec fn spec_number(self) -> u16 {
        self.0
    }

    /// Rejects numbers outside `0x4000..=0x7FFF` with `InvalidInput`.
    pub fn new(number: u16) -> (r: Result<ChannelNumber, ErrorKind>)
        ensures
            valid_channel_number(number) <==> r is Ok,
            r is Ok ==> r->Ok_0.spec_number() == number,
            r is Err ==> r->Err_0 == ErrorKind::InvalidInput,
    {
        if CHANNEL_NUMBER_MIN <= number && number <= CHANNEL_NUMBER_MAX {
            Ok(ChannelNumber(number))
        } else {
            Err(ErrorKind::InvalidInput)
        }
    }

    pub fn number(&self) -> (r: u16)
        ensures
            r == self.spec_number(),
            valid_channel_number(r),
    {
        proof {
            use_type_invariant(self);
        }
        self.0
    }

    pub fn min() -> (r: ChannelNumber)
        ensures
            r.spec_number() == CHANNEL_NUMBER_MIN,
    {
        ChannelNumber(CHANNEL_NUMBER_MIN)
    }

    pub fn max() -> (r: ChannelNumber)
        ensures
            r.spec_number() == CHANNEL_NUMBER_MAX,
    {
        ChannelNumber(CHANNEL_NUMBER_MAX)
    }

    pub open spec fn spec_successor(n: u16) -> u16 {
        if n == CHANNEL_NUMBER_MAX {
            CHANNEL_NUMBER_MIN
        } else {
            (n + 1) as u16
        }
    }

    /// The next number, wrapping from `0x7FFF` to `0x4000`.
    pub fn wrapping_increment(self) -> (r: ChannelNumber)
        ensures
            r.spec_number() == Self::spec_successor(self.spec_number()),
    {
        proof {
            use_type_invariant(self);
        }
        if self.0 == CHANNEL_NUMBER_MAX {
            ChannelNumber(CHANNEL_NUMBER_MIN)
        } else {
            ChannelNumber(self.0 + 1)
        }
    }
}

/// LIFETIME attribute, in seconds.
#[derive(Debug, Clone, Copy, PartialEq, Eq, Structural, Hash)]
pub struct Lifetime(pub u32);

impl Lifetime {
    pub fn new(seconds: u32) -> (r: Lifetime)
        ensures
            r.0 == seconds,
    {
        Lifetime(seconds)
    }

    /// The lifetime in seconds.
    pub fn duration(&self) -> (r: u32)
        ensures
            r == self.0,
    {
        self.0
    }
}

/// XOR-PEER-ADDRESS attribute.
#[derive(Debug, Clone, Copy, PartialEq, Eq, Structural, Hash)]
pub struct XorPeerAddress(pub SocketAddress);

impl XorPeerAddress {
    pub fn new(addr: SocketAddress) -> (r: XorPeerAddress)
        ensures
            r.0 == addr,
    {
        XorPeerAddress(addr)
    }

    pub fn address(&self) -> (r: SocketAddress)
        ensures
            r == self.0,
    {
        self.0
    }
}

/// XOR-RELAYED-ADDRESS attribute.
#[derive(Debug, Clone, Copy, PartialEq, Eq, Structural, Hash)]
pub struct XorRelayedAddress(pub SocketAddress);

impl XorRelayedAddress {
    pub fn new(addr: SocketAddress) -> (r: XorRelayedAddress)
        ensures
            r.0 == addr,
    {
        XorRelayedAddress(addr)
    }

    pub fn address(&self) -> (r: SocketAddress)
        ensures
            r == self.0,
    {
        self.0
    }
}

/// DATA attribute: at most `0xFFFF` bytes.
#[derive(Debug)]
pub struct Data(Vec<u8>);

impl View for Data {
    type V = Seq<u8>;

    closed spec fn view(&self) -> Seq<u8> {
        self.0@
    }
}

impl Data {
    #[verifier::type_invariant]
    spec fn inv(self) -> bool {
        self.0@.len() <= DATA_MAX_LEN
    }

    /// Rejects more than `0xFFFF` bytes with `InvalidInput`.
    pub fn new(data: Vec<u8>) -> (r: Result<Data, ErrorKind>)
        ensures
            r is Ok <==> data@.len() <= DATA_MAX_LEN,
            r is Ok ==> r->Ok_0@ == data@,
            r is Err ==> r->Err_0 == ErrorKind::InvalidInput,
    {
        if data.len() <= DATA_MAX_LEN {
            Ok(Data(data))
        } else {
            Err(ErrorKind::InvalidInput)
        }
    }

    pub fn data(&self) -> (r: &Vec<u8>)
        ensures
            r@ == self@,
            r@.len() <= DATA_MAX_LEN,
    {
        proof {
            use_type_invariant(self);
        }
        &self.0
    }

    pub fn unwrap(self) -> (r: Vec<u8>)
        ensures
            r@ == self@,
            r@.len() <= DATA_MAX_LEN,
    {
        proof {
            use_type_invariant(&self);
        }
        self.0
    }

    pub fn duplicate(&self) -> (r: Data)
        ensures
            r@ == self@,
    {
        proof {
            use_type_invariant(self);
        }
        Data(self.0.clone())
    }
}

/// EVEN-PORT attribute.
#[derive(Debug, Clone, Copy, PartialEq, Eq, Structural, Hash)]
pub struct EvenPort(pub bool);

impl EvenPort {
    pub fn new(is_even_port_requested: bool) -> (r: EvenPort)
        ensures
            r.0 == is_even_port_requested,
    {
        EvenPort(is_even_port_requested)
    }

    pub fn is_even_port_requested(&self) -> (r: bool)
        ensures
            r == self.0,
    {
        self.0
    }
}

/// REQUESTED-TRANSPORT attribute: an IANA protocol number.
#[derive(Debug, Clone, Copy, PartialEq, Eq, Structural, Hash)]
pub struct RequestedTransport(pub u8);

impl RequestedTransport {
    pub fn new(protocol: u8) -> (r: RequestedTransport)
        ensures
            r.0 == protocol,
    {
        RequestedTransport(protocol)
    }

    /// REQUESTED-TRANSPORT for UDP, the only transport relayed.
    pub fn udp() -> (r: RequestedTransport)
        ensures
            r.0 == PROTOCOL_UDP,
    {
        RequestedTransport(PROTOCOL_UDP)
    }

    pub fn protocol(&self) -> (r: u8)
        ensures
            r == self.0,
    {
        self.0
    }

    pub fn is_udp(&self) -> (r: bool)
        ensures
            r == (self.0 == PROTOCOL_UDP),
    {
        self.0 == PROTOCOL_UDP
    }
}

/// DONT-FRAGMENT attribute.
#[derive(Debug, Clone, Copy, PartialEq, Eq, Structural, Hash)]
pub struct DontFragment;

/// RESERVATION-TOKEN attribute.
#[derive(Debug, Clone, Copy, PartialEq, Eq, Structural, Hash)]
pub struct ReservationToken(pub u64);

impl ReservationToken {
    pub fn new(token: u64) -> (r: ReservationToken)
        ensures
            r.0 == token,
    {
        ReservationToken(token)
    }

    pub fn token(&self) -> (r: u64)
        ensures
            r == self.0,
    {
        self.0
    }
}

/// USERNAME attribute: fewer than 513 bytes of UTF-8.
#[derive(Debug)]
pub struct Username(String);

/// REALM attribute: fewer than 128 characters.
#[derive(Debug)]
pub struct Realm(String);

/// NONCE attribute: fewer than 128 characters.
#[derive(Debug)]
pub struct Nonce(String);

impl View for Username {
    type V = Seq<char>;

    closed spec fn view(&self) -> Seq<char> {
        self.0@
    }
}

impl View for Realm {
    type V = Seq<char>;

    closed spec fn view(&self) -> Seq<char> {
        self.0@
    }
}

impl View for Nonce {
    type V = Seq<char>;

    closed spec fn view(&self) -> Seq<char> {
        self.0@
    }
}

/// Whether a string is short enough for USERNAME.
pub open spec fn valid_username(s: &str) -> bool {
    (s.spec_bytes().len() as usize) < USERNAME_BYTES_LIMIT
}

/// Whether a text is short enough for REALM or NONCE.
pub open spec fn valid_text(s: Seq<char>) -> bool {
    s.len() < TEXT_CHARS_LIMIT
}

impl Username {
    /// Rejects a name of 513 bytes or more with `InvalidInput`.
    pub fn new(name: &str) -> (r: Result<Username, ErrorKind>)
        ensures
            r is Ok <==> valid_username(name),
            r is Ok ==> r->Ok_0@ == name@,
            r is Err ==> r->Err_0 == ErrorKind::InvalidInput,
    {
        if name.len() < USERNAME_BYTES_LIMIT {
            Ok(Username(name.to_owned()))
        } else {
            Err(ErrorKind::InvalidInput)
        }
    }

    pub fn name(&self) -> (r: &str)
        ensures
            r@ == self@,
    {
        self.0.as_str()
    }

    pub fn duplicate(&self) -> (r: Username)
        ensures
            r@ == self@,
    {
        Username(self.0.clone())
    }
}

impl Realm {
    /// Rejects a text of 128 characters or more with `InvalidInput`.
    pub fn new(text: &str) -> (r: Result<Realm, ErrorKind>)
        ensures
            r is Ok <==> valid_text(text@),
            r is Ok ==> r->Ok_0@ == text@,
            r is Err ==> r->Err_0 == ErrorKind::InvalidInput,
    {
        if text.unicode_len() < TEXT_CHARS_LIMIT {
            Ok(Realm(text.to_owned()))
        } else {
            Err(ErrorKind::InvalidInput)
        }
    }

    pub fn text(&self) -> (r: &str)
        ensures
            r@ == self@,
    {
        self.0.as_str()
    }

    pub fn duplicate(&self) -> (r: Realm)
        ensures
            r@ == self@,
    {
        Realm(self.0.clone())
    }
}

impl Nonce {
    /// Rejects a value of 128 characters or more with `InvalidInput`.
    pub fn new(value: &str) -> (r: Result<Nonce, ErrorKind>)
        ensures
            r is Ok <==> valid_text(value@),
            r is Ok ==> r->Ok_0@ == value@,
            r is Err ==> r->Err_0 == ErrorKind::InvalidInput,
    {
        if value.unicode_len() < TEXT_CHARS_LIMIT {
            Ok(Nonce(value.to_owned()))
        } else {
            Err(ErrorKind::InvalidInput)
        }
    }

    pub fn value(&self) -> (r: &str)
        ensures
            r@ == self@,
    {
        self.0.as_str()
    }

    pub fn duplicate(&self) -> (r: Nonce)
        ensures
            r@ == self@,
    {
        Nonce(self.0.clone())
    }
}

} // verus!
