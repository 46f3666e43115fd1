use vstd::prelude::*;

use crate::attributes::{
    ChannelNumber, Data, DontFragment, EvenPort, Lifetime, Nonce, Realm, RequestedTransport,
    ReservationToken, Username, XorPeerAddress, XorRelayedAddress, TYPE_CHANNEL_NUMBER,
    TYPE_DATA, TYPE_DONT_FRAGMENT, TYPE_ERROR_CODE, TYPE_EVEN_PORT, TYPE_LIFETIME, TYPE_NONCE,
    TYPE_REALM, TYPE_REQUESTED_TRANSPORT, TYPE_RESERVATION_TOKEN, TYPE_UNKNOWN_ATTRIBUTES,
    TYPE_USERNAME, TYPE_XOR_PEER_ADDRESS, TYPE_XOR_RELAYED_ADDRESS,
};
use crate::errors::ErrorCode;
use crate::methods::Method;
use crate::types::SocketAddress;

verus! {

/// The class of a STUN message.
#[derive(Debug, Clone, Copy, PartialEq, Eq, Structural, Hash)]
pub enum MessageClass {
    Request,
    Indication,
    SuccessResponse,
    ErrorResponse,
}

/// MESSAGE-INTEGRITY of a message. On a received message the transport reports whether it
/// was present and whether it checked against the receiver's long-term credentials. On a
/// message to send, `Sign` asks the transport to append it, computed with the long-term key
/// of the USERNAME and REALM that the message carries.
#[derive(Debug, Clone, Copy, PartialEq, Eq, Structural, Hash)]
pub enum Integrity {
    Absent,
    Valid,
    Invalid,
    Sign,
}

/// The attributes of a STUN message that TURN uses. `Other` stands for any other type.
#[derive(Debug)]
pub enum Attribute {
    Username(Username),
    ErrorCode(ErrorCode),
    UnknownAttributes(Vec<u16>),
    Realm(Realm),
    Nonce(Nonce),
    ChannelNumber(ChannelNumber),
    Lifetime(Lifetime),
    XorPeerAddress(XorPeerAddress),
    Data(Data),
    XorRelayAddress(XorRelayedAddress),
    EvenPort(EvenPort),
    RequestedTransport(RequestedTransport),
    DontFragment(DontFragment),
    ReservationToken(ReservationToken),
    Other(u16),
}

pub ghost enum AttributeView {
    Username(Seq<char>),
    ErrorCode(u16),
    UnknownAttributes(Seq<u16>),
    Realm(Seq<char>),
    Nonce(Seq<char>),
    ChannelNumber(ChannelNumber),
    Lifetime(u32),
    XorPeerAddress(SocketAddress),
    Data(Seq<u8>),
    XorRelayAddress(SocketAddress),
    EvenPort(bool),
    RequestedTransport(u8),
    DontFragment,
    ReservationToken(u64),
    Other(u16),
}

impl View for Attribute {
    type V = AttributeView;

    open spec fn view(&self) -> AttributeView {
        match self {
            Attribute::Username(a) => AttributeView::Username(a@),
            Attribute::ErrorCode(a) => AttributeView::ErrorCode(a@.0),
            Attribute::UnknownAttributes(a) => AttributeView::UnknownAttributes(a@),
            Attribute::Realm(a) => AttributeView::Realm(a@),
            Attribute::Nonce(a) => AttributeView::Nonce(a@),
            Attribute::ChannelNumber(a) => AttributeView::ChannelNumber(*a),
            Attribute::Lifetime(a) => AttributeView::Lifetime(a.0),
            Attribute::XorPeerAddress(a) => AttributeView::XorPeerAddress(a.0),
            Attribute::Data(a) => AttributeView::Data(a@),
            Attribute::XorRelayAddress(a) => AttributeView::XorRelayAddress(a.0),
            Attribute::EvenPort(a) => AttributeView::EvenPort(a.0),
            Attribute::RequestedTransport(a) => AttributeView::RequestedTransport(a.0),
            Attribute::DontFragment(_) => AttributeView::DontFragment,
            Attribute::ReservationToken(a) => AttributeView::ReservationToken(a.0),
            Attribute::Other(t) => AttributeView::Other(*t),
        }
    }
}

/// The type code of an attribute.
pub open spec fn type_of(a: AttributeView) -> u16 {
    match a {
        AttributeView::Username(_) => TYPE_USERNAME,
        AttributeView::ErrorCode(_) => TYPE_ERROR_CODE,
        AttributeView::UnknownAttributes(_) => TYPE_UNKNOWN_ATTRIBUTES,
        AttributeView::Realm(_) => TYPE_REALM,
        AttributeView::Nonce(_) => TYPE_NONCE,
        AttributeView::ChannelNumber(_) => TYPE_CHANNEL_NUMBER,
        AttributeView::Lifetime(_) => TYPE_LIFETIME,
        AttributeView::XorPeerAddress(_) => TYPE_XOR_PEER_ADDRESS,
        AttributeView::Data(_) => TYPE_DATA,
        AttributeView::XorRelayAddress(_) => TYPE_XOR_RELAYED_ADDRESS,
        AttributeView::EvenPort(_) => TYPE_EVEN_PORT,
        AttributeView::RequestedTransport(_) => TYPE_REQUESTED_TRANSPORT,
        AttributeView::DontFragment => TYPE_DONT_FRAGMENT,
        AttributeView::ReservationToken(_) => TYPE_RESERVATION_TOKEN,
        AttributeView::Other(t) => t,
    }
}

/// The first attribute of type `t` among those this library knows, if any.
pub open spec fn first_of(attrs: Seq<AttributeView>, t: u16) -> Option<AttributeView>
    decreases attrs.len(),
{
    if attrs.len() == 0 {
        None
    } else if type_of(attrs[0]) == t && !(attrs[0] is Other) {
        Some(attrs[0])
    } else {
        first_of(attrs.drop_first(), t)
    }
}

/// The code of an ERROR-CODE attribute.
pub open spec fn code_of(a: Option<AttributeView>) -> Option<u16> {
    match a {
        Some(AttributeView::ErrorCode(code)) => Some(code),
        _ => None,
    }
}

/// Whether some attribute has type `t`.
pub open spec fn has_type(attrs: Seq<AttributeView>, t: u16) -> bool {
    first_of(attrs, t) is Some
}

impl Attribute {
    pub fn is_other(&self) -> (r: bool)
        ensures
            r == (self@ is Other),
    {
        match self {
            Attribute::Other(_) => true,
            _ => false,
        }
    }

    pub fn type_code(&self) -> (r: u16)
        ensures
            r == type_of(self@),
    {
        match self {
            Attribute::Username(_) => TYPE_USERNAME,
            Attribute::ErrorCode(_) => TYPE_ERROR_CODE,
            Attribute::UnknownAttributes(_) => TYPE_UNKNOWN_ATTRIBUTES,
            Attribute::Realm(_) => TYPE_REALM,
            Attribute::Nonce(_) => TYPE_NONCE,
            Attribute::ChannelNumber(_) => TYPE_CHANNEL_NUMBER,
            Attribute::Lifetime(_) => TYPE_LIFETIME,
            Attribute::XorPeerAddress(_) => TYPE_XOR_PEER_ADDRESS,
            Attribute::Data(_) => TYPE_DATA,
            Attribute::XorRelayAddress(_) => TYPE_XOR_RELAYED_ADDRESS,
            Attribute::EvenPort(_) => TYPE_EVEN_PORT,
            Attribute::RequestedTransport(_) => TYPE_REQUESTED_TRANSPORT,
            Attribute::DontFragment(_) => TYPE_DONT_FRAGMENT,
            Attribute::ReservationToken(_) => TYPE_RESERVATION_TOKEN,
            Attribute::Other(t) => *t,
        }
    }
}

/// A STUN message as the TURN logic sees it.
#[derive(Debug)]
pub struct StunMessage {
    pub class: MessageClass,
    pub method: Method,
    /// The 96-bit transaction ID.
    pub transaction_id: u128,
    pub attributes: Vec<Attribute>,
    pub integrity: Integrity,
}

pub ghost struct MessageView {
    pub class: MessageClass,
    pub method: Method,
    pub transaction_id: u128,
    pub attributes: Seq<AttributeView>,
    pub integrity: Integrity,
}

impl View for StunMessage {
    type V = MessageView;

    open spec fn view(&self) -> MessageView {
        MessageView {
            class: self.class,
            method: self.method,
            transaction_id: self.transaction_id,
            attributes: self.attributes@.map_values(|a: Attribute| a@),
            integrity: self.integrity,
        }
    }
}

impl StunMessage {
    /// A message with no attributes.
    pub fn new(class: MessageClass, method: Method, transaction_id: u128) -> (r: StunMessage)
        ensures
            r@ == (MessageView {
                class,
                method,
                transaction_id,
                attributes: Seq::empty(),
                integrity: Integrity::Absent,
            }),
    {
        let r = StunMessage {
            class,
            method,
            transaction_id,
            attributes: Vec::new(),
            integrity: Integrity::Absent,
        };
        assert(r@.attributes =~= Seq::empty());
        r
    }

    pub fn add_attribute(&mut self, a: Attribute)
        ensures
            final(self)@ == (MessageView {
                attributes: old(self)@.attributes.push(a@),
                ..old(self)@
            }),
    {
        self.attributes.push(a);
        assert(self@.attributes =~= old(self)@.attributes.push(a@));
    }

    /// The index of the first attribute of type `t`.
    pub fn find(&self, t: u16) -> (r: Option<usize>)
        ensures
            r is None ==> first_of(self@.attributes, t) is None,
            r is Some ==> r->0 < self@.attributes.len() && first_of(self@.attributes, t) == Some(
                self@.attributes[r->0 as int],
            ),
            r is Some ==> type_of(self@.attributes[r->0 as int]) == t
                && !(self@.attributes[r->0 as int] is Other),
    {
        let ghost attrs = self@.attributes;
        assert(attrs.subrange(0, attrs.len() as int) =~= attrs);
        let mut i: usize = 0;
        while i < self.attributes.len()
            invariant
                i <= self.attributes@.len(),
                attrs == self@.attributes,
                attrs.len() == self.attributes@.len(),
                first_of(attrs, t) == first_of(attrs.subrange(i as int, attrs.len() as int), t),
            decreases self.attributes@.len() - i,
        {
            let ghost rest = attrs.subrange(i as int, attrs.len() as int);
            assert(rest[0] == attrs[i as int]);
            assert(self.attributes@[i as int]@ == attrs[i as int]);
            if self.attributes[i].type_code() == t && !self.attributes[i].is_other() {
                return Some(i);
            }
            assert(rest.drop_first() =~= attrs.subrange(i + 1, attrs.len() as int));
            i = i + 1;
        }
        assert(attrs.subrange(i as int, attrs.len() as int) =~= Seq::<AttributeView>::empty());
        None
    }

    /// Seconds of the first LIFETIME attribute.
    pub fn lifetime(&self) -> (r: Option<u32>)
        ensures
            r is None <==> first_of(self@.attributes, TYPE_LIFETIME) is None,
            r is Some ==> first_of(self@.attributes, TYPE_LIFETIME) == Some(
                AttributeView::Lifetime(r->0),
            ),
    {
        match self.find(TYPE_LIFETIME) {
            None => None,
            Some(i) => match &self.attributes[i] {
                Attribute::Lifetime(l) => Some(l.0),
                _ => None,
            },
        }
    }

    /// The address of the first XOR-PEER-ADDRESS attribute.
    pub fn xor_peer_address(&self) -> (r: Option<SocketAddress>)
        ensures
            r is None <==> first_of(self@.attributes, TYPE_XOR_PEER_ADDRESS) is None,
            r is Some ==> first_of(self@.attributes, TYPE_XOR_PEER_ADDRESS) == Some(
                AttributeView::XorPeerAddress(r->0),
            ),
    {
        match self.find(TYPE_XOR_PEER_ADDRESS) {
            None => None,
            Some(i) => match &self.attributes[i] {
                Attribute::XorPeerAddress(a) => Some(a.0),
                _ => None,
            },
        }
    }

    /// The address of the first XOR-RELAYED-ADDRESS attribute.
    pub fn xor_relay_address(&self) -> (r: Option<SocketAddress>)
        ensures
            r is None <==> first_of(self@.attributes, TYPE_XOR_RELAYED_ADDRESS) is None,
            r is Some ==> first_of(self@.attributes, TYPE_XOR_RELAYED_ADDRESS) == Some(
                AttributeView::XorRelayAddress(r->0),
            ),
    {
        match self.find(TYPE_XOR_RELAYED_ADDRESS) {
            None => None,
            Some(i) => match &self.attributes[i] {
                Attribute::XorRelayAddress(a) => Some(a.0),
                _ => None,
            },
        }
    }

    /// The number of the first CHANNEL-NUMBER attribute.
    pub fn channel_number(&self) -> (r: Option<ChannelNumber>)
        ensures
            r is None <==> first_of(self@.attributes, TYPE_CHANNEL_NUMBER) is None,
            r is Some ==> first_of(self@.attributes, TYPE_CHANNEL_NUMBER) == Some(
                AttributeView::ChannelNumber(r->0),
            ),
    {
        match self.find(TYPE_CHANNEL_NUMBER) {
            None => None,
            Some(i) => match &self.attributes[i] {
                Attribute::ChannelNumber(a) => Some(*a),
                _ => None,
            },
        }
    }

    /// The protocol of the first REQUESTED-TRANSPORT attribute.
    pub fn requested_transport(&self) -> (r: Option<u8>)
        ensures
            r is None <==> first_of(self@.attributes, TYPE_REQUESTED_TRANSPORT) is None,
            r is Some ==> first_of(self@.attributes, TYPE_REQUESTED_TRANSPORT) == Some(
                AttributeView::RequestedTransport(r->0),
            ),
    {
        match self.find(TYPE_REQUESTED_TRANSPORT) {
            None => None,
            Some(i) => match &self.attributes[i] {
                Attribute::RequestedTransport(a) => Some(a.0),
                _ => None,
            },
        }
    }

    /// The code of the first ERROR-CODE attribute.
    pub fn error_code(&self) -> (r: Option<u16>)
        ensures
            r == code_of(first_of(self@.attributes, TYPE_ERROR_CODE)),
    {
        match self.find(TYPE_ERROR_CODE) {
            None => None,
            Some(i) => match &self.attributes[i] {
                Attribute::ErrorCode(a) => Some(a.code()),
                _ => None,
            },
        }
    }

    /// A copy of the payload of the first DATA attribute.
    pub fn data(&self) -> (r: Option<Data>)
        ensures
            r is None <==> first_of(self@.attributes, TYPE_DATA) is None,
            r is Some ==> first_of(self@.attributes, TYPE_DATA) == Some(
                AttributeView::Data(r->0@),
            ),
    {
        match self.find(TYPE_DATA) {
            None => None,
            Some(i) => match &self.attributes[i] {
                Attribute::Data(a) => Some(a.duplicate()),
                _ => None,
            },
        }
    }

    /// A copy of the first REALM attribute.
    pub fn realm(&self) -> (r: Option<Realm>)
        ensures
            r is None <==> first_of(self@.attributes, TYPE_REALM) is None,
            r is Some ==> first_of(self@.attributes, TYPE_REALM) == Some(
                AttributeView::Realm(r->0@),
            ),
    {
        match self.find(TYPE_REALM) {
            None => None,
            Some(i) => match &self.attributes[i] {
                Attribute::Realm(a) => Some(a.duplicate()),
                _ => None,
            },
        }
    }

    /// A copy of the first NONCE attribute.
    pub fn nonce(&self) -> (r: Option<Nonce>)
        ensures
            r is None <==> first_of(self@.attributes, TYPE_NONCE) is None,
            r is Some ==> first_of(self@.attributes, TYPE_NONCE) == Some(
                AttributeView::Nonce(r->0@),
            ),
    {
        match self.find(TYPE_NONCE) {
            None => None,
            Some(i) => match &self.attributes[i] {
                Attribute::Nonce(a) => Some(a.duplicate()),
                _ => None,
            },
        }
    }
}

} // verus!
