use rusturn::attributes::{
    ChannelNumber, Data, EvenPort, Lifetime, Nonce, Realm, RequestedTransport, ReservationToken,
    Username,
};
use rusturn::auth::AuthParams;
use rusturn::channel_data::ChannelData;
use rusturn::error::ErrorKind;
use rusturn::errors::{
    AllocationMismatch, AllocationQuotaReached, ErrorCode, Forbidden, InsufficientCapacity,
    UnsupportedTransportProtocol, WrongCredentials,
};
use rusturn::message::{Attribute, Integrity, MessageClass, StunMessage};
use rusturn::methods::{self, Method};
use rusturn::transport::RecvQueue;
use rusturn::turn_message::TurnMessage;
use rusturn::types::{IpAddress, SocketAddress, TransportProtocol};

#[test]
fn transport_protocol_numbers() {
    assert_eq!(TransportProtocol::Udp.as_u8(), 17);
    assert_eq!(TransportProtocol::Tcp.as_u8(), 6);
}

#[test]
fn attribute_values() {
    assert_eq!(Lifetime::new(600).duration(), 600);
    assert_eq!(Data::new(vec![1, 2, 3]).unwrap().unwrap(), vec![1, 2, 3]);
    assert!(Data::new(vec![0; 0x10000]).is_err());
    assert!(EvenPort::new(true).is_even_port_requested());
    assert!(!EvenPort::new(false).is_even_port_requested());
    assert_eq!(RequestedTransport::new(6).protocol(), 6);
    assert!(RequestedTransport::udp().is_udp());
    assert!(!RequestedTransport::new(6).is_udp());
    assert_eq!(ReservationToken::new(0x0123_4567_89ab_cdef).token(), 0x0123_4567_89ab_cdef);
    assert_eq!(ChannelNumber::new(0x4001).unwrap().number(), 0x4001);
}

#[test]
fn text_attribute_limits() {
    assert!(Username::new(&"u".repeat(512)).is_ok());
    assert_eq!(Username::new(&"u".repeat(513)).unwrap_err(), ErrorKind::InvalidInput);
    assert!(Realm::new(&"r".repeat(127)).is_ok());
    assert!(Realm::new(&"r".repeat(128)).is_err());
    assert!(Nonce::new(&"é".repeat(127)).is_ok());
    assert!(Nonce::new(&"n".repeat(128)).is_err());
}

#[test]
fn error_codes() {
    assert_eq!(Forbidden.error_code().code(), 403);
    assert_eq!(AllocationMismatch.error_code().code(), 437);
    assert_eq!(WrongCredentials.error_code().code(), 441);
    assert_eq!(UnsupportedTransportProtocol.error_code().code(), 442);
    assert_eq!(AllocationQuotaReached.error_code().code(), 486);
    assert_eq!(InsufficientCapacity.error_code().code(), 508);
    assert_eq!(ErrorCode::stale_nonce().code(), 438);
    assert_eq!(ErrorCode::new(600, "x").unwrap_err(), ErrorKind::InvalidInput);
    assert_eq!(ErrorCode::new(299, "x").unwrap_err(), ErrorKind::InvalidInput);
    assert_eq!(ErrorCode::new(599, "x").unwrap().reason_phrase(), "x");
}

#[test]
fn method_codes() {
    for m in [
        Method::Binding,
        Method::Allocate,
        Method::Refresh,
        Method::Send,
        Method::Data,
        Method::CreatePermission,
        Method::ChannelBind,
    ] {
        assert_eq!(Method::from_u12(m.as_u12()), Some(m));
    }
    assert_eq!(Method::Allocate.as_u12(), 0x003);
    assert_eq!(Method::ChannelBind.as_u12(), 0x009);
    assert_eq!(Method::from_u12(0x005), None);
    assert_eq!(methods::Refresh.as_u12(), 0x004);
    assert!(methods::Send::from_u12(0x006).is_some());
    assert!(methods::Data::from_u12(0x006).is_none());
    assert_eq!(methods::CreatePermission.as_u12(), 0x008);
    assert!(methods::ChannelBind::from_u12(0x009).is_some());
    assert!(methods::Allocate::from_u12(0x003).is_some());
}

#[test]
fn auth_params_construction() {
    let a = AuthParams::new("foo", "bar").unwrap();
    assert!(!a.has_realm());
    assert!(!a.has_nonce());
    assert_eq!(a.username(), "foo");
    assert_eq!(a.password(), "bar");
    let b = AuthParams::with_realm_and_nonce("foo", "bar", "baz", "qux").unwrap();
    assert_eq!(b.get_realm().unwrap().text(), "baz");
    assert_eq!(b.get_nonce().unwrap().value(), "qux");
    assert!(AuthParams::with_realm_and_nonce("foo", "bar", &"r".repeat(200), "qux").is_err());
    assert!(AuthParams::new(&"u".repeat(600), "bar").is_err());
}

#[test]
fn auth_attributes_need_realm_and_nonce() {
    let mut a = AuthParams::new("foo", "bar").unwrap();
    let mut m = StunMessage::new(MessageClass::Request, Method::Refresh, 1);
    assert_eq!(a.add_auth_attributes(&mut m), Err(ErrorKind::Unauthorized));
    assert!(m.attributes.is_empty());
    a.set_realm(Realm::new("baz").unwrap());
    assert_eq!(a.add_auth_attributes(&mut m), Err(ErrorKind::Unauthorized));
    a.set_nonce(Nonce::new("qux").unwrap());
    a.add_auth_attributes(&mut m).unwrap();
    assert_eq!(m.attributes.len(), 3);
    assert!(matches!(&m.attributes[0], Attribute::Username(u) if u.name() == "foo"));
    assert!(matches!(&m.attributes[1], Attribute::Realm(r) if r.text() == "baz"));
    assert!(matches!(&m.attributes[2], Attribute::Nonce(n) if n.value() == "qux"));
    assert_eq!(m.integrity, Integrity::Sign);
    assert!(a.validate(Integrity::Valid).is_ok());
    assert_eq!(a.validate(Integrity::Invalid), Err(ErrorKind::Unauthorized));
}

#[test]
fn message_lookup_takes_first() {
    let mut m = StunMessage::new(MessageClass::SuccessResponse, Method::Refresh, 1);
    assert_eq!(m.lifetime(), None);
    m.add_attribute(Attribute::Other(0x000D));
    m.add_attribute(Attribute::Lifetime(Lifetime::new(30)));
    m.add_attribute(Attribute::Lifetime(Lifetime::new(40)));
    assert_eq!(m.lifetime(), Some(30));
    assert_eq!(m.find(0x000D), Some(1));
}

#[test]
fn recv_queue_takes_only_its_kind() {
    let mut q = RecvQueue::new();
    q.push(TurnMessage::ChannelData(ChannelData::new(ChannelNumber::min(), vec![1]).unwrap()));
    q.push(TurnMessage::Stun(vec![0; 20]));
    assert!(q.poll_stun().is_none());
    assert_eq!(q.len(), 2);
    assert_eq!(q.poll_channel_data().unwrap().into_data(), vec![1]);
    assert!(q.poll_channel_data().is_none());
    assert_eq!(q.poll_stun().unwrap(), vec![0; 20]);
    assert_eq!(q.len(), 0);
}

#[test]
fn socket_address_v4() {
    let a = SocketAddress::v4(127, 0, 0, 1, 2000);
    assert_eq!(a.ip(), IpAddress::V4(0x7F00_0001));
    assert_eq!(a.port(), 2000);
}
