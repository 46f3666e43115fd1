use rusturn::allocate::{Allocate, AllocateStep};
use rusturn::attributes::{ChannelNumber, EvenPort, Nonce, RequestedTransport};
use rusturn::auth::AuthParams;
use rusturn::channel_data::ChannelData;
use rusturn::client::{ClientAction, ClientCore, Operation, TimeoutEntry, Transaction};
use rusturn::error::ErrorKind;
use rusturn::errors::ErrorCode;
use rusturn::message::{Attribute, Integrity, MessageClass, StunMessage};
use rusturn::methods::Method;
use rusturn::server::{ServerAction, ServerCore, ServerTimeout};
use rusturn::types::SocketAddress;

fn client_addr() -> SocketAddress {
    SocketAddress::v4(127, 0, 0, 1, 40000)
}

fn relay_addr() -> SocketAddress {
    SocketAddress::v4(127, 0, 0, 1, 50000)
}

fn peer_addr() -> SocketAddress {
    SocketAddress::v4(127, 0, 0, 1, 2000)
}

fn server() -> ServerCore {
    ServerCore::new(AuthParams::with_realm_and_nonce("foo", "bar", "baz", "qux").unwrap())
}

/// What the transport does to a message on its way: a signed message arrives with a
/// MESSAGE-INTEGRITY that checks, since both sides share the credentials.
fn deliver(mut m: StunMessage) -> StunMessage {
    if m.integrity == Integrity::Sign {
        m.integrity = Integrity::Valid;
    }
    m
}

fn single_reply(server: &mut ServerCore) -> StunMessage {
    let mut replies: Vec<StunMessage> = server
        .take_actions()
        .into_iter()
        .filter_map(|a| match a {
            ServerAction::Reply(_, m) => Some(m),
            _ => None,
        })
        .collect();
    assert_eq!(replies.len(), 1);
    deliver(replies.remove(0))
}

fn calls(client: &mut ClientCore) -> Vec<(Transaction, StunMessage)> {
    client
        .take_actions()
        .into_iter()
        .filter_map(|a| match a {
            ClientAction::Call(t, m) => Some((t, deliver(m))),
            _ => None,
        })
        .collect()
}

fn allocate(server: &mut ServerCore) -> ClientCore {
    let mut alloc = Allocate::new(AuthParams::new("foo", "bar").unwrap());
    let first = alloc.start_allocate().unwrap();
    assert_eq!(first.integrity, Integrity::Absent);
    server.handle_stun_request(client_addr(), &deliver(first), None);
    let challenge = single_reply(server);
    assert_eq!(challenge.class, MessageClass::ErrorResponse);
    assert_eq!(challenge.error_code(), Some(401));
    assert_eq!(challenge.realm().unwrap().text(), "baz");
    assert_eq!(challenge.nonce().unwrap().value(), "qux");
    let second = match alloc.handle_allocate_response(&challenge).unwrap() {
        AllocateStep::Retry(m) => m,
        AllocateStep::Allocated(_) => panic!("allocated without credentials"),
    };
    assert_eq!(second.integrity, Integrity::Sign);
    server.handle_stun_request(client_addr(), &deliver(second), Some(relay_addr()));
    let ok = single_reply(server);
    assert_eq!(ok.class, MessageClass::SuccessResponse);
    assert_eq!(ok.lifetime(), Some(600));
    match alloc.handle_allocate_response(&ok).unwrap() {
        AllocateStep::Allocated(c) => c,
        AllocateStep::Retry(_) => panic!("asked twice"),
    }
}

#[test]
fn allocation_handshake_with_shared_credentials() {
    let mut server = server();
    let client = allocate(&mut server);
    assert_eq!(client.relay_addr(), Some(relay_addr()));
}

#[test]
fn happy_path_allocation() {
    let mut server = server();
    let mut client = allocate(&mut server);
    assert_eq!(client.relay_addr(), Some(relay_addr()));
    assert_eq!(client.lifetime(), 600);
    let actions = client.take_actions();
    assert_eq!(actions.len(), 1);
    assert!(matches!(actions[0], ClientAction::Schedule(TimeoutEntry::Refresh, 540)));
}

#[test]
fn second_unauthorized_is_terminal() {
    let mut alloc =
        Allocate::new(AuthParams::with_realm_and_nonce("foo", "bar", "baz", "qux").unwrap());
    let mut resp = StunMessage::new(MessageClass::ErrorResponse, Method::Allocate, 1);
    resp.add_attribute(Attribute::ErrorCode(ErrorCode::unauthorized()));
    assert!(matches!(alloc.handle_allocate_response(&resp), Err(ErrorKind::Unauthorized)));
}

#[test]
fn allocate_success_without_challenge_refused() {
    let mut alloc = Allocate::new(AuthParams::new("foo", "bar").unwrap());
    let mut resp = StunMessage::new(MessageClass::SuccessResponse, Method::Allocate, 1);
    resp.add_attribute(Attribute::Lifetime(rusturn::attributes::Lifetime::new(600)));
    assert!(matches!(alloc.handle_allocate_response(&resp), Err(ErrorKind::ProtocolViolation)));
}

#[test]
fn allocate_success_without_lifetime_fails() {
    let mut alloc =
        Allocate::new(AuthParams::with_realm_and_nonce("foo", "bar", "baz", "qux").unwrap());
    let resp = StunMessage::new(MessageClass::SuccessResponse, Method::Allocate, 1);
    assert!(matches!(alloc.handle_allocate_response(&resp), Err(ErrorKind::ProtocolViolation)));
}

#[test]
fn permission_then_send_and_data() {
    let mut server = server();
    let mut client = allocate(&mut server);
    client.take_actions();
    client.create_permission(peer_addr());
    let mut cs = calls(&mut client);
    assert_eq!(cs.len(), 1);
    let (t, req) = cs.remove(0);
    assert_eq!(t, Transaction::CreatePermission(peer_addr()));
    server.handle_stun_request(client_addr(), &req, None);
    let resp = single_reply(&mut server);
    assert_eq!(resp.class, MessageClass::SuccessResponse);
    client.handle_create_permission_response(peer_addr(), &resp).unwrap();
    let acts = client.take_actions();
    assert!(acts.iter().any(|a| matches!(a, ClientAction::Reply(Operation::CreatePermission(_), Ok(())))));
    assert!(acts.iter().any(|a| matches!(a, ClientAction::Schedule(TimeoutEntry::Permission(_), 270))));

    client.start_send(peer_addr(), b"hello".to_vec()).unwrap();
    let mut acts = client.take_actions();
    assert_eq!(acts.len(), 1);
    let indication = match acts.remove(0) {
        ClientAction::Cast(m) => m,
        other => panic!("unexpected {:?}", other),
    };
    assert_eq!(indication.method, Method::Send);
    server.handle_send(client_addr(), &indication).unwrap();
    let mut out = server.take_actions();
    assert_eq!(out.len(), 1);
    match out.remove(0) {
        ServerAction::Relay { client, peer, data } => {
            assert_eq!(client, client_addr());
            assert_eq!(peer, peer_addr());
            assert_eq!(data, b"hello".to_vec());
        }
        other => panic!("unexpected {:?}", other),
    }

    server.handle_peer_datagram(client_addr(), peer_addr(), b"hello".to_vec()).unwrap();
    let mut out = server.take_actions();
    let data_ind = match out.remove(0) {
        ServerAction::Cast(c, m) => {
            assert_eq!(c, client_addr());
            m
        }
        other => panic!("unexpected {:?}", other),
    };
    assert_eq!(data_ind.xor_peer_address(), Some(peer_addr()));
    let (peer, data) = client.handle_stun_message(&data_ind).unwrap();
    assert_eq!(peer, peer_addr());
    assert_eq!(data, b"hello".to_vec());
}

#[test]
fn channel_data_path() {
    let mut server = server();
    let mut client = allocate(&mut server);
    client.take_actions();
    client.channel_bind(peer_addr());
    let mut cs = calls(&mut client);
    let (_, req) = cs.remove(0);
    assert_eq!(req.channel_number().unwrap().number(), 0x4000);
    server.handle_stun_request(client_addr(), &req, None);
    let resp = single_reply(&mut server);
    assert_eq!(resp.class, MessageClass::SuccessResponse);
    client.handle_channel_bind_response(peer_addr(), &resp).unwrap();
    let acts = client.take_actions();
    assert!(acts.iter().any(|a| matches!(a, ClientAction::Schedule(TimeoutEntry::Channel(_), 540))));

    client.start_send(peer_addr(), b"hi".to_vec()).unwrap();
    let mut acts = client.take_actions();
    let cd = match acts.remove(0) {
        ClientAction::SendChannelData(cd) => cd,
        other => panic!("unexpected {:?}", other),
    };
    assert_eq!(cd.encode(false), vec![0x40, 0x00, 0x00, 0x02, b'h', b'i']);
    server.handle_channel_data(client_addr(), cd).unwrap();
    match server.take_actions().remove(0) {
        ServerAction::Relay { peer, data, .. } => {
            assert_eq!(peer, peer_addr());
            assert_eq!(data, b"hi".to_vec());
        }
        other => panic!("unexpected {:?}", other),
    }

    server.handle_peer_datagram(client_addr(), peer_addr(), b"yo".to_vec()).unwrap();
    let back = match server.take_actions().remove(0) {
        ServerAction::SendChannelData(_, cd) => cd,
        other => panic!("unexpected {:?}", other),
    };
    assert_eq!(back.channel_number().number(), 0x4000);
    let (peer, data) = client.handle_channel_data(back).unwrap();
    assert_eq!(peer, peer_addr());
    assert_eq!(data, b"yo".to_vec());
}

#[test]
fn channel_bind_twice_keeps_number() {
    let mut server = server();
    let mut client = allocate(&mut server);
    client.take_actions();
    client.channel_bind(peer_addr());
    let (_, first) = calls(&mut client).remove(0);
    client.channel_bind(peer_addr());
    let (_, second) = calls(&mut client).remove(0);
    assert_eq!(first.channel_number(), second.channel_number());
    let other = SocketAddress::v4(127, 0, 0, 1, 2001);
    client.channel_bind(other);
    let (_, third) = calls(&mut client).remove(0);
    assert_eq!(third.channel_number().unwrap().number(), 0x4001);
    assert_eq!(client.channel_state(&other).unwrap().channel_number().number(), 0x4001);
}

#[test]
fn create_permission_twice_one_permission() {
    let mut server = server();
    let mut client = allocate(&mut server);
    client.take_actions();
    client.create_permission(peer_addr());
    client.create_permission(SocketAddress::v4(127, 0, 0, 1, 3000));
    assert_eq!(calls(&mut client).len(), 2);
    assert!(client.permission_state(&peer_addr().ip()).is_some());
}

#[test]
fn stale_nonce_recovery() {
    let mut server = server();
    let mut client = allocate(&mut server);
    client.take_actions();
    client.handle_timeout(TimeoutEntry::Refresh).unwrap();
    let (t, req) = calls(&mut client).remove(0);
    assert_eq!(t, Transaction::Refresh);
    assert_eq!(req.lifetime(), Some(600));
    let mut stale = StunMessage::new(MessageClass::ErrorResponse, Method::Refresh, req.transaction_id);
    stale.add_attribute(Attribute::ErrorCode(ErrorCode::stale_nonce()));
    stale.add_attribute(Attribute::Nonce(Nonce::new("new").unwrap()));
    client.handle_refresh_response(&stale).unwrap();
    assert_eq!(client.auth_params().get_nonce().unwrap().value(), "new");
    let (_, retry) = calls(&mut client).remove(0);
    assert_eq!(retry.nonce().unwrap().value(), "new");
    server.handle_stun_request(client_addr(), &retry, None);
    let ok = single_reply(&mut server);
    client.handle_refresh_response(&ok).unwrap();
    let acts = client.take_actions();
    assert!(acts.iter().any(|a| matches!(a, ClientAction::Schedule(TimeoutEntry::Refresh, 540))));
    // A second stale nonce on the same refresh is surfaced.
    client.handle_refresh_response(&stale).unwrap();
    calls(&mut client);
    assert_eq!(client.handle_refresh_response(&stale), Err(ErrorKind::Other));
}

#[test]
fn teardown_then_send_gets_allocation_mismatch() {
    let mut server = server();
    let mut client = allocate(&mut server);
    client.take_actions();
    client.start_teardown().unwrap();
    let (t, refresh) = calls(&mut client).remove(0);
    assert_eq!(t, Transaction::Refresh);
    assert_eq!(refresh.lifetime(), Some(0));
    server.handle_stun_request(client_addr(), &refresh, None);
    let acts = server.take_actions();
    assert!(acts.iter().any(|a| matches!(a, ServerAction::ReleaseRelay(r) if *r == relay_addr())));
    let ok = acts.into_iter().find_map(|a| match a {
        ServerAction::Reply(_, m) => Some(deliver(m)),
        _ => None,
    }).unwrap();
    assert_eq!(ok.lifetime(), Some(0));
    client.handle_refresh_response(&ok).unwrap();
    assert!(!client.is_allocated());
    assert!(client.take_actions().is_empty());
    client.handle_timeout(TimeoutEntry::Refresh).unwrap();
    assert!(client.take_actions().is_empty());

    let mut perm = StunMessage::new(MessageClass::Request, Method::CreatePermission, 0);
    perm.add_attribute(Attribute::XorPeerAddress(rusturn::attributes::XorPeerAddress::new(peer_addr())));
    client.auth_params().add_auth_attributes(&mut perm).unwrap();
    server.handle_stun_request(client_addr(), &deliver(perm), None);
    assert_eq!(single_reply(&mut server).error_code(), Some(437));

    let mut send = StunMessage::new(MessageClass::Indication, Method::Send, 0);
    send.add_attribute(Attribute::XorPeerAddress(rusturn::attributes::XorPeerAddress::new(peer_addr())));
    send.add_attribute(Attribute::Data(rusturn::attributes::Data::new(b"late".to_vec()).unwrap()));
    assert_eq!(server.handle_send(client_addr(), &send), Err(ErrorKind::InvalidInput));
    let acts = server.take_actions();
    assert_eq!(acts.len(), 1);
    match &acts[0] {
        ServerAction::Reply(c, m) => {
            assert_eq!(*c, client_addr());
            assert_eq!(m.class, MessageClass::ErrorResponse);
            assert_eq!(m.method, Method::Send);
            assert_eq!(m.error_code(), Some(437));
        }
        other => panic!("unexpected {:?}", other),
    }
}

#[test]
fn client_rejects_request() {
    let mut server = server();
    let client = allocate(&mut server);
    let req = StunMessage::new(MessageClass::Request, Method::Send, 0);
    assert_eq!(client.handle_stun_message(&req).unwrap_err(), ErrorKind::ProtocolViolation);
}

#[test]
fn send_to_unknown_peer_fails() {
    let mut server = server();
    let mut client = allocate(&mut server);
    assert_eq!(client.start_send(peer_addr(), b"x".to_vec()), Err(ErrorKind::InvalidInput));
}

#[test]
fn unpermitted_peer_datagram_dropped() {
    let mut server = server();
    let _client = allocate(&mut server);
    server.take_actions();
    assert!(server.handle_peer_datagram(client_addr(), peer_addr(), b"x".to_vec()).is_err());
    assert!(server.take_actions().is_empty());
}

fn signed(mut m: StunMessage) -> StunMessage {
    AuthParams::with_realm_and_nonce("foo", "bar", "baz", "qux")
        .unwrap()
        .add_auth_attributes(&mut m)
        .unwrap();
    deliver(m)
}

fn allocate_request(attrs: Vec<Attribute>) -> StunMessage {
    let mut req = StunMessage::new(MessageClass::Request, Method::Allocate, 9);
    for a in attrs {
        req.add_attribute(a);
    }
    signed(req)
}

#[test]
fn server_allocate_errors() {
    let mut server = server();
    server.handle_stun_request(client_addr(), &allocate_request(vec![]), Some(relay_addr()));
    let acts = server.take_actions();
    assert!(acts.iter().any(|a| matches!(a, ServerAction::ReleaseRelay(_))));
    let r = acts.into_iter().find_map(|a| match a {
        ServerAction::Reply(_, m) => Some(m),
        _ => None,
    });
    assert_eq!(r.unwrap().error_code(), Some(400));

    let req = allocate_request(vec![Attribute::RequestedTransport(RequestedTransport::new(6))]);
    server.handle_stun_request(client_addr(), &req, None);
    assert_eq!(single_reply(&mut server).error_code(), Some(442));

    let req = allocate_request(vec![
        Attribute::RequestedTransport(RequestedTransport::udp()),
        Attribute::EvenPort(EvenPort::new(true)),
    ]);
    server.handle_stun_request(client_addr(), &req, None);
    let r = single_reply(&mut server);
    assert_eq!(r.error_code(), Some(420));
    assert!(r.attributes.iter().any(|a| matches!(a, Attribute::UnknownAttributes(t) if t == &vec![0x0018])));

    let req = allocate_request(vec![Attribute::RequestedTransport(RequestedTransport::udp())]);
    server.handle_stun_request(client_addr(), &req, None);
    assert_eq!(single_reply(&mut server).error_code(), Some(508));

    server.handle_stun_request(client_addr(), &req, Some(relay_addr()));
    assert_eq!(single_reply(&mut server).lifetime(), Some(600));
    server.handle_stun_request(client_addr(), &req, Some(relay_addr()));
    assert_eq!(single_reply(&mut server).error_code(), Some(437));
}

#[test]
fn server_credential_checks() {
    let mut server = server();
    let mut req = StunMessage::new(MessageClass::Request, Method::Allocate, 9);
    req.add_attribute(Attribute::RequestedTransport(RequestedTransport::udp()));
    req.integrity = Integrity::Valid;
    server.handle_stun_request(client_addr(), &req, None);
    assert_eq!(single_reply(&mut server).error_code(), Some(400));

    let mut bad = allocate_request(vec![Attribute::RequestedTransport(RequestedTransport::udp())]);
    bad.integrity = Integrity::Invalid;
    server.handle_stun_request(client_addr(), &bad, None);
    let r = single_reply(&mut server);
    assert_eq!(r.error_code(), Some(401));
    assert_eq!(r.realm().unwrap().text(), "baz");
    assert_eq!(r.nonce().unwrap().value(), "qux");

    let response = StunMessage::new(MessageClass::SuccessResponse, Method::Refresh, 3);
    assert_eq!(
        server.handle_stun_message(client_addr(), &response, None),
        Err(ErrorKind::ProtocolViolation)
    );
    let data = StunMessage::new(MessageClass::Indication, Method::Data, 3);
    assert_eq!(
        server.handle_stun_message(client_addr(), &data, None),
        Err(ErrorKind::Unsupported)
    );
    let unknown = signed(StunMessage::new(MessageClass::Request, Method::Binding, 4));
    assert_eq!(server.handle_stun_message(client_addr(), &unknown, None), Ok(()));
    assert_eq!(single_reply(&mut server).error_code(), Some(400));
}

#[test]
fn stale_timeouts_are_ignored() {
    let mut server = server();
    let _client = allocate(&mut server);
    assert!(server.take_actions().is_empty());
    // The allocation was made with sequence number 0; a timer with another one is stale.
    server.handle_timeout(ServerTimeout::Allocation { client: client_addr(), seqno: 5 });
    assert!(server.take_actions().is_empty());
    server.handle_timeout(ServerTimeout::Allocation { client: client_addr(), seqno: 0 });
    let acts = server.take_actions();
    assert!(matches!(acts[0], ServerAction::ReleaseRelay(_)));
}

#[test]
fn channel_data_unknown_channel_on_client() {
    let mut server = server();
    let client = allocate(&mut server);
    let cd = ChannelData::new(ChannelNumber::new(0x4005).unwrap(), vec![1]).unwrap();
    assert_eq!(client.handle_channel_data(cd).unwrap_err(), ErrorKind::ProtocolViolation);
}
