use vstd::prelude::*;

use crate::attributes::{
    ChannelNumber, Data, Lifetime, XorPeerAddress, XorRelayedAddress, DATA_MAX_LEN, PROTOCOL_UDP,
    TYPE_CHANNEL_NUMBER, TYPE_DATA, TYPE_DONT_FRAGMENT, TYPE_EVEN_PORT, TYPE_LIFETIME,
    TYPE_NONCE, TYPE_REALM, TYPE_REQUESTED_TRANSPORT, TYPE_RESERVATION_TOKEN, TYPE_USERNAME,
    TYPE_XOR_PEER_ADDRESS,
};
use crate::auth::{authenticated, AuthParams, AuthView};
use crate::channel_data::ChannelData;
use crate::error::ErrorKind;
use crate::errors::{
    AllocationMismatch, ErrorCode, InsufficientCapacity, UnsupportedTransportProtocol,
    CODE_ALLOCATION_MISMATCH, CODE_BAD_REQUEST, CODE_INSUFFICIENT_CAPACITY, CODE_UNAUTHORIZED,
    CODE_UNKNOWN_ATTRIBUTE, CODE_UNSUPPORTED_TRANSPORT_PROTOCOL,
};
use crate::message::{
    first_of, has_type, Attribute, AttributeView, Integrity, MessageClass, MessageView,
    StunMessage,
};
use crate::methods::Method;
use crate::table::Table;
use crate::types::{IpAddress, SocketAddress};

verus! {

/// Lifetime of a new allocation, in seconds.
pub const ALLOCATION_LIFETIME_SECONDS: u32 = 600;
/// Lifetime of a permission, in seconds.
pub const PERMISSION_LIFETIME_SECONDS: u32 = 300;
/// Lifetime of a channel binding, in seconds.
pub const CHANNEL_LIFETIME_SECONDS: u32 = 600;

/// A channel of an allocation: the peer it is bound to, and the sequence number of its
/// latest refresh.
#[derive(Debug, Clone, Copy, PartialEq, Eq, Structural, Hash)]
pub struct ChannelBinding {
    pub peer: SocketAddress,
    pub seqno: u64,
}

/// What a server timer stands for. Each carries the sequence number of the refresh that
/// scheduled it; a later refresh makes it stale.
#[derive(Debug, Clone, Copy, PartialEq, Eq, Structural, Hash)]
pub enum ServerTimeout {
    Allocation { client: SocketAddress, seqno: u64 },
    Permission { client: SocketAddress, peer: IpAddress, seqno: u64 },
    Channel { client: SocketAddress, channel_number: ChannelNumber, seqno: u64 },
}

/// Work for the event loop that drives the server.
#[derive(Debug)]
pub enum ServerAction {
    /// Send a response to a client.
    Reply(SocketAddress, StunMessage),
    /// Send an indication to a client.
    Cast(SocketAddress, StunMessage),
    /// Send a ChannelData message to a client.
    SendChannelData(SocketAddress, ChannelData),
    /// Send a datagram from the relay socket of the client's allocation to a peer.
    Relay { client: SocketAddress, peer: SocketAddress, data: Vec<u8> },
    /// Hand the entry back after this many seconds.
    Schedule(ServerTimeout, u32),
    /// The relay socket bound to this address is no longer used.
    ReleaseRelay(SocketAddress),
}

pub ghost enum ServerActionView {
    Reply(SocketAddress, MessageView),
    Cast(SocketAddress, MessageView),
    SendChannelData(SocketAddress, u16, Seq<u8>),
    Relay(SocketAddress, SocketAddress, Seq<u8>),
    Schedule(ServerTimeout, u32),
    ReleaseRelay(SocketAddress),
}

impl View for ServerAction {
    type V = ServerActionView;

    open spec fn view(&self) -> ServerActionView {
        match self {
            ServerAction::Reply(c, m) => ServerActionView::Reply(*c, m@),
            ServerAction::Cast(c, m) => ServerActionView::Cast(*c, m@),
            ServerAction::SendChannelData(c, d) => ServerActionView::SendChannelData(*c, d@.0, d@.1),
            ServerAction::Relay { client, peer, data } => ServerActionView::Relay(
                *client,
                *peer,
                data@,
            ),
            ServerAction::Schedule(e, s) => ServerActionView::Schedule(*e, *s),
            ServerAction::ReleaseRelay(a) => ServerActionView::ReleaseRelay(*a),
        }
    }
}

/// The allocation of one client.
#[derive(Debug)]
pub struct AllocationState {
    seqno: u64,
    relay_addr: SocketAddress,
    permissions: Table<IpAddress, u64>,
    channels: Table<ChannelNumber, ChannelBinding>,
}

pub ghost struct AllocationView {
    pub seqno: u64,
    pub relay_addr: SocketAddress,
    pub permissions: Map<IpAddress, u64>,
    pub channels: Map<ChannelNumber, ChannelBinding>,
}

impl View for AllocationState {
    type V = AllocationView;

    closed spec fn view(&self) -> AllocationView {
        AllocationView {
            seqno: self.seqno,
            relay_addr: self.relay_addr,
            permissions: self.permissions@,
            channels: self.channels@,
        }
    }
}

/// Channel numbers and peers of an allocation correspond one to one.
pub open spec fn channels_one_to_one(channels: Map<ChannelNumber, ChannelBinding>) -> bool {
    forall|a: ChannelNumber, b: ChannelNumber|
        #[trigger] channels.contains_key(a) && #[trigger] channels.contains_key(b) && a != b
            ==> channels[a].peer != channels[b].peer
}

impl AllocationState {
    pub closed spec fn wf(&self) -> bool {
        self.permissions.wf() && self.channels.wf() && channels_one_to_one(self.channels@)
    }

    /// The channel bound to `peer`, if any.
    fn channel_of_peer(&self, peer: &SocketAddress) -> (r: Option<ChannelNumber>)
        requires
            self.wf(),
        ensures
            r is None ==> !bound_peer(self@.channels, *peer),
            r is Some ==> self@.channels.contains_key(r->0) && self@.channels[r->0].peer == *peer,
            r is Some ==> r->0 == channel_of(self@.channels, *peer),
    {
        proof {
            self.channels.lemma_entries();
        }
        let mut i: usize = 0;
        while i < self.channels.len()
            invariant
                i <= self.channels.entries().len(),
                self.channels.wf(),
                channels_one_to_one(self.channels@),
                forall|j: int|
                    0 <= j < i ==> (#[trigger] self.channels.entries()[j]).1.peer != *peer,
            decreases self.channels.entries().len() - i,
        {
            let e = self.channels.entry(i);
            if e.1.peer == *peer {
                let n = e.0;
                proof {
                    self.channels.lemma_entries();
                    assert(self@.channels.contains_key(n));
                    let c = channel_of(self@.channels, *peer);
                    assert(self@.channels.contains_key(c) && self@.channels[c].peer == *peer);
                    assert(channels_one_to_one(self@.channels));
                    if c != n {
                        assert(self@.channels[c].peer != self@.channels[n].peer);
                    }
                }
                return Some(n);
            }
            i = i + 1;
        }
        proof {
            self.channels.lemma_entries();
            assert forall|n: ChannelNumber| #[trigger]
                self@.channels.contains_key(n) implies self@.channels[n].peer != *peer by {
                let j = choose|j: int|
                    0 <= j < self.channels.entries().len() && #[trigger] self.channels.entries()[j].0
                        == n;
                assert(self.channels.entries()[j].1.peer != *peer);
            }
        }
        None
    }
}

pub ghost struct ServerView {
    pub auth: AuthView,
    pub seqno: u64,
    pub allocations: Map<SocketAddress, AllocationView>,
    pub actions: Seq<ServerActionView>,
}

/// The sequence number after `n`, wrapping.
pub open spec fn next_seqno(n: u64) -> u64 {
    if n < u64::MAX {
        (n + 1) as u64
    } else {
        0
    }
}

/// A response to `request` with these attributes.
pub open spec fn response_view(
    class: MessageClass,
    request: MessageView,
    attributes: Seq<AttributeView>,
) -> MessageView {
    MessageView {
        class,
        method: request.method,
        transaction_id: request.transaction_id,
        attributes,
        integrity: Integrity::Absent,
    }
}

pub open spec fn error_response(request: MessageView, code: u16) -> MessageView {
    response_view(MessageClass::ErrorResponse, request, seq![AttributeView::ErrorCode(code)])
}

/// 401 with the realm and nonce the client must use.
pub open spec fn unauthorized_response(a: AuthView, request: MessageView) -> MessageView {
    response_view(
        MessageClass::ErrorResponse,
        request,
        seq![
            AttributeView::ErrorCode(CODE_UNAUTHORIZED),
            AttributeView::Realm(a.realm->0),
            AttributeView::Nonce(a.nonce->0),
        ],
    )
}

/// A success response with these attributes, signed with the server's credentials.
pub open spec fn success_response(
    a: AuthView,
    request: MessageView,
    attributes: Seq<AttributeView>,
) -> MessageView {
    authenticated(response_view(MessageClass::SuccessResponse, request, attributes), a)
}

/// The options this server refuses that a request carries: DONT-FRAGMENT, RESERVATION-TOKEN,
/// EVEN-PORT, in this order.
pub open spec fn refused_options(m: MessageView) -> Seq<u16> {
    (if has_type(m.attributes, TYPE_DONT_FRAGMENT) {
        seq![TYPE_DONT_FRAGMENT]
    } else {
        Seq::empty()
    }) + (if has_type(m.attributes, TYPE_RESERVATION_TOKEN) {
        seq![TYPE_RESERVATION_TOKEN]
    } else {
        Seq::empty()
    }) + (if has_type(m.attributes, TYPE_EVEN_PORT) {
        seq![TYPE_EVEN_PORT]
    } else {
        Seq::empty()
    })
}

pub open spec fn requested_transport_of(m: MessageView) -> Option<u8> {
    match first_of(m.attributes, TYPE_REQUESTED_TRANSPORT) {
        Some(AttributeView::RequestedTransport(p)) => Some(p),
        _ => None,
    }
}

/// Why a request's credentials are refused, as an error code: 401 without MESSAGE-INTEGRITY
/// or when it does not check, 400 when USERNAME, REALM or NONCE is missing beside it.
pub open spec fn credential_failure(m: MessageView) -> Option<u16> {
    if m.integrity == Integrity::Absent || m.integrity == Integrity::Sign {
        Some(CODE_UNAUTHORIZED)
    } else if !has_type(m.attributes, TYPE_USERNAME) || !has_type(m.attributes, TYPE_REALM)
        || !has_type(m.attributes, TYPE_NONCE) {
        Some(CODE_BAD_REQUEST)
    } else if m.integrity == Integrity::Invalid {
        Some(CODE_UNAUTHORIZED)
    } else {
        None
    }
}

/// The reply to a request whose credentials are refused with `code`.
pub open spec fn credential_reply(a: AuthView, m: MessageView, code: u16) -> MessageView {
    if code == CODE_UNAUTHORIZED {
        unauthorized_response(a, m)
    } else {
        error_response(m, code)
    }
}

pub open spec fn refuse_credentials(s: ServerView, client: SocketAddress, m: MessageView) -> ServerView {
    push_action(
        s,
        ServerActionView::Reply(client, credential_reply(s.auth, m, credential_failure(m)->0)),
    )
}

pub open spec fn push_action(s: ServerView, a: ServerActionView) -> ServerView {
    ServerView { actions: s.actions.push(a), ..s }
}

pub open spec fn release(s: ServerView, relay: Option<SocketAddress>) -> ServerView {
    match relay {
        Some(r) => push_action(s, ServerActionView::ReleaseRelay(r)),
        None => s,
    }
}

/// What an ALLOCATE request from `client` does to the server, given the address of a relay
/// socket freshly bound for it, if one could be bound.
pub open spec fn allocate_outcome(
    s: ServerView,
    client: SocketAddress,
    m: MessageView,
    relay: Option<SocketAddress>,
) -> ServerView {
    if credential_failure(m) is Some {
        release(refuse_credentials(s, client, m), relay)
    } else if s.allocations.contains_key(client) {
        release(
            push_action(
                s,
                ServerActionView::Reply(client, error_response(m, CODE_ALLOCATION_MISMATCH)),
            ),
            relay,
        )
    } else if requested_transport_of(m) is None {
        release(
            push_action(s, ServerActionView::Reply(client, error_response(m, CODE_BAD_REQUEST))),
            relay,
        )
    } else if requested_transport_of(m)->0 != PROTOCOL_UDP {
        release(
            push_action(
                s,
                ServerActionView::Reply(
                    client,
                    error_response(m, CODE_UNSUPPORTED_TRANSPORT_PROTOCOL),
                ),
            ),
            relay,
        )
    } else if refused_options(m).len() > 0 {
        release(
            push_action(
                s,
                ServerActionView::Reply(
                    client,
                    response_view(
                        MessageClass::ErrorResponse,
                        m,
                        seq![
                            AttributeView::ErrorCode(CODE_UNKNOWN_ATTRIBUTE),
                            AttributeView::UnknownAttributes(refused_options(m)),
                        ],
                    ),
                ),
            ),
            relay,
        )
    } else if relay is None {
        push_action(s, ServerActionView::Reply(client, error_response(m, CODE_INSUFFICIENT_CAPACITY)))
    } else {
        let r = relay->0;
        ServerView {
            seqno: next_seqno(s.seqno),
            allocations: s.allocations.insert(
                client,
                AllocationView {
                    seqno: s.seqno,
                    relay_addr: r,
                    permissions: Map::empty(),
                    channels: Map::empty(),
                },
            ),
            actions: s.actions.push(
                ServerActionView::Schedule(
                    ServerTimeout::Allocation { client, seqno: s.seqno },
                    ALLOCATION_LIFETIME_SECONDS,
                ),
            ).push(
                ServerActionView::Reply(
                    client,
                    success_response(
                        s.auth,
                        m,
                        seq![
                            AttributeView::Lifetime(ALLOCATION_LIFETIME_SECONDS),
                            AttributeView::XorRelayAddress(r),
                        ],
                    ),
                ),
            ),
            ..s
        }
    }
}


pub open spec fn lifetime_of(m: MessageView) -> Option<u32> {
    match first_of(m.attributes, TYPE_LIFETIME) {
        Some(AttributeView::Lifetime(l)) => Some(l),
        _ => None,
    }
}

pub open spec fn peer_of(m: MessageView) -> Option<SocketAddress> {
    match first_of(m.attributes, TYPE_XOR_PEER_ADDRESS) {
        Some(AttributeView::XorPeerAddress(p)) => Some(p),
        _ => None,
    }
}

pub open spec fn data_of(m: MessageView) -> Option<Seq<u8>> {
    match first_of(m.attributes, TYPE_DATA) {
        Some(AttributeView::Data(d)) => Some(d),
        _ => None,
    }
}

pub open spec fn channel_number_of(m: MessageView) -> Option<ChannelNumber> {
    match first_of(m.attributes, TYPE_CHANNEL_NUMBER) {
        Some(AttributeView::ChannelNumber(n)) => Some(n),
        _ => None,
    }
}

/// The reply to a request that failed its checks, before any change of state.
pub open spec fn refuse(s: ServerView, client: SocketAddress, m: MessageView, code: u16) -> ServerView {
    push_action(s, ServerActionView::Reply(client, error_response(m, code)))
}

/// What a REFRESH request from `client` does to the server. A lifetime of zero removes the
/// allocation; another one extends it by that many seconds.
pub open spec fn refresh_outcome(s: ServerView, client: SocketAddress, m: MessageView) -> ServerView {
    if credential_failure(m) is Some {
        refuse_credentials(s, client, m)
    } else if lifetime_of(m) is None {
        refuse(s, client, m, CODE_BAD_REQUEST)
    } else if !s.allocations.contains_key(client) {
        refuse(s, client, m, CODE_ALLOCATION_MISMATCH)
    } else {
        let l = lifetime_of(m)->0;
        let a = s.allocations[client];
        let reply = ServerActionView::Reply(
            client,
            success_response(s.auth, m, seq![AttributeView::Lifetime(l)]),
        );
        if l == 0 {
            ServerView {
                allocations: s.allocations.remove(client),
                actions: s.actions.push(ServerActionView::ReleaseRelay(a.relay_addr)).push(reply),
                ..s
            }
        } else {
            ServerView {
                seqno: next_seqno(s.seqno),
                allocations: s.allocations.insert(client, AllocationView { seqno: s.seqno, ..a }),
                actions: s.actions.push(
                    ServerActionView::Schedule(
                        ServerTimeout::Allocation { client, seqno: s.seqno },
                        l,
                    ),
                ).push(reply),
                ..s
            }
        }
    }
}

/// What a CREATE-PERMISSION request from `client` does to the server: the permission for
/// the peer's IP is installed or refreshed for 300 seconds.
pub open spec fn create_permission_outcome(
    s: ServerView,
    client: SocketAddress,
    m: MessageView,
) -> ServerView {
    if credential_failure(m) is Some {
        refuse_credentials(s, client, m)
    } else if peer_of(m) is None {
        refuse(s, client, m, CODE_BAD_REQUEST)
    } else if !s.allocations.contains_key(client) {
        refuse(s, client, m, CODE_ALLOCATION_MISMATCH)
    } else {
        let ip = peer_of(m)->0.ip;
        let a = s.allocations[client];
        ServerView {
            seqno: next_seqno(s.seqno),
            allocations: s.allocations.insert(
                client,
                AllocationView { permissions: a.permissions.insert(ip, s.seqno), ..a },
            ),
            actions: s.actions.push(
                ServerActionView::Reply(client, success_response(s.auth, m, Seq::empty())),
            ).push(
                ServerActionView::Schedule(
                    ServerTimeout::Permission { client, peer: ip, seqno: s.seqno },
                    PERMISSION_LIFETIME_SECONDS,
                ),
            ),
            ..s
        }
    }
}

/// Whether binding `n` to `peer` would break the one-to-one relation of numbers and peers.
pub open spec fn binding_conflicts(
    channels: Map<ChannelNumber, ChannelBinding>,
    n: ChannelNumber,
    peer: SocketAddress,
) -> bool {
    (channels.contains_key(n) && channels[n].peer != peer) || exists|o: ChannelNumber|
        #[trigger] channels.contains_key(o) && o != n && channels[o].peer == peer
}

/// What a CHANNEL-BIND request from `client` does to the server: the channel is bound or
/// refreshed for 600 seconds, together with a permission for the peer's IP for 300 seconds.
pub open spec fn channel_bind_outcome(s: ServerView, client: SocketAddress, m: MessageView) -> ServerView {
    if credential_failure(m) is Some {
        refuse_credentials(s, client, m)
    } else if peer_of(m) is None || channel_number_of(m) is None {
        refuse(s, client, m, CODE_BAD_REQUEST)
    } else if !s.allocations.contains_key(client) {
        refuse(s, client, m, CODE_ALLOCATION_MISMATCH)
    } else {
        let peer = peer_of(m)->0;
        let a = s.allocations[client];
        let n = channel_number_of(m)->0;
        if binding_conflicts(a.channels, n, peer) {
            refuse(s, client, m, CODE_BAD_REQUEST)
        } else {
            ServerView {
                seqno: next_seqno(s.seqno),
                allocations: s.allocations.insert(
                    client,
                    AllocationView {
                        channels: a.channels.insert(n, ChannelBinding { peer, seqno: s.seqno }),
                        permissions: a.permissions.insert(peer.ip, s.seqno),
                        ..a
                    },
                ),
                actions: s.actions.push(
                    ServerActionView::Reply(client, success_response(s.auth, m, Seq::empty())),
                ).push(
                    ServerActionView::Schedule(
                        ServerTimeout::Channel { client, channel_number: n, seqno: s.seqno },
                        CHANNEL_LIFETIME_SECONDS,
                    ),
                ).push(
                    ServerActionView::Schedule(
                        ServerTimeout::Permission { client, peer: peer.ip, seqno: s.seqno },
                        PERMISSION_LIFETIME_SECONDS,
                    ),
                ),
                ..s
            }
        }
    }
}


/// A DATA indication carrying a datagram from `peer`.
pub open spec fn data_indication(peer: SocketAddress, data: Seq<u8>) -> MessageView {
    MessageView {
        class: MessageClass::Indication,
        method: Method::Data,
        transaction_id: 0,
        attributes: seq![AttributeView::XorPeerAddress(peer), AttributeView::Data(data)],
        integrity: Integrity::Absent,
    }
}

/// Whether some channel of the allocation is bound to `peer`.
pub open spec fn bound_peer(channels: Map<ChannelNumber, ChannelBinding>, peer: SocketAddress) -> bool {
    exists|n: ChannelNumber| #[trigger] channels.contains_key(n) && channels[n].peer == peer
}

/// The channel bound to `peer`.
pub open spec fn channel_of(channels: Map<ChannelNumber, ChannelBinding>, peer: SocketAddress) -> ChannelNumber {
    choose|n: ChannelNumber| #[trigger] channels.contains_key(n) && channels[n].peer == peer
}

/// What a SEND indication from `client` does: without an allocation it is answered with 437;
/// otherwise its payload goes from the relay socket to the peer if the peer's IP has a
/// permission, and else it is dropped.
pub open spec fn send_outcome(s: ServerView, client: SocketAddress, m: MessageView) -> (
    ServerView,
    Result<(), ErrorKind>,
) {
    if !s.allocations.contains_key(client) {
        (
            push_action(
                s,
                ServerActionView::Reply(client, error_response(m, CODE_ALLOCATION_MISMATCH)),
            ),
            Err(ErrorKind::InvalidInput),
        )
    } else if peer_of(m) is Some && data_of(m) is Some
        && s.allocations[client].permissions.contains_key(peer_of(m)->0.ip) {
        (
            push_action(s, ServerActionView::Relay(client, peer_of(m)->0, data_of(m)->0)),
            Ok(()),
        )
    } else {
        (s, Err(ErrorKind::InvalidInput))
    }
}

/// What a ChannelData message from `client` does: its payload goes from the relay socket to
/// the peer bound to the channel; an unknown channel drops it.
pub open spec fn channel_data_outcome(
    s: ServerView,
    client: SocketAddress,
    n: ChannelNumber,
    data: Seq<u8>,
) -> (ServerView, Result<(), ErrorKind>) {
    if s.allocations.contains_key(client) && s.allocations[client].channels.contains_key(n) {
        (
            push_action(
                s,
                ServerActionView::Relay(client, s.allocations[client].channels[n].peer, data),
            ),
            Ok(()),
        )
    } else {
        (s, Err(ErrorKind::InvalidInput))
    }
}

/// What a datagram from `peer` on the relay socket of `client`'s allocation does: it goes
/// to the client as ChannelData on the peer's channel, else as a DATA indication if the
/// peer's IP has a permission, else it is dropped.
pub open spec fn peer_datagram_outcome(
    s: ServerView,
    client: SocketAddress,
    peer: SocketAddress,
    data: Seq<u8>,
) -> (ServerView, Result<(), ErrorKind>) {
    if !s.allocations.contains_key(client) || data.len() > 0xFFFF {
        (s, Err(ErrorKind::InvalidInput))
    } else {
        let a = s.allocations[client];
        if bound_peer(a.channels, peer) {
            (
                push_action(
                    s,
                    ServerActionView::SendChannelData(
                        client,
                        channel_of(a.channels, peer).spec_number(),
                        data,
                    ),
                ),
                Ok(()),
            )
        } else if a.permissions.contains_key(peer.ip) {
            (push_action(s, ServerActionView::Cast(client, data_indication(peer, data))), Ok(()))
        } else {
            (s, Err(ErrorKind::InvalidInput))
        }
    }
}

/// What a timer does: it removes its allocation, permission or channel only if no refresh
/// came since it was scheduled.
pub open spec fn timeout_outcome(s: ServerView, e: ServerTimeout) -> ServerView {
    match e {
        ServerTimeout::Allocation { client, seqno } => {
            if s.allocations.contains_key(client) && s.allocations[client].seqno == seqno {
                ServerView {
                    allocations: s.allocations.remove(client),
                    actions: s.actions.push(
                        ServerActionView::ReleaseRelay(s.allocations[client].relay_addr),
                    ),
                    ..s
                }
            } else {
                s
            }
        },
        ServerTimeout::Permission { client, peer, seqno } => {
            if s.allocations.contains_key(client) && s.allocations[client].permissions.contains_key(
                peer,
            ) && s.allocations[client].permissions[peer] == seqno {
                let a = s.allocations[client];
                ServerView {
                    allocations: s.allocations.insert(
                        client,
                        AllocationView { permissions: a.permissions.remove(peer), ..a },
                    ),
                    ..s
                }
            } else {
                s
            }
        },
        ServerTimeout::Channel { client, channel_number, seqno } => {
            if s.allocations.contains_key(client) && s.allocations[client].channels.contains_key(
                channel_number,
            ) && s.allocations[client].channels[channel_number].seqno == seqno {
                let a = s.allocations[client];
                ServerView {
                    allocations: s.allocations.insert(
                        client,
                        AllocationView { channels: a.channels.remove(channel_number), ..a },
                    ),
                    ..s
                }
            } else {
                s
            }
        },
    }
}

/// What a request from `client` does, by its method; an unknown method gets 400. A relay
/// socket bound for anything but ALLOCATE is released.
pub open spec fn request_outcome(
    s: ServerView,
    client: SocketAddress,
    m: MessageView,
    relay: Option<SocketAddress>,
) -> ServerView {
    match m.method {
        Method::Allocate => allocate_outcome(s, client, m, relay),
        Method::Refresh => release(refresh_outcome(s, client, m), relay),
        Method::CreatePermission => release(create_permission_outcome(s, client, m), relay),
        Method::ChannelBind => release(channel_bind_outcome(s, client, m), relay),
        _ => release(refuse(s, client, m, CODE_BAD_REQUEST), relay),
    }
}

/// What an indication from `client` does: SEND is relayed; other indications are not
/// supported.
pub open spec fn indication_outcome(s: ServerView, client: SocketAddress, m: MessageView) -> (
    ServerView,
    Result<(), ErrorKind>,
) {
    if m.method == Method::Send {
        send_outcome(s, client, m)
    } else {
        (s, Err(ErrorKind::Unsupported))
    }
}

/// What a STUN message from `client` does: requests and indications are handled, a
/// response breaks the protocol. A relay socket bound for anything but ALLOCATE is released.
pub open spec fn message_outcome(
    s: ServerView,
    client: SocketAddress,
    m: MessageView,
    relay: Option<SocketAddress>,
) -> (ServerView, Result<(), ErrorKind>) {
    if m.class == MessageClass::Request {
        (request_outcome(s, client, m, relay), Ok(()))
    } else if m.class == MessageClass::Indication {
        (release(indication_outcome(s, client, m).0, relay), indication_outcome(s, client, m).1)
    } else {
        (release(s, relay), Err(ErrorKind::ProtocolViolation))
    }
}

/// The TURN server: one allocation per client, each with its permissions and channels. It
/// decides; the event loop around it owns the sockets and the timers.
#[derive(Debug)]
pub struct ServerCore {
    auth_params: AuthParams,
    seqno: u64,
    allocations: Table<SocketAddress, AllocationState>,
    actions: Vec<ServerAction>,
}

impl View for ServerCore {
    type V = ServerView;

    closed spec fn view(&self) -> ServerView {
        ServerView {
            auth: self.auth_params@,
            seqno: self.seqno,
            allocations: self.allocations@.map_values(|a: AllocationState| a@),
            actions: self.actions@.map_values(|a: ServerAction| a@),
        }
    }
}

impl ServerCore {
    pub closed spec fn wf(&self) -> bool {
        &&& self.allocations.wf()
        &&& forall|c: SocketAddress| #[trigger]
            self.allocations@.contains_key(c) ==> self.allocations@[c].wf()
        &&& self.auth_params@.realm is Some
        &&& self.auth_params@.nonce is Some
    }

    /// What every well-formed server keeps: in each allocation channel numbers and peers
    /// correspond one to one, and the server holds a realm and a nonce.
    pub proof fn lemma_wf(&self)
        requires
            self.wf(),
        ensures
            forall|c: SocketAddress| #[trigger]
                self@.allocations.contains_key(c) ==> channels_one_to_one(
                    self@.allocations[c].channels,
                ),
            self@.auth.realm is Some,
            self@.auth.nonce is Some,
    {
        assert forall|c: SocketAddress| #[trigger]
            self@.allocations.contains_key(c) implies channels_one_to_one(
            self@.allocations[c].channels,
        ) by {
            assert(self.allocations@.contains_key(c));
            assert(self.allocations@[c].wf());
            assert(self@.allocations[c] == self.allocations@[c]@);
        }
    }

    /// A server with no allocation. Its credentials carry the realm and nonce it hands out.
    pub fn new(auth_params: AuthParams) -> (r: ServerCore)
        requires
            auth_params@.realm is Some,
            auth_params@.nonce is Some,
        ensures
            r.wf(),
            r@ == (ServerView {
                auth: auth_params@,
                seqno: 0,
                allocations: Map::empty(),
                actions: Seq::empty(),
            }),
    {
        let r = ServerCore {
            auth_params,
            seqno: 0,
            allocations: Table::new(),
            actions: Vec::new(),
        };
        assert(r@.allocations =~= Map::empty());
        assert(r@.actions =~= Seq::empty());
        r
    }

    pub fn auth_params(&self) -> (r: &AuthParams)
        ensures
            r@ == self@.auth,
    {
        &self.auth_params
    }

    /// The relayed address of `client`'s allocation, if it has one.
    pub fn relay_of(&self, client: &SocketAddress) -> (r: Option<SocketAddress>)
        requires
            self.wf(),
        ensures
            r == if self@.allocations.contains_key(*client) {
                Some(self@.allocations[*client].relay_addr)
            } else {
                None
            },
    {
        match self.allocations.get(client) {
            Some(a) => Some(a.relay_addr),
            None => None,
        }
    }

    /// Hands the pending actions to the event loop, oldest first.
    pub fn take_actions(&mut self) -> (r: Vec<ServerAction>)
        ensures
            r@.map_values(|a: ServerAction| a@) == old(self)@.actions,
            final(self)@ == (ServerView { actions: Seq::empty(), ..old(self)@ }),
            final(self).wf() == old(self).wf(),
    {
        let mut taken: Vec<ServerAction> = Vec::new();
        core::mem::swap(&mut taken, &mut self.actions);
        assert(self@.actions =~= Seq::<ServerActionView>::empty());
        taken
    }

    fn emit(&mut self, a: ServerAction)
        ensures
            final(self)@ == push_action(old(self)@, a@),
            final(self).wf() == old(self).wf(),
    {
        self.actions.push(a);
        assert(self@.actions =~= old(self)@.actions.push(a@));
    }

    fn release(&mut self, relay: Option<SocketAddress>)
        ensures
            final(self)@ == release(old(self)@, relay),
            final(self).wf() == old(self).wf(),
    {
        if let Some(r) = relay {
            self.emit(ServerAction::ReleaseRelay(r));
        }
    }

    fn next_seqno(&mut self) -> (r: u64)
        ensures
            r == old(self)@.seqno,
            final(self)@ == (ServerView { seqno: next_seqno(old(self)@.seqno), ..old(self)@ }),
            final(self).wf() == old(self).wf(),
    {
        let n = self.seqno;
        self.seqno = if n < u64::MAX {
            n + 1
        } else {
            0
        };
        n
    }

    fn response(class: MessageClass, request: &StunMessage) -> (r: StunMessage)
        ensures
            r@ == response_view(class, request@, Seq::empty()),
    {
        StunMessage::new(class, request.method, request.transaction_id)
    }

    fn error_response(request: &StunMessage, code: ErrorCode) -> (r: StunMessage)
        ensures
            r@ == error_response(request@, code@.0),
    {
        let mut m = Self::response(MessageClass::ErrorResponse, request);
        m.add_attribute(Attribute::ErrorCode(code));
        assert(m@.attributes =~= seq![AttributeView::ErrorCode(code@.0)]);
        m
    }

    fn unauthorized_response(&self, request: &StunMessage) -> (r: StunMessage)
        requires
            self.wf(),
        ensures
            r@ == unauthorized_response(self@.auth, request@),
    {
        let mut m = Self::response(MessageClass::ErrorResponse, request);
        m.add_attribute(Attribute::ErrorCode(ErrorCode::unauthorized()));
        match self.auth_params.get_realm() {
            Some(realm) => m.add_attribute(Attribute::Realm(realm.duplicate())),
            None => {},
        }
        match self.auth_params.get_nonce() {
            Some(nonce) => m.add_attribute(Attribute::Nonce(nonce.duplicate())),
            None => {},
        }
        assert(m@.attributes =~= unauthorized_response(self@.auth, request@).attributes);
        m
    }

    /// Signs a success response; the server always holds a realm and a nonce.
    fn sign(&self, m: &mut StunMessage)
        requires
            self.wf(),
        ensures
            final(m)@ == authenticated(old(m)@, self@.auth),
    {
        let _ = self.auth_params.add_auth_attributes(m);
    }

    fn refused_options(request: &StunMessage) -> (r: Vec<u16>)
        ensures
            r@ == refused_options(request@),
    {
        let mut r: Vec<u16> = Vec::new();
        if request.find(TYPE_DONT_FRAGMENT).is_some() {
            r.push(TYPE_DONT_FRAGMENT);
        }
        let ghost a = r@;
        if request.find(TYPE_RESERVATION_TOKEN).is_some() {
            r.push(TYPE_RESERVATION_TOKEN);
        }
        let ghost b = r@;
        if request.find(TYPE_EVEN_PORT).is_some() {
            r.push(TYPE_EVEN_PORT);
        }
        assert(r@ =~= refused_options(request@));
        r
    }

    /// Handles ALLOCATE from `client`. `relay` is the address of a relay socket bound for
    /// this request, `None` when none could be bound. Without a valid MESSAGE-INTEGRITY the
    /// reply is 401 with realm and nonce; a client with an allocation gets 437; a missing
    /// REQUESTED-TRANSPORT 400, one other than UDP 442; DONT-FRAGMENT, RESERVATION-TOKEN or
    /// EVEN-PORT 420 listing them; no relay socket 508. Otherwise the allocation is made for
    /// 600 seconds and the reply carries LIFETIME and XOR-RELAYED-ADDRESS. A relay socket
    /// that goes unused is released.
    pub fn handle_allocate(
        &mut self,
        client: SocketAddress,
        request: &StunMessage,
        relay: Option<SocketAddress>,
    )
        requires
            old(self).wf(),
        ensures
            final(self).wf(),
            final(self)@ == allocate_outcome(old(self)@, client, request@, relay),
    {
        if !self.check_credentials(client, request) {
            self.release(relay);
            return;
        }
        if self.allocations.contains_key(&client) {
            let m = Self::error_response(request, AllocationMismatch.error_code());
            self.emit(ServerAction::Reply(client, m));
            self.release(relay);
            return;
        }
        match request.requested_transport() {
            None => {
                let m = Self::error_response(request, ErrorCode::bad_request());
                self.emit(ServerAction::Reply(client, m));
                self.release(relay);
                return;
            },
            Some(p) => {
                if p != PROTOCOL_UDP {
                    let m = Self::error_response(request, UnsupportedTransportProtocol.error_code());
                    self.emit(ServerAction::Reply(client, m));
                    self.release(relay);
                    return;
                }
            },
        }
        let refused = Self::refused_options(request);
        if refused.len() > 0 {
            let mut m = Self::response(MessageClass::ErrorResponse, request);
            m.add_attribute(Attribute::ErrorCode(ErrorCode::unknown_attribute()));
            m.add_attribute(Attribute::UnknownAttributes(refused));
            assert(m@.attributes =~= seq![
                AttributeView::ErrorCode(CODE_UNKNOWN_ATTRIBUTE),
                AttributeView::UnknownAttributes(refused_options(request@)),
            ]);
            self.emit(ServerAction::Reply(client, m));
            self.release(relay);
            return;
        }
        let r = match relay {
            None => {
                let m = Self::error_response(request, InsufficientCapacity.error_code());
                self.emit(ServerAction::Reply(client, m));
                return;
            },
            Some(r) => r,
        };
        let ghost s = self@;
        let seqno = self.next_seqno();
        let state = AllocationState {
            seqno,
            relay_addr: r,
            permissions: Table::new(),
            channels: Table::new(),
        };
        assert(state.wf());
        let ghost before = self.allocations@;
        self.allocations.insert(client, state);
        proof {
            assert(self@.allocations =~= s.allocations.insert(client, state@));
            assert forall|c: SocketAddress| #[trigger]
                self.allocations@.contains_key(c) implies self.allocations@[c].wf() by {
                if c != client {
                    assert(before.contains_key(c));
                }
            }
        }
        self.emit(
            ServerAction::Schedule(
                ServerTimeout::Allocation { client, seqno },
                ALLOCATION_LIFETIME_SECONDS,
            ),
        );
        let mut m = Self::response(MessageClass::SuccessResponse, request);
        m.add_attribute(Attribute::Lifetime(Lifetime::new(ALLOCATION_LIFETIME_SECONDS)));
        m.add_attribute(Attribute::XorRelayAddress(XorRelayedAddress::new(r)));
        self.sign(&mut m);
        assert(m@ == success_response(
            s.auth,
            request@,
            seq![
                AttributeView::Lifetime(ALLOCATION_LIFETIME_SECONDS),
                AttributeView::XorRelayAddress(r),
            ],
        )) by {
            assert(m@.attributes =~= success_response(
                s.auth,
                request@,
                seq![
                    AttributeView::Lifetime(ALLOCATION_LIFETIME_SECONDS),
                    AttributeView::XorRelayAddress(r),
                ],
            ).attributes);
        }
        self.emit(ServerAction::Reply(client, m));
    }

    fn take_allocation(&mut self, client: &SocketAddress) -> (r: Option<AllocationState>)
        requires
            old(self).wf(),
        ensures
            final(self).wf(),
            r is None <==> !old(self)@.allocations.contains_key(*client),
            r is None ==> final(self)@ == old(self)@,
            r is Some ==> r->0.wf() && r->0@ == old(self)@.allocations[*client]
                && final(self)@ == (ServerView {
                allocations: old(self)@.allocations.remove(*client),
                ..old(self)@
            }),
    {
        let ghost before = self.allocations@;
        let r = self.allocations.remove(client);
        proof {
            assert(self@.allocations =~= old(self)@.allocations.remove(*client));
            if !old(self)@.allocations.contains_key(*client) {
                assert(old(self)@.allocations.remove(*client) =~= old(self)@.allocations);
            }
            assert forall|c: SocketAddress| #[trigger]
                self.allocations@.contains_key(c) implies self.allocations@[c].wf() by {
                assert(before.contains_key(c));
            }
        }
        r
    }

    fn put_allocation(&mut self, client: SocketAddress, a: AllocationState)
        requires
            old(self).wf(),
            a.wf(),
        ensures
            final(self).wf(),
            final(self)@ == (ServerView {
                allocations: old(self)@.allocations.insert(client, a@),
                ..old(self)@
            }),
    {
        let ghost before = self.allocations@;
        let ghost av = a@;
        self.allocations.insert(client, a);
        proof {
            assert(self@.allocations =~= old(self)@.allocations.insert(client, av));
            assert forall|c: SocketAddress| #[trigger]
                self.allocations@.contains_key(c) implies self.allocations@[c].wf() by {
                if c != client {
                    assert(before.contains_key(c));
                }
            }
        }
    }

    fn reply_error(&mut self, client: SocketAddress, request: &StunMessage, code: ErrorCode)
        ensures
            final(self)@ == refuse(old(self)@, client, request@, code@.0),
            final(self).wf() == old(self).wf(),
    {
        let m = Self::error_response(request, code);
        self.emit(ServerAction::Reply(client, m));
    }

    fn reply_unauthorized(&mut self, client: SocketAddress, request: &StunMessage)
        requires
            old(self).wf(),
        ensures
            final(self)@ == push_action(
                old(self)@,
                ServerActionView::Reply(client, unauthorized_response(old(self)@.auth, request@)),
            ),
            final(self).wf(),
    {
        let m = self.unauthorized_response(request);
        self.emit(ServerAction::Reply(client, m));
    }

    /// Replies to a request whose credentials are refused; true when they are accepted.
    fn check_credentials(&mut self, client: SocketAddress, request: &StunMessage) -> (r: bool)
        requires
            old(self).wf(),
        ensures
            final(self).wf(),
            r == (credential_failure(request@) is None),
            r ==> final(self)@ == old(self)@,
            !r ==> final(self)@ == refuse_credentials(old(self)@, client, request@),
    {
        if request.integrity == Integrity::Absent || request.integrity == Integrity::Sign {
            self.reply_unauthorized(client, request);
            return false;
        }
        if request.find(TYPE_USERNAME).is_none() || request.find(TYPE_REALM).is_none()
            || request.find(TYPE_NONCE).is_none() {
            self.reply_error(client, request, ErrorCode::bad_request());
            return false;
        }
        if request.integrity == Integrity::Invalid {
            self.reply_unauthorized(client, request);
            return false;
        }
        true
    }

    fn reply_success(&mut self, client: SocketAddress, request: &StunMessage, m: StunMessage)
        requires
            old(self).wf(),
            m@ == response_view(MessageClass::SuccessResponse, request@, m@.attributes),
        ensures
            final(self)@ == push_action(
                old(self)@,
                ServerActionView::Reply(
                    client,
                    success_response(old(self)@.auth, request@, m@.attributes),
                ),
            ),
            final(self).wf(),
    {
        let mut m = m;
        self.sign(&mut m);
        self.emit(ServerAction::Reply(client, m));
    }

    /// Handles REFRESH from `client`: 401 without a valid MESSAGE-INTEGRITY, 400 without
    /// LIFETIME, 437 without an allocation. A lifetime of zero removes the allocation and
    /// releases its relay socket; another one extends the allocation by that many seconds.
    /// The reply echoes LIFETIME.
    pub fn handle_refresh(&mut self, client: SocketAddress, request: &StunMessage)
        requires
            old(self).wf(),
        ensures
            final(self).wf(),
            final(self)@ == refresh_outcome(old(self)@, client, request@),
    {
        if !self.check_credentials(client, request) {
            return;
        }
        let l = match request.lifetime() {
            Some(l) => l,
            None => {
                self.reply_error(client, request, ErrorCode::bad_request());
                return;
            },
        };
        let ghost s = self@;
        let mut a = match self.take_allocation(&client) {
            Some(a) => a,
            None => {
                self.reply_error(client, request, AllocationMismatch.error_code());
                return;
            },
        };
        let mut m = Self::response(MessageClass::SuccessResponse, request);
        m.add_attribute(Attribute::Lifetime(Lifetime::new(l)));
        assert(m@.attributes =~= seq![AttributeView::Lifetime(l)]);
        if l == 0 {
            self.emit(ServerAction::ReleaseRelay(a.relay_addr));
            self.reply_success(client, request, m);
        } else {
            let seqno = self.next_seqno();
            a.seqno = seqno;
            self.put_allocation(client, a);
            assert(self@.allocations =~= s.allocations.insert(
                client,
                AllocationView { seqno: s.seqno, ..s.allocations[client] },
            ));
            self.emit(ServerAction::Schedule(ServerTimeout::Allocation { client, seqno }, l));
            self.reply_success(client, request, m);
        }
    }

    /// Handles CREATE-PERMISSION from `client`: 401 without a valid MESSAGE-INTEGRITY, 400
    /// without XOR-PEER-ADDRESS, 437 without an allocation. Otherwise the permission for the
    /// peer's IP is installed or refreshed, and expires after 300 seconds unless refreshed.
    pub fn handle_create_permission(&mut self, client: SocketAddress, request: &StunMessage)
        requires
            old(self).wf(),
        ensures
            final(self).wf(),
            final(self)@ == create_permission_outcome(old(self)@, client, request@),
    {
        if !self.check_credentials(client, request) {
            return;
        }
        let peer = match request.xor_peer_address() {
            Some(p) => p,
            None => {
                self.reply_error(client, request, ErrorCode::bad_request());
                return;
            },
        };
        let ghost s = self@;
        let mut a = match self.take_allocation(&client) {
            Some(a) => a,
            None => {
                self.reply_error(client, request, AllocationMismatch.error_code());
                return;
            },
        };
        let seqno = self.next_seqno();
        a.permissions.insert(peer.ip, seqno);
        self.put_allocation(client, a);
        assert(self@.allocations =~= s.allocations.insert(
            client,
            AllocationView {
                permissions: s.allocations[client].permissions.insert(peer.ip, s.seqno),
                ..s.allocations[client]
            },
        ));
        let m = Self::response(MessageClass::SuccessResponse, request);
        self.reply_success(client, request, m);
        self.emit(
            ServerAction::Schedule(
                ServerTimeout::Permission { client, peer: peer.ip, seqno },
                PERMISSION_LIFETIME_SECONDS,
            ),
        );
    }

    /// Handles CHANNEL-BIND from `client`: 401 without a valid MESSAGE-INTEGRITY, 400 without
    /// XOR-PEER-ADDRESS or CHANNEL-NUMBER, 437 without an allocation, 400 when the number is
    /// bound to another peer or the peer to another number. Otherwise the channel is bound or
    /// refreshed for 600 seconds, with a permission for the peer's IP for 300 seconds.
    pub fn handle_channel_bind(&mut self, client: SocketAddress, request: &StunMessage)
        requires
            old(self).wf(),
        ensures
            final(self).wf(),
            final(self)@ == channel_bind_outcome(old(self)@, client, request@),
    {
        if !self.check_credentials(client, request) {
            return;
        }
        let peer = match request.xor_peer_address() {
            Some(p) => p,
            None => {
                self.reply_error(client, request, ErrorCode::bad_request());
                return;
            },
        };
        let n = match request.channel_number() {
            Some(n) => n,
            None => {
                self.reply_error(client, request, ErrorCode::bad_request());
                return;
            },
        };
        let ghost s = self@;
        let a_ref = match self.allocations.get(&client) {
            Some(a) => a,
            None => {
                self.reply_error(client, request, AllocationMismatch.error_code());
                return;
            },
        };
        assert(a_ref.wf());
        assert(a_ref@ == s.allocations[client]);
        let conflict = match a_ref.channels.get(&n) {
            Some(b) => b.peer != peer,
            None => false,
        } || match a_ref.channel_of_peer(&peer) {
            Some(o) => o != n,
            None => false,
        };
        proof {
            let ch = s.allocations[client].channels;
            if binding_conflicts(ch, n, peer) && !(ch.contains_key(n) && ch[n].peer != peer) {
                let o = choose|o: ChannelNumber|
                    #[trigger] ch.contains_key(o) && o != n && ch[o].peer == peer;
                assert(bound_peer(ch, peer));
            }
            if conflict && !(ch.contains_key(n) && ch[n].peer != peer) {
                let o = channel_of(ch, peer);
                assert(ch.contains_key(o) && o != n && ch[o].peer == peer);
            }
        }
        if conflict {
            self.reply_error(client, request, ErrorCode::bad_request());
            return;
        }
        let mut a = match self.take_allocation(&client) {
            Some(a) => a,
            None => {
                return;
            },
        };
        let seqno = self.next_seqno();
        let ghost before = a.channels@;
        a.channels.insert(n, ChannelBinding { peer, seqno });
        a.permissions.insert(peer.ip, seqno);
        proof {
            assert forall|x: ChannelNumber, y: ChannelNumber|
                #[trigger] a.channels@.contains_key(x) && #[trigger] a.channels@.contains_key(y)
                    && x != y implies a.channels@[x].peer != a.channels@[y].peer by {
                if x != n && y != n {
                    assert(before.contains_key(x) && before.contains_key(y));
                } else if x == n {
                    assert(before.contains_key(y));
                    assert(!(before.contains_key(y) && y != n && before[y].peer == peer));
                } else {
                    assert(before.contains_key(x));
                    assert(!(before.contains_key(x) && x != n && before[x].peer == peer));
                }
            }
        }
        self.put_allocation(client, a);
        assert(self@.allocations =~= s.allocations.insert(
            client,
            AllocationView {
                channels: s.allocations[client].channels.insert(
                    n,
                    ChannelBinding { peer, seqno: s.seqno },
                ),
                permissions: s.allocations[client].permissions.insert(peer.ip, s.seqno),
                ..s.allocations[client]
            },
        ));
        let m = Self::response(MessageClass::SuccessResponse, request);
        self.reply_success(client, request, m);
        self.emit(
            ServerAction::Schedule(
                ServerTimeout::Channel { client, channel_number: n, seqno },
                CHANNEL_LIFETIME_SECONDS,
            ),
        );
        self.emit(
            ServerAction::Schedule(
                ServerTimeout::Permission { client, peer: peer.ip, seqno },
                PERMISSION_LIFETIME_SECONDS,
            ),
        );
    }

    /// Handles a request from `client` by its method; an unknown method gets 400. `relay` is
    /// the address of a relay socket bound for an ALLOCATE; one bound for another request is
    /// released.
    pub fn handle_stun_request(
        &mut self,
        client: SocketAddress,
        request: &StunMessage,
        relay: Option<SocketAddress>,
    )
        requires
            old(self).wf(),
        ensures
            final(self).wf(),
            final(self)@ == request_outcome(old(self)@, client, request@, relay),
    {
        match request.method {
            Method::Allocate => {
                self.handle_allocate(client, request, relay);
                return;
            },
            Method::Refresh => self.handle_refresh(client, request),
            Method::CreatePermission => self.handle_create_permission(client, request),
            Method::ChannelBind => self.handle_channel_bind(client, request),
            _ => self.reply_error(client, request, ErrorCode::bad_request()),
        }
        self.release(relay);
    }

    /// Handles a SEND indication from `client`. A client without an allocation is answered
    /// with 437 Allocation Mismatch. Otherwise the payload goes to the peer from the relay
    /// socket when the peer's IP has a permission. The indication fails with `InvalidInput`
    /// when nothing is relayed.
    pub fn handle_send(&mut self, client: SocketAddress, indication: &StunMessage) -> (r: Result<
        (),
        ErrorKind,
    >)
        requires
            old(self).wf(),
        ensures
            final(self).wf(),
            (final(self)@, r) == send_outcome(old(self)@, client, indication@),
    {
        if !self.allocations.contains_key(&client) {
            self.reply_error(client, indication, AllocationMismatch.error_code());
            return Err(ErrorKind::InvalidInput);
        }
        let peer = match indication.xor_peer_address() {
            Some(p) => p,
            None => return Err(ErrorKind::InvalidInput),
        };
        let data = match indication.data() {
            Some(d) => d,
            None => return Err(ErrorKind::InvalidInput),
        };
        let permitted = match self.allocations.get(&client) {
            Some(a) => {
                assert(a.wf());
                a.permissions.contains_key(&peer.ip)
            },
            None => false,
        };
        if !permitted {
            return Err(ErrorKind::InvalidInput);
        }
        self.emit(ServerAction::Relay { client, peer, data: data.unwrap() });
        Ok(())
    }

    /// Handles a ChannelData message from `client`: the payload goes from the relay socket to
    /// the peer bound to the channel. An unknown channel drops it with `InvalidInput`.
    pub fn handle_channel_data(&mut self, client: SocketAddress, data: ChannelData) -> (r: Result<
        (),
        ErrorKind,
    >)
        requires
            old(self).wf(),
        ensures
            final(self).wf(),
            (final(self)@, r) == channel_data_outcome(old(self)@, client, data.channel(), data@.1),
    {
        let n = data.channel_number();
        let peer = match self.allocations.get(&client) {
            Some(a) => {
                assert(a.wf());
                match a.channels.get(&n) {
                    Some(b) => b.peer,
                    None => return Err(ErrorKind::InvalidInput),
                }
            },
            None => return Err(ErrorKind::InvalidInput),
        };
        self.emit(ServerAction::Relay { client, peer, data: data.into_data() });
        Ok(())
    }

    /// Handles a datagram that `peer` sent to the relay socket of `client`'s allocation: to
    /// the client as ChannelData on the peer's channel, else as a DATA indication if the
    /// peer's IP has a permission. Otherwise, or beyond `0xFFFF` bytes, it is dropped with
    /// `InvalidInput`.
    pub fn handle_peer_datagram(
        &mut self,
        client: SocketAddress,
        peer: SocketAddress,
        data: Vec<u8>,
    ) -> (r: Result<(), ErrorKind>)
        requires
            old(self).wf(),
        ensures
            final(self).wf(),
            (final(self)@, r) == peer_datagram_outcome(old(self)@, client, peer, data@),
    {
        if data.len() > DATA_MAX_LEN {
            return Err(ErrorKind::InvalidInput);
        }
        let (channel, permitted) = match self.allocations.get(&client) {
            Some(a) => {
                assert(a.wf());
                (a.channel_of_peer(&peer), a.permissions.contains_key(&peer.ip))
            },
            None => return Err(ErrorKind::InvalidInput),
        };
        match channel {
            Some(n) => {
                match ChannelData::new(n, data) {
                    Ok(cd) => {
                        self.emit(ServerAction::SendChannelData(client, cd));
                        Ok(())
                    },
                    Err(e) => Err(e),
                }
            },
            None => {
                if !permitted {
                    return Err(ErrorKind::InvalidInput);
                }
                let ghost d = data@;
                match Data::new(data) {
                    Ok(payload) => {
                        let mut m = StunMessage::new(MessageClass::Indication, Method::Data, 0);
                        m.add_attribute(Attribute::XorPeerAddress(XorPeerAddress::new(peer)));
                        m.add_attribute(Attribute::Data(payload));
                        assert(m@.attributes =~= data_indication(peer, d).attributes);
                        self.emit(ServerAction::Cast(client, m));
                        Ok(())
                    },
                    Err(e) => Err(e),
                }
            },
        }
    }

    /// Handles a timer. An allocation, permission or channel goes only if its sequence number
    /// is still the one the timer carries; the relay socket of a removed allocation is
    /// released.
    pub fn handle_timeout(&mut self, entry: ServerTimeout)
        requires
            old(self).wf(),
        ensures
            final(self).wf(),
            final(self)@ == timeout_outcome(old(self)@, entry),
    {
        let ghost s = self@;
        match entry {
            ServerTimeout::Allocation { client, seqno } => {
                let matches = match self.allocations.get(&client) {
                    Some(a) => a.seqno == seqno,
                    None => false,
                };
                if matches {
                    match self.take_allocation(&client) {
                        Some(a) => self.emit(ServerAction::ReleaseRelay(a.relay_addr)),
                        None => {},
                    }
                }
            },
            ServerTimeout::Permission { client, peer, seqno } => {
                let matches = match self.allocations.get(&client) {
                    Some(a) => {
                        assert(a.wf());
                        match a.permissions.get(&peer) {
                            Some(n) => *n == seqno,
                            None => false,
                        }
                    },
                    None => false,
                };
                if matches {
                    match self.take_allocation(&client) {
                        Some(mut a) => {
                            a.permissions.remove(&peer);
                            self.put_allocation(client, a);
                            assert(self@.allocations =~= s.allocations.insert(
                                client,
                                AllocationView {
                                    permissions: s.allocations[client].permissions.remove(peer),
                                    ..s.allocations[client]
                                },
                            ));
                        },
                        None => {},
                    }
                }
            },
            ServerTimeout::Channel { client, channel_number, seqno } => {
                let matches = match self.allocations.get(&client) {
                    Some(a) => {
                        assert(a.wf());
                        match a.channels.get(&channel_number) {
                            Some(b) => b.seqno == seqno,
                            None => false,
                        }
                    },
                    None => false,
                };
                if matches {
                    match self.take_allocation(&client) {
                        Some(mut a) => {
                            let ghost before = a.channels@;
                            a.channels.remove(&channel_number);
                            proof {
                                assert forall|x: ChannelNumber, y: ChannelNumber|
                                    #[trigger] a.channels@.contains_key(x) && #[trigger]
                                    a.channels@.contains_key(y) && x != y implies a.channels@[x].peer
                                    != a.channels@[y].peer by {
                                    assert(before.contains_key(x) && before.contains_key(y));
                                }
                            }
                            self.put_allocation(client, a);
                            assert(self@.allocations =~= s.allocations.insert(
                                client,
                                AllocationView {
                                    channels: s.allocations[client].channels.remove(
                                        channel_number,
                                    ),
                                    ..s.allocations[client]
                                },
                            ));
                        },
                        None => {},
                    }
                }
            },
        }
    }

    /// Handles an indication from `client`: SEND is relayed, others fail with
    /// `Unsupported`.
    pub fn handle_stun_indication(&mut self, client: SocketAddress, indication: &StunMessage) -> (r:
        Result<(), ErrorKind>)
        requires
            old(self).wf(),
        ensures
            final(self).wf(),
            (final(self)@, r) == indication_outcome(old(self)@, client, indication@),
    {
        if indication.method == Method::Send {
            self.handle_send(client, indication)
        } else {
            Err(ErrorKind::Unsupported)
        }
    }

    /// Handles a STUN message from `client`: a request (with `relay`, the address of a relay
    /// socket bound for an ALLOCATE) or an indication. A response fails with
    /// `ProtocolViolation`.
    pub fn handle_stun_message(
        &mut self,
        client: SocketAddress,
        message: &StunMessage,
        relay: Option<SocketAddress>,
    ) -> (r: Result<(), ErrorKind>)
        requires
            old(self).wf(),
        ensures
            final(self).wf(),
            (final(self)@, r) == message_outcome(old(self)@, client, message@, relay),
    {
        if message.class == MessageClass::Request {
            self.handle_stun_request(client, message, relay);
            Ok(())
        } else if message.class == MessageClass::Indication {
            let r = self.handle_stun_indication(client, message);
            self.release(relay);
            r
        } else {
            self.release(relay);
            Err(ErrorKind::ProtocolViolation)
        }
    }
}

/// A DATA indication that the server sends to a client for a datagram from `peer` names
/// that peer in XOR-PEER-ADDRESS, and the peer's IP holds a permission of the allocation.
pub proof fn lemma_data_indication_names_permitted_peer(
    s: ServerView,
    client: SocketAddress,
    peer: SocketAddress,
    data: Seq<u8>,
)
    ensures
        ({
            let t = peer_datagram_outcome(s, client, peer, data).0;
            t.actions.len() > s.actions.len() && t.actions.last() is Cast ==> {
                let m = t.actions.last()->Cast_1;
                &&& t.actions.last()->Cast_0 == client
                &&& m.method == Method::Data
                &&& peer_of(m) == Some(peer)
                &&& s.allocations[client].permissions.contains_key(peer_of(m)->0.ip)
                &&& data_of(m) == Some(data)
            }
        }),
{
    let d = data_indication(peer, data);
    let rest = d.attributes.drop_first();
    assert(rest =~= seq![AttributeView::Data(data)]);
    assert(first_of(d.attributes, TYPE_XOR_PEER_ADDRESS) == Some(AttributeView::XorPeerAddress(peer)));
    assert(first_of(rest, TYPE_DATA) == Some(AttributeView::Data(data)));
    assert(first_of(d.attributes, TYPE_DATA) == Some(AttributeView::Data(data)));
}

/// A datagram from a peer without a permission and without a channel is dropped: nothing
/// goes to the client.
pub proof fn lemma_unpermitted_peer_dropped(
    s: ServerView,
    client: SocketAddress,
    peer: SocketAddress,
    data: Seq<u8>,
)
    requires
        s.allocations.contains_key(client) ==> !bound_peer(s.allocations[client].channels, peer)
            && !s.allocations[client].permissions.contains_key(peer.ip),
    ensures
        peer_datagram_outcome(s, client, peer, data).0 == s,
        peer_datagram_outcome(s, client, peer, data).1 is Err,
{
}

} // verus!
