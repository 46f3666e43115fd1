use vstd::prelude::*;

use crate::attributes::{
    valid_channel_number, ChannelNumber, Data, Lifetime, XorPeerAddress, CHANNEL_NUMBER_MAX,
    CHANNEL_NUMBER_MIN, DATA_MAX_LEN, TYPE_DATA, TYPE_ERROR_CODE, TYPE_LIFETIME, TYPE_NONCE,
    TYPE_XOR_PEER_ADDRESS,
};
use crate::errors::{CODE_STALE_NONCE, CODE_UNAUTHORIZED, CODE_WRONG_CREDENTIALS};
use crate::auth::{authenticated, AuthParams, AuthView};
use crate::channel_data::ChannelData;
use crate::error::ErrorKind;
use crate::message::{
    code_of, first_of, Attribute, AttributeView, Integrity, MessageClass, MessageView,
    StunMessage,
};
use crate::methods::Method;
use crate::table::Table;
use crate::types::{IpAddress, SocketAddress};

verus! {

/// Lifetime of a permission on the server, in seconds.
pub const PERMISSION_LIFETIME_SECONDS: u32 = 300;
/// Lifetime of a channel binding on the server, in seconds.
pub const CHANNEL_LIFETIME_SECONDS: u32 = 600;

/// When to refresh something that lives `lifetime` seconds: after nine tenths of it.
pub open spec fn refresh_delay(lifetime: u32) -> u32 {
    (lifetime as int * 9 / 10) as u32
}

fn compute_refresh_delay(lifetime: u32) -> (r: u32)
    ensures
        r == refresh_delay(lifetime),
{
    ((lifetime as u64) * 9 / 10) as u32
}

/// State of a permission on the client.
#[derive(Debug, Clone, Copy, PartialEq, Eq, Structural, Hash)]
pub enum PermissionState {
    /// A CREATE-PERMISSION asked for by the user awaits its response.
    Pending,
    /// The server confirmed the permission.
    Confirmed,
}

/// State of a channel binding on the client.
#[derive(Debug, Clone, Copy, PartialEq, Eq, Structural, Hash)]
pub enum ChannelState {
    /// A CHANNEL-BIND asked for by the user awaits its response.
    Creating(ChannelNumber),
    /// The server confirmed the binding.
    Created(ChannelNumber),
}

impl ChannelState {
    pub open spec fn number(self) -> u16 {
        match self {
            ChannelState::Creating(n) => n.spec_number(),
            ChannelState::Created(n) => n.spec_number(),
        }
    }

    pub open spec fn channel(self) -> ChannelNumber {
        match self {
            ChannelState::Creating(n) => n,
            ChannelState::Created(n) => n,
        }
    }

    pub open spec fn confirmed(self) -> ChannelState {
        match self {
            ChannelState::Creating(n) => ChannelState::Created(n),
            ChannelState::Created(n) => ChannelState::Created(n),
        }
    }

    pub fn confirm(&self) -> (r: ChannelState)
        ensures
            r == self.confirmed(),
    {
        match self {
            ChannelState::Creating(n) => ChannelState::Created(*n),
            ChannelState::Created(n) => ChannelState::Created(*n),
        }
    }

    pub fn channel_number(&self) -> (r: ChannelNumber)
        ensures
            r.spec_number() == self.number(),
            r == self.channel(),
    {
        match self {
            ChannelState::Creating(n) => *n,
            ChannelState::Created(n) => *n,
        }
    }
}

/// What a client timer stands for.
#[derive(Debug, Clone, Copy, PartialEq, Eq, Structural, Hash)]
pub enum TimeoutEntry {
    Refresh,
    Permission(SocketAddress),
    Channel(SocketAddress),
}

/// An outstanding request of the client, by what it concerns.
#[derive(Debug, Clone, Copy, PartialEq, Eq, Structural, Hash)]
pub enum Transaction {
    Refresh,
    CreatePermission(SocketAddress),
    ChannelBind(SocketAddress),
}

/// A user operation whose outcome the client reports.
#[derive(Debug, Clone, Copy, PartialEq, Eq, Structural, Hash)]
pub enum Operation {
    CreatePermission(SocketAddress),
    ChannelBind(SocketAddress),
}

/// Work for the event loop that drives the client.
#[derive(Debug)]
pub enum ClientAction {
    /// Send a request to the server and hand its response back, tagged with the transaction.
    Call(Transaction, StunMessage),
    /// Send an indication to the server.
    Cast(StunMessage),
    /// Send a ChannelData message to the server.
    SendChannelData(ChannelData),
    /// Hand the entry back after this many seconds.
    Schedule(TimeoutEntry, u32),
    /// Report the outcome of a user operation.
    Reply(Operation, Result<(), ErrorKind>),
}

pub ghost enum ClientActionView {
    Call(Transaction, MessageView),
    Cast(MessageView),
    SendChannelData(u16, Seq<u8>),
    Schedule(TimeoutEntry, u32),
    Reply(Operation, Result<(), ErrorKind>),
}

impl View for ClientAction {
    type V = ClientActionView;

    open spec fn view(&self) -> ClientActionView {
        match self {
            ClientAction::Call(t, m) => ClientActionView::Call(*t, m@),
            ClientAction::Cast(m) => ClientActionView::Cast(m@),
            ClientAction::SendChannelData(c) => ClientActionView::SendChannelData(c@.0, c@.1),
            ClientAction::Schedule(e, s) => ClientActionView::Schedule(*e, *s),
            ClientAction::Reply(o, r) => ClientActionView::Reply(*o, *r),
        }
    }
}

/// A request with no transaction ID yet (the transport gives one) and no integrity.
pub open spec fn request_view(method: Method, attributes: Seq<AttributeView>) -> MessageView {
    MessageView {
        class: MessageClass::Request,
        method,
        transaction_id: 0,
        attributes,
        integrity: Integrity::Absent,
    }
}

pub open spec fn refresh_request(a: AuthView, lifetime: u32) -> MessageView {
    authenticated(request_view(Method::Refresh, seq![AttributeView::Lifetime(lifetime)]), a)
}

pub open spec fn create_permission_request(a: AuthView, peer: SocketAddress) -> MessageView {
    authenticated(
        request_view(Method::CreatePermission, seq![AttributeView::XorPeerAddress(peer)]),
        a,
    )
}

pub open spec fn channel_bind_request(a: AuthView, peer: SocketAddress, n: ChannelNumber) -> MessageView {
    authenticated(
        request_view(
            Method::ChannelBind,
            seq![AttributeView::XorPeerAddress(peer), AttributeView::ChannelNumber(n)],
        ),
        a,
    )
}

pub open spec fn send_indication(peer: SocketAddress, data: Seq<u8>) -> MessageView {
    MessageView {
        class: MessageClass::Indication,
        method: Method::Send,
        transaction_id: 0,
        attributes: seq![AttributeView::XorPeerAddress(peer), AttributeView::Data(data)],
        integrity: Integrity::Absent,
    }
}

pub open spec fn has_credentials(a: AuthView) -> bool {
    a.realm is Some && a.nonce is Some
}

/// Whether some channel is bound, or being bound, to number `n`.
pub open spec fn number_in_use(channels: Map<SocketAddress, ChannelState>, n: u16) -> bool {
    exists|p: SocketAddress| #[trigger] channels.contains_key(p) && channels[p].number() == n
}

/// No two peers share a channel number.
pub open spec fn numbers_unique(channels: Map<SocketAddress, ChannelState>) -> bool {
    forall|p: SocketAddress, q: SocketAddress|
        #[trigger] channels.contains_key(p) && #[trigger] channels.contains_key(q) && p != q
            ==> channels[p].number() != channels[q].number()
}

/// Whether `n` is the first number not in use when scanning from `start` and wrapping
/// within `0x4000..=0x7FFF`.
pub open spec fn first_unused_from(
    channels: Map<SocketAddress, ChannelState>,
    start: u16,
    n: u16,
) -> bool {
    exists|j: int|
        0 <= j < 0x4000 && #[trigger] nth_after(start, j) == n && !number_in_use(channels, n)
            && forall|k: int| 0 <= k < j ==> #[trigger] number_in_use(channels, nth_after(start, k))
}

/// The `j`-th channel number after `start`, wrapping within `0x4000..=0x7FFF`.
pub open spec fn nth_after(start: u16, j: int) -> u16 {
    (CHANNEL_NUMBER_MIN + (start - CHANNEL_NUMBER_MIN + j) % 0x4000) as u16
}

/// The peer and payload of a DATA indication from a peer with a permission.
pub open spec fn received_data(s: ClientView, m: MessageView) -> Option<(SocketAddress, Seq<u8>)> {
    match (first_of(m.attributes, TYPE_XOR_PEER_ADDRESS), first_of(m.attributes, TYPE_DATA)) {
        (Some(AttributeView::XorPeerAddress(p)), Some(AttributeView::Data(d))) => {
            if m.class == MessageClass::Indication && m.method == Method::Data
                && s.permissions.contains_key(p.ip) {
                Some((p, d))
            } else {
                None
            }
        },
        _ => None,
    }
}

/// The new nonce of a 438 (Stale Nonce) error response that carries one.
pub open spec fn stale_nonce_of(m: MessageView) -> Option<Seq<char>> {
    if code_of(first_of(m.attributes, TYPE_ERROR_CODE)) == Some(CODE_STALE_NONCE) {
        match first_of(m.attributes, TYPE_NONCE) {
            Some(AttributeView::Nonce(v)) => Some(v),
            _ => None,
        }
    } else {
        None
    }
}

/// The kind of failure an error response reports: 401 and 441 are `Unauthorized`, other
/// codes `Other`, and a response without ERROR-CODE breaks the protocol.
pub open spec fn error_kind_of(m: MessageView) -> ErrorKind {
    match code_of(first_of(m.attributes, TYPE_ERROR_CODE)) {
        Some(c) => if c == CODE_UNAUTHORIZED || c == CODE_WRONG_CREDENTIALS {
            ErrorKind::Unauthorized
        } else {
            ErrorKind::Other
        },
        None => ErrorKind::ProtocolViolation,
    }
}

/// Whether a response's MESSAGE-INTEGRITY is acceptable: absent, or checked with a realm
/// known.
pub open spec fn integrity_ok(a: AuthView, m: MessageView) -> bool {
    m.integrity == Integrity::Absent || (m.integrity == Integrity::Valid && a.realm is Some)
}

/// The failure a response that is not a success gives.
pub open spec fn failure_of(a: AuthView, m: MessageView) -> ErrorKind {
    if m.class == MessageClass::ErrorResponse {
        error_kind_of(m)
    } else if m.class == MessageClass::SuccessResponse {
        ErrorKind::Unauthorized
    } else {
        ErrorKind::ProtocolViolation
    }
}

pub open spec fn with_nonce(s: ClientView, v: Seq<char>) -> ClientView {
    ClientView { auth: AuthView { nonce: Some(v), ..s.auth }, ..s }
}

/// What a response to REFRESH does to the client, and what it returns.
pub open spec fn refresh_outcome(s: ClientView, m: MessageView) -> (ClientView, Result<(), ErrorKind>) {
    if m.class == MessageClass::ErrorResponse && !s.refresh_retried && stale_nonce_of(m) is Some {
        let s1 = ClientView { refresh_retried: true, ..with_nonce(s, stale_nonce_of(m)->0) };
        if has_credentials(s1.auth) {
            (
                ClientView {
                    actions: s1.actions.push(
                        ClientActionView::Call(
                            Transaction::Refresh,
                            refresh_request(s1.auth, s1.lifetime),
                        ),
                    ),
                    ..s1
                },
                Ok(()),
            )
        } else {
            (s1, Err(ErrorKind::Unauthorized))
        }
    } else if m.class == MessageClass::SuccessResponse && integrity_ok(s.auth, m) {
        match first_of(m.attributes, TYPE_LIFETIME) {
            Some(AttributeView::Lifetime(l)) => if l == 0 {
                (ClientView { lifetime: 0, allocated: false, refresh_retried: false, ..s }, Ok(()))
            } else {
                (
                    ClientView {
                        lifetime: l,
                        refresh_retried: false,
                        actions: s.actions.push(
                            ClientActionView::Schedule(TimeoutEntry::Refresh, refresh_delay(l)),
                        ),
                        ..s
                    },
                    Ok(()),
                )
            },
            _ => (ClientView { refresh_retried: false, ..s }, Err(ErrorKind::ProtocolViolation)),
        }
    } else {
        (ClientView { refresh_retried: false, ..s }, Err(failure_of(s.auth, m)))
    }
}

/// What a response to CREATE-PERMISSION for `peer` does to the client, and what it returns.
pub open spec fn permission_outcome(s: ClientView, peer: SocketAddress, m: MessageView) -> (
    ClientView,
    Result<(), ErrorKind>,
) {
    if !s.permissions.contains_key(peer.ip) {
        (s, Err(ErrorKind::ProtocolViolation))
    } else if m.class == MessageClass::ErrorResponse && !s.permission_retried && stale_nonce_of(
        m,
    ) is Some {
        let s1 = ClientView { permission_retried: true, ..with_nonce(s, stale_nonce_of(m)->0) };
        if has_credentials(s1.auth) {
            (
                ClientView {
                    actions: s1.actions.push(
                        ClientActionView::Call(
                            Transaction::CreatePermission(peer),
                            create_permission_request(s1.auth, peer),
                        ),
                    ),
                    ..s1
                },
                Ok(()),
            )
        } else {
            (s1, Err(ErrorKind::Unauthorized))
        }
    } else if m.class == MessageClass::SuccessResponse && integrity_ok(s.auth, m) {
        let acts = if s.permissions[peer.ip] == PermissionState::Pending {
            s.actions.push(ClientActionView::Reply(Operation::CreatePermission(peer), Ok(())))
        } else {
            s.actions
        };
        (
            ClientView {
                permissions: s.permissions.insert(peer.ip, PermissionState::Confirmed),
                permission_retried: false,
                actions: acts.push(
                    ClientActionView::Schedule(
                        TimeoutEntry::Permission(peer),
                        refresh_delay(PERMISSION_LIFETIME_SECONDS),
                    ),
                ),
                ..s
            },
            Ok(()),
        )
    } else {
        let kind = failure_of(s.auth, m);
        let acts = if s.permissions[peer.ip] == PermissionState::Pending {
            s.actions.push(ClientActionView::Reply(Operation::CreatePermission(peer), Err(kind)))
        } else {
            s.actions
        };
        (
            ClientView {
                permissions: s.permissions.remove(peer.ip),
                permission_retried: false,
                actions: acts,
                ..s
            },
            Err(kind),
        )
    }
}

/// What a response to CHANNEL-BIND for `peer` does to the client, and what it returns. A
/// binding also stands for a permission for the peer's IP.
pub open spec fn channel_outcome(s: ClientView, peer: SocketAddress, m: MessageView) -> (
    ClientView,
    Result<(), ErrorKind>,
) {
    if !s.channels.contains_key(peer) {
        (s, Err(ErrorKind::ProtocolViolation))
    } else if m.class == MessageClass::ErrorResponse && !s.channel_retried && stale_nonce_of(m) is Some {
        let s1 = ClientView { channel_retried: true, ..with_nonce(s, stale_nonce_of(m)->0) };
        if has_credentials(s1.auth) {
            (
                ClientView {
                    actions: s1.actions.push(
                        ClientActionView::Call(
                            Transaction::ChannelBind(peer),
                            channel_bind_request(s1.auth, peer, s.channels[peer].channel()),
                        ),
                    ),
                    ..s1
                },
                Ok(()),
            )
        } else {
            (s1, Err(ErrorKind::Unauthorized))
        }
    } else if m.class == MessageClass::SuccessResponse && integrity_ok(s.auth, m) {
        let acts = if s.channels[peer] is Creating {
            s.actions.push(ClientActionView::Reply(Operation::ChannelBind(peer), Ok(())))
        } else {
            s.actions
        };
        let permissions = if s.permissions.contains_key(peer.ip) {
            s.permissions
        } else {
            s.permissions.insert(peer.ip, PermissionState::Confirmed)
        };
        (
            ClientView {
                channels: s.channels.insert(peer, s.channels[peer].confirmed()),
                permissions,
                channel_retried: false,
                actions: acts.push(
                    ClientActionView::Schedule(
                        TimeoutEntry::Channel(peer),
                        refresh_delay(CHANNEL_LIFETIME_SECONDS),
                    ),
                ),
                ..s
            },
            Ok(()),
        )
    } else {
        let kind = failure_of(s.auth, m);
        let acts = if s.channels[peer] is Creating {
            s.actions.push(ClientActionView::Reply(Operation::ChannelBind(peer), Err(kind)))
        } else {
            s.actions
        };
        (
            ClientView { channels: s.channels.remove(peer), channel_retried: false, actions: acts, ..s },
            Err(kind),
        )
    }
}

/// A refresh sent on its timer, with a fresh retry.
pub open spec fn refresh_started(s: ClientView) -> (ClientView, Result<(), ErrorKind>) {
    let s1 = ClientView { refresh_retried: false, ..s };
    if has_credentials(s.auth) {
        (
            ClientView {
                actions: s.actions.push(
                    ClientActionView::Call(Transaction::Refresh, refresh_request(s.auth, s.lifetime)),
                ),
                ..s1
            },
            Ok(()),
        )
    } else {
        (s1, Err(ErrorKind::Unauthorized))
    }
}

/// A permission refreshed on its timer, with a fresh retry.
pub open spec fn permission_refresh_started(s: ClientView, peer: SocketAddress) -> (
    ClientView,
    Result<(), ErrorKind>,
) {
    let s1 = ClientView { permission_retried: false, ..s };
    if has_credentials(s.auth) {
        (
            ClientView {
                actions: s.actions.push(
                    ClientActionView::Call(
                        Transaction::CreatePermission(peer),
                        create_permission_request(s.auth, peer),
                    ),
                ),
                ..s1
            },
            Ok(()),
        )
    } else {
        (s1, Err(ErrorKind::Unauthorized))
    }
}

/// A channel binding refreshed on its timer, with a fresh retry.
pub open spec fn channel_refresh_started(s: ClientView, peer: SocketAddress) -> (
    ClientView,
    Result<(), ErrorKind>,
) {
    let s1 = ClientView { channel_retried: false, ..s };
    if has_credentials(s.auth) {
        (
            ClientView {
                actions: s.actions.push(
                    ClientActionView::Call(
                        Transaction::ChannelBind(peer),
                        channel_bind_request(s.auth, peer, s.channels[peer].channel()),
                    ),
                ),
                ..s1
            },
            Ok(()),
        )
    } else {
        (s1, Err(ErrorKind::Unauthorized))
    }
}

/// What `create_permission(peer)` does to the client.
pub open spec fn create_permission_effect(s: ClientView, peer: SocketAddress) -> ClientView {
    if has_credentials(s.auth) {
        ClientView {
            permissions: s.permissions.insert(peer.ip, PermissionState::Pending),
            permission_retried: false,
            actions: s.actions.push(
                ClientActionView::Call(
                    Transaction::CreatePermission(peer),
                    create_permission_request(s.auth, peer),
                ),
            ),
            ..s
        }
    } else {
        ClientView {
            actions: s.actions.push(
                ClientActionView::Reply(Operation::CreatePermission(peer), Err(ErrorKind::Unauthorized)),
            ),
            ..s
        }
    }
}

/// What a timer does to the client: a refresh while the allocation lives, and the refresh of
/// a permission or channel that still exists. A stale timer does nothing.
pub open spec fn timeout_outcome(s: ClientView, entry: TimeoutEntry) -> (ClientView, Result<(), ErrorKind>) {
    match entry {
        TimeoutEntry::Refresh => if s.allocated {
            refresh_started(s)
        } else {
            (s, Ok(()))
        },
        TimeoutEntry::Permission(peer) => if s.permissions.contains_key(peer.ip) {
            permission_refresh_started(s, peer)
        } else {
            (s, Ok(()))
        },
        TimeoutEntry::Channel(peer) => if s.channels.contains_key(peer) {
            channel_refresh_started(s, peer)
        } else {
            (s, Ok(()))
        },
    }
}

/// What `channel_bind(peer)` does to a client that has credentials and a channel for the
/// peer: the same number is bound again.
pub open spec fn channel_rebind_effect(s: ClientView, peer: SocketAddress) -> ClientView {
    let c = s.channels[peer].channel();
    ClientView {
        channels: s.channels.insert(peer, ChannelState::Creating(c)),
        channel_retried: false,
        actions: s.actions.push(
            ClientActionView::Call(Transaction::ChannelBind(peer), channel_bind_request(s.auth, peer, c)),
        ),
        ..s
    }
}

pub ghost struct ClientView {
    pub auth: AuthView,
    pub lifetime: u32,
    pub relay_addr: Option<SocketAddress>,
    pub permissions: Map<IpAddress, PermissionState>,
    pub channels: Map<SocketAddress, ChannelState>,
    pub next_channel_number: u16,
    pub allocated: bool,
    pub refresh_retried: bool,
    pub permission_retried: bool,
    pub channel_retried: bool,
    pub actions: Seq<ClientActionView>,
}

/// The TURN client once an allocation exists: permissions, channels, refreshes and relayed
/// data. It decides; the event loop around it sends what it asks for and hands back responses,
/// timeouts and received messages.
#[derive(Debug)]
pub struct ClientCore {
    auth_params: AuthParams,
    lifetime: u32,
    relay_addr: Option<SocketAddress>,
    permissions: Table<IpAddress, PermissionState>,
    channels: Table<SocketAddress, ChannelState>,
    next_channel_number: ChannelNumber,
    allocated: bool,
    refresh_retried: bool,
    permission_retried: bool,
    channel_retried: bool,
    actions: Vec<ClientAction>,
}

impl View for ClientCore {
    type V = ClientView;

    closed spec fn view(&self) -> ClientView {
        ClientView {
            auth: self.auth_params@,
            lifetime: self.lifetime,
            relay_addr: self.relay_addr,
            permissions: self.permissions@,
            channels: self.channels@,
            next_channel_number: self.next_channel_number.spec_number(),
            allocated: self.allocated,
            refresh_retried: self.refresh_retried,
            permission_retried: self.permission_retried,
            channel_retried: self.channel_retried,
            actions: self.actions@.map_values(|a: ClientAction| a@),
        }
    }
}

impl ClientCore {
    pub closed spec fn wf(&self) -> bool {
        &&& self.permissions.wf()
        &&& self.channels.wf()
        &&& numbers_unique(self.channels@)
        &&& has_credentials(self.auth_params@)
    }

    /// What every well-formed client keeps: no two peers share a channel number, and the
    /// credentials carry a realm and a nonce, so that every request can be signed.
    pub proof fn lemma_wf(&self)
        requires
            self.wf(),
        ensures
            numbers_unique(self@.channels),
            has_credentials(self@.auth),
    {
    }

    /// A client for a fresh allocation of `lifetime` seconds, made with credentials that
    /// carry the realm and nonce of the server; it schedules the first refresh after nine
    /// tenths of the lifetime.
    pub fn new(auth_params: AuthParams, lifetime: u32, relay_addr: Option<SocketAddress>) -> (r:
        ClientCore)
        requires
            has_credentials(auth_params@),
        ensures
            r.wf(),
            r@ == (ClientView {
                auth: auth_params@,
                lifetime,
                relay_addr,
                permissions: Map::empty(),
                channels: Map::empty(),
                next_channel_number: CHANNEL_NUMBER_MIN,
                allocated: true,
                refresh_retried: false,
                permission_retried: false,
                channel_retried: false,
                actions: seq![
                    ClientActionView::Schedule(TimeoutEntry::Refresh, refresh_delay(lifetime)),
                ],
            }),
    {
        let mut actions: Vec<ClientAction> = Vec::new();
        actions.push(ClientAction::Schedule(TimeoutEntry::Refresh, compute_refresh_delay(lifetime)));
        let r = ClientCore {
            auth_params,
            lifetime,
            relay_addr,
            permissions: Table::new(),
            channels: Table::new(),
            next_channel_number: ChannelNumber::min(),
            allocated: true,
            refresh_retried: false,
            permission_retried: false,
            channel_retried: false,
            actions,
        };
        assert(r@.actions =~= seq![
            ClientActionView::Schedule(TimeoutEntry::Refresh, refresh_delay(lifetime)),
        ]);
        r
    }

    pub fn relay_addr(&self) -> (r: Option<SocketAddress>)
        ensures
            r == self@.relay_addr,
    {
        self.relay_addr
    }

    pub fn lifetime(&self) -> (r: u32)
        ensures
            r == self@.lifetime,
    {
        self.lifetime
    }

    pub fn is_allocated(&self) -> (r: bool)
        ensures
            r == self@.allocated,
    {
        self.allocated
    }

    pub fn auth_params(&self) -> (r: &AuthParams)
        ensures
            r@ == self@.auth,
    {
        &self.auth_params
    }

    pub fn permission_state(&self, ip: &IpAddress) -> (r: Option<PermissionState>)
        requires
            self.wf(),
        ensures
            r == if self@.permissions.contains_key(*ip) {
                Some(self@.permissions[*ip])
            } else {
                None
            },
    {
        match self.permissions.get(ip) {
            Some(s) => Some(*s),
            None => None,
        }
    }

    pub fn channel_state(&self, peer: &SocketAddress) -> (r: Option<ChannelState>)
        requires
            self.wf(),
        ensures
            r == if self@.channels.contains_key(*peer) {
                Some(self@.channels[*peer])
            } else {
                None
            },
    {
        match self.channels.get(peer) {
            Some(s) => Some(*s),
            None => None,
        }
    }

    /// Hands the pending actions to the event loop, oldest first.
    pub fn take_actions(&mut self) -> (r: Vec<ClientAction>)
        ensures
            r@.map_values(|a: ClientAction| a@) == old(self)@.actions,
            final(self)@ == (ClientView { actions: Seq::empty(), ..old(self)@ }),
            final(self).wf() == old(self).wf(),
    {
        let mut taken: Vec<ClientAction> = Vec::new();
        core::mem::swap(&mut taken, &mut self.actions);
        assert(self@.actions =~= Seq::<ClientActionView>::empty());
        taken
    }

    fn emit(&mut self, a: ClientAction)
        ensures
            final(self)@ == (ClientView { actions: old(self)@.actions.push(a@), ..old(self)@ }),
            final(self).wf() == old(self).wf(),
    {
        self.actions.push(a);
        assert(self@.actions =~= old(self)@.actions.push(a@));
    }

    fn start_refresh(&mut self) -> (r: Result<(), ErrorKind>)
        ensures
            final(self).wf() == old(self).wf(),
            r is Ok <==> has_credentials(old(self)@.auth),
            r is Ok ==> final(self)@ == (ClientView {
                actions: old(self)@.actions.push(
                    ClientActionView::Call(
                        Transaction::Refresh,
                        refresh_request(old(self)@.auth, old(self)@.lifetime),
                    ),
                ),
                ..old(self)@
            }),
            r is Err ==> r->Err_0 == ErrorKind::Unauthorized && final(self)@ == old(self)@,
    {
        let mut request = StunMessage::new(MessageClass::Request, Method::Refresh, 0);
        request.add_attribute(Attribute::Lifetime(Lifetime::new(self.lifetime)));
        match self.auth_params.add_auth_attributes(&mut request) {
            Err(e) => Err(e),
            Ok(()) => {
                assert(request@ == refresh_request(self@.auth, self@.lifetime)) by {
                    assert(request@.attributes =~= refresh_request(
                        self@.auth,
                        self@.lifetime,
                    ).attributes);
                }
                self.emit(ClientAction::Call(Transaction::Refresh, request));
                Ok(())
            },
        }
    }

    fn create_permission_inner(&mut self, peer: SocketAddress) -> (r: Result<(), ErrorKind>)
        ensures
            final(self).wf() == old(self).wf(),
            r is Ok <==> has_credentials(old(self)@.auth),
            r is Ok ==> final(self)@ == (ClientView {
                actions: old(self)@.actions.push(
                    ClientActionView::Call(
                        Transaction::CreatePermission(peer),
                        create_permission_request(old(self)@.auth, peer),
                    ),
                ),
                ..old(self)@
            }),
            r is Err ==> r->Err_0 == ErrorKind::Unauthorized && final(self)@ == old(self)@,
    {
        let mut request = StunMessage::new(MessageClass::Request, Method::CreatePermission, 0);
        request.add_attribute(Attribute::XorPeerAddress(XorPeerAddress::new(peer)));
        match self.auth_params.add_auth_attributes(&mut request) {
            Err(e) => Err(e),
            Ok(()) => {
                assert(request@ == create_permission_request(self@.auth, peer)) by {
                    assert(request@.attributes =~= create_permission_request(
                        self@.auth,
                        peer,
                    ).attributes);
                }
                self.emit(ClientAction::Call(Transaction::CreatePermission(peer), request));
                Ok(())
            },
        }
    }

    fn channel_bind_inner(&mut self, peer: SocketAddress, number: ChannelNumber) -> (r: Result<
        (),
        ErrorKind,
    >)
        ensures
            final(self).wf() == old(self).wf(),
            r is Ok <==> has_credentials(old(self)@.auth),
            r is Ok ==> final(self)@ == (ClientView {
                actions: old(self)@.actions.push(
                    ClientActionView::Call(
                        Transaction::ChannelBind(peer),
                        channel_bind_request(old(self)@.auth, peer, number),
                    ),
                ),
                ..old(self)@
            }),
            r is Err ==> r->Err_0 == ErrorKind::Unauthorized && final(self)@ == old(self)@,
    {
        let mut request = StunMessage::new(MessageClass::Request, Method::ChannelBind, 0);
        request.add_attribute(Attribute::XorPeerAddress(XorPeerAddress::new(peer)));
        request.add_attribute(Attribute::ChannelNumber(number));
        match self.auth_params.add_auth_attributes(&mut request) {
            Err(e) => Err(e),
            Ok(()) => {
                assert(request@ == channel_bind_request(self@.auth, peer, number)) by {
                    assert(request@.attributes =~= channel_bind_request(
                        self@.auth,
                        peer,
                        number,
                    ).attributes);
                }
                self.emit(ClientAction::Call(Transaction::ChannelBind(peer), request));
                Ok(())
            },
        }
    }

    /// Asks the server for a permission for `peer`'s IP, or to refresh it: a CREATE-PERMISSION
    /// request goes out each time, and the permission is pending until its response. Without
    /// credentials the operation fails at once with `Unauthorized`.
    pub fn create_permission(&mut self, peer: SocketAddress)
        requires
            old(self).wf(),
        ensures
            final(self).wf(),
            final(self)@ == create_permission_effect(old(self)@, peer),
    {
        match self.create_permission_inner(peer) {
            Err(e) => {
                self.emit(ClientAction::Reply(Operation::CreatePermission(peer), Err(e)));
            },
            Ok(()) => {
                self.permissions.insert(peer.ip, PermissionState::Pending);
                self.permission_retried = false;
            },
        }
    }

    /// Queues `data` for `peer`: as ChannelData on a confirmed channel, else as a SEND
    /// indication where a permission for the peer's IP exists. An unknown peer, or more than
    /// `0xFFFF` bytes, fails with `InvalidInput`.
    pub fn start_send(&mut self, peer: SocketAddress, data: Vec<u8>) -> (r: Result<(), ErrorKind>)
        requires
            old(self).wf(),
        ensures
            final(self).wf(),
            ({
                let s = old(self)@;
                let confirmed = s.channels.contains_key(peer) && s.channels[peer] is Created;
                let permitted = s.permissions.contains_key(peer.ip);
                &&& (r is Ok <==> (confirmed || permitted) && data@.len() <= DATA_MAX_LEN)
                &&& r is Err ==> r->Err_0 == ErrorKind::InvalidInput && final(self)@ == s
                &&& (r is Ok && confirmed) ==> final(self)@ == (ClientView {
                    actions: s.actions.push(
                        ClientActionView::SendChannelData(s.channels[peer].number(), data@),
                    ),
                    ..s
                })
                &&& (r is Ok && !confirmed) ==> final(self)@ == (ClientView {
                    actions: s.actions.push(ClientActionView::Cast(send_indication(peer, data@))),
                    ..s
                })
            }),
    {
        if data.len() > DATA_MAX_LEN {
            return Err(ErrorKind::InvalidInput);
        }
        if let Some(ChannelState::Created(number)) = self.channels.get(&peer) {
            let number = *number;
            match ChannelData::new(number, data) {
                Ok(cd) => {
                    self.emit(ClientAction::SendChannelData(cd));
                    return Ok(());
                },
                Err(e) => {
                    return Err(e);
                },
            }
        }
        if self.permissions.contains_key(&peer.ip) {
            match Data::new(data) {
                Ok(d) => {
                    let mut indication = StunMessage::new(MessageClass::Indication, Method::Send, 0);
                    indication.add_attribute(Attribute::XorPeerAddress(XorPeerAddress::new(peer)));
                    indication.add_attribute(Attribute::Data(d));
                    assert(indication@.attributes =~= send_indication(peer, data@).attributes);
                    self.emit(ClientAction::Cast(indication));
                    Ok(())
                },
                Err(e) => Err(e),
            }
        } else {
            Err(ErrorKind::InvalidInput)
        }
    }

    /// Whether some channel uses number `n`.
    fn is_number_in_use(&self, n: u16) -> (r: bool)
        requires
            self.wf(),
        ensures
            r == number_in_use(self@.channels, n),
    {
        proof {
            self.channels.lemma_entries();
        }
        let mut i: usize = 0;
        while i < self.channels.len()
            invariant
                i <= self.channels.entries().len(),
                self.channels.wf(),
                forall|j: int|
                    0 <= j < i ==> (#[trigger] self.channels.entries()[j]).1.number() != n,
            decreases self.channels.entries().len() - i,
        {
            let e = self.channels.entry(i);
            if e.1.channel_number().number() == n {
                proof {
                    self.channels.lemma_entries();
                    assert(self@.channels.contains_key(e.0));
                }
                return true;
            }
            i = i + 1;
        }
        proof {
            self.channels.lemma_entries();
            assert forall|p: SocketAddress| #[trigger]
                self@.channels.contains_key(p) implies self@.channels[p].number() != n by {
                let j = choose|j: int|
                    0 <= j < self.channels.entries().len() && #[trigger] self.channels.entries()[j].0
                        == p;
                assert(self.channels.entries()[j].1.number() != n);
            }
        }
        false
    }

    /// Picks a channel number that no channel uses, scanning from the counter and wrapping
    /// within `0x4000..=0x7FFF`, and moves the counter past it. `None` when every number is
    /// taken.
    fn next_channel_number(&mut self) -> (r: Option<ChannelNumber>)
        requires
            old(self).wf(),
        ensures
            final(self).wf(),
            r is Some ==> valid_channel_number(r->0.spec_number()),
            r is Some ==> first_unused_from(
                old(self)@.channels,
                old(self)@.next_channel_number,
                r->0.spec_number(),
            ),
            r is Some ==> !number_in_use(old(self)@.channels, r->0.spec_number())
                && final(self)@ == (ClientView {
                next_channel_number: ChannelNumber::spec_successor(r->0.spec_number()),
                ..old(self)@
            }),
            r is None ==> final(self)@ == old(self)@ && forall|n: u16|
                valid_channel_number(n) ==> #[trigger] number_in_use(old(self)@.channels, n),
    {
        let start = self.next_channel_number;
        let ghost s = start.spec_number();
        let mut c = start;
        let mut j: u16 = 0;
        let _ = start.number();
        while j < 0x4000
            invariant
                self@ == old(self)@,
                self.wf(),
                j <= 0x4000,
                valid_channel_number(s),
                s == old(self)@.next_channel_number,
                c.spec_number() == nth_after(s, j as int),
                forall|k: int| 0 <= k < j ==> #[trigger] number_in_use(self@.channels, nth_after(s, k)),
            decreases 0x4000 - j,
        {
            let n = c.number();
            if !self.is_number_in_use(n) {
                assert(valid_channel_number(c.spec_number()));
                assert(first_unused_from(old(self)@.channels, s, n)) by {
                    assert(nth_after(s, j as int) == n);
                }
                self.next_channel_number = c.wrapping_increment();
                return Some(c);
            }
            let ghost before = c.spec_number();
            c = c.wrapping_increment();
            assert(c.spec_number() == nth_after(s, j as int + 1)) by {
                assert(before == nth_after(s, j as int));
            }
            j = j + 1;
        }
        assert forall|n: u16| valid_channel_number(n) implies #[trigger] number_in_use(
            old(self)@.channels,
            n,
        ) by {
            let k: int = if n >= s {
                n - s
            } else {
                n - s + 0x4000
            };
            assert(nth_after(s, k) == n);
        }
        None
    }

    /// Binds a channel to `peer`, or refreshes the binding: a peer that has a channel keeps its
    /// number; otherwise the next unused number is taken. A CHANNEL-BIND request goes out and
    /// the channel is being created until its response. Without credentials, or with every
    /// number taken, the operation fails at once (`Unauthorized`, `Other`).
    pub fn channel_bind(&mut self, peer: SocketAddress)
        requires
            old(self).wf(),
        ensures
            final(self).wf(),
            !has_credentials(old(self)@.auth) ==> final(self)@ == (ClientView {
                actions: old(self)@.actions.push(
                    ClientActionView::Reply(Operation::ChannelBind(peer), Err(ErrorKind::Unauthorized)),
                ),
                ..old(self)@
            }),
            has_credentials(old(self)@.auth) && old(self)@.channels.contains_key(peer)
                ==> final(self)@ == channel_rebind_effect(old(self)@, peer),
            has_credentials(old(self)@.auth) && !old(self)@.channels.contains_key(peer) && (forall|
                n: u16,
            | valid_channel_number(n) ==> #[trigger] number_in_use(old(self)@.channels, n))
                ==> final(self)@ == (ClientView {
                actions: old(self)@.actions.push(
                    ClientActionView::Reply(Operation::ChannelBind(peer), Err(ErrorKind::Other)),
                ),
                ..old(self)@
            }),
            has_credentials(old(self)@.auth) && !old(self)@.channels.contains_key(peer) && !(forall|
                n: u16,
            | valid_channel_number(n) ==> #[trigger] number_in_use(old(self)@.channels, n)) ==> {
                let s = old(self)@;
                let t = final(self)@;
                let c = t.channels[peer].channel();
                let n = c.spec_number();
                &&& valid_channel_number(n)
                &&& first_unused_from(s.channels, s.next_channel_number, n)
                &&& !number_in_use(s.channels, n)
                &&& t == ClientView {
                    channels: s.channels.insert(peer, ChannelState::Creating(c)),
                    next_channel_number: ChannelNumber::spec_successor(n),
                    channel_retried: false,
                    actions: s.actions.push(
                        ClientActionView::Call(
                            Transaction::ChannelBind(peer),
                            channel_bind_request(s.auth, peer, c),
                        ),
                    ),
                    ..s
                }
            },
    {
        if !(self.auth_params.has_realm() && self.auth_params.has_nonce()) {
            self.emit(ClientAction::Reply(Operation::ChannelBind(peer), Err(ErrorKind::Unauthorized)));
            return;
        }
        let number = match self.channels.get(&peer) {
            Some(state) => state.channel_number(),
            None => match self.next_channel_number() {
                Some(n) => n,
                None => {
                    self.emit(ClientAction::Reply(Operation::ChannelBind(peer), Err(ErrorKind::Other)));
                    return;
                },
            },
        };
        let ghost mid = self@;
        match self.channel_bind_inner(peer, number) {
            Err(e) => {
                self.emit(ClientAction::Reply(Operation::ChannelBind(peer), Err(e)));
            },
            Ok(()) => {
                let ghost before = self.channels@;
                self.channels.insert(peer, ChannelState::Creating(number));
                self.channel_retried = false;
                proof {
                    assert forall|p: SocketAddress, q: SocketAddress|
                        #[trigger] self@.channels.contains_key(p) && #[trigger]
                        self@.channels.contains_key(q) && p != q implies self@.channels[p].number()
                        != self@.channels[q].number() by {
                        if p != peer && q != peer {
                            assert(before.contains_key(p) && before.contains_key(q));
                        } else if p == peer {
                            assert(before.contains_key(q));
                            if !old(self)@.channels.contains_key(peer) {
                                assert(!number_in_use(before, number.spec_number()));
                            }
                        } else {
                            assert(before.contains_key(p));
                            if !old(self)@.channels.contains_key(peer) {
                                assert(!number_in_use(before, number.spec_number()));
                            }
                        }
                    }
                }
            },
        }
    }

    /// Reads a STUN message that is not a response: a DATA indication from a peer with a
    /// permission yields that peer and the payload. Anything else, a request in particular,
    /// breaks the protocol and fails with `ProtocolViolation`.
    pub fn handle_stun_message(&self, message: &StunMessage) -> (r: Result<
        (SocketAddress, Vec<u8>),
        ErrorKind,
    >)
        requires
            self.wf(),
        ensures
            r is Ok <==> received_data(self@, message@) is Some,
            r is Ok ==> received_data(self@, message@) == Some((r->Ok_0.0, r->Ok_0.1@)),
            r is Err ==> r->Err_0 == ErrorKind::ProtocolViolation,
    {
        if message.class != MessageClass::Indication {
            return Err(ErrorKind::ProtocolViolation);
        }
        self.handle_stun_indication(message)
    }

    /// Reads an indication: DATA from a peer with a permission yields that peer and the
    /// payload. Any other method, or a DATA indication missing XOR-PEER-ADDRESS or DATA or
    /// from a peer without a permission, fails with `ProtocolViolation`. The client is not
    /// changed.
    pub fn handle_stun_indication(&self, indication: &StunMessage) -> (r: Result<
        (SocketAddress, Vec<u8>),
        ErrorKind,
    >)
        requires
            self.wf(),
            indication@.class == MessageClass::Indication,
        ensures
            r is Ok <==> received_data(self@, indication@) is Some,
            r is Ok ==> received_data(self@, indication@) == Some((r->Ok_0.0, r->Ok_0.1@)),
            r is Err ==> r->Err_0 == ErrorKind::ProtocolViolation,
            indication@.method != Method::Data ==> r is Err,
    {
        if indication.method != Method::Data {
            return Err(ErrorKind::ProtocolViolation);
        }
        let peer = match indication.xor_peer_address() {
            Some(p) => p,
            None => return Err(ErrorKind::ProtocolViolation),
        };
        let data = match indication.data() {
            Some(d) => d,
            None => return Err(ErrorKind::ProtocolViolation),
        };
        if !self.permissions.contains_key(&peer.ip) {
            return Err(ErrorKind::ProtocolViolation);
        }
        Ok((peer, data.unwrap()))
    }

    /// Reads a ChannelData message: the channel's number names the peer it came from. An
    /// unknown number fails with `ProtocolViolation`.
    pub fn handle_channel_data(&self, data: ChannelData) -> (r: Result<
        (SocketAddress, Vec<u8>),
        ErrorKind,
    >)
        requires
            self.wf(),
        ensures
            r is Ok <==> number_in_use(self@.channels, data@.0),
            r is Ok ==> self@.channels.contains_key(r->Ok_0.0) && self@.channels[r->Ok_0.0].number()
                == data@.0 && r->Ok_0.1@ == data@.1,
            r is Err ==> r->Err_0 == ErrorKind::ProtocolViolation,
    {
        let n = data.channel_number().number();
        proof {
            self.channels.lemma_entries();
        }
        let mut i: usize = 0;
        while i < self.channels.len()
            invariant
                i <= self.channels.entries().len(),
                self.channels.wf(),
                n == data@.0,
                forall|j: int|
                    0 <= j < i ==> (#[trigger] self.channels.entries()[j]).1.number() != n,
            decreases self.channels.entries().len() - i,
        {
            let e = self.channels.entry(i);
            if e.1.channel_number().number() == n {
                let peer = e.0;
                proof {
                    self.channels.lemma_entries();
                    assert(self@.channels.contains_key(peer));
                }
                return Ok((peer, data.into_data()));
            }
            i = i + 1;
        }
        proof {
            self.channels.lemma_entries();
            assert forall|p: SocketAddress| #[trigger]
                self@.channels.contains_key(p) implies self@.channels[p].number() != n by {
                let j = choose|j: int|
                    0 <= j < self.channels.entries().len() && #[trigger] self.channels.entries()[j].0
                        == p;
                assert(self.channels.entries()[j].1.number() != n);
            }
        }
        Err(ErrorKind::ProtocolViolation)
    }

    fn settle(r: Result<(), ErrorKind>) -> (s: Result<(), ErrorKind>)
        ensures
            r is Err ==> s == r,
            r is Ok ==> s == Ok::<(), ErrorKind>(()),
    {
        match r {
            Ok(()) => Ok(()),
            Err(e) => Err(e),
        }
    }

    /// Asks the server to end the allocation, as a client does when it goes away: a REFRESH
    /// with LIFETIME 0. Without credentials it fails with `Unauthorized`.
    pub fn start_teardown(&mut self) -> (r: Result<(), ErrorKind>)
        requires
            old(self).wf(),
        ensures
            final(self).wf(),
            (final(self)@, r) == refresh_started(ClientView { lifetime: 0, ..old(self)@ }),
    {
        self.lifetime = 0;
        self.refresh_retried = false;
        Self::settle(self.start_refresh())
    }

    /// Takes the new nonce of a 438 response that carries one.
    fn take_stale_nonce(&mut self, m: &StunMessage) -> (r: bool)
        ensures
            old(self).wf() ==> final(self).wf(),
            r == stale_nonce_of(m@) is Some,
            r ==> final(self)@ == with_nonce(old(self)@, stale_nonce_of(m@)->0),
            !r ==> final(self)@ == old(self)@,
    {
        if m.error_code() != Some(CODE_STALE_NONCE) {
            return false;
        }
        match m.nonce() {
            Some(n) => {
                self.auth_params.set_nonce(n);
                true
            },
            None => false,
        }
    }

    pub(crate) fn error_kind(m: &StunMessage) -> (r: ErrorKind)
        ensures
            r == error_kind_of(m@),
    {
        match m.error_code() {
            Some(c) => if c == CODE_UNAUTHORIZED || c == CODE_WRONG_CREDENTIALS {
                ErrorKind::Unauthorized
            } else {
                ErrorKind::Other
            },
            None => ErrorKind::ProtocolViolation,
        }
    }

    fn failure(&self, m: &StunMessage) -> (r: ErrorKind)
        ensures
            r == failure_of(self@.auth, m@),
    {
        if m.class == MessageClass::ErrorResponse {
            Self::error_kind(m)
        } else if m.class == MessageClass::SuccessResponse {
            ErrorKind::Unauthorized
        } else {
            ErrorKind::ProtocolViolation
        }
    }

    fn integrity_accepted(&self, m: &StunMessage) -> (r: bool)
        ensures
            r == integrity_ok(self@.auth, m@),
    {
        m.integrity == Integrity::Absent || self.auth_params.validate(m.integrity).is_ok()
    }

    /// Handles the response to REFRESH. A 438 with a new nonce is retried once with that
    /// nonce. A success sets the lifetime from LIFETIME and schedules the next refresh, none
    /// when the lifetime is zero: the allocation is then gone.
    pub fn handle_refresh_response(&mut self, response: &StunMessage) -> (r: Result<(), ErrorKind>)
        requires
            old(self).wf(),
        ensures
            final(self).wf(),
            (final(self)@, r) == refresh_outcome(old(self)@, response@),
    {
        if response.class == MessageClass::ErrorResponse && !self.refresh_retried
            && self.take_stale_nonce(response) {
            self.refresh_retried = true;
            return Self::settle(self.start_refresh());
        }
        if response.class == MessageClass::SuccessResponse && self.integrity_accepted(response) {
            match response.lifetime() {
                Some(l) => {
                    self.lifetime = l;
                    self.refresh_retried = false;
                    if l == 0 {
                        self.allocated = false;
                    } else {
                        self.emit(
                            ClientAction::Schedule(TimeoutEntry::Refresh, compute_refresh_delay(l)),
                        );
                    }
                    Ok(())
                },
                None => {
                    self.refresh_retried = false;
                    Err(ErrorKind::ProtocolViolation)
                },
            }
        } else {
            let kind = self.failure(response);
            self.refresh_retried = false;
            Err(kind)
        }
    }

    /// Handles the response to CREATE-PERMISSION for `peer`. A 438 with a new nonce is retried
    /// once. A success confirms the permission and schedules its refresh after 270 seconds; a
    /// failure drops it. A pending user operation learns the outcome.
    pub fn handle_create_permission_response(
        &mut self,
        peer: SocketAddress,
        response: &StunMessage,
    ) -> (r: Result<(), ErrorKind>)
        requires
            old(self).wf(),
        ensures
            final(self).wf(),
            (final(self)@, r) == permission_outcome(old(self)@, peer, response@),
    {
        let state = match self.permissions.get(&peer.ip) {
            Some(s) => *s,
            None => return Err(ErrorKind::ProtocolViolation),
        };
        if response.class == MessageClass::ErrorResponse && !self.permission_retried
            && self.take_stale_nonce(response) {
            self.permission_retried = true;
            return Self::settle(self.create_permission_inner(peer));
        }
        if response.class == MessageClass::SuccessResponse && self.integrity_accepted(response) {
            if state == PermissionState::Pending {
                self.emit(ClientAction::Reply(Operation::CreatePermission(peer), Ok(())));
            }
            self.permissions.insert(peer.ip, PermissionState::Confirmed);
            self.permission_retried = false;
            self.emit(
                ClientAction::Schedule(
                    TimeoutEntry::Permission(peer),
                    compute_refresh_delay(PERMISSION_LIFETIME_SECONDS),
                ),
            );
            Ok(())
        } else {
            let kind = self.failure(response);
            if state == PermissionState::Pending {
                self.emit(ClientAction::Reply(Operation::CreatePermission(peer), Err(kind)));
            }
            self.permissions.remove(&peer.ip);
            self.permission_retried = false;
            Err(kind)
        }
    }

    /// Handles the response to CHANNEL-BIND for `peer`. A 438 with a new nonce is retried
    /// once. A success confirms the binding, installs a permission for the peer's IP if there
    /// is none, and schedules the binding's refresh after 540 seconds; a failure drops the
    /// binding. A pending user operation learns the outcome.
    pub fn handle_channel_bind_response(&mut self, peer: SocketAddress, response: &StunMessage) -> (r:
        Result<(), ErrorKind>)
        requires
            old(self).wf(),
        ensures
            final(self).wf(),
            (final(self)@, r) == channel_outcome(old(self)@, peer, response@),
    {
        let state = match self.channels.get(&peer) {
            Some(s) => *s,
            None => return Err(ErrorKind::ProtocolViolation),
        };
        if response.class == MessageClass::ErrorResponse && !self.channel_retried
            && self.take_stale_nonce(response) {
            self.channel_retried = true;
            return Self::settle(self.channel_bind_inner(peer, state.channel_number()));
        }
        if response.class == MessageClass::SuccessResponse && self.integrity_accepted(response) {
            let creating = match state {
                ChannelState::Creating(_) => true,
                ChannelState::Created(_) => false,
            };
            if creating {
                self.emit(ClientAction::Reply(Operation::ChannelBind(peer), Ok(())));
            }
            let ghost before = self.channels@;
            self.channels.insert(peer, state.confirm());
            proof {
                assert forall|p: SocketAddress, q: SocketAddress|
                    #[trigger] self@.channels.contains_key(p) && #[trigger]
                    self@.channels.contains_key(q) && p != q implies self@.channels[p].number()
                    != self@.channels[q].number() by {
                    assert(before.contains_key(p) && before.contains_key(q));
                }
            }
            if !self.permissions.contains_key(&peer.ip) {
                self.permissions.insert(peer.ip, PermissionState::Confirmed);
            }
            self.channel_retried = false;
            self.emit(
                ClientAction::Schedule(
                    TimeoutEntry::Channel(peer),
                    compute_refresh_delay(CHANNEL_LIFETIME_SECONDS),
                ),
            );
            Ok(())
        } else {
            let kind = self.failure(response);
            let creating = match state {
                ChannelState::Creating(_) => true,
                ChannelState::Created(_) => false,
            };
            if creating {
                self.emit(ClientAction::Reply(Operation::ChannelBind(peer), Err(kind)));
            }
            self.channels.remove(&peer);
            self.channel_retried = false;
            Err(kind)
        }
    }

    /// Handles a timer: a refresh while the allocation lives, and the refresh of a
    /// permission or channel that still exists. Stale timers do nothing.
    pub fn handle_timeout(&mut self, entry: TimeoutEntry) -> (r: Result<(), ErrorKind>)
        requires
            old(self).wf(),
        ensures
            final(self).wf(),
            (final(self)@, r) == timeout_outcome(old(self)@, entry),
    {
        match entry {
            TimeoutEntry::Refresh => {
                if self.allocated {
                    self.refresh_retried = false;
                    Self::settle(self.start_refresh())
                } else {
                    Ok(())
                }
            },
            TimeoutEntry::Permission(peer) => {
                if self.permissions.contains_key(&peer.ip) {
                    self.permission_retried = false;
                    Self::settle(self.create_permission_inner(peer))
                } else {
                    Ok(())
                }
            },
            TimeoutEntry::Channel(peer) => {
                match self.channels.get(&peer) {
                    Some(state) => {
                        let number = state.channel_number();
                        self.channel_retried = false;
                        Self::settle(self.channel_bind_inner(peer, number))
                    },
                    None => Ok(()),
                }
            },
        }
    }
}

/// Asking twice for a permission for the same peer leaves one permission for the peer's IP,
/// as asking once does; each time a CREATE-PERMISSION goes to the server, which extends the
/// permission's lifetime there.
pub proof fn lemma_create_permission_idempotent(s: ClientView, peer: SocketAddress)
    requires
        has_credentials(s.auth),
    ensures
        ({
            let once = create_permission_effect(s, peer);
            let twice = create_permission_effect(once, peer);
            let call = ClientActionView::Call(
                Transaction::CreatePermission(peer),
                create_permission_request(s.auth, peer),
            );
            &&& twice.permissions == once.permissions
            &&& once.permissions.contains_key(peer.ip)
            &&& once.permissions.dom() == s.permissions.dom().insert(peer.ip)
            &&& once.actions == s.actions.push(call)
            &&& twice.actions == s.actions.push(call).push(call)
        }),
{
    let once = create_permission_effect(s, peer);
    assert(once.permissions.insert(peer.ip, PermissionState::Pending) =~= once.permissions);
}

/// Binding a channel to a peer that has one keeps its number, and sends CHANNEL-BIND with
/// that number again, which refreshes the binding on the server.
pub proof fn lemma_channel_bind_keeps_number(s: ClientView, peer: SocketAddress)
    requires
        has_credentials(s.auth),
        s.channels.contains_key(peer),
    ensures
        channel_rebind_effect(s, peer).channels.contains_key(peer),
        channel_rebind_effect(s, peer).channels[peer].channel() == s.channels[peer].channel(),
        channel_rebind_effect(s, peer).actions.last() == ClientActionView::Call(
            Transaction::ChannelBind(peer),
            channel_bind_request(s.auth, peer, s.channels[peer].channel()),
        ),
{
}

/// A refresh answered with LIFETIME 0 ends the allocation: no refresh is scheduled, and a
/// refresh timer that fires afterwards does nothing.
pub proof fn lemma_zero_lifetime_stops_refresh(s: ClientView, m: MessageView)
    requires
        m.class == MessageClass::SuccessResponse,
        integrity_ok(s.auth, m),
        first_of(m.attributes, TYPE_LIFETIME) == Some(AttributeView::Lifetime(0)),
    ensures
        refresh_outcome(s, m).1 is Ok,
        !refresh_outcome(s, m).0.allocated,
        refresh_outcome(s, m).0.actions == s.actions,
        timeout_outcome(refresh_outcome(s, m).0, TimeoutEntry::Refresh).0 == refresh_outcome(
            s,
            m,
        ).0,
        timeout_outcome(refresh_outcome(s, m).0, TimeoutEntry::Refresh).1 is Ok,
{
}

/// A request reaching the client is never data: `handle_stun_message` refuses it as a
/// protocol violation.
pub proof fn lemma_request_is_not_data(s: ClientView, m: MessageView)
    requires
        m.class == MessageClass::Request,
    ensures
        received_data(s, m) is None,
{
}

/// When the counter's own number is free, a new channel gets exactly that number: a fresh
/// client's first channel is 0x4000, and a counter at 0x7FFF gives 0x7FFF and then wraps to
/// 0x4000.
pub proof fn lemma_counter_number_used_when_free(
    channels: Map<SocketAddress, ChannelState>,
    start: u16,
    n: u16,
)
    requires
        valid_channel_number(start),
        !number_in_use(channels, start),
        first_unused_from(channels, start, n),
    ensures
        n == start,
        ChannelNumber::spec_successor(n) == if start == CHANNEL_NUMBER_MAX {
            CHANNEL_NUMBER_MIN
        } else {
            (start + 1) as u16
        },
{
    let j = choose|j: int|
        0 <= j < 0x4000 && #[trigger] nth_after(start, j) == n && !number_in_use(channels, n)
            && forall|k: int| 0 <= k < j ==> #[trigger] number_in_use(channels, nth_after(start, k));
    assert(nth_after(start, 0) == start);
    if j > 0 {
        assert(number_in_use(channels, nth_after(start, 0)));
    }
}

} // verus!
