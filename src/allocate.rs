use vstd::prelude::*;

use crate::attributes::{
    RequestedTransport, CHANNEL_NUMBER_MIN, PROTOCOL_UDP, TYPE_ERROR_CODE, TYPE_LIFETIME,
    TYPE_NONCE, TYPE_REALM, TYPE_XOR_RELAYED_ADDRESS,
};
use crate::auth::{authenticated, AuthParams, AuthView};
use crate::client::{
    error_kind_of, has_credentials, integrity_ok, refresh_delay, request_view, ClientActionView, ClientCore,
    ClientView, TimeoutEntry,
};
use crate::error::ErrorKind;
use crate::errors::CODE_UNAUTHORIZED;
use crate::message::{
    code_of, first_of, Attribute, AttributeView, Integrity, MessageClass, MessageView,
    StunMessage,
};
use crate::methods::Method;
use crate::types::SocketAddress;

verus! {

/// The ALLOCATE request for a relayed UDP address, with credentials once a realm is known.
pub open spec fn allocate_request(a: AuthView) -> MessageView {
    let plain = request_view(
        Method::Allocate,
        seq![AttributeView::RequestedTransport(PROTOCOL_UDP)],
    );
    if a.realm is Some {
        authenticated(plain, a)
    } else {
        plain
    }
}

/// The relayed address a success response reports, if any.
pub open spec fn relay_of(m: MessageView) -> Option<SocketAddress> {
    match first_of(m.attributes, TYPE_XOR_RELAYED_ADDRESS) {
        Some(AttributeView::XorRelayAddress(a)) => Some(a),
        _ => None,
    }
}

/// The lifetime a response carries, if any.
pub open spec fn lifetime_of(m: MessageView) -> Option<u32> {
    match first_of(m.attributes, TYPE_LIFETIME) {
        Some(AttributeView::Lifetime(l)) => Some(l),
        _ => None,
    }
}

/// The realm and nonce of a 401 response.
pub open spec fn challenge_of(m: MessageView) -> Option<(Seq<char>, Seq<char>)> {
    match (first_of(m.attributes, TYPE_REALM), first_of(m.attributes, TYPE_NONCE)) {
        (Some(AttributeView::Realm(r)), Some(AttributeView::Nonce(n))) => Some((r, n)),
        _ => None,
    }
}

/// The client of a fresh allocation.
pub open spec fn allocated_view(a: AuthView, lifetime: u32, relay: Option<SocketAddress>) -> ClientView {
    ClientView {
        auth: a,
        lifetime,
        relay_addr: relay,
        permissions: Map::empty(),
        channels: Map::empty(),
        next_channel_number: CHANNEL_NUMBER_MIN,
        allocated: true,
        refresh_retried: false,
        permission_retried: false,
        channel_retried: false,
        actions: seq![ClientActionView::Schedule(TimeoutEntry::Refresh, refresh_delay(lifetime))],
    }
}

/// What comes of a response to ALLOCATE.
#[derive(Debug)]
pub enum AllocateStep {
    /// The server asked for credentials: send this request instead.
    Retry(StunMessage),
    /// The allocation exists.
    Allocated(ClientCore),
}

/// The allocation handshake of a client: an ALLOCATE without credentials, the 401 that
/// brings realm and nonce, and the ALLOCATE with credentials.
#[derive(Debug)]
pub struct Allocate {
    auth_params: AuthParams,
}

impl View for Allocate {
    type V = AuthView;

    closed spec fn view(&self) -> AuthView {
        self.auth_params@
    }
}

impl Allocate {
    pub fn new(auth_params: AuthParams) -> (r: Allocate)
        ensures
            r@ == auth_params@,
    {
        Allocate { auth_params }
    }

    pub fn auth_params(&self) -> (r: &AuthParams)
        ensures
            r@ == self@,
    {
        &self.auth_params
    }

    /// The ALLOCATE request to send now. With a realm but no nonce it fails with
    /// `Unauthorized`.
    pub fn start_allocate(&self) -> (r: Result<StunMessage, ErrorKind>)
        ensures
            r is Ok <==> (self@.realm is None || self@.nonce is Some),
            r is Ok ==> r->Ok_0@ == allocate_request(self@),
            r is Err ==> r->Err_0 == ErrorKind::Unauthorized,
    {
        let mut request = StunMessage::new(MessageClass::Request, Method::Allocate, 0);
        request.add_attribute(Attribute::RequestedTransport(RequestedTransport::udp()));
        assert(request@.attributes =~= seq![AttributeView::RequestedTransport(PROTOCOL_UDP)]);
        if self.auth_params.has_realm() {
            match self.auth_params.add_auth_attributes(&mut request) {
                Ok(()) => Ok(request),
                Err(e) => Err(e),
            }
        } else {
            Ok(request)
        }
    }

    /// Handles the response to ALLOCATE. A success must answer a request sent with
    /// credentials, after the server's 401 (else `ProtocolViolation`), and carry LIFETIME (else
    /// `ProtocolViolation`) and an acceptable MESSAGE-INTEGRITY (else `Unauthorized`); it
    /// gives the client, with the relayed address if reported. The first 401 must carry REALM
    /// and NONCE (else `ProtocolViolation`): they are kept and the request is sent again with
    /// credentials. A second 401 fails with `Unauthorized`, any other error as its code says.
    pub fn handle_allocate_response(&mut self, response: &StunMessage) -> (r: Result<
        AllocateStep,
        ErrorKind,
    >)
        ensures
            ({
                let a = old(self)@;
                let m = response@;
                if m.class == MessageClass::SuccessResponse {
                    if !has_credentials(a) {
                        r == Err::<AllocateStep, ErrorKind>(ErrorKind::ProtocolViolation)
                    } else if !integrity_ok(a, m) {
                        r == Err::<AllocateStep, ErrorKind>(ErrorKind::Unauthorized)
                    } else if lifetime_of(m) is None {
                        r == Err::<AllocateStep, ErrorKind>(ErrorKind::ProtocolViolation)
                    } else {
                        &&& r is Ok
                        &&& r->Ok_0 is Allocated
                        &&& r->Ok_0->Allocated_0.wf()
                        &&& r->Ok_0->Allocated_0@ == allocated_view(
                            a,
                            lifetime_of(m)->0,
                            relay_of(m),
                        )
                    }
                } else if m.class == MessageClass::ErrorResponse {
                    if code_of(first_of(m.attributes, TYPE_ERROR_CODE)) != Some(CODE_UNAUTHORIZED) {
                        r == Err::<AllocateStep, ErrorKind>(error_kind_of(m))
                    } else if a.realm is Some {
                        r == Err::<AllocateStep, ErrorKind>(ErrorKind::Unauthorized)
                    } else if challenge_of(m) is None {
                        r == Err::<AllocateStep, ErrorKind>(ErrorKind::ProtocolViolation)
                    } else {
                        let b = AuthView {
                            realm: Some((challenge_of(m)->0).0),
                            nonce: Some((challenge_of(m)->0).1),
                            ..a
                        };
                        &&& final(self)@ == b
                        &&& r is Ok
                        &&& r->Ok_0 is Retry
                        &&& r->Ok_0->Retry_0@ == allocate_request(b)
                    }
                } else {
                    r == Err::<AllocateStep, ErrorKind>(ErrorKind::ProtocolViolation)
                }
            }),
            !(r is Ok && r->Ok_0 is Retry) ==> final(self)@ == old(self)@,
    {
        if response.class == MessageClass::SuccessResponse {
            if !(self.auth_params.has_realm() && self.auth_params.has_nonce()) {
                return Err(ErrorKind::ProtocolViolation);
            }
            let accepted = response.integrity == Integrity::Absent
                || self.auth_params.validate(response.integrity).is_ok();
            if !accepted {
                return Err(ErrorKind::Unauthorized);
            }
            let lifetime = match response.lifetime() {
                Some(l) => l,
                None => return Err(ErrorKind::ProtocolViolation),
            };
            let relay = response.xor_relay_address();
            let core = ClientCore::new(self.auth_params.duplicate(), lifetime, relay);
            Ok(AllocateStep::Allocated(core))
        } else if response.class == MessageClass::ErrorResponse {
            match response.error_code() {
                Some(c) => {
                    if c != CODE_UNAUTHORIZED {
                        return Err(ClientCore::error_kind(response));
                    }
                },
                None => return Err(ErrorKind::ProtocolViolation),
            }
            if self.auth_params.has_realm() {
                return Err(ErrorKind::Unauthorized);
            }
            let realm = match response.realm() {
                Some(r) => r,
                None => return Err(ErrorKind::ProtocolViolation),
            };
            let nonce = match response.nonce() {
                Some(n) => n,
                None => return Err(ErrorKind::ProtocolViolation),
            };
            self.auth_params.set_realm(realm);
            self.auth_params.set_nonce(nonce);
            match self.start_allocate() {
                Ok(request) => Ok(AllocateStep::Retry(request)),
                Err(e) => Err(e),
            }
        } else {
            Err(ErrorKind::ProtocolViolation)
        }
    }
}

} // verus!
