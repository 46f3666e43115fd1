use vstd::prelude::*;

use crate::attributes::{valid_text, valid_username, Nonce, Realm, Username};
use crate::error::ErrorKind;
use crate::message::{Attribute, AttributeView, Integrity, MessageView, StunMessage};

verus! {

pub ghost struct AuthView {
    pub username: Seq<char>,
    pub password: Seq<char>,
    pub realm: Option<Seq<char>>,
    pub nonce: Option<Seq<char>>,
}

/// Long-term credentials: a username and password, and the realm and nonce that the server
/// hands out.
#[derive(Debug)]
pub struct AuthParams {
    username: Username,
    password: String,
    realm: Option<Realm>,
    nonce: Option<Nonce>,
}

pub open spec fn opt_view<T: View>(o: Option<T>) -> Option<T::V> {
    match o {
        Some(x) => Some(x@),
        None => None,
    }
}

impl View for AuthParams {
    type V = AuthView;

    closed spec fn view(&self) -> AuthView {
        AuthView {
            username: self.username@,
            password: self.password@,
            realm: opt_view(self.realm),
            nonce: opt_view(self.nonce),
        }
    }
}

/// The attributes that authenticate a request: USERNAME, REALM and NONCE, in this order.
pub open spec fn auth_attributes(a: AuthView) -> Seq<AttributeView> {
    seq![
        AttributeView::Username(a.username),
        AttributeView::Realm(a.realm->0),
        AttributeView::Nonce(a.nonce->0),
    ]
}

/// `m` with the credentials of `a` added: the three attributes, and MESSAGE-INTEGRITY to sign.
pub open spec fn authenticated(m: MessageView, a: AuthView) -> MessageView {
    MessageView { attributes: m.attributes + auth_attributes(a), integrity: Integrity::Sign, ..m }
}

impl AuthParams {
    /// Credentials without realm and nonce, as a client starts. A username of 513 bytes or
    /// more is rejected with `InvalidInput`.
    pub fn new(username: &str, password: &str) -> (r: Result<AuthParams, ErrorKind>)
        ensures
            r is Ok <==> valid_username(username),
            r is Ok ==> r->Ok_0@ == (AuthView {
                username: username@,
                password: password@,
                realm: None,
                nonce: None,
            }),
            r is Err ==> r->Err_0 == ErrorKind::InvalidInput,
    {
        let username = match Username::new(username) {
            Ok(u) => u,
            Err(e) => return Err(e),
        };
        Ok(AuthParams { username, password: password.to_owned(), realm: None, nonce: None })
    }

    /// Credentials with realm and nonce, as a server holds them. A username of 513 bytes or
    /// more, or a realm or nonce of 128 characters or more, is rejected with `InvalidInput`.
    pub fn with_realm_and_nonce(username: &str, password: &str, realm: &str, nonce: &str) -> (r:
        Result<AuthParams, ErrorKind>)
        ensures
            r is Ok <==> valid_username(username) && valid_text(realm@) && valid_text(nonce@),
            r is Ok ==> r->Ok_0@ == (AuthView {
                username: username@,
                password: password@,
                realm: Some(realm@),
                nonce: Some(nonce@),
            }),
            r is Err ==> r->Err_0 == ErrorKind::InvalidInput,
    {
        let username = match Username::new(username) {
            Ok(u) => u,
            Err(e) => return Err(e),
        };
        let realm = match Realm::new(realm) {
            Ok(r) => r,
            Err(e) => return Err(e),
        };
        let nonce = match Nonce::new(nonce) {
            Ok(n) => n,
            Err(e) => return Err(e),
        };
        Ok(
            AuthParams {
                username,
                password: password.to_owned(),
                realm: Some(realm),
                nonce: Some(nonce),
            },
        )
    }

    pub fn duplicate(&self) -> (r: AuthParams)
        ensures
            r@ == self@,
    {
        AuthParams {
            username: self.username.duplicate(),
            password: self.password.clone(),
            realm: match &self.realm {
                Some(r) => Some(r.duplicate()),
                None => None,
            },
            nonce: match &self.nonce {
                Some(n) => Some(n.duplicate()),
                None => None,
            },
        }
    }

    pub fn has_realm(&self) -> (r: bool)
        ensures
            r == self@.realm is Some,
    {
        self.realm.is_some()
    }

    pub fn has_nonce(&self) -> (r: bool)
        ensures
            r == self@.nonce is Some,
    {
        self.nonce.is_some()
    }

    pub fn set_realm(&mut self, realm: Realm)
        ensures
            final(self)@ == (AuthView { realm: Some(realm@), ..old(self)@ }),
    {
        self.realm = Some(realm);
    }

    pub fn set_nonce(&mut self, nonce: Nonce)
        ensures
            final(self)@ == (AuthView { nonce: Some(nonce@), ..old(self)@ }),
    {
        self.nonce = Some(nonce);
    }

    pub fn get_realm(&self) -> (r: Option<&Realm>)
        ensures
            opt_view(r) == self@.realm,
    {
        self.realm.as_ref()
    }

    pub fn get_nonce(&self) -> (r: Option<&Nonce>)
        ensures
            opt_view(r) == self@.nonce,
    {
        self.nonce.as_ref()
    }

    pub fn username(&self) -> (r: &str)
        ensures
            r@ == self@.username,
    {
        self.username.name()
    }

    pub fn password(&self) -> (r: &str)
        ensures
            r@ == self@.password,
    {
        self.password.as_str()
    }

    /// Adds USERNAME, REALM and NONCE to `message` and marks it to be signed with
    /// MESSAGE-INTEGRITY. Without realm or nonce it fails with `Unauthorized` and leaves the
    /// message as it was.
    pub fn add_auth_attributes(&self, message: &mut StunMessage) -> (r: Result<(), ErrorKind>)
        ensures
            r is Ok <==> self@.realm is Some && self@.nonce is Some,
            r is Ok ==> final(message)@ == authenticated(old(message)@, self@),
            r is Err ==> r->Err_0 == ErrorKind::Unauthorized && final(message)@ == old(message)@,
    {
        match (&self.realm, &self.nonce) {
            (Some(realm), Some(nonce)) => {
                message.add_attribute(Attribute::Username(self.username.duplicate()));
                message.add_attribute(Attribute::Realm(realm.duplicate()));
                message.add_attribute(Attribute::Nonce(nonce.duplicate()));
                message.integrity = Integrity::Sign;
                assert(final(message)@.attributes =~= old(message)@.attributes + auth_attributes(
                    self@,
                ));
                Ok(())
            },
            _ => Err(ErrorKind::Unauthorized),
        }
    }

    /// Accepts a received MESSAGE-INTEGRITY that checked against these credentials; fails
    /// with `Unauthorized` when it did not, or when no realm is known to check it against.
    pub fn validate(&self, integrity: Integrity) -> (r: Result<(), ErrorKind>)
        ensures
            r is Ok <==> integrity == Integrity::Valid && self@.realm is Some,
            r is Err ==> r->Err_0 == ErrorKind::Unauthorized,
    {
        if self.realm.is_some() && integrity == Integrity::Valid {
            Ok(())
        } else {
            Err(ErrorKind::Unauthorized)
        }
    }
}

} // verus!
