//! Authentication of clients.

use crate::key::{openssh_text, ClientKey};
use crate::session::{AuthFailure, SessionState};
use vstd::prelude::*;

verus! {

/// A hash algorithm for RSA signatures.
#[derive(Clone, Copy, Debug, PartialEq, Eq, Structural)]
pub enum HashAlg {
    Sha256,
    Sha512,
}

/// What a client is told.
#[derive(Clone, Copy, Debug, PartialEq, Eq, Structural)]
pub enum AuthReply {
    Accept,
    UnsupportedMethod,
}

/// A client that presented a key. Next, the server is asked which hash it wants
/// for RSA signatures.
pub struct AuthStart {
    pub user: String,
    pub key: ClientKey,
}

/// A login at the server with the proxy's own key, under the client's user name.
pub struct AuthLogin {
    pub user: String,
    /// The hash to sign with where the proxy's key is an RSA key.
    pub hash_alg: Option<HashAlg>,
    /// The key that the client presented.
    pub key: ClientKey,
}

/// The hash to sign with, where `reported` is what the server says: nothing, or
/// its choice, which may be none.
pub open spec fn chosen_hash(reported: Option<Option<HashAlg>>) -> Option<HashAlg> {
    match reported {
        Some(choice) => choice,
        None => None,
    }
}

impl AuthStart {
    /// A client presents `key` as `user`.
    pub fn new(user: &str, key: ClientKey) -> (a: Self)
        ensures
            a.user@ == user@,
            a.key == key,
    {
        AuthStart { user: user.to_owned(), key }
    }

    /// The login to try, once the server has said which hash it wants.
    pub fn login(self, reported: Option<Option<HashAlg>>) -> (l: AuthLogin)
        ensures
            l.user@ == self.user@,
            l.key == self.key,
            l.hash_alg == chosen_hash(reported),
    {
        let hash_alg = match reported {
            Some(choice) => choice,
            None => None,
        };
        AuthLogin { user: self.user, hash_alg, key: self.key }
    }
}

impl SessionState {
    /// What the client is told once the login was tried. It is accepted, and
    /// known to the session by the user name of the login and the key it
    /// presented, exactly where the server accepted the login and the key has an
    /// OpenSSH form; otherwise nothing changes.
    pub fn auth_publickey(&mut self, login: AuthLogin, success: bool) -> (r: Result<
        AuthReply,
        AuthFailure,
    >)
        requires
            old(self)@.client is None,
        ensures
            match r {
                Ok(reply) => {
                    &&& success
                    &&& login.key.openssh() is Some
                    &&& reply == AuthReply::Accept
                    &&& final(self)@ == old(self)@.with_client(
                        login.user@,
                        login.key,
                        login.key.openssh()->0,
                    )
                },
                Err(AuthFailure::Rejected) => !success && final(self)@ == old(self)@,
                Err(AuthFailure::KeyEncoding) => success && login.key.openssh() is None
                    && final(self)@ == old(self)@,
            },
            r is Ok ==> {
                &&& final(self)@.client matches Some(c)
                &&& c.user == login.user@
                &&& c.blob == login.key.blob@
                &&& c.comment == login.key.comment@
                &&& openssh_text(login.key.blob@, login.key.comment@) == Some(c.pk)
            },
            final(self)@.target == old(self)@.target,
            final(self)@.rules == old(self)@.rules,
            final(self)@.pairs == old(self)@.pairs,
            old(self)@.valid() ==> final(self)@.valid(),
    {
        if !success {
            return Err(AuthFailure::Rejected);
        }
        match self.set_inbound_client_auth(login.user, login.key) {
            Ok(()) => Ok(AuthReply::Accept),
            Err(e) => Err(e),
        }
    }

    /// What a client is told that presents a certificate.
    pub fn auth_openssh_certificate(&self) -> (r: AuthReply)
        ensures
            r == AuthReply::UnsupportedMethod,
    {
        AuthReply::UnsupportedMethod
    }

    /// Whether a server is talked to, whatever key it has: any is.
    pub fn check_server_key(&self) -> (b: bool)
        ensures
            b,
    {
        true
    }
}

/// The login at the server is that of the client: under the user name that the client
/// gave, with the hash that the server chose, if it chose one.
pub proof fn a_login_is_tried_as_it_was_asked_for(
    user: &str,
    key: ClientKey,
    start: AuthStart,
    reported: Option<Option<HashAlg>>,
    login: AuthLogin,
)
    requires
        call_ensures(AuthStart::new, (user, key), start),
        call_ensures(AuthStart::login, (start, reported), login),
    ensures
        login.user@ == user@,
        login.key == key,
        forall|alg: HashAlg| login.hash_alg == Some(alg) <==> reported == Some(Some(alg)),
{
}

/// A client is accepted exactly where the server accepted its login and its key has
/// an OpenSSH form. The session then knows it by the name of the login and the key
/// that it presented; otherwise nothing changes.
pub proof fn a_login_is_recorded_as_it_was(
    state: &mut SessionState,
    login: AuthLogin,
    success: bool,
    r: Result<AuthReply, AuthFailure>,
)
    requires
        call_ensures(SessionState::auth_publickey, (state, login, success), r),
    ensures
        r is Ok <==> success && openssh_text(login.key.blob@, login.key.comment@) is Some,
        r matches Ok(reply) ==> {
            &&& reply is Accept
            &&& final(state)@.client matches Some(c)
            &&& c.user == login.user@
            &&& c.blob == login.key.blob@
            &&& c.comment == login.key.comment@
            &&& openssh_text(login.key.blob@, login.key.comment@) == Some(c.pk)
        },
        r matches Err(e) ==> {
            &&& e is Rejected <==> !success
            &&& final(state)@.client == old(state)@.client
        },
        final(state)@.target == old(state)@.target,
        final(state)@.rules == old(state)@.rules,
        final(state)@.pairs == old(state)@.pairs,
{
}

/// Certificates are not taken, and servers are talked to whatever their key.
pub proof fn certificates_are_refused_and_server_keys_taken(
    state: SessionState,
    reply: AuthReply,
    talk: bool,
)
    requires
        call_ensures(SessionState::auth_openssh_certificate, (&state,), reply),
        call_ensures(SessionState::check_server_key, (&state,), talk),
    ensures
        reply is UnsupportedMethod,
        talk,
{
}

} // verus!
