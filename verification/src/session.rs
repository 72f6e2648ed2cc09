//! One proxied session: who the client is, which rules are in force, and which
//! channels belong together.

use crate::addr::TargetAddr;
use crate::channels::{Channels, Pairs};
use crate::key::{openssh_text, ClientKey};
use crate::prompt::RequestHandler;
use crate::rules::{rules_for_client, rules_of, ClientModel, ClientRules, Rules};
use vstd::prelude::*;

verus! {

/// An authenticated client.
#[verifier::ext_equal]
pub struct Identity {
    pub user: Seq<char>,
    /// The key as it came over the wire.
    pub blob: Seq<u8>,
    pub comment: Seq<char>,
    /// The key in OpenSSH form, under which the rules know the client.
    pub pk: Seq<char>,
}

/// What a session has come to know.
#[verifier::ext_equal]
pub struct SessionModel {
    /// The server, as the client named it.
    pub target: TargetAddr,
    /// The client, once it is authenticated.
    pub client: Option<Identity>,
    /// The rules in force, once they were looked up.
    pub rules: Option<ClientModel>,
    pub pairs: Pairs,
}

impl SessionModel {
    /// The name of the server in the rules.
    pub open spec fn server_addr(self) -> Seq<char> {
        self.target.name_in_rules()
    }

    /// A client is known under the OpenSSH form of its own key, and rules are in
    /// force only once there is a client.
    pub open spec fn valid(self) -> bool {
        &&& self.client matches Some(c) ==> openssh_text(c.blob, c.comment) == Some(c.pk)
        &&& self.rules is Some ==> self.client is Some
    }

    /// The rules in force, where `stored` are the rules at hand: those that were
    /// looked up before, else those that are stored for the client.
    pub open spec fn rules_in_force(self, stored: Map<Seq<char>, ClientModel>) -> ClientModel {
        match self.rules {
            Some(r) => r,
            None => rules_of(stored, self.client->0.pk),
        }
    }

    /// This session once it has looked up its rules.
    pub open spec fn with_rules(self, stored: Map<Seq<char>, ClientModel>) -> SessionModel {
        SessionModel { rules: Some(self.rules_in_force(stored)), ..self }
    }

    /// This session once `inbound` and `outbound` are paired.
    pub open spec fn with_pair(self, inbound: u32, outbound: u32) -> SessionModel {
        SessionModel { pairs: self.pairs.with(inbound, outbound), ..self }
    }

    /// This session once it has authenticated a client, known under `pk`.
    pub open spec fn with_client(self, user: Seq<char>, key: ClientKey, pk: Seq<char>) -> SessionModel {
        SessionModel {
            client: Some(Identity { user, blob: key.blob@, comment: key.comment@, pk }),
            ..self
        }
    }
}

struct InboundClient {
    user: String,
    key: ClientKey,
    pk_openssh: String,
}

/// The state of a session.
pub struct SessionState {
    outbound_server_addr: TargetAddr,
    inbound_client: Option<InboundClient>,
    client_rules: Option<ClientRules>,
    channels: Channels,
}

impl View for SessionState {
    type V = SessionModel;

    closed spec fn view(&self) -> SessionModel {
        SessionModel {
            target: self.outbound_server_addr,
            client: match self.inbound_client {
                Some(c) => Some(
                    Identity {
                        user: c.user@,
                        blob: c.key.blob@,
                        comment: c.key.comment@,
                        pk: c.pk_openssh@,
                    },
                ),
                None => None,
            },
            rules: match self.client_rules {
                Some(r) => Some(r@),
                None => None,
            },
            pairs: self.channels@,
        }
    }
}

/// Why a client was not authenticated.
#[derive(Clone, Copy, Debug, PartialEq, Eq, Structural)]
pub enum AuthFailure {
    /// The server did not accept the proxy's key for the user.
    Rejected,
    /// The client's key has no OpenSSH form.
    KeyEncoding,
}

impl SessionState {
    /// A session with a server, before a client is authenticated.
    pub fn new(outbound_server_addr: TargetAddr) -> (s: Self)
        ensures
            s@ == (SessionModel {
                target: outbound_server_addr,
                client: None,
                rules: None,
                pairs: Pairs::none(),
            }),
            s@.valid(),
    {
        SessionState {
            outbound_server_addr,
            inbound_client: None,
            client_rules: None,
            channels: Channels::new(),
        }
    }

    /// The name of the server in the rules.
    pub fn server_name(&self) -> (name: String)
        ensures
            name@ == self@.server_addr(),
    {
        self.outbound_server_addr.to_name()
    }

    /// Whether there is a channel of the client for one of the server.
    pub fn has_inbound_chan(&self, outbound: u32) -> (b: bool)
        ensures
            b == self@.pairs.to_inbound.contains_key(outbound),
    {
        self.channels.inbound(outbound).is_some()
    }

    /// Whether there is a channel of the server for one of the client.
    pub fn has_outbound_chan(&self, inbound: u32) -> (b: bool)
        ensures
            b == self@.pairs.to_outbound.contains_key(inbound),
    {
        self.channels.outbound(inbound).is_some()
    }

    /// The channel of the client that belongs to one of the server.
    pub fn inbound_chan_id(&self, outbound: u32) -> (inbound: u32)
        requires
            self@.pairs.to_inbound.contains_key(outbound),
        ensures
            inbound == self@.pairs.to_inbound[outbound],
    {
        self.channels.inbound(outbound).unwrap()
    }

    /// The channel of the server that belongs to one of the client.
    pub fn outbound_chan(&self, inbound: u32) -> (outbound: u32)
        requires
            self@.pairs.to_outbound.contains_key(inbound),
        ensures
            outbound == self@.pairs.to_outbound[inbound],
    {
        self.channels.outbound(inbound).unwrap()
    }

    /// Pairs a channel of the client with one of the server.
    pub fn set_chan_map(&mut self, inbound: u32, outbound: u32)
        ensures
            final(self)@ == old(self)@.with_pair(inbound, outbound),
            old(self)@.valid() ==> final(self)@.valid(),
    {
        self.channels.set(inbound, outbound);
    }

    /// Whether a client is authenticated.
    pub fn is_authenticated(&self) -> (b: bool)
        ensures
            b == (self@.client is Some),
    {
        self.inbound_client.is_some()
    }

    /// The name under which the client is authenticated.
    pub fn inbound_client_user(&self) -> (user: &str)
        requires
            self@.client is Some,
        ensures
            user@ == self@.client->0.user,
    {
        match &self.inbound_client {
            Some(c) => c.user.as_str(),
            None => "",
        }
    }

    /// The key that the client presented.
    pub fn inbound_client_key(&self) -> (key: Option<&ClientKey>)
        ensures
            match (key, self@.client) {
                (Some(k), Some(c)) => k.blob@ == c.blob && k.comment@ == c.comment,
                (None, None) => true,
                _ => false,
            },
    {
        match &self.inbound_client {
            Some(c) => Some(&c.key),
            None => None,
        }
    }

    /// The client's key in OpenSSH form.
    pub fn inbound_client_pk_openssh(&self) -> (pk: &str)
        requires
            self@.client is Some,
        ensures
            pk@ == self@.client->0.pk,
    {
        match &self.inbound_client {
            Some(c) => c.pk_openssh.as_str(),
            None => "",
        }
    }

    /// Takes note of the client, where `pk_openssh` is the OpenSSH form of its
    /// key. Fails, and changes nothing, where there is none.
    pub fn note_client(&mut self, user: String, key: ClientKey, pk_openssh: Option<String>) -> (r:
        Result<(), AuthFailure>)
        requires
            old(self)@.client is None,
        ensures
            match r {
                Ok(()) => pk_openssh is Some && final(self)@ == old(self)@.with_client(
                    user@,
                    key,
                    pk_openssh->0@,
                ),
                Err(e) => pk_openssh is None && e == AuthFailure::KeyEncoding && final(self)@
                    == old(self)@,
            },
            r is Ok ==> {
                &&& final(self)@.client matches Some(c)
                &&& c.user == user@
                &&& c.blob == key.blob@
                &&& c.comment == key.comment@
                &&& c.pk == pk_openssh->0@
            },
            final(self)@.target == old(self)@.target,
            final(self)@.rules == old(self)@.rules,
            final(self)@.pairs == old(self)@.pairs,
    {
        match pk_openssh {
            Some(pk_openssh) => {
                self.inbound_client = Some(InboundClient { user, key, pk_openssh });
                Ok(())
            },
            None => Err(AuthFailure::KeyEncoding),
        }
    }

    /// Takes note of the client, under the OpenSSH form of its key. Fails, and
    /// changes nothing, where the key has none.
    pub fn set_inbound_client_auth(&mut self, user: String, key: ClientKey) -> (r: Result<
        (),
        AuthFailure,
    >)
        requires
            old(self)@.client is None,
        ensures
            match r {
                Ok(()) => key.openssh() is Some && final(self)@ == old(self)@.with_client(
                    user@,
                    key,
                    key.openssh()->0,
                ),
                Err(e) => key.openssh() is None && e == AuthFailure::KeyEncoding && final(self)@
                    == old(self)@,
            },
            r is Ok ==> {
                &&& final(self)@.client matches Some(c)
                &&& c.user == user@
                &&& c.blob == key.blob@
                &&& c.comment == key.comment@
                &&& openssh_text(key.blob@, key.comment@) == Some(c.pk)
            },
            final(self)@.target == old(self)@.target,
            final(self)@.rules == old(self)@.rules,
            final(self)@.pairs == old(self)@.pairs,
            old(self)@.valid() ==> final(self)@.valid(),
    {
        let pk_openssh = key.to_openssh();
        self.note_client(user, key, pk_openssh)
    }

    /// The rules in force. They are looked up once, and stay in force for the
    /// rest of the session, whatever is stored later.
    pub fn client_rules(&mut self, rules: &Rules) -> (r: &ClientRules)
        requires
            old(self)@.client is Some,
        ensures
            r@ == old(self)@.rules_in_force(rules@),
            final(self)@ == old(self)@.with_rules(rules@),
            final(self)@.rules == Some(r@),
            final(self)@.target == old(self)@.target,
            final(self)@.client == old(self)@.client,
            final(self)@.pairs == old(self)@.pairs,
            old(self)@.valid() ==> final(self)@.valid(),
    {
        if self.client_rules.is_none() {
            let own = rules_for_client(rules, self.inbound_client_pk_openssh());
            self.client_rules = Some(own);
        }
        self.client_rules.as_ref().unwrap()
    }

    /// Asks on behalf of the client.
    pub fn user_req_handler(&self) -> (h: RequestHandler)
        requires
            self@.client is Some,
        ensures
            h.pk_openssh@ == self@.client->0.pk,
    {
        RequestHandler { pk_openssh: self.inbound_client_pk_openssh().to_owned() }
    }
}

/// Rules that are stored after a session has looked up its own do not reach it.
pub proof fn stored_rules_do_not_reach_a_session(
    session: SessionModel,
    first: Map<Seq<char>, ClientModel>,
    later: Map<Seq<char>, ClientModel>,
)
    ensures
        session.with_rules(first).rules_in_force(later) == session.rules_in_force(first),
        session.with_rules(first).with_rules(later) == session.with_rules(first),
{
}

/// Pairing channels changes neither the client nor the rules in force, and
/// looking up rules changes no pair.
pub proof fn channels_and_rules_are_apart(
    session: SessionModel,
    stored: Map<Seq<char>, ClientModel>,
    inbound: u32,
    outbound: u32,
)
    ensures
        session.with_pair(inbound, outbound).rules_in_force(stored) == session.rules_in_force(
            stored,
        ),
        session.with_pair(inbound, outbound).client == session.client,
        session.with_rules(stored).pairs == session.pairs,
        session.with_pair(inbound, outbound).with_rules(stored) == session.with_rules(
            stored,
        ).with_pair(inbound, outbound),
        session.valid() ==> session.with_pair(inbound, outbound).valid(),
{
}

/// A session that has authenticated a client knows it by the user name that it gave,
/// by the key that it presented, with its comment, and by the OpenSSH form of that
/// key. Nothing else of the session changes.
pub proof fn a_client_is_noted_as_it_came(
    session: SessionModel,
    user: Seq<char>,
    key: ClientKey,
    pk: Seq<char>,
)
    ensures
        ({
            let after = session.with_client(user, key, pk);
            &&& after.client matches Some(c)
            &&& c.user == user
            &&& c.blob == key.blob@
            &&& c.comment == key.comment@
            &&& c.pk == pk
            &&& after.target == session.target
            &&& after.rules == session.rules
            &&& after.pairs == session.pairs
        }),
{
}

/// What a session says of its client behind a login is what came with the login: two
/// clients that log in under different names, or with different keys, are told apart.
pub proof fn a_session_gives_back_its_client(
    state: &mut SessionState,
    user: String,
    key: ClientKey,
    r: Result<(), AuthFailure>,
    known: bool,
    known_user: &str,
    known_key: Option<&ClientKey>,
    known_pk: &str,
    handler: RequestHandler,
)
    requires
        call_ensures(SessionState::set_inbound_client_auth, (state, user, key), r),
        call_ensures(SessionState::is_authenticated, (&*final(state),), known),
        call_ensures(SessionState::inbound_client_user, (&*final(state),), known_user),
        call_ensures(SessionState::inbound_client_key, (&*final(state),), known_key),
        call_ensures(SessionState::inbound_client_pk_openssh, (&*final(state),), known_pk),
        call_ensures(SessionState::user_req_handler, (&*final(state),), handler),
    ensures
        r is Ok <==> openssh_text(key.blob@, key.comment@) is Some,
        r is Ok ==> {
            &&& known
            &&& known_user@ == user@
            &&& known_key matches Some(k)
            &&& k.blob@ == key.blob@
            &&& k.comment@ == key.comment@
            &&& openssh_text(key.blob@, key.comment@) == Some(known_pk@)
            &&& handler.pk_openssh@ == known_pk@
        },
        r matches Err(e) ==> e == AuthFailure::KeyEncoding && final(state)@ == old(state)@,
{
}

/// A new session knows the server that it was made for, and neither a client nor
/// rules nor channels.
pub proof fn a_session_starts_with_its_server_alone(
    target: TargetAddr,
    state: SessionState,
    name: String,
    known: bool,
    channel: u32,
    has_inbound: bool,
    has_outbound: bool,
)
    requires
        call_ensures(SessionState::new, (target,), state),
        call_ensures(SessionState::server_name, (&state,), name),
        call_ensures(SessionState::is_authenticated, (&state,), known),
        call_ensures(SessionState::has_inbound_chan, (&state, channel), has_inbound),
        call_ensures(SessionState::has_outbound_chan, (&state, channel), has_outbound),
    ensures
        state@.target == target,
        state@.rules is None,
        name@ == target.name_in_rules(),
        !known,
        !has_inbound,
        !has_outbound,
{
}

/// A session has its server's name from the server that it was made for, and keeps
/// it: neither a login nor a look at the rules nor a pair of channels changes it.
pub proof fn a_session_keeps_its_server(
    session: SessionModel,
    user: Seq<char>,
    key: ClientKey,
    pk: Seq<char>,
    stored: Map<Seq<char>, ClientModel>,
    inbound: u32,
    outbound: u32,
)
    ensures
        session.server_addr() == session.target.name_in_rules(),
        session.with_client(user, key, pk).server_addr() == session.server_addr(),
        session.with_rules(stored).server_addr() == session.server_addr(),
        session.with_pair(inbound, outbound).server_addr() == session.server_addr(),
{
}

/// The rules in force are those that the session holds, and where it holds none,
/// those that are stored under the key of its client when it first looks, or none
/// where nothing is stored there. From then on it holds them.
pub proof fn rules_in_force_are_looked_up_once(
    state: &mut SessionState,
    rules: Rules,
    r: &ClientRules,
)
    requires
        call_ensures(SessionState::client_rules, (state, &rules), r),
    ensures
        old(state)@.rules matches Some(held) ==> r@ == held,
        old(state)@.rules is None ==> {
            let pk = old(state)@.client->0.pk;
            &&& rules@.contains_key(pk) ==> r@ == rules@[pk]
            &&& !rules@.contains_key(pk) ==> forall|addr: Seq<char>|
                !#[trigger] r@.servers.contains_key(addr)
        },
        final(state)@.rules == Some(r@),
        final(state)@.client == old(state)@.client,
        final(state)@.target == old(state)@.target,
        final(state)@.pairs == old(state)@.pairs,
{
}

/// Once two channels are paired, each leads to the other, every other channel leads
/// where it led before, and nothing else of the session changes.
pub proof fn a_pair_changes_nothing_but_itself(
    state: &mut SessionState,
    inbound: u32,
    outbound: u32,
    i: u32,
    o: u32,
    to_inbound: u32,
    to_outbound: u32,
    has_inbound: bool,
    has_outbound: bool,
)
    requires
        call_ensures(SessionState::set_chan_map, (state, inbound, outbound), ()),
        call_ensures(SessionState::inbound_chan_id, (&*final(state), outbound), to_inbound),
        call_ensures(SessionState::outbound_chan, (&*final(state), inbound), to_outbound),
        call_ensures(SessionState::has_inbound_chan, (&*final(state), o), has_inbound),
        call_ensures(SessionState::has_outbound_chan, (&*final(state), i), has_outbound),
    ensures
        to_inbound == inbound,
        to_outbound == outbound,
        has_inbound <==> o == outbound || old(state)@.pairs.to_inbound.contains_key(o),
        has_outbound <==> i == inbound || old(state)@.pairs.to_outbound.contains_key(i),
        final(state)@.pairs.to_inbound == old(state)@.pairs.to_inbound.insert(outbound, inbound),
        final(state)@.pairs.to_outbound == old(state)@.pairs.to_outbound.insert(inbound, outbound),
        final(state)@.client == old(state)@.client,
        final(state)@.rules == old(state)@.rules,
        final(state)@.target == old(state)@.target,
{
}

/// A valid session knows its client under the OpenSSH form of its key, and has rules
/// only for a client that it knows.
pub proof fn valid_sessions_know_their_client(session: SessionModel)
    ensures
        session.valid() <==> {
            &&& session.client is Some ==> openssh_text(
                session.client->0.blob,
                session.client->0.comment,
            ) == Some(session.client->0.pk)
            &&& session.rules is Some ==> session.client is Some
        },
{
}

} // verus!
