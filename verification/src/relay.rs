//! Messages on channels, passed on from one side to the other.

use crate::channels::Pairs;
use crate::session::SessionState;
use vstd::prelude::*;

verus! {

/// What the server sends on one of its channels.
pub enum ServerEvent {
    Success { channel: u32 },
    Failure { channel: u32 },
    Eof { channel: u32 },
    Close { channel: u32 },
    Data { channel: u32, data: Vec<u8> },
    ExitStatus { channel: u32, status: u32 },
}

/// What is sent to the client on one of its channels.
pub enum ToClient {
    Eof { channel: u32 },
    Close { channel: u32 },
    Data { channel: u32, data: Vec<u8> },
    ExitStatus { channel: u32, status: u32 },
}

/// What the client sends on one of its channels, beside commands.
pub enum ClientEvent {
    Eof { channel: u32 },
    Close { channel: u32 },
    Data { channel: u32, data: Vec<u8> },
}

/// What is sent to the server on one of its channels.
pub enum ToServer {
    Eof { channel: u32 },
    Close { channel: u32 },
    Data { channel: u32, data: Vec<u8> },
}

impl ServerEvent {
    pub open spec fn channel_of(self) -> u32 {
        match self {
            ServerEvent::Success { channel } => channel,
            ServerEvent::Failure { channel } => channel,
            ServerEvent::Eof { channel } => channel,
            ServerEvent::Close { channel } => channel,
            ServerEvent::Data { channel, .. } => channel,
            ServerEvent::ExitStatus { channel, .. } => channel,
        }
    }

    /// Whether the client hears of this. What the server says of a request is
    /// not passed on: the proxy answers requests itself.
    pub open spec fn is_relayed(self) -> bool {
        !(self is Success || self is Failure)
    }
}

impl ClientEvent {
    pub open spec fn channel_of(self) -> u32 {
        match self {
            ClientEvent::Eof { channel } => channel,
            ClientEvent::Close { channel } => channel,
            ClientEvent::Data { channel, .. } => channel,
        }
    }
}

impl ToClient {
    pub open spec fn channel_of(self) -> u32 {
        match self {
            ToClient::Eof { channel } => channel,
            ToClient::Close { channel } => channel,
            ToClient::Data { channel, .. } => channel,
            ToClient::ExitStatus { channel, .. } => channel,
        }
    }
}

impl ToServer {
    pub open spec fn channel_of(self) -> u32 {
        match self {
            ToServer::Eof { channel } => channel,
            ToServer::Close { channel } => channel,
            ToServer::Data { channel, .. } => channel,
        }
    }
}

/// The message to the client for an event of the server: the same message, on
/// the client's channel.
pub open spec fn client_hears(pairs: Pairs, event: ServerEvent) -> Option<ToClient> {
    let to = pairs.to_inbound[event.channel_of()];
    match event {
        ServerEvent::Success { .. } => None,
        ServerEvent::Failure { .. } => None,
        ServerEvent::Eof { .. } => Some(ToClient::Eof { channel: to }),
        ServerEvent::Close { .. } => Some(ToClient::Close { channel: to }),
        ServerEvent::Data { data, .. } => Some(ToClient::Data { channel: to, data }),
        ServerEvent::ExitStatus { status, .. } => Some(
            ToClient::ExitStatus { channel: to, status },
        ),
    }
}

/// The message to the server for an event of the client: the same message, on
/// the server's channel.
pub open spec fn server_hears(pairs: Pairs, event: ClientEvent) -> ToServer {
    let to = pairs.to_outbound[event.channel_of()];
    match event {
        ClientEvent::Eof { .. } => ToServer::Eof { channel: to },
        ClientEvent::Close { .. } => ToServer::Close { channel: to },
        ClientEvent::Data { data, .. } => ToServer::Data { channel: to, data },
    }
}

impl SessionState {
    /// What the client is sent for an event of the server.
    pub fn relay_to_client(&self, event: ServerEvent) -> (m: Option<ToClient>)
        requires
            event.is_relayed() ==> self@.pairs.to_inbound.contains_key(event.channel_of()),
        ensures
            m == client_hears(self@.pairs, event),
            match event {
                ServerEvent::Success { .. } => m is None,
                ServerEvent::Failure { .. } => m is None,
                ServerEvent::Eof { channel } => m == Some(
                    ToClient::Eof { channel: self@.pairs.to_inbound[channel] },
                ),
                ServerEvent::Close { channel } => m == Some(
                    ToClient::Close { channel: self@.pairs.to_inbound[channel] },
                ),
                ServerEvent::Data { channel, data } => m == Some(
                    ToClient::Data { channel: self@.pairs.to_inbound[channel], data },
                ),
                ServerEvent::ExitStatus { channel, status } => m == Some(
                    ToClient::ExitStatus { channel: self@.pairs.to_inbound[channel], status },
                ),
            },
    {
        match event {
            ServerEvent::Success { .. } => None,
            ServerEvent::Failure { .. } => None,
            ServerEvent::Eof { channel } => Some(
                ToClient::Eof { channel: self.inbound_chan_id(channel) },
            ),
            ServerEvent::Close { channel } => Some(
                ToClient::Close { channel: self.inbound_chan_id(channel) },
            ),
            ServerEvent::Data { channel, data } => Some(
                ToClient::Data { channel: self.inbound_chan_id(channel), data },
            ),
            ServerEvent::ExitStatus { channel, status } => Some(
                ToClient::ExitStatus { channel: self.inbound_chan_id(channel), status },
            ),
        }
    }

    /// What the server is sent for an event of the client.
    pub fn relay_to_server(&self, event: ClientEvent) -> (m: ToServer)
        requires
            self@.pairs.to_outbound.contains_key(event.channel_of()),
        ensures
            m == server_hears(self@.pairs, event),
            match event {
                ClientEvent::Eof { channel } => m == (ToServer::Eof {
                    channel: self@.pairs.to_outbound[channel],
                }),
                ClientEvent::Close { channel } => m == (ToServer::Close {
                    channel: self@.pairs.to_outbound[channel],
                }),
                ClientEvent::Data { channel, data } => m == (ToServer::Data {
                    channel: self@.pairs.to_outbound[channel],
                    data,
                }),
            },
    {
        match event {
            ClientEvent::Eof { channel } => ToServer::Eof { channel: self.outbound_chan(channel) },
            ClientEvent::Close { channel } => ToServer::Close {
                channel: self.outbound_chan(channel),
            },
            ClientEvent::Data { channel, data } => ToServer::Data {
                channel: self.outbound_chan(channel),
                data,
            },
        }
    }

    /// The client opened a channel, and the server one for it: they belong
    /// together from then on, and the client is told that it may use its own.
    pub fn channel_open_session(&mut self, inbound: u32, outbound: u32) -> (accept: bool)
        ensures
            final(self)@ == old(self)@.with_pair(inbound, outbound),
            old(self)@.valid() ==> final(self)@.valid(),
            accept,
    {
        self.set_chan_map(inbound, outbound);
        true
    }
}

/// What each side sends on its channel of a pair reaches the other on the other
/// channel of the pair.
pub proof fn messages_stay_in_their_pair(
    pairs: Pairs,
    inbound: u32,
    outbound: u32,
    from_server: ServerEvent,
    from_client: ClientEvent,
)
    requires
        pairs.paired(inbound, outbound),
        from_server.channel_of() == outbound,
        from_client.channel_of() == inbound,
    ensures
        client_hears(pairs, from_server) is Some <==> from_server.is_relayed(),
        client_hears(pairs, from_server) matches Some(m) ==> m.channel_of() == inbound,
        server_hears(pairs, from_client).channel_of() == outbound,
{
}

/// Where both sides see the same pairs, what comes on different channels goes
/// out on different channels.
pub proof fn channels_do_not_mix(
    pairs: Pairs,
    from_server1: ServerEvent,
    from_server2: ServerEvent,
    from_client1: ClientEvent,
    from_client2: ClientEvent,
)
    requires
        pairs.consistent(),
        pairs.to_inbound.contains_key(from_server1.channel_of()),
        pairs.to_inbound.contains_key(from_server2.channel_of()),
        pairs.to_outbound.contains_key(from_client1.channel_of()),
        pairs.to_outbound.contains_key(from_client2.channel_of()),
    ensures
        client_hears(pairs, from_server1) matches Some(m1) ==> client_hears(pairs, from_server2)
            matches Some(m2) ==> (m1.channel_of() == m2.channel_of() <==> from_server1.channel_of()
            == from_server2.channel_of()),
        server_hears(pairs, from_client1).channel_of() == server_hears(
            pairs,
            from_client2,
        ).channel_of() <==> from_client1.channel_of() == from_client2.channel_of(),
{
    let o1 = from_server1.channel_of();
    let o2 = from_server2.channel_of();
    assert(pairs.paired(pairs.to_inbound[o1], o1));
    assert(pairs.paired(pairs.to_inbound[o2], o2));
    let i1 = from_client1.channel_of();
    let i2 = from_client2.channel_of();
    assert(pairs.paired(i1, pairs.to_outbound[i1]));
    assert(pairs.paired(i2, pairs.to_outbound[i2]));
}

/// The client hears what the server sent and nothing else: data byte for byte, an
/// end as an end, a close as a close, and an exit status with its number, on the
/// channel that belongs to the server's. What the server says of a request is not
/// passed on.
pub proof fn client_hears_what_the_server_sent(
    pairs: Pairs,
    channel: u32,
    data: Vec<u8>,
    status: u32,
)
    ensures
        client_hears(pairs, ServerEvent::Data { channel, data }) == Some(
            ToClient::Data { channel: pairs.to_inbound[channel], data },
        ),
        client_hears(pairs, ServerEvent::Eof { channel }) == Some(
            ToClient::Eof { channel: pairs.to_inbound[channel] },
        ),
        client_hears(pairs, ServerEvent::Close { channel }) == Some(
            ToClient::Close { channel: pairs.to_inbound[channel] },
        ),
        client_hears(pairs, ServerEvent::ExitStatus { channel, status }) == Some(
            ToClient::ExitStatus { channel: pairs.to_inbound[channel], status },
        ),
        client_hears(pairs, ServerEvent::Success { channel }) is None,
        client_hears(pairs, ServerEvent::Failure { channel }) is None,
{
}

/// The server hears what the client sent and nothing else: data byte for byte, an
/// end as an end and a close as a close, on the channel that belongs to the
/// client's.
pub proof fn server_hears_what_the_client_sent(pairs: Pairs, channel: u32, data: Vec<u8>)
    ensures
        server_hears(pairs, ClientEvent::Data { channel, data }) == (ToServer::Data {
            channel: pairs.to_outbound[channel],
            data,
        }),
        server_hears(pairs, ClientEvent::Eof { channel }) == (ToServer::Eof {
            channel: pairs.to_outbound[channel],
        }),
        server_hears(pairs, ClientEvent::Close { channel }) == (ToServer::Close {
            channel: pairs.to_outbound[channel],
        }),
{
}

/// Nothing is lost on the way: two events that reach the client as one message
/// were of one kind and had one content, and so for the server.
pub proof fn messages_keep_their_content(
    pairs: Pairs,
    from_server1: ServerEvent,
    from_server2: ServerEvent,
    from_client1: ClientEvent,
    from_client2: ClientEvent,
)
    requires
        !(from_server1 is Success || from_server1 is Failure),
        client_hears(pairs, from_server1) == client_hears(pairs, from_server2),
        server_hears(pairs, from_client1) == server_hears(pairs, from_client2),
    ensures
        match (from_server1, from_server2) {
            (
                ServerEvent::Data { data: d1, .. },
                ServerEvent::Data { data: d2, .. },
            ) => d1 == d2,
            (
                ServerEvent::ExitStatus { status: s1, .. },
                ServerEvent::ExitStatus { status: s2, .. },
            ) => s1 == s2,
            (ServerEvent::Eof { .. }, ServerEvent::Eof { .. }) => true,
            (ServerEvent::Close { .. }, ServerEvent::Close { .. }) => true,
            _ => false,
        },
        match (from_client1, from_client2) {
            (
                ClientEvent::Data { data: d1, .. },
                ClientEvent::Data { data: d2, .. },
            ) => d1 == d2,
            (ClientEvent::Eof { .. }, ClientEvent::Eof { .. }) => true,
            (ClientEvent::Close { .. }, ClientEvent::Close { .. }) => true,
            _ => false,
        },
{
}

/// The channel of a message is the one that it carries.
pub proof fn messages_name_their_channel(channel: u32, data: Vec<u8>, status: u32)
    ensures
        (ServerEvent::Success { channel }).channel_of() == channel,
        (ServerEvent::Failure { channel }).channel_of() == channel,
        (ServerEvent::Eof { channel }).channel_of() == channel,
        (ServerEvent::Close { channel }).channel_of() == channel,
        (ServerEvent::Data { channel, data }).channel_of() == channel,
        (ServerEvent::ExitStatus { channel, status }).channel_of() == channel,
        (ClientEvent::Eof { channel }).channel_of() == channel,
        (ClientEvent::Close { channel }).channel_of() == channel,
        (ClientEvent::Data { channel, data }).channel_of() == channel,
        (ToClient::Eof { channel }).channel_of() == channel,
        (ToClient::Close { channel }).channel_of() == channel,
        (ToClient::Data { channel, data }).channel_of() == channel,
        (ToClient::ExitStatus { channel, status }).channel_of() == channel,
        (ToServer::Eof { channel }).channel_of() == channel,
        (ToServer::Close { channel }).channel_of() == channel,
        (ToServer::Data { channel, data }).channel_of() == channel,
{
}

/// What a session passes on is what came, on the other channel of the pair: to the
/// client each message with its kind and its content, to the server likewise.
pub proof fn a_session_passes_on_what_came(
    state: SessionState,
    from_server: ServerEvent,
    to_client: Option<ToClient>,
    from_client: ClientEvent,
    to_server: ToServer,
)
    requires
        call_ensures(SessionState::relay_to_client, (&state, from_server), to_client),
        call_ensures(SessionState::relay_to_server, (&state, from_client), to_server),
    ensures
        match from_server {
            ServerEvent::Data { channel, data } => {
                &&& to_client matches Some(ToClient::Data { channel: c, data: d })
                &&& c == state@.pairs.to_inbound[channel]
                &&& d@ == data@
            },
            ServerEvent::ExitStatus { channel, status } => {
                &&& to_client matches Some(ToClient::ExitStatus { channel: c, status: s })
                &&& c == state@.pairs.to_inbound[channel]
                &&& s == status
            },
            ServerEvent::Eof { channel } => {
                &&& to_client matches Some(ToClient::Eof { channel: c })
                &&& c == state@.pairs.to_inbound[channel]
            },
            ServerEvent::Close { channel } => {
                &&& to_client matches Some(ToClient::Close { channel: c })
                &&& c == state@.pairs.to_inbound[channel]
            },
            ServerEvent::Success { .. } => to_client is None,
            ServerEvent::Failure { .. } => to_client is None,
        },
        match from_client {
            ClientEvent::Data { channel, data } => {
                &&& to_server matches ToServer::Data { channel: c, data: d }
                &&& c == state@.pairs.to_outbound[channel]
                &&& d@ == data@
            },
            ClientEvent::Eof { channel } => {
                &&& to_server matches ToServer::Eof { channel: c }
                &&& c == state@.pairs.to_outbound[channel]
            },
            ClientEvent::Close { channel } => {
                &&& to_server matches ToServer::Close { channel: c }
                &&& c == state@.pairs.to_outbound[channel]
            },
        },
{
}

/// A channel that the client opens is always accepted, and from then on it and the
/// one that the server opened for it lead to each other. Other channels lead where
/// they led before.
pub proof fn an_opened_channel_is_paired(
    state: &mut SessionState,
    inbound: u32,
    outbound: u32,
    accept: bool,
)
    requires
        call_ensures(SessionState::channel_open_session, (state, inbound, outbound), accept),
    ensures
        accept,
        final(state)@.pairs.to_inbound == old(state)@.pairs.to_inbound.insert(outbound, inbound),
        final(state)@.pairs.to_outbound == old(state)@.pairs.to_outbound.insert(inbound, outbound),
        final(state)@.client == old(state)@.client,
        final(state)@.rules == old(state)@.rules,
        final(state)@.target == old(state)@.target,
{
}

} // verus!
