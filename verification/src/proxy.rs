//! The course of a connection, from the SOCKS request to the end of the session.

use crate::addr::{SocketAddr, TargetAddr};
use vstd::prelude::*;

verus! {

/// What a SOCKS request asks for.
#[derive(Clone, Copy, Debug, PartialEq, Eq, Structural)]
pub enum SocksCommand {
    TcpConnect,
    TcpBind,
    UdpAssociate,
}

/// Why a connection ends with an error.
#[derive(Clone, Copy, Debug, PartialEq, Eq, Structural)]
pub enum Failure {
    /// The request asks for something else than a TCP connection.
    CommandNotSupported,
    /// And the client could not be told.
    RefusalNotSent,
    DnsResolutionFailed,
    NoDnsRecords,
    ConnectFailed,
    /// The server was reached, but the client could not be told.
    ReplyNotSent,
}

/// Where a session breaks down.
#[derive(Clone, Copy, Debug, PartialEq, Eq, Structural)]
pub enum Breakdown {
    OutboundSetup,
    InboundSetup,
    Session,
    Disconnect,
}

/// What a client that sent a SOCKS request is told.
#[derive(Clone, Copy, Debug, PartialEq, Eq, Structural)]
pub enum SocksReply {
    Succeeded,
    GeneralFailure,
    ConnectionNotAllowed,
    NetworkUnreachable,
    HostUnreachable,
    ConnectionRefused,
    ConnectionTimeout,
    TtlExpired,
    CommandNotSupported,
    AddressTypeNotSupported,
}

/// How long an attempt may take.
#[derive(Clone, Copy, Debug, PartialEq, Eq, Structural)]
pub struct Timeout {
    pub secs: u64,
    pub nanos: u32,
}

/// What a server is told of the end of a session.
#[derive(Clone, Copy, Debug, PartialEq, Eq, Structural)]
pub enum DisconnectReason {
    ByApplication,
}

/// What to do next.
pub enum Step {
    /// Tell the client that its request is not served.
    Refuse { reply: SocksReply },
    /// Look up the addresses of a domain; `timeout` is for the connection then.
    Resolve { name: String, port: u16, timeout: Timeout },
    /// Open a TCP connection to the server, in the given time.
    Connect { addr: SocketAddr, timeout: Timeout },
    /// Tell the client why there is no connection.
    NotifyConnectError { reply: SocksReply },
    /// Tell the client that there is a connection, and the proxy's own address
    /// in it.
    ReplySuccess { local: SocketAddr },
    /// Start the SSH session with the server.
    StartOutbound,
    /// Start the SSH session with the client.
    StartInbound,
    /// Serve the session with the client until it ends.
    Serve,
    /// End the session with the server.
    Disconnect { reason: DisconnectReason, description: &'static str, language_tag: &'static str },
    /// The end.
    Return(Result<(), Failure>),
    /// The end, out of order.
    Abort(Breakdown),
}

/// What came of a step.
pub enum Outcome {
    Done,
    Failed,
    /// The addresses of a domain, in the order in which they were returned.
    Resolved(Vec<SocketAddr>),
    /// A connection, and the proxy's own address in it.
    Connected { local: SocketAddr },
    /// No connection, and what that is in a SOCKS reply.
    Unreachable { reply: SocksReply },
}

/// The end of the session with the server. The reason that the client gave for
/// its own end is not known, so none is given in words.
pub open spec fn plain_disconnect() -> Step {
    Step::Disconnect {
        reason: DisconnectReason::ByApplication,
        description: "",
        language_tag: "",
    }
}

impl Step {
    /// Nothing follows this step.
    pub open spec fn is_end(self) -> bool {
        self is Return || self is Abort
    }

    /// `outcome` can come of this step.
    pub open spec fn can_give(self, outcome: Outcome) -> bool {
        &&& !self.is_end()
        &&& match outcome {
            Outcome::Done => !(self is Resolve || self is Connect),
            Outcome::Failed => !(self is Connect),
            Outcome::Resolved(_) => self is Resolve,
            Outcome::Connected { .. } => self is Connect,
            Outcome::Unreachable { .. } => self is Connect,
        }
    }

    /// The step behind this one, given what came of this one.
    pub open spec fn then_step(self, outcome: Outcome) -> Step {
        match (self, outcome) {
            (Step::Refuse { .. }, Outcome::Done) => Step::Return(
                Err(Failure::CommandNotSupported),
            ),
            (Step::Refuse { .. }, _) => Step::Return(Err(Failure::RefusalNotSent)),
            (Step::Resolve { timeout, .. }, Outcome::Resolved(addrs)) => if addrs@.len() == 0 {
                Step::Return(Err(Failure::NoDnsRecords))
            } else {
                Step::Connect { addr: addrs@[0], timeout }
            },
            (Step::Resolve { .. }, _) => Step::Return(Err(Failure::DnsResolutionFailed)),
            (Step::Connect { .. }, Outcome::Connected { local }) => Step::ReplySuccess { local },
            (Step::Connect { .. }, Outcome::Unreachable { reply }) => Step::NotifyConnectError {
                reply,
            },
            (Step::NotifyConnectError { .. }, _) => Step::Return(Err(Failure::ConnectFailed)),
            (Step::ReplySuccess { .. }, Outcome::Done) => Step::StartOutbound,
            (Step::ReplySuccess { .. }, _) => Step::Return(Err(Failure::ReplyNotSent)),
            (Step::StartOutbound, Outcome::Done) => Step::StartInbound,
            (Step::StartOutbound, _) => Step::Abort(Breakdown::OutboundSetup),
            (Step::StartInbound, Outcome::Done) => Step::Serve,
            (Step::StartInbound, _) => Step::Abort(Breakdown::InboundSetup),
            (Step::Serve, Outcome::Done) => plain_disconnect(),
            (Step::Serve, _) => Step::Abort(Breakdown::Session),
            (Step::Disconnect { .. }, Outcome::Done) => Step::Return(Ok(())),
            (Step::Disconnect { .. }, _) => Step::Abort(Breakdown::Disconnect),
            (end, _) => end,
        }
    }

    /// The step behind this one, given what came of this one.
    pub fn next(self, outcome: Outcome) -> (step: Step)
        requires
            self.can_give(outcome),
        ensures
            step == self.then_step(outcome),
    {
        let done = matches!(outcome, Outcome::Done);
        match self {
            Step::Refuse { .. } => Step::Return(
                Err(
                    if done {
                        Failure::CommandNotSupported
                    } else {
                        Failure::RefusalNotSent
                    },
                ),
            ),
            Step::Resolve { timeout, .. } => match outcome {
                Outcome::Resolved(addrs) => if addrs.len() == 0 {
                    Step::Return(Err(Failure::NoDnsRecords))
                } else {
                    Step::Connect { addr: addrs[0], timeout }
                },
                _ => Step::Return(Err(Failure::DnsResolutionFailed)),
            },
            Step::Connect { addr, timeout } => match outcome {
                Outcome::Connected { local } => Step::ReplySuccess { local },
                Outcome::Unreachable { reply } => Step::NotifyConnectError { reply },
                _ => Step::Connect { addr, timeout },
            },
            Step::NotifyConnectError { .. } => Step::Return(Err(Failure::ConnectFailed)),
            Step::ReplySuccess { .. } => if done {
                Step::StartOutbound
            } else {
                Step::Return(Err(Failure::ReplyNotSent))
            },
            Step::StartOutbound => if done {
                Step::StartInbound
            } else {
                Step::Abort(Breakdown::OutboundSetup)
            },
            Step::StartInbound => if done {
                Step::Serve
            } else {
                Step::Abort(Breakdown::InboundSetup)
            },
            Step::Serve => if done {
                Step::Disconnect {
                    reason: DisconnectReason::ByApplication,
                    description: "",
                    language_tag: "",
                }
            } else {
                Step::Abort(Breakdown::Session)
            },
            Step::Disconnect { .. } => if done {
                Step::Return(Ok(()))
            } else {
                Step::Abort(Breakdown::Disconnect)
            },
            end => end,
        }
    }
}

/// The first step towards `target`: a domain is looked up first, an IP address
/// is connected to at once.
pub open spec fn first_towards(target: TargetAddr, timeout: Timeout) -> Step {
    match target {
        TargetAddr::V4 { octets, port } => Step::Connect {
            addr: SocketAddr::V4 { octets, port },
            timeout,
        },
        TargetAddr::V6 { segments, port } => Step::Connect {
            addr: SocketAddr::V6 { segments, port, flowinfo: 0, scope_id: 0 },
            timeout,
        },
        TargetAddr::Domain { name, port } => Step::Resolve { name, port, timeout },
    }
}

/// The first step on a SOCKS request.
pub open spec fn first_step(cmd: SocksCommand, target: TargetAddr, timeout: Timeout) -> Step {
    match cmd {
        SocksCommand::TcpConnect => first_towards(target, timeout),
        _ => Step::Refuse { reply: SocksReply::CommandNotSupported },
    }
}

/// The first step towards `target`, where a connection may take `timeout`.
pub fn run_tcp_proxy(target: &TargetAddr, timeout: Timeout) -> (step: Step)
    ensures
        step == first_towards(*target, timeout),
{
    match target {
        TargetAddr::V4 { octets, port } => Step::Connect {
            addr: SocketAddr::V4 { octets: *octets, port: *port },
            timeout,
        },
        TargetAddr::V6 { segments, port } => Step::Connect {
            addr: SocketAddr::V6 { segments: *segments, port: *port, flowinfo: 0, scope_id: 0 },
            timeout,
        },
        TargetAddr::Domain { name, port } => Step::Resolve {
            name: name.clone(),
            port: *port,
            timeout,
        },
    }
}

/// The first step on a SOCKS request, where a connection may take `timeout`.
pub fn serve_socks5(cmd: SocksCommand, target: &TargetAddr, timeout: Timeout) -> (step: Step)
    ensures
        step == first_step(cmd, *target, timeout),
{
    match cmd {
        SocksCommand::TcpConnect => run_tcp_proxy(target, timeout),
        _ => Step::Refuse { reply: SocksReply::CommandNotSupported },
    }
}

/// The step reached from `first` when `outcomes` came of the steps before it.
pub open spec fn reached(first: Step, outcomes: Seq<Outcome>) -> Step
    decreases outcomes.len(),
{
    if outcomes.len() == 0 {
        first
    } else {
        reached(first, outcomes.drop_last()).then_step(outcomes.last())
    }
}

/// Each of `outcomes` can come of the step that it came of.
pub open spec fn possible(first: Step, outcomes: Seq<Outcome>) -> bool
    decreases outcomes.len(),
{
    outcomes.len() > 0 ==> possible(first, outcomes.drop_last()) && reached(
        first,
        outcomes.drop_last(),
    ).can_give(outcomes.last())
}

/// How many steps may still follow a step.
pub open spec fn steps_left(step: Step) -> nat {
    match step {
        Step::Resolve { .. } => 7,
        Step::Connect { .. } => 6,
        Step::ReplySuccess { .. } => 5,
        Step::StartOutbound => 4,
        Step::StartInbound => 3,
        Step::Serve => 2,
        Step::Refuse { .. } => 1,
        Step::NotifyConnectError { .. } => 1,
        Step::Disconnect { .. } => 1,
        Step::Return(_) => 0,
        Step::Abort(_) => 0,
    }
}

/// A connection ends: whatever comes of its steps, each brings it closer to its
/// end.
pub proof fn every_connection_ends(
    cmd: SocksCommand,
    target: TargetAddr,
    timeout: Timeout,
    outcomes: Seq<Outcome>,
)
    requires
        possible(first_step(cmd, target, timeout), outcomes),
    ensures
        steps_left(reached(first_step(cmd, target, timeout), outcomes)) + outcomes.len() <= steps_left(
            first_step(cmd, target, timeout),
        ),
        outcomes.len() <= 7,
        steps_left(reached(first_step(cmd, target, timeout), outcomes)) == 0 <==> reached(
            first_step(cmd, target, timeout),
            outcomes,
        ).is_end(),
    decreases outcomes.len(),
{
    if outcomes.len() > 0 {
        every_connection_ends(cmd, target, timeout, outcomes.drop_last());
    }
}

/// A request for anything but a TCP connection reaches no server: all that
/// happens is that the client is told.
pub proof fn other_commands_reach_no_server(
    cmd: SocksCommand,
    target: TargetAddr,
    timeout: Timeout,
    outcomes: Seq<Outcome>,
)
    requires
        cmd != SocksCommand::TcpConnect,
        possible(first_step(cmd, target, timeout), outcomes),
    ensures
        ({
            let step = reached(first_step(cmd, target, timeout), outcomes);
            ||| step == (Step::Refuse { reply: SocksReply::CommandNotSupported }) && outcomes.len()
                == 0
            ||| step == Step::Return(Err(Failure::CommandNotSupported))
            ||| step == Step::Return(Err(Failure::RefusalNotSent))
        }),
    decreases outcomes.len(),
{
    if outcomes.len() > 0 {
        other_commands_reach_no_server(cmd, target, timeout, outcomes.drop_last());
    }
}

/// The proxy connects to no server but the one that was asked for: to its
/// address, or to the first address that its domain resolved to; and it waits for
/// the connection as long as it was told to.
pub proof fn connects_where_it_was_asked_to(
    cmd: SocksCommand,
    target: TargetAddr,
    timeout: Timeout,
    outcomes: Seq<Outcome>,
)
    requires
        possible(first_step(cmd, target, timeout), outcomes),
    ensures
        reached(first_step(cmd, target, timeout), outcomes) matches Step::Connect { addr, timeout: t }
            ==> {
            &&& cmd == SocksCommand::TcpConnect
            &&& t == timeout
            &&& match target {
                TargetAddr::Domain { .. } => {
                    &&& outcomes.len() == 1
                    &&& outcomes[0] matches Outcome::Resolved(addrs)
                    &&& addrs@.len() > 0
                    &&& addr == addrs@[0]
                },
                TargetAddr::V4 { octets, port } => outcomes.len() == 0 && addr == (SocketAddr::V4 {
                    octets,
                    port,
                }),
                TargetAddr::V6 { segments, port } => outcomes.len() == 0 && addr
                    == (SocketAddr::V6 { segments, port, flowinfo: 0, scope_id: 0 }),
            }
        },
        reached(first_step(cmd, target, timeout), outcomes) matches Step::Resolve {
            name,
            port,
            timeout: t,
        } ==> {
            &&& t == timeout
            &&& outcomes.len() == 0
            &&& target matches TargetAddr::Domain { name: n, port: p }
            &&& name == n
            &&& port == p
        },
    decreases outcomes.len(),
{
    if outcomes.len() > 0 {
        connects_where_it_was_asked_to(cmd, target, timeout, outcomes.drop_last());
    }
}

/// How far the setup of a session has come once a step is reached.
pub open spec fn setup_done(step: Step) -> nat {
    match step {
        Step::ReplySuccess { .. } => 1,
        Step::StartOutbound => 2,
        Step::StartInbound => 3,
        Step::Serve => 4,
        Step::Disconnect { .. } => 5,
        Step::Return(Ok(())) => 6,
        _ => 0,
    }
}

/// A session is served only when the connection, the reply to the client and
/// both SSH sessions came about, in this order; and a connection ends without an
/// error only when the session was served and both its ends were closed. What
/// came last before each of these steps was success.
pub proof fn no_session_without_its_setup(
    cmd: SocksCommand,
    target: TargetAddr,
    timeout: Timeout,
    outcomes: Seq<Outcome>,
)
    requires
        possible(first_step(cmd, target, timeout), outcomes),
    ensures
        ({
            let first = first_step(cmd, target, timeout);
            let n = setup_done(reached(first, outcomes));
            n > 0 ==> {
                &&& cmd == SocksCommand::TcpConnect
                &&& outcomes.len() == n + (if target is Domain {
                    1int
                } else {
                    0int
                })
                &&& outcomes[outcomes.len() - n] is Connected
                &&& forall|i: int|
                    outcomes.len() - n < i < outcomes.len() ==> (#[trigger] outcomes[i]) is Done
                &&& reached(first, outcomes.take(outcomes.len() - n)) is Connect
            }
        }),
    decreases outcomes.len(),
{
    let first = first_step(cmd, target, timeout);
    let n = setup_done(reached(first, outcomes));
    if outcomes.len() > 0 {
        let before = outcomes.drop_last();
        no_session_without_its_setup(cmd, target, timeout, before);
        connects_where_it_was_asked_to(cmd, target, timeout, before);
        if n > 0 {
            assert(outcomes.last() is Done || n == 1 && outcomes.last() is Connected);
            assert(outcomes.take(outcomes.len() - n) =~= before.take(outcomes.len() - n));
            if n == 1 {
                assert(before.take(outcomes.len() - n) =~= before);
            }
            assert forall|i: int| outcomes.len() - n < i < outcomes.len() implies (
            #[trigger] outcomes[i]) is Done by {
                if i < before.len() {
                    assert(outcomes[i] == before[i]);
                }
            }
        }
    }
}

/// The client is told what came about: of a connection, with the address that the
/// proxy has in it, or of the failure to get one; and the server is told that the
/// session ends by the will of the application, without words.
pub proof fn each_side_is_told_what_came_about(
    cmd: SocksCommand,
    target: TargetAddr,
    timeout: Timeout,
    outcomes: Seq<Outcome>,
)
    requires
        possible(first_step(cmd, target, timeout), outcomes),
    ensures
        match reached(first_step(cmd, target, timeout), outcomes) {
            Step::ReplySuccess { local } => outcomes.len() > 0 && outcomes.last()
                == (Outcome::Connected { local }),
            Step::NotifyConnectError { reply } => outcomes.len() > 0 && outcomes.last()
                == (Outcome::Unreachable { reply }),
            Step::Refuse { reply } => reply == SocksReply::CommandNotSupported,
            Step::Disconnect { reason, description, language_tag } => reason
                == DisconnectReason::ByApplication && description@.len() == 0
                && language_tag@.len() == 0,
            _ => true,
        },
{
    reveal_strlit("");
}

/// `step` is what `end` ends on.
pub open spec fn ends_on(end: Step, step: Step) -> bool {
    match end {
        Step::Return(Ok(())) => step is Disconnect,
        Step::Return(Err(Failure::CommandNotSupported)) => step is Refuse,
        Step::Return(Err(Failure::RefusalNotSent)) => step is Refuse,
        Step::Return(Err(Failure::DnsResolutionFailed)) => step is Resolve,
        Step::Return(Err(Failure::NoDnsRecords)) => step is Resolve,
        Step::Return(Err(Failure::ConnectFailed)) => step is NotifyConnectError,
        Step::Return(Err(Failure::ReplyNotSent)) => step is ReplySuccess,
        Step::Abort(Breakdown::OutboundSetup) => step is StartOutbound,
        Step::Abort(Breakdown::InboundSetup) => step is StartInbound,
        Step::Abort(Breakdown::Session) => step is Serve,
        Step::Abort(Breakdown::Disconnect) => step is Disconnect,
        _ => false,
    }
}

/// How a connection ends tells on which step it ended; in particular a client
/// whose server was not reached was told so first. Where it did not end well,
/// that step failed, or gave no address to connect to, or was itself to report a
/// failure.
pub proof fn an_end_names_its_step(
    cmd: SocksCommand,
    target: TargetAddr,
    timeout: Timeout,
    outcomes: Seq<Outcome>,
)
    requires
        possible(first_step(cmd, target, timeout), outcomes),
        reached(first_step(cmd, target, timeout), outcomes).is_end(),
    ensures
        outcomes.len() > 0,
        ends_on(
            reached(first_step(cmd, target, timeout), outcomes),
            reached(first_step(cmd, target, timeout), outcomes.drop_last()),
        ),
        reached(first_step(cmd, target, timeout), outcomes) != Step::Return(Ok(())) ==> {
            let step = reached(first_step(cmd, target, timeout), outcomes.drop_last());
            ||| outcomes.last() is Failed
            ||| outcomes.last() matches Outcome::Resolved(addrs) && addrs@.len() == 0
            ||| step is Refuse
            ||| step is NotifyConnectError
        },
{
}

/// The client is told something.
pub open spec fn tells_client(step: Step) -> bool {
    step is Refuse || step is NotifyConnectError || step is ReplySuccess
}

/// The client was told before.
pub open spec fn client_was_told(step: Step) -> bool {
    !tells_client(step) && !(step is Resolve) && !(step is Connect)
}

proof fn lemma_told_stays_told(first: Step, outcomes: Seq<Outcome>, i: int)
    requires
        possible(first, outcomes),
        0 <= i < outcomes.len(),
        tells_client(reached(first, outcomes.take(i))),
    ensures
        client_was_told(reached(first, outcomes)),
    decreases outcomes.len(),
{
    let before = outcomes.drop_last();
    if i < before.len() {
        assert(before.take(i) =~= outcomes.take(i));
        lemma_told_stays_told(first, before, i);
    } else {
        assert(outcomes.take(i) =~= before);
    }
}

/// A SOCKS request is answered at most once: a connection that was reported as
/// open is not refused later, nor the other way round.
pub proof fn a_request_is_answered_once(
    cmd: SocksCommand,
    target: TargetAddr,
    timeout: Timeout,
    outcomes: Seq<Outcome>,
    i: int,
    j: int,
)
    requires
        possible(first_step(cmd, target, timeout), outcomes),
        0 <= i < j <= outcomes.len(),
        tells_client(reached(first_step(cmd, target, timeout), outcomes.take(i))),
    ensures
        !tells_client(reached(first_step(cmd, target, timeout), outcomes.take(j))),
{
    let first = first_step(cmd, target, timeout);
    lemma_possible_prefix(first, outcomes, j);
    assert(outcomes.take(j).take(i) =~= outcomes.take(i));
    lemma_told_stays_told(first, outcomes.take(j), i);
}

proof fn lemma_possible_prefix(first: Step, outcomes: Seq<Outcome>, j: int)
    requires
        possible(first, outcomes),
        0 <= j <= outcomes.len(),
    ensures
        possible(first, outcomes.take(j)),
    decreases outcomes.len(),
{
    if j < outcomes.len() {
        lemma_possible_prefix(first, outcomes.drop_last(), j);
        assert(outcomes.drop_last().take(j) =~= outcomes.take(j));
    } else {
        assert(outcomes.take(j) =~= outcomes);
    }
}

/// A request for a TCP connection is never refused out of hand: whatever the address
/// and the port, the first step is to connect to just that address and port, or to
/// look up just that domain, with the time that was given for the connection. A
/// request for anything else is refused as not supported.
pub proof fn a_tcp_connection_is_tried_as_asked(
    cmd: SocksCommand,
    target: TargetAddr,
    timeout: Timeout,
    towards: Step,
    first: Step,
)
    requires
        call_ensures(run_tcp_proxy, (&target, timeout), towards),
        call_ensures(serve_socks5, (cmd, &target, timeout), first),
    ensures
        towards == first_step(SocksCommand::TcpConnect, target, timeout),
        first == first_step(cmd, target, timeout),
        cmd is TcpConnect ==> first == towards,
        cmd is TcpBind || cmd is UdpAssociate ==> (first matches Step::Refuse { reply } && reply
            is CommandNotSupported),
        match target {
            TargetAddr::V4 { octets, port } => {
                &&& towards matches Step::Connect {
                    addr: SocketAddr::V4 { octets: o, port: p },
                    timeout: t,
                }
                &&& o == octets
                &&& p == port
                &&& t == timeout
            },
            TargetAddr::V6 { segments, port } => {
                &&& towards matches Step::Connect {
                    addr: SocketAddr::V6 { segments: s, port: p, flowinfo, scope_id },
                    timeout: t,
                }
                &&& s == segments
                &&& p == port
                &&& flowinfo == 0
                &&& scope_id == 0
                &&& t == timeout
            },
            TargetAddr::Domain { name, port } => {
                &&& towards matches Step::Resolve { name: n, port: p, timeout: t }
                &&& n@ == name@
                &&& p == port
                &&& t == timeout
            },
        },
{
}

/// Two requests for TCP connections begin alike only where they name the same
/// server, by the same address or domain and the same port.
pub proof fn different_targets_begin_differently(a: TargetAddr, b: TargetAddr, timeout: Timeout)
    requires
        first_step(SocksCommand::TcpConnect, a, timeout) == first_step(
            SocksCommand::TcpConnect,
            b,
            timeout,
        ),
    ensures
        a == b,
{
}

/// What follows on a step that came off: the next step towards the session, to its
/// end. No address, port or reply makes a difference to the order.
pub proof fn success_leads_on(
    name: String,
    port: u16,
    timeout: Timeout,
    addrs: Vec<SocketAddr>,
    addr: SocketAddr,
    local: SocketAddr,
    reason: DisconnectReason,
    description: &'static str,
    language_tag: &'static str,
)
    ensures
        addrs@.len() > 0 ==> (Step::Resolve { name, port, timeout }).then_step(
            Outcome::Resolved(addrs),
        ) == (Step::Connect { addr: addrs@[0], timeout }),
        (Step::Connect { addr, timeout }).then_step(Outcome::Connected { local })
            == (Step::ReplySuccess { local }),
        (Step::ReplySuccess { local }).then_step(Outcome::Done) is StartOutbound,
        Step::StartOutbound.then_step(Outcome::Done) is StartInbound,
        Step::StartInbound.then_step(Outcome::Done) is Serve,
        Step::Serve.then_step(Outcome::Done) == (Step::Disconnect {
            reason: DisconnectReason::ByApplication,
            description: "",
            language_tag: "",
        }),
        (Step::Disconnect { reason, description, language_tag }).then_step(Outcome::Done)
            matches Step::Return(Ok(_)),
{
}

/// What follows on a step that failed: the end that names it, at once, but for a
/// server that was not reached, of which the client is told first, with the reply
/// that stands for the failure.
pub proof fn failure_ends_the_connection(
    reply: SocksReply,
    name: String,
    port: u16,
    timeout: Timeout,
    addrs: Vec<SocketAddr>,
    addr: SocketAddr,
    local: SocketAddr,
    reason: DisconnectReason,
    description: &'static str,
    language_tag: &'static str,
)
    ensures
        (Step::Refuse { reply }).then_step(Outcome::Done) == Step::Return(
            Err(Failure::CommandNotSupported),
        ),
        (Step::Refuse { reply }).then_step(Outcome::Failed) == Step::Return(
            Err(Failure::RefusalNotSent),
        ),
        (Step::Resolve { name, port, timeout }).then_step(Outcome::Failed) == Step::Return(
            Err(Failure::DnsResolutionFailed),
        ),
        addrs@.len() == 0 ==> (Step::Resolve { name, port, timeout }).then_step(
            Outcome::Resolved(addrs),
        ) == Step::Return(Err(Failure::NoDnsRecords)),
        (Step::Connect { addr, timeout }).then_step(Outcome::Unreachable { reply })
            == (Step::NotifyConnectError { reply }),
        (Step::NotifyConnectError { reply }).then_step(Outcome::Done) == Step::Return(
            Err(Failure::ConnectFailed),
        ),
        (Step::NotifyConnectError { reply }).then_step(Outcome::Failed) == Step::Return(
            Err(Failure::ConnectFailed),
        ),
        (Step::ReplySuccess { local }).then_step(Outcome::Failed) == Step::Return(
            Err(Failure::ReplyNotSent),
        ),
        Step::StartOutbound.then_step(Outcome::Failed) == Step::Abort(Breakdown::OutboundSetup),
        Step::StartInbound.then_step(Outcome::Failed) == Step::Abort(Breakdown::InboundSetup),
        Step::Serve.then_step(Outcome::Failed) == Step::Abort(Breakdown::Session),
        (Step::Disconnect { reason, description, language_tag }).then_step(Outcome::Failed)
            == Step::Abort(Breakdown::Disconnect),
{
}

/// Every step but an end takes what can come of it: a lookup gives addresses or
/// fails, an attempt to connect gives a connection or a reply for the failure, and
/// every other step is done or fails.
pub proof fn each_step_takes_its_outcomes(step: Step, outcome: Outcome)
    ensures
        step.is_end() <==> step is Return || step is Abort,
        step.can_give(outcome) <==> match step {
            Step::Return(_) => false,
            Step::Abort(_) => false,
            Step::Resolve { .. } => outcome is Resolved || outcome is Failed,
            Step::Connect { .. } => outcome is Connected || outcome is Unreachable,
            _ => outcome is Done || outcome is Failed,
        },
{
}

/// The step that is taken next is the one that follows on what came of the last one.
pub proof fn the_next_step_follows_the_outcome(step: Step, outcome: Outcome, next: Step)
    requires
        call_ensures(Step::next, (step, outcome), next),
        !(step is Return),
        !(step is Abort),
    ensures
        next == step.then_step(outcome),
        match (step, outcome) {
            (Step::Resolve { timeout, .. }, Outcome::Resolved(addrs)) => if addrs@.len() == 0 {
                next == Step::Return(Err(Failure::NoDnsRecords))
            } else {
                next == (Step::Connect { addr: addrs@[0], timeout })
            },
            (Step::Connect { .. }, Outcome::Connected { local }) => next == (Step::ReplySuccess {
                local,
            }),
            (Step::Connect { .. }, Outcome::Unreachable { reply }) => next
                == (Step::NotifyConnectError { reply }),
            (Step::ReplySuccess { .. }, Outcome::Done) => next is StartOutbound,
            (Step::StartOutbound, Outcome::Done) => next is StartInbound,
            (Step::StartInbound, Outcome::Done) => next is Serve,
            (Step::Serve, Outcome::Done) => next is Disconnect,
            (Step::Disconnect { .. }, Outcome::Done) => next matches Step::Return(Ok(_)),
            (Step::Connect { .. }, _) => true,
            _ => next is Abort || (next matches Step::Return(Err(_))),
        },
{
}

/// A connection on which all comes off runs its whole course, from the request to an
/// end without an error, whatever the server, its addresses and the time given.
pub proof fn a_connection_on_which_all_comes_off_ends_well(
    target: TargetAddr,
    timeout: Timeout,
    addrs: Vec<SocketAddr>,
    local: SocketAddr,
)
    requires
        addrs@.len() > 0,
    ensures
        ({
            let first = first_step(SocksCommand::TcpConnect, target, timeout);
            let connect = if target is Domain {
                first.then_step(Outcome::Resolved(addrs))
            } else {
                first
            };
            let told = connect.then_step(Outcome::Connected { local });
            let served = told.then_step(Outcome::Done).then_step(Outcome::Done).then_step(
                Outcome::Done,
            );
            let end = served.then_step(Outcome::Done).then_step(Outcome::Done);
            &&& connect is Connect
            &&& told == (Step::ReplySuccess { local })
            &&& served is Serve
            &&& end matches Step::Return(Ok(_))
        }),
{
}

/// The course of a connection grows by one step with each outcome.
pub proof fn a_course_grows_by_one_step(first: Step, outcomes: Seq<Outcome>, outcome: Outcome)
    ensures
        reached(first, Seq::empty()) == first,
        possible(first, Seq::empty()),
        reached(first, outcomes.push(outcome)) == reached(first, outcomes).then_step(outcome),
        possible(first, outcomes.push(outcome)) <==> possible(first, outcomes) && reached(
            first,
            outcomes,
        ).can_give(outcome),
{
    assert(outcomes.push(outcome).drop_last() =~= outcomes);
}

} // verus!
