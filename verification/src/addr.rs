//! Addresses of servers.

use crate::text::decimal;
use vstd::prelude::*;

verus! {

/// An address to connect to.
#[derive(Clone, Copy, Debug)]
pub enum SocketAddr {
    V4 { octets: [u8; 4], port: u16 },
    V6 { segments: [u16; 8], port: u16, flowinfo: u32, scope_id: u32 },
}

/// The server that a client wants to reach, as a SOCKS request names it.
pub enum TargetAddr {
    V4 { octets: [u8; 4], port: u16 },
    V6 { segments: [u16; 8], port: u16 },
    Domain { name: String, port: u16 },
}

/// What the standard library writes for an IPv6 address.
pub uninterp spec fn ipv6_text(segments: Seq<u16>) -> Seq<char>;

/// Text in square brackets.
pub open spec fn bracketed(text: Seq<char>) -> Seq<char> {
    seq!['['] + text + seq![']']
}

/// An IPv4 address in dotted decimal.
pub open spec fn dotted(octets: Seq<u8>) -> Seq<char> {
    decimal(octets[0] as nat) + seq!['.'] + (decimal(octets[1] as nat) + seq!['.'] + (decimal(
        octets[2] as nat,
    ) + seq!['.'] + decimal(octets[3] as nat)))
}

/// A host and a port, with a colon between.
pub open spec fn with_port(host: Seq<char>, port: u16) -> Seq<char> {
    host + seq![':'] + decimal(port as nat)
}

impl TargetAddr {
    /// The name under which the rules know this server.
    pub open spec fn name_in_rules(self) -> Seq<char> {
        match self {
            TargetAddr::V4 { octets, port } => with_port(dotted(octets@), port),
            TargetAddr::V6 { segments, port } => with_port(bracketed(ipv6_text(segments@)), port),
            TargetAddr::Domain { name, port } => with_port(name@, port),
        }
    }
}

/// Calls `to_string` on `fast_socks5::util::target_addr::TargetAddr`. A domain
/// gives its name, a colon and the port in decimal; an IP address gives what
/// the standard library writes for the socket address, which is the address, in
/// dotted decimal for IPv4 and in square brackets for IPv6, a colon and the port
/// in decimal. How an IPv6 address is written is a function of its segments, and
/// left unsaid beyond that.
#[verifier::external_body]
fn target_text(target: &TargetAddr) -> (text: String)
    ensures
        text@ == (match *target {
            TargetAddr::V4 { octets, port } => with_port(dotted(octets@), port),
            TargetAddr::V6 { segments, port } => with_port(bracketed(ipv6_text(segments@)), port),
            TargetAddr::Domain { name, port } => with_port(name@, port),
        }),
{
    let target = match target {
        TargetAddr::V4 { octets, port } => {
            fast_socks5::util::target_addr::TargetAddr::Ip((*octets, *port).into())
        },
        TargetAddr::V6 { segments, port } => {
            fast_socks5::util::target_addr::TargetAddr::Ip((*segments, *port).into())
        },
        TargetAddr::Domain { name, port } => {
            fast_socks5::util::target_addr::TargetAddr::Domain(name.clone(), *port)
        },
    };
    target.to_string()
}

impl TargetAddr {
    /// The name under which the rules know this server.
    pub fn to_name(&self) -> (text: String)
        ensures
            text@ == self.name_in_rules(),
    {
        target_text(self)
    }
}

proof fn lemma_decimal_chars(n: nat)
    ensures
        decimal(n).len() > 0,
        forall|i: int| 0 <= i < decimal(n).len() ==> '0' <= #[trigger] decimal(n)[i] <= '9',
    decreases n,
{
    if n >= 10 {
        lemma_decimal_chars(n / 10);
    }
}

proof fn lemma_decimal_last(n: nat)
    ensures
        decimal(n).last() as nat == 48 + n % 10,
        n < 10 ==> decimal(n).len() == 1,
        n >= 10 ==> decimal(n).len() == decimal(n / 10).len() + 1 && decimal(n).drop_last()
            == decimal(n / 10),
{
    if n >= 10 {
        assert(decimal(n).drop_last() =~= decimal(n / 10));
    }
}

proof fn lemma_decimal_injective(m: nat, n: nat)
    requires
        decimal(m) == decimal(n),
    ensures
        m == n,
    decreases m,
{
    lemma_decimal_chars(m / 10);
    lemma_decimal_chars(n / 10);
    lemma_decimal_last(m);
    lemma_decimal_last(n);
    if m >= 10 && n >= 10 {
        lemma_decimal_injective(m / 10, n / 10);
    }
}

/// A number in decimal and what follows it can be told apart where a character
/// that is no digit stands between.
proof fn lemma_split_number(m: nat, r: Seq<char>, n: nat, s: Seq<char>)
    requires
        decimal(m) + seq!['.'] + r == decimal(n) + seq!['.'] + s,
    ensures
        m == n,
        r == s,
{
    let left = decimal(m) + seq!['.'] + r;
    let right = decimal(n) + seq!['.'] + s;
    lemma_decimal_chars(m);
    lemma_decimal_chars(n);
    assert(left[decimal(m).len() as int] == '.');
    assert(right[decimal(n).len() as int] == '.');
    if decimal(m).len() < decimal(n).len() {
        assert(right[decimal(m).len() as int] == decimal(n)[decimal(m).len() as int]);
    }
    if decimal(n).len() < decimal(m).len() {
        assert(left[decimal(n).len() as int] == decimal(m)[decimal(n).len() as int]);
    }
    assert(decimal(m) =~= left.take(decimal(m).len() as int));
    assert(decimal(n) =~= right.take(decimal(n).len() as int));
    lemma_decimal_injective(m, n);
    assert(r =~= left.skip(decimal(m).len() as int + 1));
    assert(s =~= right.skip(decimal(n).len() as int + 1));
}

proof fn lemma_dotted_injective(a: Seq<u8>, b: Seq<u8>)
    requires
        a.len() == 4,
        b.len() == 4,
        dotted(a) == dotted(b),
    ensures
        a == b,
{
    let a3 = decimal(a[3] as nat);
    let b3 = decimal(b[3] as nat);
    let a2 = decimal(a[2] as nat) + seq!['.'] + a3;
    let b2 = decimal(b[2] as nat) + seq!['.'] + b3;
    let a1 = decimal(a[1] as nat) + seq!['.'] + a2;
    let b1 = decimal(b[1] as nat) + seq!['.'] + b2;
    lemma_split_number(a[0] as nat, a1, b[0] as nat, b1);
    lemma_split_number(a[1] as nat, a2, b[1] as nat, b2);
    lemma_split_number(a[2] as nat, a3, b[2] as nat, b3);
    lemma_decimal_injective(a[3] as nat, b[3] as nat);
    assert(a =~= b);
}

/// A host and a port can be read back from their text: the text of one pair is
/// not that of another.
pub proof fn host_and_port_have_their_own_text(
    host1: Seq<char>,
    port1: u16,
    host2: Seq<char>,
    port2: u16,
)
    requires
        with_port(host1, port1) == with_port(host2, port2),
    ensures
        host1 == host2,
        port1 == port2,
{
    let left = with_port(host1, port1);
    let right = with_port(host2, port2);
    let d1 = decimal(port1 as nat);
    let d2 = decimal(port2 as nat);
    lemma_decimal_chars(port1 as nat);
    lemma_decimal_chars(port2 as nat);
    assert(left.len() == host1.len() + 1 + d1.len());
    assert(right.len() == host2.len() + 1 + d2.len());
    assert(left[host1.len() as int] == ':');
    assert(right[host2.len() as int] == ':');
    if host1.len() < host2.len() {
        assert(left[host2.len() as int] == d1[host2.len() - host1.len() - 1]);
    }
    if host2.len() < host1.len() {
        assert(right[host1.len() as int] == d2[host1.len() - host2.len() - 1]);
    }
    assert(host1 =~= left.take(host1.len() as int));
    assert(host2 =~= right.take(host2.len() as int));
    assert(d1 =~= left.skip(host1.len() as int + 1));
    assert(d2 =~= right.skip(host2.len() as int + 1));
    lemma_decimal_injective(port1 as nat, port2 as nat);
}

/// Two servers that were named in the same way, both by domain or both by
/// address, share their rules only where they are the same server: the same name
/// or address, as it is written, and the same port.
pub proof fn rules_of_one_server_reach_no_other(a: TargetAddr, b: TargetAddr)
    requires
        a is Domain && b is Domain || a is V4 && b is V4 || a is V6 && b is V6,
        a.name_in_rules() == b.name_in_rules(),
    ensures
        match (a, b) {
            (
                TargetAddr::Domain { name: n1, port: p1 },
                TargetAddr::Domain { name: n2, port: p2 },
            ) => n1@ == n2@ && p1 == p2,
            (
                TargetAddr::V4 { octets: o1, port: p1 },
                TargetAddr::V4 { octets: o2, port: p2 },
            ) => o1@ == o2@ && p1 == p2,
            (
                TargetAddr::V6 { segments: s1, port: p1 },
                TargetAddr::V6 { segments: s2, port: p2 },
            ) => ipv6_text(s1@) == ipv6_text(s2@) && p1 == p2,
            _ => false,
        },
{
    match (a, b) {
        (TargetAddr::Domain { name: n1, port: p1 }, TargetAddr::Domain { name: n2, port: p2 }) => {
            host_and_port_have_their_own_text(n1@, p1, n2@, p2);
        },
        (TargetAddr::V4 { octets: o1, port: p1 }, TargetAddr::V4 { octets: o2, port: p2 }) => {
            host_and_port_have_their_own_text(dotted(o1@), p1, dotted(o2@), p2);
            lemma_dotted_injective(o1@, o2@);
        },
        (TargetAddr::V6 { segments: s1, port: p1 }, TargetAddr::V6 { segments: s2, port: p2 }) => {
            let t1 = ipv6_text(s1@);
            let t2 = ipv6_text(s2@);
            host_and_port_have_their_own_text(bracketed(t1), p1, bracketed(t2), p2);
            assert(t1 =~= bracketed(t1).subrange(1, bracketed(t1).len() - 1));
            assert(t2 =~= bracketed(t2).subrange(1, bracketed(t2).len() - 1));
        },
        _ => {},
    }
}

/// A server named by a domain that spells out its IPv4 address has the rules of
/// that address.
pub proof fn spelled_out_address_has_the_same_rules(a: TargetAddr, b: TargetAddr)
    requires
        a matches TargetAddr::V4 { octets, port } && b matches TargetAddr::Domain { name, port: p }
            && name@ == dotted(octets@) && port == p,
    ensures
        a.name_in_rules() == b.name_in_rules(),
{
}

/// The rules know a server by what the client named, host and port: a domain by its
/// name as it was given, an IPv4 address by its four numbers with dots between, an
/// IPv6 address in square brackets, each followed by a colon and the port.
pub proof fn a_server_is_known_by_host_and_port(target: TargetAddr, text: String)
    requires
        call_ensures(TargetAddr::to_name, (&target,), text),
    ensures
        text@ == target.name_in_rules(),
        match target {
            TargetAddr::V4 { octets, port } => text@ == decimal(octets@[0] as nat) + seq!['.'] + (
            decimal(octets@[1] as nat) + seq!['.'] + (decimal(octets@[2] as nat) + seq!['.']
                + decimal(octets@[3] as nat))) + seq![':'] + decimal(port as nat),
            TargetAddr::V6 { segments, port } => text@ == seq!['['] + ipv6_text(segments@)
                + seq![']'] + seq![':'] + decimal(port as nat),
            TargetAddr::Domain { name, port } => text@ == name@ + seq![':'] + decimal(port as nat),
        },
{
}

} // verus!
