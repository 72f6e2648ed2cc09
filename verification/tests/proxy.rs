use proxy_fw_ssh::addr::{SocketAddr, TargetAddr};
use proxy_fw_ssh::proxy::{
    run_tcp_proxy, serve_socks5, Breakdown, DisconnectReason, Failure, Outcome, SocksCommand,
    SocksReply, Step, Timeout,
};

const LIMIT: Timeout = Timeout { secs: 5, nanos: 7 };

fn domain() -> TargetAddr {
    TargetAddr::Domain { name: "example.com".to_string(), port: 22 }
}

fn v4(last: u8) -> SocketAddr {
    SocketAddr::V4 { octets: [10, 0, 0, last], port: 22 }
}

fn failure(step: Step) -> Failure {
    match step {
        Step::Return(Err(f)) => f,
        _ => panic!("no failure"),
    }
}

fn breakdown(step: Step) -> Breakdown {
    match step {
        Step::Abort(b) => b,
        _ => panic!("no breakdown"),
    }
}

#[test]
fn targets_are_named_as_in_the_rules() {
    let v4 = TargetAddr::V4 { octets: [127, 0, 0, 1], port: 2222 };
    assert_eq!(v4.to_name(), "127.0.0.1:2222");
    let v6 = TargetAddr::V6 { segments: [0x2001, 0xdb8, 0, 0, 0, 0, 0, 1], port: 22 };
    assert_eq!(v6.to_name(), "[2001:db8::1]:22");
    assert_eq!(domain().to_name(), "example.com:22");
    let spelled = TargetAddr::Domain { name: "127.0.0.1".to_string(), port: 2222 };
    assert_eq!(spelled.to_name(), v4.to_name());
    let other = TargetAddr::Domain { name: "example.com:2".to_string(), port: 2 };
    assert_ne!(other.to_name(), domain().to_name());
    let zero = TargetAddr::V4 { octets: [0, 10, 200, 255], port: 0 };
    assert_eq!(zero.to_name(), "0.10.200.255:0");
}

#[test]
fn only_connect_is_supported() {
    for cmd in [SocksCommand::TcpBind, SocksCommand::UdpAssociate] {
        let step = serve_socks5(cmd, &domain(), LIMIT);
        assert!(matches!(step, Step::Refuse { reply: SocksReply::CommandNotSupported }));
        assert_eq!(failure(step.next(Outcome::Done)), Failure::CommandNotSupported);
        let step = serve_socks5(cmd, &domain(), LIMIT);
        assert_eq!(failure(step.next(Outcome::Failed)), Failure::RefusalNotSent);
    }
}

#[test]
fn addresses_are_connected_to_at_once() {
    let target = TargetAddr::V4 { octets: [10, 0, 0, 1], port: 22 };
    assert!(matches!(
        serve_socks5(SocksCommand::TcpConnect, &target, LIMIT),
        Step::Connect { addr: SocketAddr::V4 { octets: [10, 0, 0, 1], port: 22 }, timeout: LIMIT }
    ));
    let target = TargetAddr::V6 { segments: [0, 0, 0, 0, 0, 0, 0, 1], port: 22 };
    assert!(matches!(
        run_tcp_proxy(&target, LIMIT),
        Step::Connect {
            addr: SocketAddr::V6 {
                segments: [0, 0, 0, 0, 0, 0, 0, 1],
                port: 22,
                flowinfo: 0,
                scope_id: 0
            },
            timeout: LIMIT
        }
    ));
}

#[test]
fn first_address_of_a_domain_is_taken() {
    let step = serve_socks5(SocksCommand::TcpConnect, &domain(), LIMIT);
    match &step {
        Step::Resolve { name, port, timeout } => {
            assert_eq!(*timeout, LIMIT);
            assert_eq!(name, "example.com");
            assert_eq!(*port, 22);
        }
        _ => panic!("not resolved"),
    }
    assert!(matches!(
        step.next(Outcome::Resolved(vec![v4(7), v4(8)])),
        Step::Connect { addr: SocketAddr::V4 { octets: [10, 0, 0, 7], port: 22 }, timeout: LIMIT }
    ));
}

#[test]
fn lookup_can_fail() {
    let step = serve_socks5(SocksCommand::TcpConnect, &domain(), LIMIT);
    assert_eq!(failure(step.next(Outcome::Resolved(Vec::new()))), Failure::NoDnsRecords);
    let step = serve_socks5(SocksCommand::TcpConnect, &domain(), LIMIT);
    assert_eq!(failure(step.next(Outcome::Failed)), Failure::DnsResolutionFailed);
}

#[test]
fn failed_connection_is_reported() {
    for told in [Outcome::Done, Outcome::Failed] {
        let step = Step::Connect { addr: v4(1), timeout: LIMIT }
            .next(Outcome::Unreachable { reply: SocksReply::ConnectionTimeout });
        assert!(matches!(
            step,
            Step::NotifyConnectError { reply: SocksReply::ConnectionTimeout }
        ));
        assert_eq!(failure(step.next(told)), Failure::ConnectFailed);
    }
    let step = Step::ReplySuccess { local: v4(2) };
    assert_eq!(failure(step.next(Outcome::Failed)), Failure::ReplyNotSent);
}

#[test]
fn session_runs_its_course() {
    let mut step = serve_socks5(SocksCommand::TcpConnect, &domain(), LIMIT);
    step = step.next(Outcome::Resolved(vec![v4(1)]));
    assert!(matches!(step, Step::Connect { .. }));
    step = step.next(Outcome::Connected { local: v4(9) });
    assert!(matches!(
        step,
        Step::ReplySuccess { local: SocketAddr::V4 { octets: [10, 0, 0, 9], port: 22 } }
    ));
    step = step.next(Outcome::Done);
    assert!(matches!(step, Step::StartOutbound));
    step = step.next(Outcome::Done);
    assert!(matches!(step, Step::StartInbound));
    step = step.next(Outcome::Done);
    assert!(matches!(step, Step::Serve));
    step = step.next(Outcome::Done);
    assert!(matches!(
        step,
        Step::Disconnect {
            reason: DisconnectReason::ByApplication,
            description: "",
            language_tag: ""
        }
    ));
    step = step.next(Outcome::Done);
    assert!(matches!(step, Step::Return(Ok(()))));
}

#[test]
fn session_can_break_down() {
    assert_eq!(breakdown(Step::StartOutbound.next(Outcome::Failed)), Breakdown::OutboundSetup);
    assert_eq!(breakdown(Step::StartInbound.next(Outcome::Failed)), Breakdown::InboundSetup);
    assert_eq!(breakdown(Step::Serve.next(Outcome::Failed)), Breakdown::Session);
    let step = Step::Serve.next(Outcome::Done);
    assert_eq!(breakdown(step.next(Outcome::Failed)), Breakdown::Disconnect);
}
