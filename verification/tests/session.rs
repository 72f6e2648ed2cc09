use proxy_fw_ssh::addr::TargetAddr;
use proxy_fw_ssh::auth::{AuthReply, AuthStart, HashAlg};
use proxy_fw_ssh::exec::{
    exec_answered, exec_sent, exec_validated, Approved, ExecStep, PendingExec,
};
use proxy_fw_ssh::key::ClientKey;
use proxy_fw_ssh::prompt::Choice;
use proxy_fw_ssh::relay::{ClientEvent, ServerEvent, ToClient, ToServer};
use proxy_fw_ssh::rules::{
    ClientRules, GitAccessRule, GitRules, Permission, Rules, ServerRules, Validation,
};
use proxy_fw_ssh::session::{AuthFailure, SessionState};
use proxy_fw_ssh::table::Table;
use proxy_fw_ssh::text::is_utf8;

const LINE: &str =
    "ssh-ed25519 AAAAC3NzaC1lZDI1NTE5AAAAILM+rvN+ot98qgEN796jTiQfZfG1KaT0PtFDJ/XFSqti";

fn key(comment: &str) -> ClientKey {
    let blob = russh::keys::ssh_key::PublicKey::from_openssh(LINE).unwrap().to_bytes().unwrap();
    ClientKey { blob, comment: comment.to_string() }
}

fn target() -> TargetAddr {
    TargetAddr::V4 { octets: [127, 0, 0, 1], port: 2222 }
}

fn stored(read: Permission, write: Permission) -> Rules {
    let mut paths = Table::new();
    paths.insert("/git/test.git".to_string(), GitAccessRule { read, write });
    let mut servers = Table::new();
    servers.insert("127.0.0.1:2222".to_string(), ServerRules { git: GitRules { paths } });
    let mut rules = Table::new();
    rules.insert(LINE.to_string(), ClientRules { name: None, servers });
    rules
}

fn logged_in() -> SessionState {
    let mut s = SessionState::new(target());
    assert_eq!(s.set_inbound_client_auth("git".to_string(), key("")), Ok(()));
    assert!(s.channel_open_session(5, 9));
    s
}

fn pending(step: ExecStep) -> PendingExec {
    match step {
        ExecStep::Ask(p) => p,
        _ => panic!("no question"),
    }
}

fn approved(step: ExecStep) -> Approved {
    match step {
        ExecStep::Approve(a) => a,
        _ => panic!("not approved"),
    }
}

fn refusal(step: ExecStep) -> String {
    match step {
        ExecStep::Refuse(e) => e,
        _ => panic!("no refusal"),
    }
}

#[test]
fn keys_are_written_in_openssh_form() {
    assert_eq!(key("").to_openssh().as_deref(), Some(LINE));
    assert_eq!(
        key("user@example.com").to_openssh(),
        Some(format!("{} user@example.com", LINE))
    );
    let broken = ClientKey { blob: vec![0, 0, 0, 9, 1], comment: String::new() };
    assert_eq!(broken.to_openssh(), None);
}

#[test]
fn fresh_session_knows_nothing() {
    let s = SessionState::new(target());
    assert!(!s.is_authenticated());
    assert!(s.inbound_client_key().is_none());
    assert!(!s.has_inbound_chan(0));
    assert!(!s.has_outbound_chan(0));
    assert_eq!(s.server_name(), "127.0.0.1:2222");
}

#[test]
fn channels_are_found_from_both_sides() {
    let mut s = SessionState::new(target());
    s.set_chan_map(2, 7);
    s.set_chan_map(3, 8);
    assert_eq!(s.inbound_chan_id(7), 2);
    assert_eq!(s.outbound_chan(2), 7);
    assert_eq!(s.inbound_chan_id(8), 3);
    assert_eq!(s.outbound_chan(3), 8);
    assert!(!s.has_inbound_chan(2));
    assert!(!s.has_outbound_chan(7));
    s.set_chan_map(2, 9);
    assert_eq!(s.outbound_chan(2), 9);
    assert_eq!(s.inbound_chan_id(9), 2);
    assert_eq!(s.inbound_chan_id(7), 2);
}

#[test]
fn login_records_user_and_key() {
    let login = AuthStart::new("git", key("")).login(Some(Some(HashAlg::Sha512)));
    assert_eq!(login.user, "git");
    assert_eq!(login.hash_alg, Some(HashAlg::Sha512));
    let mut s = SessionState::new(target());
    assert_eq!(s.auth_publickey(login, true), Ok(AuthReply::Accept));
    assert!(s.is_authenticated());
    assert_eq!(s.inbound_client_user(), "git");
    assert_eq!(s.inbound_client_pk_openssh(), LINE);
    assert_eq!(s.inbound_client_key().unwrap().blob, key("").blob);
    assert_eq!(s.user_req_handler().pk_openssh, LINE);
}

#[test]
fn hash_choice_is_passed_on() {
    assert_eq!(AuthStart::new("a", key("")).login(None).hash_alg, None);
    assert_eq!(AuthStart::new("a", key("")).login(Some(None)).hash_alg, None);
    assert_eq!(
        AuthStart::new("a", key("")).login(Some(Some(HashAlg::Sha256))).hash_alg,
        Some(HashAlg::Sha256)
    );
}

#[test]
fn failed_login_changes_nothing() {
    let mut s = SessionState::new(target());
    let login = AuthStart::new("git", key("")).login(None);
    assert_eq!(s.auth_publickey(login, false), Err(AuthFailure::Rejected));
    assert!(!s.is_authenticated());
    let broken = ClientKey { blob: vec![1], comment: String::new() };
    let login = AuthStart::new("git", broken).login(None);
    assert_eq!(s.auth_publickey(login, true), Err(AuthFailure::KeyEncoding));
    assert!(!s.is_authenticated());
    assert_eq!(
        s.note_client("git".to_string(), key(""), None),
        Err(AuthFailure::KeyEncoding)
    );
    assert!(!s.is_authenticated());
    assert_eq!(s.note_client("git".to_string(), key(""), Some("pk".to_string())), Ok(()));
    assert_eq!(s.inbound_client_pk_openssh(), "pk");
}

#[test]
fn certificates_are_not_supported_and_any_server_is_talked_to() {
    let s = SessionState::new(target());
    assert_eq!(s.auth_openssh_certificate(), AuthReply::UnsupportedMethod);
    assert!(s.check_server_key());
}

#[test]
fn approved_command_is_forwarded_unchanged() {
    let mut s = logged_in();
    let rules = stored(Permission::Yes, Permission::No);
    let data = b"git-upload-pack '/git/test.git'";
    let a = approved(s.exec_request(5, data, &rules));
    assert_eq!(a.channel, 5);
    let f = s.exec_forward(a);
    assert_eq!(f.outbound, 9);
    assert_eq!(f.confirm, 5);
    assert!(f.want_reply);
    assert_eq!(f.command.as_bytes(), data);
}

#[test]
fn refused_command_is_not_forwarded() {
    let mut s = logged_in();
    let rules = stored(Permission::Yes, Permission::No);
    assert_eq!(
        refusal(s.exec_request(5, b"git-receive-pack '/git/test.git'", &rules)),
        "git: write not allowed"
    );
    assert_eq!(
        refusal(s.exec_request(5, b"bash", &rules)),
        "no plugin matches with user:git, data:bash"
    );
}

#[test]
fn asked_command_waits_for_the_answer() {
    let mut s = logged_in();
    let rules = stored(Permission::Ask, Permission::Ask);
    let data = b"git-receive-pack '/git/test.git'";
    let p = pending(s.exec_request(5, data, &rules));
    assert_eq!(p.channel, 5);
    assert_eq!(p.request.pk_openssh, LINE);
    assert_eq!(p.request.action, "write to /git/test.git");
    let f = s.exec_forward(approved(exec_answered(p, Choice::AllowOnce.reply())));
    assert_eq!((f.outbound, f.confirm, f.want_reply), (9, 5, true));
    assert_eq!(f.command.as_bytes(), data);
    let p = pending(s.exec_request(5, data, &rules));
    assert_eq!(
        refusal(exec_answered(p, Choice::Close.reply())),
        "git: interactively denied"
    );
}

#[test]
fn rules_stay_in_force_for_the_session() {
    let mut s = logged_in();
    let data = b"git-upload-pack '/git/test.git'";
    let first = stored(Permission::No, Permission::No);
    let later = stored(Permission::Yes, Permission::Yes);
    assert_eq!(refusal(s.exec_request(5, data, &first)), "git: read not allowed");
    assert_eq!(refusal(s.exec_request(5, data, &later)), "git: read not allowed");
    assert!(s.client_rules(&later).servers.get("127.0.0.1:2222").is_some());
    let mut other = logged_in();
    assert!(matches!(other.exec_request(5, data, &later), ExecStep::Approve(_)));
}

#[test]
fn unknown_client_is_refused_everywhere() {
    let mut s = logged_in();
    let none: Rules = Table::new();
    assert_eq!(
        refusal(s.exec_request(5, b"git-upload-pack '/git/test.git'", &none)),
        "server 127.0.0.1:2222 not in rules"
    );
}

#[test]
fn comment_is_part_of_the_key() {
    let mut s = SessionState::new(target());
    assert_eq!(s.set_inbound_client_auth("git".to_string(), key("me")), Ok(()));
    s.set_chan_map(5, 9);
    assert_eq!(
        refusal(s.exec_request(
            5,
            b"git-upload-pack '/git/test.git'",
            &stored(Permission::Yes, Permission::Yes)
        )),
        "server 127.0.0.1:2222 not in rules"
    );
}

#[test]
fn validation_becomes_a_step() {
    let step = exec_validated(5, "x".to_string(), Validation::Done(Ok(())));
    assert!(matches!(step, ExecStep::Approve(_)));
    let step = exec_validated(5, "x".to_string(), Validation::Done(Err("no".to_string())));
    assert_eq!(refusal(step), "no");
}

#[test]
fn server_messages_reach_the_client() {
    let s = logged_in();
    assert!(s.relay_to_client(ServerEvent::Success { channel: 9 }).is_none());
    assert!(s.relay_to_client(ServerEvent::Failure { channel: 1 }).is_none());
    assert!(matches!(
        s.relay_to_client(ServerEvent::Eof { channel: 9 }),
        Some(ToClient::Eof { channel: 5 })
    ));
    assert!(matches!(
        s.relay_to_client(ServerEvent::Close { channel: 9 }),
        Some(ToClient::Close { channel: 5 })
    ));
    assert!(matches!(
        s.relay_to_client(ServerEvent::ExitStatus { channel: 9, status: 128 }),
        Some(ToClient::ExitStatus { channel: 5, status: 128 })
    ));
    match s.relay_to_client(ServerEvent::Data { channel: 9, data: vec![0, 255] }) {
        Some(ToClient::Data { channel, data }) => {
            assert_eq!(channel, 5);
            assert_eq!(data, vec![0, 255]);
        }
        _ => panic!("no data"),
    }
}

#[test]
fn client_messages_reach_the_server() {
    let s = logged_in();
    assert!(matches!(
        s.relay_to_server(ClientEvent::Eof { channel: 5 }),
        ToServer::Eof { channel: 9 }
    ));
    assert!(matches!(
        s.relay_to_server(ClientEvent::Close { channel: 5 }),
        ToServer::Close { channel: 9 }
    ));
    match s.relay_to_server(ClientEvent::Data { channel: 5, data: b"0000".to_vec() }) {
        ToServer::Data { channel, data } => {
            assert_eq!(channel, 9);
            assert_eq!(data, b"0000");
        }
        _ => panic!("no data"),
    }
}

#[test]
fn two_channels_stay_apart() {
    let mut s = SessionState::new(target());
    s.set_chan_map(1, 11);
    s.set_chan_map(2, 12);
    assert!(matches!(
        s.relay_to_client(ServerEvent::Eof { channel: 11 }),
        Some(ToClient::Eof { channel: 1 })
    ));
    assert!(matches!(
        s.relay_to_client(ServerEvent::Eof { channel: 12 }),
        Some(ToClient::Eof { channel: 2 })
    ));
    assert!(matches!(
        s.relay_to_server(ClientEvent::Close { channel: 1 }),
        ToServer::Close { channel: 11 }
    ));
    assert!(matches!(
        s.relay_to_server(ClientEvent::Close { channel: 2 }),
        ToServer::Close { channel: 12 }
    ));
}

#[test]
fn pairing_changes_neither_client_nor_rules() {
    let mut s = logged_in();
    let rules = stored(Permission::Yes, Permission::No);
    let data = b"git-upload-pack '/git/test.git'";
    assert!(matches!(s.exec_request(5, data, &rules), ExecStep::Approve(_)));
    s.set_chan_map(6, 10);
    assert_eq!(s.inbound_client_user(), "git");
    let none: Rules = Table::new();
    let a = approved(s.exec_request(6, data, &none));
    let f = s.exec_forward(a);
    assert_eq!((f.outbound, f.confirm), (10, 6));
}

#[test]
fn utf8_is_told_apart() {
    assert!(is_utf8(b""));
    assert!(is_utf8("git-upload-pack '/gr\u{fc}n'".as_bytes()));
    assert!(!is_utf8(&[0xff]));
    assert!(!is_utf8(&[0xc3]));
}

#[test]
fn commands_keep_their_characters() {
    let mut s = logged_in();
    let rules = stored(Permission::Yes, Permission::Yes);
    let data = "git-upload-pack '/gr\u{fc}n'".as_bytes();
    let p = pending(s.exec_request(5, data, &rules));
    assert_eq!(p.request.action, "read from /gr\u{fc}n");
    assert_eq!(p.command.as_bytes(), data);
}

#[test]
fn success_is_told_once_a_command_was_sent() {
    let mut s = logged_in();
    let rules = stored(Permission::Yes, Permission::Ask);
    let a = approved(s.exec_request(5, b"git-upload-pack '/git/test.git'", &rules));
    let f = s.exec_forward(a);
    assert_eq!(exec_sent(&f, true), Some(5));
    assert_eq!(exec_sent(&f, false), None);
    let p = pending(s.exec_request(5, b"git-receive-pack '/git/test.git'", &rules));
    let f = s.exec_forward(approved(exec_answered(p, Choice::AllowAlways.reply())));
    assert_eq!(exec_sent(&f, true), Some(5));
}

#[test]
fn a_command_is_decided_before_its_channel_is_looked_up() {
    let mut s = logged_in();
    let rules = stored(Permission::Yes, Permission::Ask);
    assert!(!s.has_outbound_chan(77));
    let p = pending(s.exec_request(77, b"git-receive-pack '/git/test.git'", &rules));
    assert_eq!(p.channel, 77);
    let a = approved(exec_answered(p, Choice::AllowOnce.reply()));
    s.set_chan_map(77, 78);
    assert_eq!(s.exec_forward(a).outbound, 78);
}
