use proxy_fw_ssh::prompt::{Reply, RequestHandler};
use proxy_fw_ssh::rules::{
    rules_for_client, ClientRules, GitAccessRule, GitRules, Permission, Rules, ServerRules,
    Validation,
};
use proxy_fw_ssh::table::{Duplicate, Table};

fn rule(read: Permission, write: Permission) -> GitAccessRule {
    GitAccessRule { read, write }
}

fn git_rules() -> GitRules {
    let mut paths = Table::new();
    paths.insert("/git/open.git".to_string(), rule(Permission::Yes, Permission::Yes));
    paths.insert("/git/mirror.git".to_string(), rule(Permission::Yes, Permission::No));
    paths.insert("/git/inbox.git".to_string(), rule(Permission::No, Permission::Ask));
    GitRules { paths }
}

fn client_rules() -> ClientRules {
    let mut servers = Table::new();
    servers.insert("127.0.0.1:2222".to_string(), ServerRules { git: git_rules() });
    ClientRules { name: Some("laptop".to_string()), servers }
}

fn handler() -> RequestHandler {
    RequestHandler { pk_openssh: "ssh-ed25519 AAAA".to_string() }
}

fn show(v: Validation) -> String {
    match v {
        Validation::Done(Ok(())) => "allow".to_string(),
        Validation::Done(Err(e)) => format!("deny {}", e),
        Validation::Ask(q) => format!("ask {} {}", q.pk_openssh, q.action),
    }
}

fn git(data: &str) -> String {
    show(git_rules().validate_exec(&handler(), "git", data))
}

fn client(server: &str, user: &str, data: &str) -> String {
    show(client_rules().validate_exec(&handler(), server, user, data))
}

fn words(list: &[&str]) -> Option<Vec<String>> {
    Some(list.iter().map(|w| w.to_string()).collect())
}

#[test]
fn matches_git_commands_of_git_user_only() {
    assert!(GitRules::matches_exec("git", "git-upload-pack '/a'"));
    assert!(GitRules::matches_exec("git", "git-receive-pack '/a'"));
    assert!(GitRules::matches_exec("git", "git-upload-pack"));
    assert!(GitRules::matches_exec("git", "git-upload-packs"));
    assert!(!GitRules::matches_exec("root", "git-upload-pack '/a'"));
    assert!(!GitRules::matches_exec("gits", "git-upload-pack '/a'"));
    assert!(!GitRules::matches_exec("git", "git-upload-pac"));
    assert!(!GitRules::matches_exec("git", " git-upload-pack '/a'"));
    assert!(!GitRules::matches_exec("git", "ls"));
    assert!(!GitRules::matches_exec("git", ""));
}

#[test]
fn read_permission_decides_upload_pack() {
    assert_eq!(git("git-upload-pack '/git/open.git'"), "allow");
    assert_eq!(git("git-upload-pack '/git/mirror.git'"), "allow");
    assert_eq!(git("git-upload-pack '/git/inbox.git'"), "deny read not allowed");
}

#[test]
fn write_permission_decides_receive_pack() {
    assert_eq!(git("git-receive-pack '/git/open.git'"), "allow");
    assert_eq!(git("git-receive-pack '/git/mirror.git'"), "deny write not allowed");
    assert_eq!(
        git("git-receive-pack '/git/inbox.git'"),
        "ask ssh-ed25519 AAAA write to /git/inbox.git"
    );
}

#[test]
fn unlisted_repositories_are_asked() {
    assert_eq!(
        git("git-upload-pack '/git/new.git'"),
        "ask ssh-ed25519 AAAA read from /git/new.git"
    );
    assert_eq!(
        git("git-receive-pack '/git/new.git'"),
        "ask ssh-ed25519 AAAA write to /git/new.git"
    );
}

#[test]
fn words_are_split_as_a_shell_does() {
    assert_eq!(git("git-upload-pack /git/open.git"), "allow");
    assert_eq!(git("git-upload-pack \"/git/open.git\" more"), "allow");
    assert_eq!(git("git-upload-pack /git/op\\en.git"), "allow");
    assert_eq!(git("git-upload-pack '/git/open.git"), "deny parsing command");
    assert_eq!(git(""), "deny missing arg0");
    assert_eq!(git("git-upload-pack"), "deny missing arg1");
    assert_eq!(git("git-upload-packs /git/open.git"), "deny invalid command git-upload-packs");
}

#[test]
fn split_words_decide_alike() {
    let g = git_rules();
    let h = handler();
    assert_eq!(show(g.validate_words(&h, &None)), "deny parsing command");
    assert_eq!(show(g.validate_words(&h, &words(&[]))), "deny missing arg0");
    assert_eq!(show(g.validate_words(&h, &words(&["git-upload-pack"]))), "deny missing arg1");
    assert_eq!(show(g.validate_words(&h, &words(&["ls", "/git/open.git"]))), "deny invalid command ls");
    assert_eq!(
        show(g.validate_words(&h, &words(&["git-upload-pack", "/git/open.git", "x"]))),
        "allow"
    );
    let c = client_rules();
    let data = "git-receive-pack x";
    assert_eq!(
        show(c.validate_words(&h, "127.0.0.1:2222", "git", data, &words(&["git-receive-pack", "/git/mirror.git"]))),
        "deny git: write not allowed"
    );
    assert_eq!(
        show(c.validate_words(&h, "127.0.0.1:2222", "root", data, &words(&["git-receive-pack", "/git/open.git"]))),
        "deny no plugin matches with user:root, data:git-receive-pack x"
    );
}

#[test]
fn client_rules_decide_by_server_and_user() {
    let data = "git-upload-pack '/git/open.git'";
    assert_eq!(client("127.0.0.1:2222", "git", data), "allow");
    assert_eq!(client("127.0.0.1:22", "git", data), "deny server 127.0.0.1:22 not in rules");
    assert_eq!(
        client("127.0.0.1:2222", "root", "git-upload-pack /a"),
        "deny no plugin matches with user:root, data:git-upload-pack /a"
    );
    assert_eq!(
        client("127.0.0.1:2222", "git", "bash"),
        "deny no plugin matches with user:git, data:bash"
    );
}

#[test]
fn reasons_of_git_rules_are_marked() {
    assert_eq!(
        client("127.0.0.1:2222", "git", "git-upload-pack '/git/inbox.git'"),
        "deny git: read not allowed"
    );
    assert_eq!(client("127.0.0.1:2222", "git", "git-upload-pack '"), "deny git: parsing command");
    assert_eq!(client("127.0.0.1:2222", "git", "git-upload-pack"), "deny git: missing arg1");
    assert_eq!(
        client("127.0.0.1:2222", "git", "git-receive-pack '/git/inbox.git'"),
        "ask ssh-ed25519 AAAA write to /git/inbox.git"
    );
}

#[test]
fn only_consent_decides_an_answer() {
    for permission in [Permission::Ask, Permission::Yes, Permission::No] {
        assert_eq!(GitRules::conclude(Reply { allowed: true, permission }), Ok(()));
        assert_eq!(ClientRules::conclude(Reply { allowed: true, permission }), Ok(()));
        assert_eq!(
            GitRules::conclude(Reply { allowed: false, permission }),
            Err("interactively denied".to_string())
        );
        assert_eq!(
            ClientRules::conclude(Reply { allowed: false, permission }),
            Err("git: interactively denied".to_string())
        );
    }
}

#[test]
fn rules_are_found_by_key() {
    let mut rules: Rules = Table::new();
    rules.insert("key".to_string(), client_rules());
    let own = rules_for_client(&rules, "key");
    assert_eq!(own.name.as_deref(), Some("laptop"));
    assert!(own.servers.get("127.0.0.1:2222").is_some());
    let none = rules_for_client(&rules, "other");
    assert_eq!(none.name, None);
    assert_eq!(
        show(none.validate_exec(&handler(), "127.0.0.1:2222", "git", "git-upload-pack '/git/open.git'")),
        "deny server 127.0.0.1:2222 not in rules"
    );
}

#[test]
fn defaults_ask() {
    assert_eq!(Permission::default(), Permission::Ask);
    assert_eq!(GitAccessRule::default(), rule(Permission::Ask, Permission::Ask));
    assert!(!GitAccessRule::default().read());
    assert!(!GitAccessRule::default().write());
    assert!(rule(Permission::Yes, Permission::No).read());
    assert!(!rule(Permission::Yes, Permission::No).write());
    assert!(rule(Permission::Ask, Permission::Yes).write());
    assert!(ClientRules::default().name.is_none());
}

#[test]
fn table_keeps_the_last_value_of_a_key() {
    let mut t: Table<GitAccessRule> = Table::new();
    assert!(t.get("a").is_none());
    t.insert("a".to_string(), rule(Permission::No, Permission::No));
    t.insert("b".to_string(), rule(Permission::Yes, Permission::No));
    t.insert("a".to_string(), rule(Permission::Yes, Permission::Yes));
    assert_eq!(*t.get("a").unwrap(), rule(Permission::Yes, Permission::Yes));
    assert_eq!(*t.get("b").unwrap(), rule(Permission::Yes, Permission::No));
    assert!(t.get("ab").is_none());
    let copy = t.duplicate();
    t.insert("b".to_string(), rule(Permission::No, Permission::No));
    assert_eq!(*copy.get("b").unwrap(), rule(Permission::Yes, Permission::No));
    assert_eq!(*copy.get("a").unwrap(), rule(Permission::Yes, Permission::Yes));
    assert!(copy.get("").is_none());
}

#[test]
fn other_rules_change_nothing() {
    let mut paths = Table::new();
    paths.insert("/git/open.git".to_string(), rule(Permission::Yes, Permission::No));
    paths.insert("/git/other.git".to_string(), rule(Permission::No, Permission::No));
    let changed = GitRules { paths };
    let fetch = "git-upload-pack '/git/open.git'";
    assert_eq!(show(changed.validate_exec(&handler(), "git", fetch)), git(fetch));
    let push = "git-receive-pack '/git/open.git'";
    assert_ne!(show(changed.validate_exec(&handler(), "git", push)), git(push));
}
