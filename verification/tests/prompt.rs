use proxy_fw_ssh::prompt::{Choice, Prompt, Reply, RequestHandler};
use proxy_fw_ssh::rules::Permission;

#[test]
fn question_names_the_client() {
    let handler = RequestHandler { pk_openssh: "ssh-ed25519 AAAA".to_string() };
    let q = handler.request("read from /git/test.git".to_string());
    assert_eq!(q.pk_openssh, "ssh-ed25519 AAAA");
    assert_eq!(q.action, "read from /git/test.git");
    assert_eq!(
        q.markup(),
        "Allow\n<b>ssh-ed25519 AAAA</b>\nto read from /git/test.git?"
    );
}

#[test]
fn choices_have_their_meaning() {
    let reply = |allowed, permission| Reply { allowed, permission };
    assert_eq!(Choice::AllowAlways.reply(), reply(true, Permission::Yes));
    assert_eq!(Choice::AllowOnce.reply(), reply(true, Permission::Ask));
    assert_eq!(Choice::DenyAlways.reply(), reply(false, Permission::No));
    assert_eq!(Choice::Close.reply(), reply(false, Permission::Ask));
}

#[test]
fn closing_does_not_take_a_click_back() {
    let mut p = Prompt::new();
    assert!(!p.is_answered());
    assert_eq!(p.take_choice(Choice::AllowOnce), Some(Choice::AllowOnce.reply()));
    assert!(p.is_answered());
    assert_eq!(p.take_choice(Choice::Close), None);
    assert!(p.is_answered());
}

#[test]
fn closing_an_untouched_prompt_denies() {
    let mut p = Prompt::new();
    let r = p.take_choice(Choice::Close).unwrap();
    assert!(!r.allowed);
    assert_eq!(r.permission, Permission::Ask);
    assert_eq!(p.take_choice(Choice::Close), None);
}
