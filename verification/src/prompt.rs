//! Questions to the user, and the answers that a click gives.

use crate::rules::Permission;
use vstd::prelude::*;

verus! {

/// A question whether the client with key `pk_openssh` may perform `action`.
pub struct PermissionRequest {
    pub pk_openssh: String,
    pub action: String,
}

/// An answer: whether to go ahead now, and the permission to keep for later.
#[derive(Clone, Copy, Debug, PartialEq, Eq, Structural)]
pub struct Reply {
    pub allowed: bool,
    pub permission: Permission,
}

/// Asks on behalf of one client.
pub struct RequestHandler {
    pub pk_openssh: String,
}

impl RequestHandler {
    /// The question whether this client may perform `action`.
    pub fn request(&self, action: String) -> (r: PermissionRequest)
        ensures
            r.pk_openssh@ == self.pk_openssh@,
            r.action@ == action@,
    {
        PermissionRequest { pk_openssh: self.pk_openssh.clone(), action }
    }
}

impl PermissionRequest {
    /// The question as the prompt window shows it, in Pango markup.
    pub open spec fn markup_text(self) -> Seq<char> {
        "Allow\n<b>"@ + self.pk_openssh@ + "</b>\nto "@ + self.action@ + "?"@
    }

    /// The question as the prompt window shows it, in Pango markup.
    pub fn markup(&self) -> (text: String)
        ensures
            text@ == self.markup_text(),
            text@ == "Allow\n<b>"@ + self.pk_openssh@ + "</b>\nto "@ + self.action@ + "?"@,
    {
        "Allow\n<b>".to_owned().concat(self.pk_openssh.as_str()).concat("</b>\nto ").concat(
            self.action.as_str(),
        ).concat("?")
    }
}

/// What the user does with a prompt window.
#[derive(Clone, Copy, Debug, PartialEq, Eq, Structural)]
pub enum Choice {
    AllowAlways,
    AllowOnce,
    DenyAlways,
    Close,
}

impl Choice {
    /// The answer that a choice stands for.
    pub open spec fn meaning(self) -> Reply {
        match self {
            Choice::AllowAlways => Reply { allowed: true, permission: Permission::Yes },
            Choice::AllowOnce => Reply { allowed: true, permission: Permission::Ask },
            Choice::DenyAlways => Reply { allowed: false, permission: Permission::No },
            Choice::Close => Reply { allowed: false, permission: Permission::Ask },
        }
    }

    /// The answer that a choice stands for.
    pub fn reply(self) -> (r: Reply)
        ensures
            r == self.meaning(),
    {
        match self {
            Choice::AllowAlways => Reply { allowed: true, permission: Permission::Yes },
            Choice::AllowOnce => Reply { allowed: true, permission: Permission::Ask },
            Choice::DenyAlways => Reply { allowed: false, permission: Permission::No },
            Choice::Close => Reply { allowed: false, permission: Permission::Ask },
        }
    }
}

/// A prompt window, which answers its question once.
pub struct Prompt {
    answer: Option<Reply>,
}

impl View for Prompt {
    type V = Option<Reply>;

    closed spec fn view(&self) -> Option<Reply> {
        self.answer
    }
}

/// What a prompt that gave `answer` so far has answered after `choice`.
pub open spec fn answer_after(answer: Option<Reply>, choice: Choice) -> Option<Reply> {
    match answer {
        Some(r) => Some(r),
        None => Some(choice.meaning()),
    }
}

/// What a new prompt has answered after `choices`.
pub open spec fn answer_of(choices: Seq<Choice>) -> Option<Reply>
    decreases choices.len(),
{
    if choices.len() == 0 {
        None
    } else {
        answer_after(answer_of(choices.drop_last()), choices.last())
    }
}

impl Prompt {
    /// A window that the user has not touched.
    pub fn new() -> (p: Self)
        ensures
            p@ is None,
    {
        Prompt { answer: None }
    }

    /// Whether the question is answered.
    pub fn is_answered(&self) -> (b: bool)
        ensures
            b == (self@ is Some),
    {
        self.answer.is_some()
    }

    /// Takes a choice, and returns the answer to send on where it is the first.
    /// A window closes once a button was clicked, so only closing can come
    /// behind an answer.
    pub fn take_choice(&mut self, choice: Choice) -> (send: Option<Reply>)
        requires
            old(self)@ is Some ==> choice is Close,
        ensures
            final(self)@ == answer_after(old(self)@, choice),
            old(self)@ is Some ==> final(self)@ == old(self)@,
            old(self)@ is None ==> final(self)@ == Some(choice.meaning()),
            send == (if old(self)@ is None { Some(choice.meaning()) } else { None::<Reply> }),
    {
        if self.answer.is_some() {
            None
        } else {
            let r = choice.reply();
            self.answer = Some(r);
            Some(r)
        }
    }
}

/// The first choice is the answer, whatever follows it: closing the window
/// behind a click does not take the click back.
pub proof fn first_choice_answers(choices: Seq<Choice>)
    requires
        choices.len() > 0,
    ensures
        answer_of(choices) == Some(choices[0].meaning()),
    decreases choices.len(),
{
    if choices.len() > 1 {
        first_choice_answers(choices.drop_last());
    } else {
        reveal_with_fuel(answer_of, 2);
    }
}

/// Only the two allowing buttons give consent, and only the two buttons that
/// say "always" change the permission to keep.
pub proof fn consent_needs_a_click(choice: Choice)
    ensures
        choice.meaning().allowed <==> choice is AllowAlways || choice is AllowOnce,
        choice.meaning().permission != Permission::Ask <==> choice is AllowAlways
            || choice is DenyAlways,
        choice.meaning().permission == Permission::Yes ==> choice.meaning().allowed,
        choice.meaning().permission == Permission::No ==> !choice.meaning().allowed,
{
}

/// The window shows the whole question: the key of the client in bold, then the
/// action, from its first character to its last, with a question mark behind it.
pub proof fn window_shows_key_and_action(request: PermissionRequest)
    ensures
        ({
            let text = request.markup_text();
            let key = request.pk_openssh@;
            let action = request.action@;
            let k: int = key.len() as int;
            let a: int = action.len() as int;
            &&& text.len() == 9 + k + 8 + a + 1
            &&& text.take(9) == seq!['A', 'l', 'l', 'o', 'w', '\n', '<', 'b', '>']
            &&& text.subrange(9, 9 + k) == key
            &&& text.subrange(9 + k, 17 + k) == seq![
                '<',
                '/',
                'b',
                '>',
                '\n',
                't',
                'o',
                ' ',
            ]
            &&& text.subrange(17 + k, 17 + k + a) == action
            &&& text.last() == '?'
        }),
{
    reveal_strlit("Allow\n<b>");
    reveal_strlit("</b>\nto ");
    reveal_strlit("?");
    let text = request.markup_text();
    let key = request.pk_openssh@;
    let action = request.action@;
    let k: int = key.len() as int;
    let a: int = action.len() as int;
    assert(text.len() == 9 + k + 8 + a + 1);
    assert(text.take(9) =~= seq!['A', 'l', 'l', 'o', 'w', '\n', '<', 'b', '>']);
    assert(text.subrange(9, 9 + k) =~= key);
    assert(text.subrange(9 + k, 17 + k) =~= seq![
        '<',
        '/',
        'b',
        '>',
        '\n',
        't',
        'o',
        ' ',
    ]);
    assert(text.subrange(17 + k, 17 + k + a) =~= action);
}

/// Two questions of one client look alike only where they ask for the same
/// action, and two questions for one action only where they are of one client.
pub proof fn different_questions_look_different(a: PermissionRequest, b: PermissionRequest)
    ensures
        a.pk_openssh@ == b.pk_openssh@ && a.action@ != b.action@ ==> a.markup_text()
            != b.markup_text(),
        a.action@ == b.action@ && a.pk_openssh@ != b.pk_openssh@ ==> a.markup_text()
            != b.markup_text(),
{
    window_shows_key_and_action(a);
    window_shows_key_and_action(b);
}

/// The answer that a prompt gave stays as it is, whatever the user does next, and
/// a prompt without an answer takes its answer from the next choice.
pub proof fn an_answer_is_given_once(answer: Option<Reply>, choice: Choice)
    ensures
        answer is Some ==> answer_after(answer, choice) == answer,
        answer is None ==> answer_after(answer, choice) == Some(choice.meaning()),
{
}

/// What each choice stands for: consent now, and the permission to keep.
pub proof fn choices_stand_for_their_labels()
    ensures
        Choice::AllowAlways.meaning() == (Reply { allowed: true, permission: Permission::Yes }),
        Choice::AllowOnce.meaning() == (Reply { allowed: true, permission: Permission::Ask }),
        Choice::DenyAlways.meaning() == (Reply { allowed: false, permission: Permission::No }),
        Choice::Close.meaning() == (Reply { allowed: false, permission: Permission::Ask }),
{
}

/// A question is asked on behalf of the client of its handler, for the action that
/// was given, and the window shows just that.
pub proof fn a_question_is_shown_as_it_was_asked(
    handler: RequestHandler,
    action: String,
    request: PermissionRequest,
    text: String,
)
    requires
        call_ensures(RequestHandler::request, (&handler, action), request),
        call_ensures(PermissionRequest::markup, (&request,), text),
    ensures
        request.pk_openssh@ == handler.pk_openssh@,
        request.action@ == action@,
        text@ == "Allow\n<b>"@ + handler.pk_openssh@ + "</b>\nto "@ + action@ + "?"@,
{
}

/// A prompt sends on exactly one answer: what its first choice stands for. A new
/// prompt has none.
pub proof fn a_prompt_sends_its_first_choice(
    new: Prompt,
    prompt: &mut Prompt,
    choice: Choice,
    reply: Reply,
    send: Option<Reply>,
    was_answered: bool,
    is_answered: bool,
)
    requires
        call_ensures(Prompt::new, (), new),
        call_ensures(Prompt::is_answered, (&*old(prompt),), was_answered),
        call_ensures(Choice::reply, (choice,), reply),
        call_ensures(Prompt::take_choice, (prompt, choice), send),
        call_ensures(Prompt::is_answered, (&*final(prompt),), is_answered),
    ensures
        new@ is None,
        is_answered,
        was_answered ==> send is None && final(prompt)@ == old(prompt)@,
        !was_answered ==> send == Some(reply) && final(prompt)@ == Some(reply),
        reply.allowed <==> choice is AllowAlways || choice is AllowOnce,
        reply.permission is Yes <==> choice is AllowAlways,
        reply.permission is No <==> choice is DenyAlways,
{
}

} // verus!
