//! Commands that a client wants to run on the server.

use crate::channels::Pairs;
use crate::prompt::{PermissionRequest, Reply, RequestHandler};
use crate::rules::{
    approval_needs_a_stored_yes, client_answer, client_decision, git_call_is_understood, in_charge,
    is_git, question_names_client_and_repository, quoted_call, rule_of, shlex_words, ClientModel,
    ClientRules, Decision, Permission, Rules, Validation,
};
use crate::session::{SessionModel, SessionState};
use crate::text::from_utf8;
use vstd::prelude::*;
use vstd::utf8::{decode_utf8, decode_utf8_encode_utf8, encode_utf8, valid_utf8};

verus! {

/// A command that may run.
pub struct Approved {
    /// The channel of the client that it came on.
    pub channel: u32,
    pub command: String,
}

/// A command that waits for the user's answer.
pub struct PendingExec {
    /// The channel of the client that it came on.
    pub channel: u32,
    pub command: String,
    /// The question to put to the user.
    pub request: PermissionRequest,
}

/// What to do with a command.
pub enum ExecStep {
    /// Send it to the server.
    Approve(Approved),
    /// Run nothing, for the given reason.
    Refuse(String),
    /// Ask the user, and go on with the answer.
    Ask(PendingExec),
}

/// What to do with a command.
pub enum ExecModel {
    Approve { channel: u32, command: Seq<char> },
    Refuse(Seq<char>),
    Ask { channel: u32, command: Seq<char>, pk: Seq<char>, action: Seq<char> },
}

impl View for ExecStep {
    type V = ExecModel;

    open spec fn view(&self) -> ExecModel {
        match *self {
            ExecStep::Approve(a) => ExecModel::Approve { channel: a.channel, command: a.command@ },
            ExecStep::Refuse(e) => ExecModel::Refuse(e@),
            ExecStep::Ask(p) => ExecModel::Ask {
                channel: p.channel,
                command: p.command@,
                pk: p.request.pk_openssh@,
                action: p.request.action@,
            },
        }
    }
}

/// A command that goes to the server.
pub struct Forward {
    /// The channel of the server on which it runs.
    pub outbound: u32,
    /// Whether the server is to say if it runs.
    pub want_reply: bool,
    pub command: String,
    /// The channel of the client on which success is reported.
    pub confirm: u32,
}

/// A command that goes to the server.
pub struct ForwardModel {
    pub outbound: u32,
    pub want_reply: bool,
    pub command: Seq<char>,
    pub confirm: u32,
}

impl View for Forward {
    type V = ForwardModel;

    open spec fn view(&self) -> ForwardModel {
        ForwardModel {
            outbound: self.outbound,
            want_reply: self.want_reply,
            command: self.command@,
            confirm: self.confirm,
        }
    }
}

/// What a decision makes of a command that came on `channel`.
pub open spec fn exec_step(d: Decision, channel: u32, command: Seq<char>) -> ExecModel {
    match d {
        Decision::Allow => ExecModel::Approve { channel, command },
        Decision::Deny(e) => ExecModel::Refuse(e),
        Decision::Ask(pk, action) => ExecModel::Ask { channel, command, pk, action },
    }
}

/// What is sent to the server: an approved command, unchanged, on the channel
/// that belongs to the one it came on.
pub open spec fn forwarded(step: ExecModel, pairs: Pairs) -> Option<ForwardModel> {
    match step {
        ExecModel::Approve { channel, command } => Some(
            ForwardModel {
                outbound: pairs.to_outbound[channel],
                want_reply: true,
                command,
                confirm: channel,
            },
        ),
        _ => None,
    }
}

/// What the rules in force decide of a command that was split into `words`.
pub open spec fn session_decision(
    session: SessionModel,
    stored: Map<Seq<char>, ClientModel>,
    command: Seq<char>,
    words: Option<Seq<Seq<char>>>,
) -> Decision {
    client_decision(
        session.rules_in_force(stored),
        session.client->0.pk,
        session.server_addr(),
        session.client->0.user,
        command,
        words,
    )
}

/// What becomes of a command, given what the rules say of it.
pub fn exec_validated(channel: u32, command: String, v: Validation) -> (step: ExecStep)
    ensures
        step@ == exec_step(v@, channel, command@),
        match v {
            Validation::Done(Ok(())) => step matches ExecStep::Approve(a) && a.channel == channel
                && a.command@ == command@,
            Validation::Done(Err(e)) => step matches ExecStep::Refuse(f) && f@ == e@,
            Validation::Ask(q) => {
                &&& step matches ExecStep::Ask(p)
                &&& p.channel == channel
                &&& p.command@ == command@
                &&& p.request.pk_openssh@ == q.pk_openssh@
                &&& p.request.action@ == q.action@
            },
        },
{
    match v {
        Validation::Done(Ok(())) => ExecStep::Approve(Approved { channel, command }),
        Validation::Done(Err(e)) => ExecStep::Refuse(e),
        Validation::Ask(request) => ExecStep::Ask(PendingExec { channel, command, request }),
    }
}

/// What becomes of a command that was put to the user: it may run where the user
/// consents, and is refused otherwise.
pub fn exec_answered(pending: PendingExec, reply: Reply) -> (step: ExecStep)
    ensures
        step@ == exec_step(client_answer(reply), pending.channel, pending.command@),
        reply.allowed ==> (step matches ExecStep::Approve(a) && a.channel == pending.channel
            && a.command@ == pending.command@),
        !reply.allowed ==> (step matches ExecStep::Refuse(e) && e@ == "git: "@
            + "interactively denied"@),
{
    match ClientRules::conclude(reply) {
        Ok(()) => ExecStep::Approve(
            Approved { channel: pending.channel, command: pending.command },
        ),
        Err(e) => ExecStep::Refuse(e),
    }
}

impl SessionState {
    /// What becomes of a command that came on `channel`: the rules in force
    /// decide. What may run is what came from the client, byte for byte.
    pub fn exec_request(&mut self, channel: u32, data: &[u8], rules: &Rules) -> (step: ExecStep)
        requires
            old(self)@.client is Some,
            valid_utf8(data@),
        ensures
            final(self)@ == old(self)@.with_rules(rules@),
            old(self)@.valid() ==> final(self)@.valid(),
            step@ == exec_step(
                session_decision(
                    old(self)@,
                    rules@,
                    decode_utf8(data@),
                    shlex_words(decode_utf8(data@)),
                ),
                channel,
                decode_utf8(data@),
            ),
            forall|command: Seq<char>, path: Seq<char>| #[trigger]
                quoted_call(decode_utf8(data@), command, path) ==> step@ == exec_step(
                    session_decision(
                        old(self)@,
                        rules@,
                        decode_utf8(data@),
                        Some(seq![command, path]),
                    ),
                    channel,
                    decode_utf8(data@),
                ),
            step matches ExecStep::Approve(a) ==> encode_utf8(a.command@) == data@,
            step matches ExecStep::Ask(p) ==> encode_utf8(p.command@) == data@,
    {
        proof {
            decode_utf8_encode_utf8(data@);
        }
        let command = from_utf8(data).unwrap();
        let server_addr = self.server_name();
        let user = self.inbound_client_user().to_owned();
        let handler = self.user_req_handler();
        let v = self.client_rules(rules).validate_exec(
            &handler,
            server_addr.as_str(),
            user.as_str(),
            command,
        );
        exec_validated(channel, command.to_owned(), v)
    }

    /// What is sent to the server for an approved command.
    pub fn exec_forward(&self, approved: Approved) -> (f: Forward)
        requires
            self@.pairs.to_outbound.contains_key(approved.channel),
        ensures
            Some(f@) == forwarded(ExecStep::Approve(approved)@, self@.pairs),
            f.outbound == self@.pairs.to_outbound[approved.channel],
            f.want_reply,
            f.command@ == approved.command@,
            f.confirm == approved.channel,
    {
        Forward {
            outbound: self.outbound_chan(approved.channel),
            want_reply: true,
            command: approved.command,
            confirm: approved.channel,
        }
    }
}

/// The channel on which the client is told that its command runs, where `sent`
/// says whether the command could be sent to the server. Where nothing was sent,
/// the client is told nothing.
pub open spec fn success_told_on(forward: Option<ForwardModel>, sent: bool) -> Option<u32> {
    match forward {
        Some(f) => if sent {
            Some(f.confirm)
        } else {
            None
        },
        None => None,
    }
}

/// The channel on which the client is told that its command runs, once it was
/// tried to send the command to the server: none where that failed.
pub fn exec_sent(forward: &Forward, sent: bool) -> (confirm: Option<u32>)
    ensures
        confirm == (if sent {
            Some(forward.confirm)
        } else {
            None::<u32>
        }),
        confirm == success_told_on(Some(forward@), sent),
{
    if sent {
        Some(forward.confirm)
    } else {
        None
    }
}

/// What finally becomes of a command on which `d` was decided, where the user
/// gives `reply` if asked.
pub open spec fn final_step(d: Decision, reply: Reply, channel: u32, command: Seq<char>) -> ExecModel {
    match exec_step(d, channel, command) {
        ExecModel::Ask { channel: c, command: text, .. } => exec_step(
            client_answer(reply),
            c,
            text,
        ),
        other => other,
    }
}

/// A command is sent to the server exactly where the rules approve it, or the
/// rules leave it to the user and the user consents. It is then sent unchanged,
/// on the channel that belongs to the one it came on when it is sent. In every
/// other case nothing is sent, and the command is refused.
pub proof fn nothing_runs_without_approval(
    d: Decision,
    reply: Reply,
    pairs: Pairs,
    channel: u32,
    command: Seq<char>,
)
    ensures
        ({
            let step = final_step(d, reply, channel, command);
            &&& forwarded(step, pairs) == (if d is Allow || (d is Ask && reply.allowed) {
                Some(
                    ForwardModel {
                        outbound: pairs.to_outbound[channel],
                        want_reply: true,
                        command,
                        confirm: channel,
                    },
                )
            } else {
                None
            })
            &&& forwarded(step, pairs) is None <==> step is Refuse
        }),
{
}

/// What gets past the proxy: a command is sent to the server exactly where the
/// rules in force know the server, the command is a git command of the user
/// `git` that names an access and a repository, and the rule for that
/// repository grants the access, or leaves it to the user and the user consents.
pub proof fn what_gets_past_the_proxy(
    session: SessionModel,
    stored: Map<Seq<char>, ClientModel>,
    reply: Reply,
    pairs: Pairs,
    channel: u32,
    command: Seq<char>,
    words: Option<Seq<Seq<char>>>,
)
    ensures
        ({
            let d = session_decision(session, stored, command, words);
            let servers = session.rules_in_force(stored).servers;
            forwarded(final_step(d, reply, channel, command), pairs) is Some <==> {
                &&& servers.contains_key(session.server_addr())
                &&& is_git(session.client->0.user, command)
                &&& words matches Some(w)
                &&& w.len() >= 2
                &&& ({
                    let rule = rule_of(servers[session.server_addr()], w[1]);
                    ||| in_charge(rule, w[0], Permission::Yes)
                    ||| in_charge(rule, w[0], Permission::Ask) && reply.allowed
                })
            }
        }),
{
    let client = session.client->0;
    let rules = session.rules_in_force(stored);
    approval_needs_a_stored_yes(
        rules,
        client.pk,
        session.server_addr(),
        client.user,
        command,
        words,
    );
    question_names_client_and_repository(
        rules,
        client.pk,
        session.server_addr(),
        client.user,
        command,
        words,
    );
}

/// The client is told of success exactly where its command was approved, by the
/// rules or by the user, and was sent to the server; and it is told so on the
/// channel that the command came on.
pub proof fn success_is_told_of_sent_commands_only(
    d: Decision,
    reply: Reply,
    pairs: Pairs,
    channel: u32,
    command: Seq<char>,
    sent: bool,
)
    ensures
        success_told_on(forwarded(final_step(d, reply, channel, command), pairs), sent) == (if sent
            && (d is Allow || (d is Ask && reply.allowed)) {
            Some(channel)
        } else {
            None
        }),
{
}

/// A refusal names its reason: that of the rules, or that the user denied it.
pub proof fn refusal_names_its_reason(d: Decision, reply: Reply, channel: u32, command: Seq<char>)
    ensures
        d matches Decision::Deny(e) ==> final_step(d, reply, channel, command)
            == ExecModel::Refuse(e),
        d is Ask && !reply.allowed ==> final_step(d, reply, channel, command) == ExecModel::Refuse(
            "git: "@ + "interactively denied"@,
        ),
{
}

/// A session decides the same command in the same way each time, whatever is
/// stored in between.
pub proof fn session_decides_alike(
    session: SessionModel,
    first: Map<Seq<char>, ClientModel>,
    later: Map<Seq<char>, ClientModel>,
    command: Seq<char>,
    words: Option<Seq<Seq<char>>>,
)
    ensures
        session_decision(session.with_rules(first), later, command, words) == session_decision(
            session,
            first,
            command,
            words,
        ),
{
}

/// What is to be done with a command, and what goes to the server, read as they are
/// written: each part stands for itself.
pub proof fn steps_say_what_they_hold(step: ExecStep, forward: Forward)
    ensures
        match step {
            ExecStep::Approve(a) => step@ == (ExecModel::Approve {
                channel: a.channel,
                command: a.command@,
            }),
            ExecStep::Refuse(e) => step@ == ExecModel::Refuse(e@),
            ExecStep::Ask(p) => step@ == (ExecModel::Ask {
                channel: p.channel,
                command: p.command@,
                pk: p.request.pk_openssh@,
                action: p.request.action@,
            }),
        },
        forward@.outbound == forward.outbound,
        forward@.want_reply == forward.want_reply,
        forward@.command == forward.command@,
        forward@.confirm == forward.confirm,
{
}

/// A decision is carried out: what is allowed is approved on the channel that it
/// came on, what is denied is refused for the same reason, and what is to be asked
/// is asked, with the same client and action. Of these three only an approved
/// command is sent on.
pub proof fn a_decision_is_carried_out(
    channel: u32,
    command: Seq<char>,
    reason: Seq<char>,
    pk: Seq<char>,
    action: Seq<char>,
    pairs: Pairs,
)
    ensures
        exec_step(Decision::Allow, channel, command) == (ExecModel::Approve { channel, command }),
        exec_step(Decision::Deny(reason), channel, command) == ExecModel::Refuse(reason),
        exec_step(Decision::Ask(pk, action), channel, command) == (ExecModel::Ask {
            channel,
            command,
            pk,
            action,
        }),
        forwarded(ExecModel::Approve { channel, command }, pairs) == Some(
            ForwardModel {
                outbound: pairs.to_outbound[channel],
                want_reply: true,
                command,
                confirm: channel,
            },
        ),
        forwarded(ExecModel::Refuse(reason), pairs) is None,
        forwarded(ExecModel::Ask { channel, command, pk, action }, pairs) is None,
{
}

/// A validated command keeps its channel and its text, and becomes what was found of
/// it.
pub proof fn a_validated_command_stays_itself(
    channel: u32,
    command: String,
    v: Validation,
    step: ExecStep,
)
    requires
        call_ensures(exec_validated, (channel, command, v), step),
    ensures
        step is Approve <==> (v matches Validation::Done(Ok(_))),
        step is Refuse <==> (v matches Validation::Done(Err(_))),
        step is Ask <==> v is Ask,
        step matches ExecStep::Approve(a) ==> a.channel == channel && a.command@ == command@,
        step matches ExecStep::Refuse(e) ==> (v matches Validation::Done(Err(f)) && e@ == f@),
        step matches ExecStep::Ask(p) ==> {
            &&& p.channel == channel
            &&& p.command@ == command@
            &&& v matches Validation::Ask(q)
            &&& p.request.pk_openssh@ == q.pk_openssh@
            &&& p.request.action@ == q.action@
        },
{
}

/// A command that waited for the user runs exactly where the user consents, on its
/// channel and as it was; what goes to the server is that command, on the channel
/// that belongs to its own, and the client is told on its own channel, once the
/// command was sent.
pub proof fn a_command_that_was_asked_for_runs_with_consent(
    pending: PendingExec,
    reply: Reply,
    step: ExecStep,
    state: SessionState,
    forward: Forward,
    sent: bool,
    told: Option<u32>,
)
    requires
        call_ensures(exec_answered, (pending, reply), step),
        step is Approve ==> call_ensures(
            SessionState::exec_forward,
            (&state, step->Approve_0),
            forward,
        ),
        call_ensures(exec_sent, (&forward, sent), told),
    ensures
        step is Approve <==> reply.allowed,
        !reply.allowed ==> (step matches ExecStep::Refuse(e) && e@ == "git: "@
            + "interactively denied"@),
        reply.allowed ==> {
            &&& forward.command@ == pending.command@
            &&& forward.outbound == state@.pairs.to_outbound[pending.channel]
            &&& forward.want_reply
            &&& told == (if sent {
                Some(pending.channel)
            } else {
                None
            })
        },
{
}

/// The client is told that a command runs exactly where it was sent.
pub proof fn success_is_told_once_sent(forward: ForwardModel, sent: bool)
    ensures
        sent ==> success_told_on(Some(forward), sent) == Some(forward.confirm),
        !sent ==> success_told_on(Some(forward), sent) is None,
        success_told_on(None, sent) is None,
{
}

/// A command is decided for the client that logged in, on the server that it named:
/// by its user name, its key and the rules that are in force for it.
pub proof fn a_session_decides_for_its_own_client(
    session: SessionModel,
    stored: Map<Seq<char>, ClientModel>,
    in_force: ClientModel,
    command: Seq<char>,
    words: Option<Seq<Seq<char>>>,
)
    requires
        session.client is Some,
        ({
            ||| session.rules == Some(in_force)
            ||| session.rules is None && stored.contains_pair(session.client->0.pk, in_force)
        }),
    ensures
        session_decision(session, stored, command, words) == client_decision(
            in_force,
            session.client->0.pk,
            session.target.name_in_rules(),
            session.client->0.user,
            command,
            words,
        ),
{
}

/// What becomes of a fetch or a push, as git sends it, that a client which logged in
/// as `git` wants to run on a server that its rules know: what is stored for the
/// repository between the quotes decides. `Yes` approves the command as it came, on
/// its channel; `No` refuses it; `Ask`, or nothing stored, puts it to the user, with
/// the client's key, the access and the repository.
pub proof fn a_git_call_is_decided_end_to_end(
    state: &mut SessionState,
    channel: u32,
    data: &[u8],
    rules: Rules,
    step: ExecStep,
    in_force: ClientModel,
    path: Seq<char>,
)
    requires
        call_ensures(SessionState::exec_request, (state, channel, data, &rules), step),
        old(state)@.client is Some,
        old(state)@.client->0.user == "git"@,
        ({
            ||| old(state)@.rules == Some(in_force)
            ||| old(state)@.rules is None && rules@.contains_pair(
                old(state)@.client->0.pk,
                in_force,
            )
        }),
        in_force.servers.contains_key(old(state)@.target.name_in_rules()),
        !path.contains('\''),
    ensures
        ({
            let text = decode_utf8(data@);
            let pk = old(state)@.client->0.pk;
            let paths = in_force.servers[old(state)@.target.name_in_rules()];
            let listed = paths.contains_key(path);
            let read = paths[path].read;
            let write = paths[path].write;
            &&& text == "git-upload-pack"@ + seq![' ', '\''] + path + seq!['\''] ==> {
                &&& listed && read is Yes ==> (step matches ExecStep::Approve(a) && a.channel
                    == channel && a.command@ == text)
                &&& listed && read is No ==> (step matches ExecStep::Refuse(e) && e@ == "git: "@
                    + "read not allowed"@)
                &&& !listed || read is Ask ==> {
                    &&& step matches ExecStep::Ask(p)
                    &&& p.channel == channel
                    &&& p.command@ == text
                    &&& p.request.pk_openssh@ == pk
                    &&& p.request.action@ == "read from "@ + path
                }
            }
            &&& text == "git-receive-pack"@ + seq![' ', '\''] + path + seq!['\''] ==> {
                &&& listed && write is Yes ==> (step matches ExecStep::Approve(a) && a.channel
                    == channel && a.command@ == text)
                &&& listed && write is No ==> (step matches ExecStep::Refuse(e) && e@ == "git: "@
                    + "write not allowed"@)
                &&& !listed || write is Ask ==> {
                    &&& step matches ExecStep::Ask(p)
                    &&& p.channel == channel
                    &&& p.command@ == text
                    &&& p.request.pk_openssh@ == pk
                    &&& p.request.action@ == "write to "@ + path
                }
            }
        }),
        final(state)@.rules == Some(in_force),
        final(state)@.client == old(state)@.client,
        final(state)@.target == old(state)@.target,
        final(state)@.pairs == old(state)@.pairs,
{
    let text = decode_utf8(data@);
    lemma_git_call_begins_with_its_command(text, path);
    git_call_is_understood(text, path);
}

proof fn lemma_git_call_begins_with_its_command(data: Seq<char>, path: Seq<char>)
    ensures
        data == "git-upload-pack"@ + seq![' ', '\''] + path + seq!['\'']
            ==> "git-upload-pack"@.is_prefix_of(data) && "git-upload-pack"@ != "git-receive-pack"@,
        data == "git-receive-pack"@ + seq![' ', '\''] + path + seq!['\'']
            ==> "git-receive-pack"@.is_prefix_of(data) && "git-upload-pack"@ != "git-receive-pack"@,
{
    reveal_strlit("git-upload-pack");
    reveal_strlit("git-receive-pack");
    assert("git-upload-pack"@.len() != "git-receive-pack"@.len());
    let upload = "git-upload-pack"@ + seq![' ', '\''] + path + seq!['\''];
    let receive = "git-receive-pack"@ + seq![' ', '\''] + path + seq!['\''];
    assert("git-upload-pack"@ =~= upload.subrange(0, "git-upload-pack"@.len() as int));
    assert("git-receive-pack"@ =~= receive.subrange(0, "git-receive-pack"@.len() as int));
}

/// A command of a client without rules, one on a server that the client's rules do
/// not know, one of another user than `git` and one that is none of git's two are
/// refused, whatever else they hold, and the reason names what was missing.
pub proof fn a_command_outside_the_rules_is_refused(
    state: &mut SessionState,
    channel: u32,
    data: &[u8],
    rules: Rules,
    step: ExecStep,
)
    requires
        call_ensures(SessionState::exec_request, (state, channel, data, &rules), step),
        old(state)@.client is Some,
    ensures
        ({
            let text = decode_utf8(data@);
            let client = old(state)@.client->0;
            let addr = old(state)@.target.name_in_rules();
            let known = match old(state)@.rules {
                Some(held) => held.servers.contains_key(addr),
                None => rules@.contains_key(client.pk) && rules@[client.pk].servers.contains_key(
                    addr,
                ),
            };
            &&& !known ==> (step matches ExecStep::Refuse(e) && e@ == "server "@ + addr
                + " not in rules"@)
            &&& known && (client.user != "git"@ || !("git-upload-pack"@.is_prefix_of(text)
                || "git-receive-pack"@.is_prefix_of(text))) ==> (step matches ExecStep::Refuse(e)
                && e@ == "no plugin matches with user:"@ + client.user + ", data:"@ + text)
        }),
{
}

/// What gets past the proxy, in full: a command is sent to the server exactly where
/// the rules in force know the server, the client logged in as `git`, the command
/// begins with one of git's two and splits into an access and a repository, and the
/// permission that is stored for this access to this repository is a `Yes`, or is an
/// `Ask` or missing and the user consents.
pub proof fn only_granted_git_calls_are_sent(
    session: SessionModel,
    stored: Map<Seq<char>, ClientModel>,
    in_force: ClientModel,
    reply: Reply,
    pairs: Pairs,
    channel: u32,
    command: Seq<char>,
    words: Option<Seq<Seq<char>>>,
)
    requires
        session.client is Some,
        ({
            ||| session.rules == Some(in_force)
            ||| session.rules is None && stored.contains_pair(session.client->0.pk, in_force)
        }),
    ensures
        ({
            let d = session_decision(session, stored, command, words);
            let addr = session.target.name_in_rules();
            let paths = in_force.servers[addr];
            forwarded(final_step(d, reply, channel, command), pairs) is Some <==> {
                &&& in_force.servers.contains_key(addr)
                &&& session.client->0.user == "git"@
                &&& ("git-upload-pack"@.is_prefix_of(command)
                    || "git-receive-pack"@.is_prefix_of(command))
                &&& words matches Some(w)
                &&& w.len() >= 2
                &&& ({
                    ||| w[0] == "git-upload-pack"@ && (if paths.contains_key(w[1]) {
                        paths[w[1]].read is Yes || (paths[w[1]].read is Ask && reply.allowed)
                    } else {
                        reply.allowed
                    })
                    ||| w[0] == "git-receive-pack"@ && (if paths.contains_key(w[1]) {
                        paths[w[1]].write is Yes || (paths[w[1]].write is Ask && reply.allowed)
                    } else {
                        reply.allowed
                    })
                })
            }
        }),
{
    what_gets_past_the_proxy(session, stored, reply, pairs, channel, command, words);
}

/// A session does what the rules in force say of a command: it approves, refuses and
/// asks where they do, for the reason and with the question that they give, and the
/// command stays what it was, byte for byte, on its channel.
pub proof fn a_session_does_what_its_rules_say(
    state: &mut SessionState,
    channel: u32,
    data: &[u8],
    rules: Rules,
    step: ExecStep,
    in_force: ClientRules,
    handler: RequestHandler,
    server_addr: &str,
    user: &str,
    command: &str,
    v: Validation,
)
    requires
        call_ensures(SessionState::exec_request, (state, channel, data, &rules), step),
        old(state)@.client is Some,
        ({
            ||| old(state)@.rules == Some(in_force@)
            ||| old(state)@.rules is None && rules@.contains_pair(
                old(state)@.client->0.pk,
                in_force@,
            )
        }),
        handler.pk_openssh@ == old(state)@.client->0.pk,
        server_addr@ == old(state)@.target.name_in_rules(),
        user@ == old(state)@.client->0.user,
        command@ == decode_utf8(data@),
        call_ensures(
            ClientRules::validate_exec,
            (&in_force, &handler, server_addr, user, command),
            v,
        ),
    ensures
        match v {
            Validation::Done(Ok(())) => {
                &&& step matches ExecStep::Approve(a)
                &&& a.channel == channel
                &&& a.command@ == command@
                &&& encode_utf8(a.command@) == data@
            },
            Validation::Done(Err(e)) => step matches ExecStep::Refuse(f) && f@ == e@,
            Validation::Ask(q) => {
                &&& step matches ExecStep::Ask(p)
                &&& p.channel == channel
                &&& p.command@ == command@
                &&& encode_utf8(p.command@) == data@
                &&& p.request.pk_openssh@ == q.pk_openssh@
                &&& p.request.action@ == q.action@
            },
        },
{
}

} // verus!
