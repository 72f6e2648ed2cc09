//! Who may run what: the stored rules, and what they say of a command.

use crate::prompt::{PermissionRequest, Reply, RequestHandler};
use crate::table::{Duplicate, Table};
use crate::text::{has_prefix, same};
use vstd::prelude::*;

verus! {

/// Whether an access is granted, refused, or put to the user.
#[derive(Clone, Copy, Debug, PartialEq, Eq, Structural)]
pub enum Permission {
    Ask,
    Yes,
    No,
}

impl Default for Permission {
    fn default() -> (p: Self)
        ensures
            p == Permission::Ask,
    {
        Permission::Ask
    }
}

/// The rule for one repository.
#[derive(Clone, Copy, Debug, PartialEq, Eq, Structural)]
pub struct GitAccessRule {
    pub read: Permission,
    pub write: Permission,
}

/// The rule for a repository that none is stored for.
pub open spec fn default_rule() -> GitAccessRule {
    GitAccessRule { read: Permission::Ask, write: Permission::Ask }
}

impl Default for GitAccessRule {
    fn default() -> (r: Self)
        ensures
            r == default_rule(),
    {
        GitAccessRule { read: Permission::Ask, write: Permission::Ask }
    }
}

impl View for GitAccessRule {
    type V = GitAccessRule;

    open spec fn view(&self) -> GitAccessRule {
        *self
    }
}

impl Duplicate for GitAccessRule {
    fn duplicate(&self) -> (r: Self) {
        *self
    }
}

impl GitAccessRule {
    /// Whether reading is granted without a question.
    pub fn read(&self) -> (b: bool)
        ensures
            b == (self.read == Permission::Yes),
    {
        matches!(self.read, Permission::Yes)
    }

    /// Whether writing is granted without a question.
    pub fn write(&self) -> (b: bool)
        ensures
            b == (self.write == Permission::Yes),
    {
        matches!(self.write, Permission::Yes)
    }
}

/// The rules for git on one server, by repository path.
pub struct GitRules {
    pub paths: Table<GitAccessRule>,
}

impl View for GitRules {
    type V = Map<Seq<char>, GitAccessRule>;

    open spec fn view(&self) -> Map<Seq<char>, GitAccessRule> {
        self.paths@
    }
}

impl Duplicate for GitRules {
    fn duplicate(&self) -> (r: Self) {
        GitRules { paths: self.paths.duplicate() }
    }
}

/// The rules for one server.
pub struct ServerRules {
    pub git: GitRules,
}

impl View for ServerRules {
    type V = Map<Seq<char>, GitAccessRule>;

    open spec fn view(&self) -> Map<Seq<char>, GitAccessRule> {
        self.git@
    }
}

impl Duplicate for ServerRules {
    fn duplicate(&self) -> (r: Self) {
        ServerRules { git: self.git.duplicate() }
    }
}

/// The rules for one client, by server address.
pub struct ClientRules {
    pub name: Option<String>,
    pub servers: Table<ServerRules>,
}

/// What the rules for one client say: a name for the client, and for each
/// server the rules for git there.
#[verifier::ext_equal]
pub struct ClientModel {
    pub name: Option<Seq<char>>,
    pub servers: Map<Seq<char>, Map<Seq<char>, GitAccessRule>>,
}

/// The rules for a client that none are stored for.
pub open spec fn no_rules() -> ClientModel {
    ClientModel { name: None, servers: Map::empty() }
}

impl View for ClientRules {
    type V = ClientModel;

    open spec fn view(&self) -> ClientModel {
        ClientModel {
            name: match self.name {
                Some(n) => Some(n@),
                None => None,
            },
            servers: self.servers@,
        }
    }
}

impl Duplicate for ClientRules {
    fn duplicate(&self) -> (r: Self) {
        ClientRules {
            name: match &self.name {
                Some(n) => Some(n.clone()),
                None => None,
            },
            servers: self.servers.duplicate(),
        }
    }
}

impl Default for ClientRules {
    fn default() -> (r: Self)
        ensures
            r@ == no_rules(),
    {
        ClientRules { name: None, servers: Table::new() }
    }
}

/// The stored rules, by the client's key in OpenSSH form.
pub type Rules = Table<ClientRules>;

/// The rules that `rules` hold for the client with key `pk`.
pub open spec fn rules_of(rules: Map<Seq<char>, ClientModel>, pk: Seq<char>) -> ClientModel {
    if rules.contains_key(pk) {
        rules[pk]
    } else {
        no_rules()
    }
}

/// A copy of the rules for the client with key `pk`.
pub fn rules_for_client(rules: &Rules, pk: &str) -> (r: ClientRules)
    ensures
        r@ == rules_of(rules@, pk@),
{
    match rules.get(pk) {
        Some(r) => r.duplicate(),
        None => ClientRules::default(),
    }
}

/// What is to become of a command.
pub enum Decision {
    Allow,
    /// Refused, with the reason.
    Deny(Seq<char>),
    /// Put to the user: the key of the client, and the action.
    Ask(Seq<char>, Seq<char>),
}

/// What validation of a command comes to.
pub enum Validation {
    /// The command is approved, or refused with a reason.
    Done(Result<(), String>),
    /// The user decides.
    Ask(PermissionRequest),
}

/// What an approval, or a refusal with its reason, decides.
pub open spec fn decided(r: Result<(), String>) -> Decision {
    match r {
        Ok(()) => Decision::Allow,
        Err(e) => Decision::Deny(e@),
    }
}

impl View for Validation {
    type V = Decision;

    open spec fn view(&self) -> Decision {
        match *self {
            Validation::Done(r) => decided(r),
            Validation::Ask(q) => Decision::Ask(q.pk_openssh@, q.action@),
        }
    }
}

/// The words of a split command line.
pub open spec fn words_view(words: Option<Vec<String>>) -> Option<Seq<Seq<char>>> {
    match words {
        Some(w) => Some(w@.map_values(|s: String| s@)),
        None => None,
    }
}

/// The words into which `shlex::split` splits a command line.
pub uninterp spec fn shlex_words(data: Seq<char>) -> Option<Seq<Seq<char>>>;

/// A character that stands for itself outside quotes.
pub open spec fn plain_char(c: char) -> bool {
    c != ' ' && c != '\t' && c != '\n' && c != '\'' && c != '"' && c != '\\' && c != '#'
}

/// Whether `data` is `command`, a space, and `path` in single quotes, where
/// neither holds a character that ends it early. Git sends its commands so.
pub open spec fn quoted_call(data: Seq<char>, command: Seq<char>, path: Seq<char>) -> bool {
    &&& data == command + seq![' ', '\''] + path + seq!['\'']
    &&& command.len() > 0
    &&& forall|i: int| 0 <= i < command.len() ==> plain_char(#[trigger] command[i])
    &&& !path.contains('\'')
}

/// Calls `shlex::split`. The result is a function of the text. A word of
/// plain characters followed by a word in single quotes splits into these two,
/// without the quotes.
#[verifier::external_body]
fn split_words(data: &str) -> (words: Option<Vec<String>>)
    ensures
        words_view(words) == shlex_words(data@),
        forall|command: Seq<char>, path: Seq<char>| #[trigger]
            quoted_call(data@, command, path) ==> words_view(words) == Some(seq![command, path]),
{
    shlex::split(data)
}

/// What `permission` decides of an access: `refusal` is the reason where it
/// refuses, `action` what the user is asked.
pub open spec fn permission_decision(
    permission: Permission,
    pk: Seq<char>,
    refusal: Seq<char>,
    action: Seq<char>,
) -> Decision {
    match permission {
        Permission::Yes => Decision::Allow,
        Permission::No => Decision::Deny(refusal),
        Permission::Ask => Decision::Ask(pk, action),
    }
}

/// The rule that `paths` hold for a repository.
pub open spec fn rule_of(paths: Map<Seq<char>, GitAccessRule>, path: Seq<char>) -> GitAccessRule {
    if paths.contains_key(path) {
        paths[path]
    } else {
        default_rule()
    }
}

/// What `paths` decide of a command that was split into `words`: the first
/// names the access, the second the repository.
pub open spec fn git_decision(
    paths: Map<Seq<char>, GitAccessRule>,
    pk: Seq<char>,
    words: Option<Seq<Seq<char>>>,
) -> Decision {
    match words {
        None => Decision::Deny("parsing command"@),
        Some(w) => if w.len() == 0 {
            Decision::Deny("missing arg0"@)
        } else if w.len() == 1 {
            Decision::Deny("missing arg1"@)
        } else if w[0] == "git-upload-pack"@ {
            permission_decision(
                rule_of(paths, w[1]).read,
                pk,
                "read not allowed"@,
                "read from "@ + w[1],
            )
        } else if w[0] == "git-receive-pack"@ {
            permission_decision(
                rule_of(paths, w[1]).write,
                pk,
                "write not allowed"@,
                "write to "@ + w[1],
            )
        } else {
            Decision::Deny("invalid command "@ + w[0])
        },
    }
}

/// Whether git's rules are in charge of a command.
pub open spec fn is_git(user: Seq<char>, data: Seq<char>) -> bool {
    user == "git"@ && ("git-upload-pack"@.is_prefix_of(data)
        || "git-receive-pack"@.is_prefix_of(data))
}

/// What the user's answer decides of a git command.
pub open spec fn git_answer(reply: Reply) -> Decision {
    if reply.allowed {
        Decision::Allow
    } else {
        Decision::Deny("interactively denied"@)
    }
}

fn by_permission(permission: Permission, handler: &RequestHandler, refusal: &str, action: String) -> (v:
    Validation)
    ensures
        v@ == permission_decision(permission, handler.pk_openssh@, refusal@, action@),
{
    match permission {
        Permission::Yes => Validation::Done(Ok(())),
        Permission::No => Validation::Done(Err(refusal.to_owned())),
        Permission::Ask => Validation::Ask(handler.request(action)),
    }
}

impl GitRules {
    /// Whether git's rules are in charge of a command.
    pub fn matches_exec(user: &str, data: &str) -> (b: bool)
        ensures
            b == is_git(user@, data@),
    {
        same(user, "git") && (has_prefix(data, "git-upload-pack") || has_prefix(
            data,
            "git-receive-pack",
        ))
    }

    /// The rule for a repository.
    fn rule_for(&self, path: &str) -> (r: GitAccessRule)
        ensures
            r == rule_of(self@, path@),
            self.paths@.contains_key(path@) ==> r == self.paths@[path@],
            !self.paths@.contains_key(path@) ==> r.read == Permission::Ask && r.write
                == Permission::Ask,
    {
        match self.paths.get(path) {
            Some(r) => *r,
            None => GitAccessRule::default(),
        }
    }

    /// What these rules decide of a command that was split into `words`.
    pub fn validate_words(&self, handler: &RequestHandler, words: &Option<Vec<String>>) -> (v:
        Validation)
        ensures
            v@ == git_decision(self@, handler.pk_openssh@, words_view(*words)),
    {
        let args = match words {
            Some(w) => w,
            None => return Validation::Done(Err("parsing command".to_owned())),
        };
        if args.len() == 0 {
            return Validation::Done(Err("missing arg0".to_owned()));
        }
        if args.len() == 1 {
            return Validation::Done(Err("missing arg1".to_owned()));
        }
        let arg0 = args[0].as_str();
        let arg1 = args[1].as_str();
        let access_rule = self.rule_for(arg1);
        if same(arg0, "git-upload-pack") {
            by_permission(
                access_rule.read,
                handler,
                "read not allowed",
                "read from ".to_owned().concat(arg1),
            )
        } else if same(arg0, "git-receive-pack") {
            by_permission(
                access_rule.write,
                handler,
                "write not allowed",
                "write to ".to_owned().concat(arg1),
            )
        } else {
            Validation::Done(Err("invalid command ".to_owned().concat(arg0)))
        }
    }

    /// What these rules decide of a command. A command as git sends it is
    /// decided by the repository that it quotes.
    pub fn validate_exec(&self, handler: &RequestHandler, _user: &str, data: &str) -> (v: Validation)
        ensures
            v@ == git_decision(self@, handler.pk_openssh@, shlex_words(data@)),
            forall|command: Seq<char>, path: Seq<char>| #[trigger]
                quoted_call(data@, command, path) ==> v@ == git_decision(
                    self@,
                    handler.pk_openssh@,
                    Some(seq![command, path]),
                ),
    {
        let words = split_words(data);
        self.validate_words(handler, &words)
    }

    /// What the user's answer decides of a command that was put to the user.
    pub fn conclude(reply: Reply) -> (r: Result<(), String>)
        ensures
            decided(r) == git_answer(reply),
    {
        if reply.allowed {
            Ok(())
        } else {
            Err("interactively denied".to_owned())
        }
    }
}

/// A decision of git's rules, with its reason marked as theirs.
pub open spec fn under_git(d: Decision) -> Decision {
    match d {
        Decision::Deny(e) => Decision::Deny("git: "@ + e),
        other => other,
    }
}

/// What a client's rules decide of a command that was split into `words`.
pub open spec fn client_decision(
    client: ClientModel,
    pk: Seq<char>,
    server_addr: Seq<char>,
    user: Seq<char>,
    data: Seq<char>,
    words: Option<Seq<Seq<char>>>,
) -> Decision {
    if !client.servers.contains_key(server_addr) {
        Decision::Deny("server "@ + server_addr + " not in rules"@)
    } else if is_git(user, data) {
        under_git(git_decision(client.servers[server_addr], pk, words))
    } else {
        Decision::Deny("no plugin matches with user:"@ + user + ", data:"@ + data)
    }
}

/// What the user's answer decides of a command.
pub open spec fn client_answer(reply: Reply) -> Decision {
    under_git(git_answer(reply))
}

fn blame_git(r: Result<(), String>) -> (out: Result<(), String>)
    ensures
        decided(out) == under_git(decided(r)),
{
    match r {
        Ok(()) => Ok(()),
        Err(e) => Err("git: ".to_owned().concat(e.as_str())),
    }
}

fn blame_git_for(v: Validation) -> (out: Validation)
    ensures
        out@ == under_git(v@),
{
    match v {
        Validation::Done(r) => Validation::Done(blame_git(r)),
        Validation::Ask(q) => Validation::Ask(q),
    }
}

impl ClientRules {
    /// The git rules in charge of a command, or why there are none.
    fn git_rules_for(&self, server_addr: &str, user: &str, data: &str) -> (r: Result<
        &GitRules,
        String,
    >)
        ensures
            match r {
                Ok(g) => self@.servers.contains_key(server_addr@) && is_git(user@, data@) && g@
                    == self@.servers[server_addr@],
                Err(e) => forall|pk: Seq<char>, words: Option<Seq<Seq<char>>>| #[trigger]
                    client_decision(self@, pk, server_addr@, user@, data@, words) == Decision::Deny(e@),
            },
    {
        let server_rules = match self.servers.get(server_addr) {
            Some(s) => s,
            None => return Err("server ".to_owned().concat(server_addr).concat(" not in rules")),
        };
        if GitRules::matches_exec(user, data) {
            return Ok(&server_rules.git);
        }
        Err("no plugin matches with user:".to_owned().concat(user).concat(", data:").concat(data))
    }

    /// What these rules decide of a command that was split into `words`.
    pub fn validate_words(
        &self,
        handler: &RequestHandler,
        server_addr: &str,
        user: &str,
        data: &str,
        words: &Option<Vec<String>>,
    ) -> (v: Validation)
        ensures
            v@ == client_decision(
                self@,
                handler.pk_openssh@,
                server_addr@,
                user@,
                data@,
                words_view(*words),
            ),
    {
        match self.git_rules_for(server_addr, user, data) {
            Ok(git) => blame_git_for(git.validate_words(handler, words)),
            Err(e) => Validation::Done(Err(e)),
        }
    }

    /// What these rules decide of a command that `user` wants to run on a
    /// server. A command as git sends it is decided by the repository that it
    /// quotes.
    pub fn validate_exec(
        &self,
        handler: &RequestHandler,
        server_addr: &str,
        user: &str,
        data: &str,
    ) -> (v: Validation)
        ensures
            v@ == client_decision(
                self@,
                handler.pk_openssh@,
                server_addr@,
                user@,
                data@,
                shlex_words(data@),
            ),
            forall|command: Seq<char>, path: Seq<char>| #[trigger]
                quoted_call(data@, command, path) ==> v@ == client_decision(
                    self@,
                    handler.pk_openssh@,
                    server_addr@,
                    user@,
                    data@,
                    Some(seq![command, path]),
                ),
    {
        match self.git_rules_for(server_addr, user, data) {
            Ok(git) => blame_git_for(git.validate_exec(handler, user, data)),
            Err(e) => Validation::Done(Err(e)),
        }
    }

    /// What the user's answer decides of a command that was put to the user.
    pub fn conclude(reply: Reply) -> (r: Result<(), String>)
        ensures
            decided(r) == client_answer(reply),
    {
        blame_git(GitRules::conclude(reply))
    }
}

/// The access that a command's first word asks for is `permission`'s to decide.
pub open spec fn in_charge(rule: GitAccessRule, command: Seq<char>, permission: Permission) -> bool {
    ||| command == "git-upload-pack"@ && permission == rule.read
    ||| command == "git-receive-pack"@ && permission == rule.write
}

proof fn lemma_commands_differ()
    ensures
        "git-upload-pack"@ != "git-receive-pack"@,
{
    reveal_strlit("git-upload-pack");
    reveal_strlit("git-receive-pack");
    assert("git-upload-pack"@.len() != "git-receive-pack"@.len());
}

/// A command is approved without a question exactly where the client's rules
/// for that server hold a `Yes` for the access and the repository that the
/// command names.
pub proof fn approval_needs_a_stored_yes(
    client: ClientModel,
    pk: Seq<char>,
    server_addr: Seq<char>,
    user: Seq<char>,
    data: Seq<char>,
    words: Option<Seq<Seq<char>>>,
)
    ensures
        client_decision(client, pk, server_addr, user, data, words) is Allow <==> {
            &&& client.servers.contains_key(server_addr)
            &&& is_git(user, data)
            &&& words matches Some(w)
            &&& w.len() >= 2
            &&& client.servers[server_addr].contains_key(w[1])
            &&& in_charge(client.servers[server_addr][w[1]], w[0], Permission::Yes)
        },
{
    lemma_commands_differ();
}

/// The user is asked exactly where the access and the repository that the
/// command names are stored as `Ask`, or are not stored at all, and then the
/// question names the client, the access and the repository.
pub proof fn question_names_client_and_repository(
    client: ClientModel,
    pk: Seq<char>,
    server_addr: Seq<char>,
    user: Seq<char>,
    data: Seq<char>,
    words: Option<Seq<Seq<char>>>,
)
    ensures
        client_decision(client, pk, server_addr, user, data, words) is Ask <==> {
            &&& client.servers.contains_key(server_addr)
            &&& is_git(user, data)
            &&& words matches Some(w)
            &&& w.len() >= 2
            &&& in_charge(rule_of(client.servers[server_addr], w[1]), w[0], Permission::Ask)
        },
        client_decision(client, pk, server_addr, user, data, words) matches Decision::Ask(who, action)
            ==> {
            &&& who == pk
            &&& action == (if words->0[0] == "git-upload-pack"@ {
                "read from "@
            } else {
                "write to "@
            }) + words->0[1]
        },
{
    lemma_commands_differ();
}

/// A repository that is not in the rules is neither granted nor refused: the
/// user is asked.
pub proof fn unlisted_repository_is_asked(
    client: ClientModel,
    pk: Seq<char>,
    server_addr: Seq<char>,
    user: Seq<char>,
    data: Seq<char>,
    command: Seq<char>,
    path: Seq<char>,
    rest: Seq<Seq<char>>,
)
    requires
        client.servers.contains_key(server_addr),
        is_git(user, data),
        command == "git-upload-pack"@ || command == "git-receive-pack"@,
        !client.servers[server_addr].contains_key(path),
    ensures
        client_decision(
            client,
            pk,
            server_addr,
            user,
            data,
            Some(seq![command, path] + rest),
        ) is Ask,
{
    assert((seq![command, path] + rest)[0] == command);
    assert((seq![command, path] + rest)[1] == path);
}

/// A client whose key is not in the rules is refused on every server,
/// whatever it wants to run.
pub proof fn unknown_client_is_refused(
    rules: Map<Seq<char>, ClientModel>,
    pk: Seq<char>,
    server_addr: Seq<char>,
    user: Seq<char>,
    data: Seq<char>,
    words: Option<Seq<Seq<char>>>,
)
    requires
        !rules.contains_key(pk),
    ensures
        client_decision(rules_of(rules, pk), pk, server_addr, user, data, words) == Decision::Deny(
            "server "@ + server_addr + " not in rules"@,
        ),
{
}

/// A command is decided by one permission alone: that of its client, on its
/// server, for its repository and its access. Rules that agree there decide
/// alike, whatever they hold elsewhere.
pub proof fn one_permission_decides(
    rules1: Map<Seq<char>, ClientModel>,
    rules2: Map<Seq<char>, ClientModel>,
    pk: Seq<char>,
    server_addr: Seq<char>,
    user: Seq<char>,
    data: Seq<char>,
    command: Seq<char>,
    path: Seq<char>,
    rest: Seq<Seq<char>>,
)
    requires
        rules_of(rules1, pk).servers.contains_key(server_addr),
        rules_of(rules2, pk).servers.contains_key(server_addr),
        command == "git-upload-pack"@ ==> rule_of(
            rules_of(rules1, pk).servers[server_addr],
            path,
        ).read == rule_of(rules_of(rules2, pk).servers[server_addr], path).read,
        command == "git-receive-pack"@ ==> rule_of(
            rules_of(rules1, pk).servers[server_addr],
            path,
        ).write == rule_of(rules_of(rules2, pk).servers[server_addr], path).write,
    ensures
        client_decision(
            rules_of(rules1, pk),
            pk,
            server_addr,
            user,
            data,
            Some(seq![command, path] + rest),
        ) == client_decision(
            rules_of(rules2, pk),
            pk,
            server_addr,
            user,
            data,
            Some(seq![command, path] + rest),
        ),
{
    assert((seq![command, path] + rest)[0] == command);
    assert((seq![command, path] + rest)[1] == path);
}

/// What git sends for a fetch is decided by the read permission of the
/// repository that it quotes, what it sends for a push by the write permission.
pub proof fn git_call_is_decided_by_its_repository(
    client: ClientModel,
    pk: Seq<char>,
    server_addr: Seq<char>,
    data: Seq<char>,
    path: Seq<char>,
)
    requires
        client.servers.contains_key(server_addr),
    ensures
        quoted_call(data, "git-upload-pack"@, path) ==> client_decision(
            client,
            pk,
            server_addr,
            "git"@,
            data,
            Some(seq!["git-upload-pack"@, path]),
        ) == permission_decision(
            rule_of(client.servers[server_addr], path).read,
            pk,
            "git: "@ + "read not allowed"@,
            "read from "@ + path,
        ),
        quoted_call(data, "git-receive-pack"@, path) ==> client_decision(
            client,
            pk,
            server_addr,
            "git"@,
            data,
            Some(seq!["git-receive-pack"@, path]),
        ) == permission_decision(
            rule_of(client.servers[server_addr], path).write,
            pk,
            "git: "@ + "write not allowed"@,
            "write to "@ + path,
        ),
{
    lemma_commands_differ();
    if quoted_call(data, "git-upload-pack"@, path) {
        assert("git-upload-pack"@ =~= data.subrange(0, "git-upload-pack"@.len() as int));
    }
    if quoted_call(data, "git-receive-pack"@, path) {
        assert("git-receive-pack"@ =~= data.subrange(0, "git-receive-pack"@.len() as int));
    }
}

/// The answer to a question decides by its consent alone: the permission that
/// it asks to keep changes nothing.
pub proof fn only_consent_counts(reply1: Reply, reply2: Reply)
    ensures
        client_answer(reply1) is Allow <==> reply1.allowed,
        reply1.allowed == reply2.allowed ==> client_answer(reply1) == client_answer(reply2),
{
}

/// Rules are read as they were written: a rule stands for its own permissions, and
/// the rules for a repository, a server and a client are found under the names they
/// were stored under.
pub proof fn rules_are_read_as_written(
    rule: GitAccessRule,
    git: GitRules,
    server: ServerRules,
    client: ClientRules,
)
    ensures
        rule@.read == rule.read,
        rule@.write == rule.write,
        git@ == git.paths@,
        server@ == server.git.paths@,
        client@.servers == client.servers@,
        match client.name {
            Some(n) => client@.name == Some(n@),
            None => client@.name is None,
        },
{
}

/// The rule that is applied to a repository is the one that is stored for it, with
/// both its permissions unchanged; where none is stored, both accesses are put to
/// the user.
pub proof fn stored_rule_is_applied_unchanged(
    paths: Map<Seq<char>, GitAccessRule>,
    path: Seq<char>,
)
    ensures
        paths.contains_key(path) ==> rule_of(paths, path).read == paths[path].read && rule_of(
            paths,
            path,
        ).write == paths[path].write,
        !paths.contains_key(path) ==> rule_of(paths, path).read == Permission::Ask && rule_of(
            paths,
            path,
        ).write == Permission::Ask,
{
}

/// The rules that a client gets are those that are stored under its key, whatever
/// is stored under other keys. Where none are, it gets none, and no name.
pub proof fn client_gets_the_rules_under_its_key(rules: Rules, pk: &str, r: ClientRules)
    requires
        call_ensures(rules_for_client, (&rules, pk), r),
    ensures
        rules@.contains_key(pk@) ==> r.servers@ == rules@[pk@].servers && r@.name
            == rules@[pk@].name,
        !rules@.contains_key(pk@) ==> r.name is None && (forall|addr: Seq<char>|
            !#[trigger] r.servers@.contains_key(addr)),
{
}

/// What a new rule grants: nothing without a question. What a new set of rules for
/// a client knows: no server, and no name.
pub proof fn new_rules_grant_nothing(p: Permission, rule: GitAccessRule, client: ClientRules)
    requires
        call_ensures(Permission::default, (), p),
        call_ensures(GitAccessRule::default, (), rule),
        call_ensures(ClientRules::default, (), client),
    ensures
        p is Ask,
        rule.read is Ask,
        rule.write is Ask,
        client.name is None,
        forall|addr: Seq<char>| !#[trigger] client.servers@.contains_key(addr),
{
}

/// An access is granted without a question exactly where its own permission is a
/// `Yes`.
pub proof fn only_yes_grants(rule: GitAccessRule, read: bool, write: bool)
    requires
        call_ensures(GitAccessRule::read, (&rule,), read),
        call_ensures(GitAccessRule::write, (&rule,), write),
    ensures
        read <==> rule.read is Yes,
        write <==> rule.write is Yes,
{
}

/// Git's rules are in charge of a command exactly where the user is `git` and the
/// command begins with one of git's two commands, whatever follows it.
pub proof fn git_commands_are_told_by_user_and_beginning(user: &str, data: &str, b: bool)
    requires
        call_ensures(GitRules::matches_exec, (user, data), b),
    ensures
        b <==> {
            &&& user@ == seq!['g', 'i', 't']
            &&& {
                ||| data@.len() >= 15 && data@.take(15) == "git-upload-pack"@
                ||| data@.len() >= 16 && data@.take(16) == "git-receive-pack"@
            }
        },
{
    reveal_strlit("git");
    reveal_strlit("git-upload-pack");
    reveal_strlit("git-receive-pack");
    assert("git"@ =~= seq!['g', 'i', 't']);
}

/// What a validation comes to: an approval stands for an approval, a refusal for
/// its reason, and a question for its client and its action.
pub proof fn validations_say_what_they_hold(v: Validation)
    ensures
        match v {
            Validation::Done(Ok(())) => v@ is Allow && decided(Ok(())) is Allow,
            Validation::Done(Err(e)) => v@ == Decision::Deny(e@) && decided(Err(e))
                == Decision::Deny(e@),
            Validation::Ask(q) => v@ == Decision::Ask(q.pk_openssh@, q.action@),
        },
{
}

/// The words of a split command line are its strings, each in its place.
pub proof fn words_keep_their_places(words: Vec<String>, i: int)
    ensures
        words_view(None) is None,
        words_view(Some(words)) is Some,
        words_view(Some(words))->0.len() == words@.len(),
        0 <= i < words@.len() ==> words_view(Some(words))->0[i] == words@[i]@,
{
}

/// Where a command line cannot be split, or names no access or no repository, or an
/// access that git does not know, git's rules refuse it and say which; the user is
/// not asked.
pub proof fn malformed_git_command_is_refused(
    rules: GitRules,
    handler: RequestHandler,
    words: Option<Vec<String>>,
    v: Validation,
)
    requires
        call_ensures(GitRules::validate_words, (&rules, &handler, &words), v),
    ensures
        words is None ==> (v matches Validation::Done(Err(e)) && e@ == "parsing command"@),
        words matches Some(w) ==> {
            &&& w@.len() == 0 ==> (v matches Validation::Done(Err(e)) && e@ == "missing arg0"@)
            &&& w@.len() == 1 ==> (v matches Validation::Done(Err(e)) && e@ == "missing arg1"@)
            &&& w@.len() >= 2 && w@[0]@ != "git-upload-pack"@ && w@[0]@ != "git-receive-pack"@ ==> (
            v matches Validation::Done(Err(e)) && e@ == "invalid command "@ + w@[0]@)
        },
{
}

/// What git's rules say of a fetch is what is stored as the read permission of the
/// repository, and of a push what is stored as the write permission: `Yes` approves
/// it, `No` refuses it, and `Ask` puts it to the user, with the key of the client,
/// the access and the repository. A repository that is not stored is put to the
/// user. Words behind the repository change nothing.
pub proof fn stored_permission_decides(
    rules: GitRules,
    handler: RequestHandler,
    words: Vec<String>,
    v: Validation,
)
    requires
        call_ensures(GitRules::validate_words, (&rules, &handler, &Some(words)), v),
        words@.len() >= 2,
    ensures
        ({
            let path = words@[1]@;
            let stored = rules.paths@;
            let read = stored[path].read;
            let write = stored[path].write;
            &&& words@[0]@ == "git-upload-pack"@ ==> {
                &&& stored.contains_key(path) && read is Yes ==> (v matches Validation::Done(Ok(_)))
                &&& stored.contains_key(path) && read is No ==> (v matches Validation::Done(Err(e))
                    && e@ == "read not allowed"@)
                &&& !stored.contains_key(path) || read is Ask ==> (v matches Validation::Ask(q)
                    && q.pk_openssh@ == handler.pk_openssh@ && q.action@ == "read from "@ + path)
            }
            &&& words@[0]@ == "git-receive-pack"@ ==> {
                &&& stored.contains_key(path) && write is Yes ==> (v matches Validation::Done(Ok(_)))
                &&& stored.contains_key(path) && write is No ==> (v matches Validation::Done(Err(e))
                    && e@ == "write not allowed"@)
                &&& !stored.contains_key(path) || write is Ask ==> (v matches Validation::Ask(q)
                    && q.pk_openssh@ == handler.pk_openssh@ && q.action@ == "write to "@ + path)
            }
        }),
{
    lemma_commands_differ();
}

/// What git sends, one of its two commands and a repository in single quotes,
/// splits into these two.
pub proof fn git_call_is_understood(data: Seq<char>, path: Seq<char>)
    requires
        !path.contains('\''),
    ensures
        data == "git-upload-pack"@ + seq![' ', '\''] + path + seq!['\''] ==> quoted_call(
            data,
            "git-upload-pack"@,
            path,
        ),
        data == "git-receive-pack"@ + seq![' ', '\''] + path + seq!['\''] ==> quoted_call(
            data,
            "git-receive-pack"@,
            path,
        ),
{
    reveal_strlit("git-upload-pack");
    reveal_strlit("git-receive-pack");
}

/// A fetch and a push as git sends them go by the permissions that are stored for
/// the repository between the quotes, character for character, whoever the user is
/// said to be. Where none are stored, the user is asked.
pub proof fn git_call_goes_by_the_stored_rule(
    rules: GitRules,
    handler: RequestHandler,
    user: &str,
    data: &str,
    path: Seq<char>,
    v: Validation,
)
    requires
        call_ensures(GitRules::validate_exec, (&rules, &handler, user, data), v),
        !path.contains('\''),
    ensures
        ({
            let listed = rules.paths@.contains_key(path);
            let stored = rules.paths@[path];
            &&& data@ == "git-upload-pack"@ + seq![' ', '\''] + path + seq!['\''] ==> {
                &&& listed && stored.read is Yes ==> (v matches Validation::Done(Ok(_)))
                &&& listed && stored.read is No ==> (v matches Validation::Done(Err(e)) && e@
                    == "read not allowed"@)
                &&& !listed || stored.read is Ask ==> (v matches Validation::Ask(q) && q.pk_openssh@
                    == handler.pk_openssh@ && q.action@ == "read from "@ + path)
            }
            &&& data@ == "git-receive-pack"@ + seq![' ', '\''] + path + seq!['\''] ==> {
                &&& listed && stored.write is Yes ==> (v matches Validation::Done(Ok(_)))
                &&& listed && stored.write is No ==> (v matches Validation::Done(Err(e)) && e@
                    == "write not allowed"@)
                &&& !listed || stored.write is Ask ==> (v matches Validation::Ask(q) && q.pk_openssh@
                    == handler.pk_openssh@ && q.action@ == "write to "@ + path)
            }
        }),
{
    lemma_commands_differ();
    git_call_is_understood(data@, path);
}

/// The user's consent approves a command and nothing else does; a denial is the
/// reason that is given. What the answer asks to keep makes no difference.
pub proof fn consent_approves(reply: Reply, git: Result<(), String>, client: Result<(), String>)
    requires
        call_ensures(GitRules::conclude, (reply,), git),
        call_ensures(ClientRules::conclude, (reply,), client),
    ensures
        reply.allowed ==> git is Ok && client is Ok,
        !reply.allowed ==> {
            &&& git matches Err(e)
            &&& e@ == "interactively denied"@
            &&& client matches Err(c)
            &&& c@ == "git: "@ + "interactively denied"@
        },
{
}

/// On a server that a client's rules do not know, every command is refused, and so
/// is every command of another user than `git` and every command but git's two. The
/// reason names the server, or the user and the command.
pub proof fn what_no_rule_covers_is_refused(
    rules: ClientRules,
    handler: RequestHandler,
    server_addr: &str,
    user: &str,
    data: &str,
    words: Option<Vec<String>>,
    v: Validation,
    w: Validation,
)
    requires
        call_ensures(ClientRules::validate_exec, (&rules, &handler, server_addr, user, data), v),
        call_ensures(
            ClientRules::validate_words,
            (&rules, &handler, server_addr, user, data, &words),
            w,
        ),
    ensures
        !rules.servers@.contains_key(server_addr@) ==> {
            &&& v matches Validation::Done(Err(e))
            &&& e@ == "server "@ + server_addr@ + " not in rules"@
            &&& w matches Validation::Done(Err(f))
            &&& f@ == e@
        },
        rules.servers@.contains_key(server_addr@) && (user@ != "git"@ || !(
        "git-upload-pack"@.is_prefix_of(data@) || "git-receive-pack"@.is_prefix_of(data@))) ==> {
            &&& v matches Validation::Done(Err(e))
            &&& e@ == "no plugin matches with user:"@ + user@ + ", data:"@ + data@
            &&& w matches Validation::Done(Err(f))
            &&& f@ == e@
        },
{
}

/// A git command of the user `git`, on a server that the client's rules know, is
/// decided by git's rules for that server and by nothing else: what they approve is
/// approved, what they ask is asked, and what they refuse is refused, with their
/// reason marked as theirs.
pub proof fn git_rules_of_the_server_decide(
    rules: ClientRules,
    git: GitRules,
    handler: RequestHandler,
    server_addr: &str,
    user: &str,
    data: &str,
    words: Option<Vec<String>>,
    theirs: Validation,
    ours: Validation,
)
    requires
        rules.servers@.contains_key(server_addr@),
        rules.servers@[server_addr@] == git.paths@,
        user@ == "git"@,
        "git-upload-pack"@.is_prefix_of(data@) || "git-receive-pack"@.is_prefix_of(data@),
        ({
            ||| call_ensures(GitRules::validate_exec, (&git, &handler, user, data), theirs)
                && call_ensures(
                ClientRules::validate_exec,
                (&rules, &handler, server_addr, user, data),
                ours,
            )
            ||| call_ensures(GitRules::validate_words, (&git, &handler, &words), theirs)
                && call_ensures(
                ClientRules::validate_words,
                (&rules, &handler, server_addr, user, data, &words),
                ours,
            )
        }),
    ensures
        match theirs {
            Validation::Done(Ok(())) => ours matches Validation::Done(Ok(_)),
            Validation::Done(Err(e)) => ours matches Validation::Done(Err(f)) && f@ == "git: "@
                + e@,
            Validation::Ask(q) => ours matches Validation::Ask(p) && p.pk_openssh@ == q.pk_openssh@
                && p.action@ == q.action@,
        },
{
}

/// What is stored for one repository of one server changes what is decided there
/// and nowhere else.
pub proof fn a_stored_rule_reaches_one_repository(
    client: ClientModel,
    server_addr: Seq<char>,
    path: Seq<char>,
    rule: GitAccessRule,
    pk: Seq<char>,
    other_addr: Seq<char>,
    user: Seq<char>,
    data: Seq<char>,
    words: Option<Seq<Seq<char>>>,
)
    requires
        client.servers.contains_key(server_addr),
    ensures
        ({
            let after = ClientModel {
                name: client.name,
                servers: client.servers.insert(
                    server_addr,
                    client.servers[server_addr].insert(path, rule),
                ),
            };
            other_addr != server_addr || words is None || words->0.len() < 2 || words->0[1] != path
                ==> client_decision(after, pk, other_addr, user, data, words) == client_decision(
                client,
                pk,
                other_addr,
                user,
                data,
                words,
            )
        }),
{
}

/// A command line is decided by the words that it splits into, and by nothing else:
/// the rules say of the line what they say of its words.
pub proof fn a_command_line_is_decided_by_its_words(
    git: GitRules,
    rules: ClientRules,
    handler: RequestHandler,
    server_addr: &str,
    user: &str,
    data: &str,
    words: Option<Vec<String>>,
    git_line: Validation,
    git_words: Validation,
    line: Validation,
    in_words: Validation,
)
    requires
        words_view(words) == shlex_words(data@),
        call_ensures(GitRules::validate_exec, (&git, &handler, user, data), git_line),
        call_ensures(GitRules::validate_words, (&git, &handler, &words), git_words),
        call_ensures(
            ClientRules::validate_exec,
            (&rules, &handler, server_addr, user, data),
            line,
        ),
        call_ensures(
            ClientRules::validate_words,
            (&rules, &handler, server_addr, user, data, &words),
            in_words,
        ),
    ensures
        git_line@ == git_words@,
        line@ == in_words@,
{
}

/// A command line as git sends it reads in one way only: no two commands, and no two
/// repositories, are quoted in one line.
pub proof fn a_quoted_call_reads_in_one_way(
    data: Seq<char>,
    command1: Seq<char>,
    path1: Seq<char>,
    command2: Seq<char>,
    path2: Seq<char>,
)
    requires
        quoted_call(data, command1, path1),
        quoted_call(data, command2, path2),
    ensures
        command1 == command2,
        path1 == path2,
        data == command1 + seq![' ', '\''] + path1 + seq!['\''],
{
    let n1: int = command1.len() as int;
    let n2: int = command2.len() as int;
    let line1 = command1 + seq![' ', '\''] + path1 + seq!['\''];
    let line2 = command2 + seq![' ', '\''] + path2 + seq!['\''];
    assert(line1.len() == n1 + 3 + path1.len());
    assert(line2.len() == n2 + 3 + path2.len());
    assert(line1[n1] == ' ');
    assert(line2[n2] == ' ');
    if n1 < n2 {
        assert(line2[n1] == command2[n1]);
        assert(plain_char(command2[n1]));
    }
    if n2 < n1 {
        assert(line1[n2] == command1[n2]);
        assert(plain_char(command1[n2]));
    }
    assert(command1 =~= line1.take(n1));
    assert(command2 =~= line2.take(n2));
    assert(path1 =~= line1.subrange(n1 + 2, line1.len() - 1));
    assert(path2 =~= line2.subrange(n2 + 2, line2.len() - 1));
}

} // verus!
