//! The command router: the fixed set of commands, the resolution of an
//! invocation name on the free-text surface, the defaulting of omitted
//! optional parameters to the caller, and the dispatch of an invocation to
//! its handler. Every handler failure is rendered as a reply instead of
//! propagating; `dispatch` neither panics nor returns an error.

use vstd::prelude::*;
use vstd::string::StrSliceExecFns;

use crate::errors::BotError;
use crate::guard::check;
use crate::guard::spec_check;
use crate::guard::Decision;
use crate::guard::Scope;
use crate::registry::Registry;
use crate::render::age_reply;
use crate::render::age_text;
use crate::render::created_reply;
use crate::render::created_text;
use crate::render::deleted_reply;
use crate::render::deleted_text;
use crate::render::fault_reply;
use crate::render::fault_text;
use crate::render::found_reply;
use crate::render::found_text;
use crate::render::gid_reply;
use crate::render::gid_text;
use crate::render::missing_reply;
use crate::render::missing_text;
use crate::render::ping_reply;
use crate::render::pong_text;
use crate::text::lemma_word_len;
use crate::text::seq_eq_ci;
use crate::text::str_eq_ci;
use crate::text::word_len;

verus! {

/// A ready identity delivered by the hosting platform: the numeric
/// identifier, the display name, and the account-creation timestamp,
/// already resolved to plain text.
pub struct UserRef {
    pub id: u64,
    pub name: String,
    pub created_at: String,
}

/// The structured invocation surface: one variant per command, carrying
/// its resolved parameters. An omitted optional user parameter is `None`
/// and defaults to the caller.
pub enum Command {
    Age { user: Option<UserRef> },
    Ping { text: Option<String> },
    Gid,
    GetUser,
    AddUser { user: Option<UserRef> },
    RmUser { user: Option<UserRef> },
}

/// One structured command request: who invoked it, in which scope, and
/// which command with which parameters.
pub struct Invocation {
    pub caller: UserRef,
    pub scope: Option<Scope>,
    pub command: Command,
}

/// The command names, one per command, for the free-text surface.
#[derive(Clone, Copy, Debug, PartialEq, Eq, Structural)]
pub enum CommandKind {
    Age,
    Ping,
    Gid,
    GetUser,
    AddUser,
    RmUser,
}

/// The canonical name of each command, identical on both invocation
/// surfaces.
pub open spec fn kind_name(k: CommandKind) -> Seq<char> {
    match k {
        CommandKind::Age => "age"@,
        CommandKind::Ping => "ping"@,
        CommandKind::Gid => "gid"@,
        CommandKind::GetUser => "get_user"@,
        CommandKind::AddUser => "add_user"@,
        CommandKind::RmUser => "rm_user"@,
    }
}

/// The canonical name of a command.
pub fn command_name(k: CommandKind) -> (r: &'static str)
    ensures
        r@ == kind_name(k),
{
    match k {
        CommandKind::Age => "age",
        CommandKind::Ping => "ping",
        CommandKind::Gid => "gid",
        CommandKind::GetUser => "get_user",
        CommandKind::AddUser => "add_user",
        CommandKind::RmUser => "rm_user",
    }
}

/// Which command a free-text name resolves to: the first command whose
/// canonical name matches, ignoring ASCII case.
pub open spec fn spec_resolve(name: Seq<char>) -> Option<CommandKind> {
    if seq_eq_ci(name, "age"@) {
        Some(CommandKind::Age)
    } else if seq_eq_ci(name, "ping"@) {
        Some(CommandKind::Ping)
    } else if seq_eq_ci(name, "gid"@) {
        Some(CommandKind::Gid)
    } else if seq_eq_ci(name, "get_user"@) {
        Some(CommandKind::GetUser)
    } else if seq_eq_ci(name, "add_user"@) {
        Some(CommandKind::AddUser)
    } else if seq_eq_ci(name, "rm_user"@) {
        Some(CommandKind::RmUser)
    } else {
        None
    }
}

/// Resolves a free-text command name, ignoring ASCII case.
pub fn resolve_command(name: &str) -> (r: Option<CommandKind>)
    ensures
        r == spec_resolve(name@),
{
    if str_eq_ci(name, "age") {
        Some(CommandKind::Age)
    } else if str_eq_ci(name, "ping") {
        Some(CommandKind::Ping)
    } else if str_eq_ci(name, "gid") {
        Some(CommandKind::Gid)
    } else if str_eq_ci(name, "get_user") {
        Some(CommandKind::GetUser)
    } else if str_eq_ci(name, "add_user") {
        Some(CommandKind::AddUser)
    } else if str_eq_ci(name, "rm_user") {
        Some(CommandKind::RmUser)
    } else {
        None
    }
}

/// Law: the two invocation surfaces stay in sync: the canonical name of
/// every command resolves, case-insensitively, back to exactly that
/// command.
pub proof fn lemma_name_round_trip(k: CommandKind)
    ensures
        spec_resolve(kind_name(k)) == Some(k),
{
    reveal_strlit("age");
    reveal_strlit("ping");
    reveal_strlit("gid");
    reveal_strlit("get_user");
    reveal_strlit("add_user");
    reveal_strlit("rm_user");
    assert forall|n: Seq<char>| n.len() > 0 implies seq_eq_ci(n, n) by {
        assert(forall|j: int| 0 <= j < n.len() ==> crate::text::char_eq_ci(n[j], n[j]));
    }
    match k {
        CommandKind::Age => {
            assert(seq_eq_ci("age"@, "age"@));
        },
        CommandKind::Ping => {
            assert(seq_eq_ci("ping"@, "ping"@));
        },
        CommandKind::Gid => {
            assert(!crate::text::char_eq_ci("gid"@[0], "age"@[0]));
            assert(!seq_eq_ci("gid"@, "age"@));
            assert(seq_eq_ci("gid"@, "gid"@));
        },
        CommandKind::GetUser => {
            assert(seq_eq_ci("get_user"@, "get_user"@));
        },
        CommandKind::AddUser => {
            assert(!crate::text::char_eq_ci("add_user"@[0], "get_user"@[0]));
            assert(!seq_eq_ci("add_user"@, "get_user"@));
            assert(seq_eq_ci("add_user"@, "add_user"@));
        },
        CommandKind::RmUser => {
            assert(seq_eq_ci("rm_user"@, "rm_user"@));
        },
    }
}

/// Law: command names are unique within the router: distinct commands
/// never share a canonical name, even ignoring ASCII case, so a resolved
/// name is never ambiguous.
pub proof fn lemma_command_names_distinct(k1: CommandKind, k2: CommandKind)
    requires
        k1 != k2,
    ensures
        !seq_eq_ci(kind_name(k1), kind_name(k2)),
{
    reveal_strlit("age");
    reveal_strlit("ping");
    reveal_strlit("gid");
    reveal_strlit("get_user");
    reveal_strlit("add_user");
    reveal_strlit("rm_user");
    assert(!crate::text::char_eq_ci("age"@[0], "gid"@[0]));
    assert(!crate::text::char_eq_ci("gid"@[0], "age"@[0]));
    assert(!crate::text::char_eq_ci("get_user"@[0], "add_user"@[0]));
    assert(!crate::text::char_eq_ci("add_user"@[0], "get_user"@[0]));
}

/// What a line on the prefixed free-text surface resolves to: the line
/// must start with the prefix; the command name runs from the end of the
/// prefix to the first space and is matched ignoring ASCII case.
pub open spec fn spec_parse(line: Seq<char>, prefix: Seq<char>) -> Option<CommandKind> {
    if line.len() < prefix.len() || line.subrange(0, prefix.len() as int) != prefix {
        None
    } else {
        let rest = line.subrange(prefix.len() as int, line.len() as int);
        spec_resolve(rest.subrange(0, word_len(rest) as int))
    }
}

/// Resolves a line of the prefixed free-text surface to a command: the
/// configurable prefix must open the line, and the word after it is the
/// command name, matched ignoring ASCII case.
pub fn parse_prefixed(line: &str, prefix: &str) -> (r: Option<CommandKind>)
    ensures
        r == spec_parse(line@, prefix@),
{
    let p_len = prefix.unicode_len();
    let l_len = line.unicode_len();
    if l_len < p_len {
        return None;
    }
    let mut i: usize = 0;
    while i < p_len
        invariant
            p_len == prefix@.len(),
            l_len == line@.len(),
            p_len <= l_len,
            i <= p_len,
            forall|j: int| 0 <= j < i ==> line@[j] == prefix@[j],
        decreases p_len - i,
    {
        if line.get_char(i) != prefix.get_char(i) {
            proof {
                let sub = line@.subrange(0, p_len as int);
                assert(sub[i as int] == line@[i as int]);
                assert(sub != prefix@) by {
                    if sub == prefix@ {
                        assert(sub[i as int] == prefix@[i as int]);
                    }
                }
            }
            return None;
        }
        i = i + 1;
    }
    let mut end: usize = p_len;
    while end < l_len && line.get_char(end) != ' '
        invariant
            p_len == prefix@.len(),
            l_len == line@.len(),
            p_len <= l_len,
            p_len <= end <= l_len,
            forall|j: int| 0 <= j < p_len ==> line@[j] == prefix@[j],
            forall|j: int| p_len <= j < end ==> line@[j] != ' ',
        decreases l_len - end,
    {
        end = end + 1;
    }
    let name = line.substring_char(p_len, end);
    proof {
        assert(line@.subrange(0, p_len as int) =~= prefix@);
        let rest = line@.subrange(p_len as int, l_len as int);
        assert forall|j: int| 0 <= j < end - p_len implies rest[j] != ' ' by {
            assert(rest[j] == line@[p_len + j]);
        }
        if end < l_len {
            assert(rest[end - p_len] == line@[end as int]);
        }
        lemma_word_len(rest, (end - p_len) as nat);
        assert(name@ =~= rest.subrange(0, word_len(rest) as int));
    }
    resolve_command(name)
}

/// Law: the free-text surface agrees with the structured one: a line made
/// of the prefix followed by a command's canonical name resolves to
/// exactly that command.
pub proof fn lemma_surfaces_agree(k: CommandKind, prefix: Seq<char>)
    ensures
        spec_parse(prefix + kind_name(k), prefix) == Some(k),
{
    reveal_strlit("age");
    reveal_strlit("ping");
    reveal_strlit("gid");
    reveal_strlit("get_user");
    reveal_strlit("add_user");
    reveal_strlit("rm_user");
    let name = kind_name(k);
    let line = prefix + name;
    assert(line.subrange(0, prefix.len() as int) =~= prefix);
    let rest = line.subrange(prefix.len() as int, line.len() as int);
    assert(rest =~= name);
    assert forall|j: int| 0 <= j < name.len() implies name[j] != ' ' by {
        match k {
            CommandKind::Age => {},
            CommandKind::Ping => {},
            CommandKind::Gid => {},
            CommandKind::GetUser => {},
            CommandKind::AddUser => {},
            CommandKind::RmUser => {},
        }
    }
    lemma_word_len(name, name.len());
    assert(rest.subrange(0, word_len(rest) as int) =~= name);
    lemma_name_round_trip(k);
}

/// The router's defaulting rule: an omitted optional user parameter
/// defaults to the caller identity.
pub open spec fn target_of(user: Option<UserRef>, caller: UserRef) -> UserRef {
    match user {
        Some(u) => u,
        None => caller,
    }
}

fn resolve_target<'a>(user: &'a Option<UserRef>, caller: &'a UserRef) -> (t: &'a UserRef)
    ensures
        *t == target_of(*user, *caller),
{
    match user {
        Some(u) => u,
        None => caller,
    }
}

/// The identifier of the current scope, when there is one.
pub open spec fn scope_id_of(scope: Option<Scope>) -> Option<u64> {
    match scope {
        Some(s) => Some(s.id),
        None => None,
    }
}

/// The registry state after an invocation: only `add_user` and a granted
/// `rm_user` mutate the relation; every other command, every failure and
/// every denial leaves it unchanged.
pub open spec fn spec_state_after(inv: Invocation, m: Map<u64, Seq<char>>) -> Map<
    u64,
    Seq<char>,
> {
    match inv.command {
        Command::AddUser { user } => (
        {
            let t = target_of(user, inv.caller);
            if m.contains_key(t.id) {
                m
            } else {
                m.insert(t.id, t.name@)
            }
        }),
        Command::RmUser { user } => (
        {
            let t = target_of(user, inv.caller);
            if spec_check(inv.caller.id, t.id, inv.scope, "bot_admin"@) == Ok::<
                Decision,
                BotError,
            >(Decision::Granted) && m.contains_key(t.id) {
                m.remove(t.id)
            } else {
                m
            }
        }),
        _ => m,
    }
}

/// The reply an invocation is answered with, as a function of the
/// invocation and the registry state it found.
pub open spec fn spec_reply(inv: Invocation, m: Map<u64, Seq<char>>) -> Seq<char> {
    match inv.command {
        Command::Age { user } => (
        {
            let t = target_of(user, inv.caller);
            age_text(t.name@, t.created_at@)
        }),
        Command::Ping { text } => pong_text(text),
        Command::Gid => gid_text(scope_id_of(inv.scope)),
        Command::GetUser => if m.contains_key(inv.caller.id) {
            found_text(inv.caller.id, m[inv.caller.id])
        } else {
            missing_text(inv.caller.id)
        },
        Command::AddUser { user } => (
        {
            let t = target_of(user, inv.caller);
            if m.contains_key(t.id) {
                fault_text(BotError::AlreadyExists(t.id))
            } else {
                created_text(t.name@)
            }
        }),
        Command::RmUser { user } => (
        {
            let t = target_of(user, inv.caller);
            match spec_check(inv.caller.id, t.id, inv.scope, "bot_admin"@) {
                Err(e) => fault_text(e),
                Ok(Decision::Denied(reason)) => fault_text(BotError::NoPermission(reason)),
                Ok(Decision::Granted) => if m.contains_key(t.id) {
                    deleted_text(t.name@)
                } else {
                    fault_text(BotError::NotFound(t.id))
                },
            }
        }),
    }
}

/// Resolves an invocation to its handler, supplies the caller as the
/// default for an omitted user parameter, runs the handler against the
/// registry and renders the outcome. Destructive work (`rm_user`) is
/// gated by the guard with the role `bot_admin`; a denied invocation
/// leaves the registry untouched.
pub fn dispatch(inv: &Invocation, reg: &mut Registry) -> (reply: String)
    requires
        old(reg).wf(),
        inv.scope matches Some(s) ==> s.wf(),
    ensures
        final(reg).wf(),
        final(reg)@ == spec_state_after(*inv, old(reg)@),
        reply@ == spec_reply(*inv, old(reg)@),
        forall|user: Option<UserRef>, reason: crate::errors::DenyReason|
            inv.command == (Command::RmUser { user }) && spec_check(
                inv.caller.id,
                target_of(user, inv.caller).id,
                inv.scope,
                "bot_admin"@,
            ) == Ok::<Decision, BotError>(Decision::Denied(reason)) ==> final(reg)@ == old(reg)@
                && reply@ == fault_text(BotError::NoPermission(reason)),
{
    match &inv.command {
        Command::Age { user } => {
            let t = resolve_target(user, &inv.caller);
            age_reply(t.name.as_str(), t.created_at.as_str())
        },
        Command::Ping { text } => ping_reply(text),
        Command::Gid => {
            let sid: Option<u64> = match &inv.scope {
                Some(s) => Some(s.id),
                None => None,
            };
            gid_reply(sid)
        },
        Command::GetUser => {
            match reg.lookup(inv.caller.id) {
                Some(u) => found_reply(u.id, u.name.as_str()),
                None => missing_reply(inv.caller.id),
            }
        },
        Command::AddUser { user } => {
            let t = resolve_target(user, &inv.caller);
            match reg.insert(t.id, t.name.clone()) {
                Ok(_) => created_reply(t.name.as_str()),
                Err(e) => fault_reply(&e),
            }
        },
        Command::RmUser { user } => {
            let t = resolve_target(user, &inv.caller);
            match check(inv.caller.id, t.id, &inv.scope, "bot_admin") {
                Err(e) => fault_reply(&e),
                Ok(Decision::Denied(reason)) => fault_reply(&BotError::NoPermission(reason)),
                Ok(Decision::Granted) => {
                    match reg.delete(t.id) {
                        Ok(_) => deleted_reply(t.name.as_str()),
                        Err(e) => fault_reply(&e),
                    }
                },
            }
        },
    }
}

} // verus!
