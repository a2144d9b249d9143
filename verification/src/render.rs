//! The response renderer: turns every handler outcome, success or failure,
//! into a single textual reply. Failure replies name the failure kind; a
//! store fault's diagnostic text is surfaced verbatim.

use vstd::prelude::*;
use vstd::string::StringExecFns;

use crate::errors::BotError;
use crate::errors::DenyReason;
use crate::text::dec_str;
use crate::text::u64_to_string;

verus! {

/// The reply to `ping`: an echo of the optional text.
pub open spec fn pong_text(text: Option<String>) -> Seq<char> {
    match text {
        None => "pong"@,
        Some(t) => "pong: "@ + t@,
    }
}

/// The reply reporting a user's account-creation timestamp.
pub open spec fn age_text(name: Seq<char>, created_at: Seq<char>) -> Seq<char> {
    name + "'s account was created at "@ + created_at
}

/// The reply reporting the current scope identifier.
pub open spec fn gid_text(scope_id: Option<u64>) -> Seq<char> {
    match scope_id {
        Some(g) => "guild id: "@ + dec_str(g as nat),
        None => "guild id: none"@,
    }
}

/// The confirmation that a registry record was created.
pub open spec fn created_text(name: Seq<char>) -> Seq<char> {
    "user "@ + name + " was created"@
}

/// The confirmation that a registry record was deleted.
pub open spec fn deleted_text(name: Seq<char>) -> Seq<char> {
    "user "@ + name + " was deleted"@
}

/// The reply rendering a successful registry lookup.
pub open spec fn found_text(id: u64, name: Seq<char>) -> Seq<char> {
    "found user "@ + name + " with id "@ + dec_str(id as nat)
}

/// The reply rendering a registry lookup that found nothing.
pub open spec fn missing_text(id: u64) -> Seq<char> {
    "no user with id "@ + dec_str(id as nat)
}

/// The reply for each failure kind; each kind is named distinguishably,
/// and a store fault carries its diagnostic verbatim.
pub open spec fn fault_text(e: BotError) -> Seq<char> {
    match e {
        BotError::NoPermission(DenyReason::NoScope) => "permission denied: no scope"@,
        BotError::NoPermission(DenyReason::RoleLacking) => "permission denied: missing required role"@,
        BotError::NotFound(id) => "no user with id "@ + dec_str(id as nat),
        BotError::AlreadyExists(id) => "user with id "@ + dec_str(id as nat) + " already exists"@,
        BotError::StoreFault(m) => "store fault: "@ + m@,
        BotError::RoleNotConfigured => "required role is not configured in this scope"@,
    }
}

/// Renders the reply to `ping`.
pub fn ping_reply(text: &Option<String>) -> (r: String)
    ensures
        r@ == pong_text(*text),
{
    match text {
        None => "pong".to_owned(),
        Some(t) => {
            let mut s = "pong: ".to_owned();
            s.append(t.as_str());
            s
        },
    }
}

/// Renders the account-creation reply.
pub fn age_reply(name: &str, created_at: &str) -> (r: String)
    ensures
        r@ == age_text(name@, created_at@),
{
    let mut s = name.to_owned();
    s.append("'s account was created at ");
    s.append(created_at);
    s
}

/// Renders the scope-identifier reply.
pub fn gid_reply(scope_id: Option<u64>) -> (r: String)
    ensures
        r@ == gid_text(scope_id),
{
    match scope_id {
        Some(g) => {
            let mut s = "guild id: ".to_owned();
            let digits = u64_to_string(g);
            s.append(digits.as_str());
            s
        },
        None => "guild id: none".to_owned(),
    }
}

/// Renders the record-created confirmation.
pub fn created_reply(name: &str) -> (r: String)
    ensures
        r@ == created_text(name@),
{
    let mut s = "user ".to_owned();
    s.append(name);
    s.append(" was created");
    s
}

/// Renders the record-deleted confirmation.
pub fn deleted_reply(name: &str) -> (r: String)
    ensures
        r@ == deleted_text(name@),
{
    let mut s = "user ".to_owned();
    s.append(name);
    s.append(" was deleted");
    s
}

/// Renders a successful lookup.
pub fn found_reply(id: u64, name: &str) -> (r: String)
    ensures
        r@ == found_text(id, name@),
{
    let mut s = "found user ".to_owned();
    s.append(name);
    s.append(" with id ");
    let digits = u64_to_string(id);
    s.append(digits.as_str());
    s
}

/// Renders a lookup that found nothing.
pub fn missing_reply(id: u64) -> (r: String)
    ensures
        r@ == missing_text(id),
{
    let mut s = "no user with id ".to_owned();
    let digits = u64_to_string(id);
    s.append(digits.as_str());
    s
}

/// Renders a failure reply, naming the failure kind.
pub fn fault_reply(e: &BotError) -> (r: String)
    ensures
        r@ == fault_text(*e),
{
    match e {
        BotError::NoPermission(DenyReason::NoScope) => "permission denied: no scope".to_owned(),
        BotError::NoPermission(DenyReason::RoleLacking) => "permission denied: missing required role".to_owned(),
        BotError::NotFound(id) => missing_reply(*id),
        BotError::AlreadyExists(id) => {
            let mut s = "user with id ".to_owned();
            let digits = u64_to_string(*id);
            s.append(digits.as_str());
            s.append(" already exists");
            s
        },
        BotError::StoreFault(m) => {
            let mut s = "store fault: ".to_owned();
            s.append(m.as_str());
            s
        },
        BotError::RoleNotConfigured => "required role is not configured in this scope".to_owned(),
    }
}

} // verus!
