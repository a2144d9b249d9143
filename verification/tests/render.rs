use botcore::errors::BotError;
use botcore::errors::DenyReason;
use botcore::render::age_reply;
use botcore::render::created_reply;
use botcore::render::deleted_reply;
use botcore::render::fault_reply;
use botcore::render::found_reply;
use botcore::render::gid_reply;
use botcore::render::missing_reply;
use botcore::render::ping_reply;
use botcore::text::str_eq;
use botcore::text::str_eq_ci;
use botcore::text::u64_to_string;

#[test]
fn ping_without_text_is_pong() {
    assert_eq!(ping_reply(&None), "pong");
}

#[test]
fn ping_with_text_echoes_it() {
    assert_eq!(ping_reply(&Some("hi".to_string())), "pong: hi");
}

#[test]
fn decimal_rendering_is_exact() {
    assert_eq!(u64_to_string(0), "0");
    assert_eq!(u64_to_string(7), "7");
    assert_eq!(u64_to_string(42), "42");
    assert_eq!(u64_to_string(1000), "1000");
    assert_eq!(u64_to_string(u64::MAX), "18446744073709551615");
}

#[test]
fn age_reply_is_exact() {
    assert_eq!(
        age_reply("alice", "2016-01-01T00:00:00Z"),
        "alice's account was created at 2016-01-01T00:00:00Z"
    );
}

#[test]
fn gid_reply_names_the_scope_or_its_absence() {
    assert_eq!(gid_reply(Some(1290)), "guild id: 1290");
    assert_eq!(gid_reply(None), "guild id: none");
}

#[test]
fn success_replies_are_exact() {
    assert_eq!(created_reply("alice"), "user alice was created");
    assert_eq!(deleted_reply("alice"), "user alice was deleted");
    assert_eq!(found_reply(7, "alice"), "found user alice with id 7");
    assert_eq!(missing_reply(7), "no user with id 7");
}

#[test]
fn each_failure_kind_renders_distinguishably() {
    assert_eq!(
        fault_reply(&BotError::NoPermission(DenyReason::NoScope)),
        "permission denied: no scope"
    );
    assert_eq!(
        fault_reply(&BotError::NoPermission(DenyReason::RoleLacking)),
        "permission denied: missing required role"
    );
    assert_eq!(fault_reply(&BotError::NotFound(3)), "no user with id 3");
    assert_eq!(fault_reply(&BotError::AlreadyExists(3)), "user with id 3 already exists");
    assert_eq!(
        fault_reply(&BotError::RoleNotConfigured),
        "required role is not configured in this scope"
    );
}

#[test]
fn store_fault_reply_carries_the_diagnostic_verbatim() {
    let e = BotError::StoreFault("connection reset by peer".to_string());
    assert_eq!(fault_reply(&e), "store fault: connection reset by peer");
}

#[test]
fn string_equality_helpers_decide_correctly() {
    assert!(str_eq("bot_admin", "bot_admin"));
    assert!(!str_eq("bot_admin", "bot_admins"));
    assert!(!str_eq("bot_admin", "Bot_admin"));
    assert!(str_eq_ci("PING", "ping"));
    assert!(str_eq_ci("Add_User", "add_user"));
    assert!(!str_eq_ci("pong", "ping"));
}
