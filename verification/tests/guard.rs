use botcore::errors::BotError;
use botcore::errors::DenyReason;
use botcore::guard::check;
use botcore::guard::Decision;
use botcore::guard::Role;
use botcore::guard::Scope;

fn admin_scope(members: Vec<u64>) -> Scope {
    Scope { id: 99, roles: vec![Role { name: "bot_admin".to_string(), members }] }
}

#[test]
fn self_target_is_granted_without_any_role() {
    // Self-service is exempt from role checks, whatever the scope holds.
    let scope = Some(admin_scope(vec![]));
    assert_eq!(check(5, 5, &scope, "bot_admin"), Ok(Decision::Granted));
}

#[test]
fn self_target_is_granted_even_outside_any_scope() {
    assert_eq!(check(5, 5, &None, "bot_admin"), Ok(Decision::Granted));
    assert_eq!(check(5, 5, &None, "anything"), Ok(Decision::Granted));
}

#[test]
fn self_target_is_granted_for_an_unconfigured_role() {
    let scope = Some(Scope { id: 1, roles: vec![] });
    assert_eq!(check(5, 5, &scope, "bot_admin"), Ok(Decision::Granted));
}

#[test]
fn other_target_without_role_is_denied_role_lacking() {
    // The role exists, but the caller is not among its members.
    let scope = Some(admin_scope(vec![8, 9]));
    assert_eq!(
        check(5, 6, &scope, "bot_admin"),
        Ok(Decision::Denied(DenyReason::RoleLacking))
    );
}

#[test]
fn other_target_outside_any_scope_is_denied_no_scope() {
    assert_eq!(check(5, 6, &None, "bot_admin"), Ok(Decision::Denied(DenyReason::NoScope)));
}

#[test]
fn other_target_with_role_is_granted() {
    let scope = Some(admin_scope(vec![5]));
    assert_eq!(check(5, 6, &scope, "bot_admin"), Ok(Decision::Granted));
}

#[test]
fn unconfigured_role_is_a_distinct_failure() {
    let scope = Some(Scope {
        id: 1,
        roles: vec![Role { name: "moderator".to_string(), members: vec![5] }],
    });
    assert_eq!(check(5, 6, &scope, "bot_admin"), Err(BotError::RoleNotConfigured));
}

#[test]
fn role_names_match_exactly() {
    // The guard matches role names exactly; membership under a similarly
    // spelled role does not count.
    let scope = Some(Scope {
        id: 1,
        roles: vec![
            Role { name: "bot_admin".to_string(), members: vec![7] },
            Role { name: "Bot_Admin_2".to_string(), members: vec![5] },
        ],
    });
    assert_eq!(
        check(5, 6, &scope, "bot_admin"),
        Ok(Decision::Denied(DenyReason::RoleLacking))
    );
    assert_eq!(check(7, 6, &scope, "bot_admin"), Ok(Decision::Granted));
}
