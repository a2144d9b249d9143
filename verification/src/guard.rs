//! The authorization guard: decides whether a caller may act on a target.
//! The decision is a pure function of the caller identity, the target
//! identity and the caller's role membership within the current scope; it
//! touches no store and has no side effect.

use vstd::prelude::*;

use crate::errors::BotError;
use crate::errors::DenyReason;
use crate::text::str_eq;

verus! {

/// A named permission group and the identifiers of the users holding it
/// within one scope.
pub struct Role {
    pub name: String,
    pub members: Vec<u64>,
}

/// The bounded context (server, workspace) in which role membership is
/// evaluated, with the roles configured in it.
pub struct Scope {
    pub id: u64,
    pub roles: Vec<Role>,
}

impl Scope {
    /// Validity of a scope's role configuration: role names are unique
    /// within the scope.
    pub open spec fn wf(self) -> bool {
        forall|i: int, j: int|
            0 <= i < j < self.roles@.len() ==> self.roles@[i].name@ != self.roles@[j].name@
    }

    /// The scope has a role under this name.
    pub open spec fn configured(self, role: Seq<char>) -> bool {
        exists|i: int| 0 <= i < self.roles@.len() && self.roles@[i].name@ == role
    }

    /// `user` holds the role under this name within the scope.
    pub open spec fn holds(self, user: u64, role: Seq<char>) -> bool {
        exists|i: int|
            0 <= i < self.roles@.len() && self.roles@[i].name@ == role
                && self.roles@[i].members@.contains(user)
    }
}

/// The guard's binary outcome; a denial keeps its reason distinguishable.
#[derive(Clone, Copy, Debug, PartialEq, Eq, Structural)]
pub enum Decision {
    Granted,
    Denied(DenyReason),
}

/// What the guard decides, as a pure function over the supplied identities
/// and role data. Acting on oneself is always granted; acting on another
/// requires holding the role within the scope; outside any scope the
/// action is denied with the distinct reason `NoScope`; a scope without
/// the role at all is the distinct configuration failure
/// `RoleNotConfigured`.
pub open spec fn spec_check(
    caller: u64,
    target: u64,
    scope: Option<Scope>,
    role: Seq<char>,
) -> Result<Decision, BotError> {
    if caller == target {
        Ok(Decision::Granted)
    } else {
        match scope {
            None => Ok(Decision::Denied(DenyReason::NoScope)),
            Some(s) => if !s.configured(role) {
                Err(BotError::RoleNotConfigured)
            } else if s.holds(caller, role) {
                Ok(Decision::Granted)
            } else {
                Ok(Decision::Denied(DenyReason::RoleLacking))
            },
        }
    }
}

/// Decides whether `caller` may act on `target` within `scope`, gated by
/// the role named `role`. Pure: reads only its arguments and mutates
/// nothing, so a denied check cannot touch any store.
pub fn check(caller: u64, target: u64, scope: &Option<Scope>, role: &str) -> (r: Result<
    Decision,
    BotError,
>)
    requires
        *scope matches Some(s) ==> s.wf(),
    ensures
        r == spec_check(caller, target, *scope, role@),
        caller == target ==> r == Ok::<Decision, BotError>(Decision::Granted),
        caller != target && scope is None ==> r == Ok::<Decision, BotError>(
            Decision::Denied(DenyReason::NoScope),
        ),
        forall|s: Scope|
            *scope == Some(s) && caller != target && s.configured(role@) && !s.holds(
                caller,
                role@,
            ) ==> r == Ok::<Decision, BotError>(Decision::Denied(DenyReason::RoleLacking)),
{
    if caller == target {
        return Ok(Decision::Granted);
    }
    match scope {
        None => Ok(Decision::Denied(DenyReason::NoScope)),
        Some(s) => {
            let n = s.roles.len();
            let mut i: usize = 0;
            while i < n
                invariant
                    caller != target,
                    *scope == Some(*s),
                    s.wf(),
                    n == s.roles@.len(),
                    i <= n,
                    forall|j: int| 0 <= j < i ==> s.roles@[j].name@ != role@,
                decreases n - i,
            {
                if str_eq(s.roles[i].name.as_str(), role) {
                    let members = &s.roles[i].members;
                    let m = members.len();
                    let mut k: usize = 0;
                    while k < m
                        invariant
                            caller != target,
                            *scope == Some(*s),
                            s.wf(),
                            n == s.roles@.len(),
                            i < n,
                            s.roles@[i as int].name@ == role@,
                            members == &s.roles@[i as int].members,
                            m == members@.len(),
                            k <= m,
                            forall|j: int| 0 <= j < k ==> members@[j] != caller,
                        decreases m - k,
                    {
                        if members[k] == caller {
                            proof {
                                assert(s.holds(caller, role@));
                            }
                            return Ok(Decision::Granted);
                        }
                        k = k + 1;
                    }
                    proof {
                        assert(!members@.contains(caller));
                        assert forall|j: int|
                            0 <= j < s.roles@.len() && s.roles@[j].name@ == role@
                                implies !s.roles@[j].members@.contains(caller) by {
                            if j < i as int {
                                assert(s.roles@[j].name@ != s.roles@[i as int].name@);
                            } else if j > i as int {
                                assert(s.roles@[i as int].name@ != s.roles@[j].name@);
                            }
                        }
                        assert(!s.holds(caller, role@));
                        assert(s.configured(role@));
                    }
                    return Ok(Decision::Denied(DenyReason::RoleLacking));
                }
                i = i + 1;
            }
            proof {
                assert(!s.configured(role@));
            }
            Err(BotError::RoleNotConfigured)
        },
    }
}

} // verus!
