//! The failure taxonomy of the command core. Every failure is recovered at
//! the router and rendered as a reply; none aborts the invocation path.

use vstd::prelude::*;

verus! {

/// Why the authorization guard refused an action.
#[derive(Clone, Copy, Debug, PartialEq, Eq, Structural)]
pub enum DenyReason {
    /// The invocation happened outside any scoped context.
    NoScope,
    /// The caller does not hold the required role within the scope.
    RoleLacking,
}

/// Everything a handler can fail with.
#[derive(Debug, PartialEq, Eq)]
pub enum BotError {
    /// The guard denied the action, with the reason kept distinguishable.
    NoPermission(DenyReason),
    /// The registry holds no record under this identifier.
    NotFound(u64),
    /// The registry already holds a record under this identifier.
    AlreadyExists(u64),
    /// The underlying store failed; carries its diagnostic text verbatim.
    StoreFault(String),
    /// The scope has no role under the required name: a configuration
    /// precondition failed, distinct from an ordinary denial.
    RoleNotConfigured,
}

} // verus!
