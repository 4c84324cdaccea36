//! Authorization guard: a pure, total decision over a resolved identity
//! and the privilege an operation requires. Self-applied admin operations
//! are always rejected, even for admins, to prevent irrecoverable
//! lockout.

use vstd::prelude::*;
use crate::model::User;

verus! {

/// The privilege an operation requires.
#[derive(Clone, Copy, Debug, PartialEq, Eq, Structural)]
pub enum RequiredPrivilege {
    /// Any resolved identity passes.
    AnyAuthenticated,
    /// Only the user with this id passes.
    ResourceOwner(i64),
    /// Only administrators pass.
    AdminOnly,
    /// Only administrators other than this target pass.
    AdminNotSelf(i64),
}

/// Why a request was denied.
#[derive(Clone, Copy, Debug, PartialEq, Eq, Structural)]
pub enum DenyReason {
    /// The identity is not an administrator.
    NotAdmin,
    /// The identity does not own the addressed resource.
    NotOwner,
    /// An administrator tried to apply an admin operation to themselves.
    SelfAction,
}

/// The guard's verdict.
#[derive(Clone, Copy, Debug, PartialEq, Eq, Structural)]
pub enum Decision {
    Allow,
    Deny(DenyReason),
}

/// Whether `identity` satisfies `required`.
pub open spec fn allowed(identity: User, required: RequiredPrivilege) -> bool {
    match required {
        RequiredPrivilege::AnyAuthenticated => true,
        RequiredPrivilege::ResourceOwner(id) => identity.id == id,
        RequiredPrivilege::AdminOnly => identity.is_admin,
        RequiredPrivilege::AdminNotSelf(target) => identity.is_admin && identity.id != target,
    }
}

/// The full verdict, with the reason for a denial.
pub open spec fn decision_of(identity: User, required: RequiredPrivilege) -> Decision {
    match required {
        RequiredPrivilege::AnyAuthenticated => Decision::Allow,
        RequiredPrivilege::ResourceOwner(id) => if identity.id == id {
            Decision::Allow
        } else {
            Decision::Deny(DenyReason::NotOwner)
        },
        RequiredPrivilege::AdminOnly => if identity.is_admin {
            Decision::Allow
        } else {
            Decision::Deny(DenyReason::NotAdmin)
        },
        RequiredPrivilege::AdminNotSelf(target) => if !identity.is_admin {
            Decision::Deny(DenyReason::NotAdmin)
        } else if identity.id == target {
            Decision::Deny(DenyReason::SelfAction)
        } else {
            Decision::Allow
        },
    }
}

/// Decide whether `identity` may perform an operation requiring
/// `required`. Pure: no side effects, total over its inputs.
pub fn authorize(identity: &User, required: RequiredPrivilege) -> (d: Decision)
    ensures
        d == decision_of(*identity, required),
        d == Decision::Allow <==> allowed(*identity, required),
{
    match required {
        RequiredPrivilege::AnyAuthenticated => Decision::Allow,
        RequiredPrivilege::ResourceOwner(id) => if identity.id == id {
            Decision::Allow
        } else {
            Decision::Deny(DenyReason::NotOwner)
        },
        RequiredPrivilege::AdminOnly => if identity.is_admin {
            Decision::Allow
        } else {
            Decision::Deny(DenyReason::NotAdmin)
        },
        RequiredPrivilege::AdminNotSelf(target) => if !identity.is_admin {
            Decision::Deny(DenyReason::NotAdmin)
        } else if identity.id == target {
            Decision::Deny(DenyReason::SelfAction)
        } else {
            Decision::Allow
        },
    }
}

} // verus!
