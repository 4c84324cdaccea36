//! Protected operations over the identity store: the admin and settings
//! surface, each one an authorization decision followed by the store
//! mutation it guards. The transport layers only translate these results.

use vstd::prelude::*;
use crate::errors::AuthError;
use crate::guard::{allowed, authorize, Decision, DenyReason, RequiredPrivilege};
use crate::model::User;
use crate::store::{
    has_active_token, has_token_string, has_user_id, tokens_without, users_without, IdentityStore,
};

verus! {

/// Delete a user and all their tokens, as an administrator acting on a
/// different user. Denials leave the store untouched and reveal nothing
/// beyond the failed check.
pub fn delete_user(store: &mut IdentityStore, actor: &User, target_id: i64) -> (r: Result<
    (),
    AuthError,
>)
    requires
        old(store).wf(),
    ensures
        final(store).wf(),
        !actor.is_admin ==> (r matches Err(e) && e == AuthError::AdminRequired && *final(store)
            == *old(store)),
        actor.is_admin && actor.id == target_id ==> (r matches Err(e) && e
            == AuthError::SelfDeletionBlocked && *final(store) == *old(store)),
        allowed(*actor, RequiredPrivilege::AdminNotSelf(target_id)) && !has_user_id(
            old(store).users@,
            target_id,
        ) ==> (r matches Err(e) && e == AuthError::TargetNotFound && *final(store)
            == *old(store)),
        r is Ok <==> allowed(*actor, RequiredPrivilege::AdminNotSelf(target_id)) && has_user_id(
            old(store).users@,
            target_id,
        ),
        r is Ok ==> {
            &&& final(store).users@ == users_without(old(store).users@, target_id)
            &&& final(store).tokens@ == tokens_without(old(store).tokens@, target_id)
            &&& !has_user_id(final(store).users@, target_id)
            &&& forall|i: int|
                0 <= i < old(store).tokens@.len() && (#[trigger] old(store).tokens@[i]).user_id
                    == target_id ==> !has_token_string(
                    final(store).tokens@,
                    old(store).tokens@[i].token@,
                )
            &&& forall|i: int|
                0 <= i < old(store).tokens@.len() && (#[trigger] old(store).tokens@[i]).user_id
                    != target_id ==> final(store).tokens@.contains(old(store).tokens@[i])
        },
        forall|t: Seq<char>|
            #[trigger] has_active_token(final(store).tokens@, t) ==> has_active_token(
                old(store).tokens@,
                t,
            ),
{
    match authorize(actor, RequiredPrivilege::AdminNotSelf(target_id)) {
        Decision::Allow => {},
        Decision::Deny(DenyReason::NotAdmin) => {
            return Err(AuthError::AdminRequired);
        },
        Decision::Deny(_) => {
            return Err(AuthError::SelfDeletionBlocked);
        },
    }
    if store.delete_user(target_id) {
        proof {
            if has_user_id(store.users@, target_id) {
                let k = choose|k: int|
                    0 <= k < store.users@.len() && (#[trigger] store.users@[k]).id == target_id;
            }
        }
        Ok(())
    } else {
        Err(AuthError::TargetNotFound)
    }
}

/// Grant or withdraw the admin privilege, as an administrator acting on a
/// different user. An admin can never change their own flag.
pub fn toggle_admin(store: &mut IdentityStore, actor: &User, target_id: i64, is_admin: bool) -> (r:
    Result<(), AuthError>)
    requires
        old(store).wf(),
    ensures
        final(store).wf(),
        !actor.is_admin ==> (r matches Err(e) && e == AuthError::AdminRequired && *final(store)
            == *old(store)),
        actor.is_admin && actor.id == target_id ==> (r matches Err(e) && e
            == AuthError::SelfRoleChangeBlocked && *final(store) == *old(store)),
        allowed(*actor, RequiredPrivilege::AdminNotSelf(target_id)) && !has_user_id(
            old(store).users@,
            target_id,
        ) ==> (r matches Err(e) && e == AuthError::TargetNotFound && *final(store)
            == *old(store)),
        r is Ok <==> allowed(*actor, RequiredPrivilege::AdminNotSelf(target_id)) && has_user_id(
            old(store).users@,
            target_id,
        ),
        final(store).tokens@ == old(store).tokens@,
        final(store).users@.len() == old(store).users@.len(),
        r is Ok ==> forall|i: int|
            0 <= i < old(store).users@.len() && (#[trigger] old(store).users@[i]).id != target_id
                ==> final(store).users@[i] == old(store).users@[i],
        r is Ok ==> forall|i: int|
            0 <= i < old(store).users@.len() && (#[trigger] old(store).users@[i]).id == target_id
                ==> {
                let pre = old(store).users@[i];
                let post = final(store).users@[i];
                &&& post.id == pre.id
                &&& post.username == pre.username
                &&& post.password_hash == pre.password_hash
                &&& post.is_admin == is_admin
                &&& post.is_private == pre.is_private
                &&& post.created_at == pre.created_at
            },
        r is Err ==> *final(store) == *old(store),
{
    match authorize(actor, RequiredPrivilege::AdminNotSelf(target_id)) {
        Decision::Allow => {},
        Decision::Deny(DenyReason::NotAdmin) => {
            return Err(AuthError::AdminRequired);
        },
        Decision::Deny(_) => {
            return Err(AuthError::SelfRoleChangeBlocked);
        },
    }
    if store.set_admin(target_id, is_admin) {
        Ok(())
    } else {
        Err(AuthError::TargetNotFound)
    }
}

/// Update the acting user's own privacy flag and report the new value, as
/// the settings surface does. Only the owner's row can be touched: the
/// target is the actor's own id by construction.
pub fn update_privacy(store: &mut IdentityStore, actor: &User, is_private: bool) -> (r: bool)
    requires
        old(store).wf(),
    ensures
        final(store).wf(),
        r == is_private,
        final(store).tokens@ == old(store).tokens@,
        final(store).users@.len() == old(store).users@.len(),
        forall|i: int|
            0 <= i < old(store).users@.len() && (#[trigger] old(store).users@[i]).id != actor.id
                ==> final(store).users@[i] == old(store).users@[i],
        forall|i: int|
            0 <= i < old(store).users@.len() && (#[trigger] old(store).users@[i]).id == actor.id
                ==> {
                let pre = old(store).users@[i];
                let post = final(store).users@[i];
                &&& post.id == pre.id
                &&& post.username == pre.username
                &&& post.password_hash == pre.password_hash
                &&& post.is_admin == pre.is_admin
                &&& post.is_private == is_private
                &&& post.created_at == pre.created_at
            },
{
    store.set_privacy(actor.id, is_private);
    is_private
}

} // verus!
