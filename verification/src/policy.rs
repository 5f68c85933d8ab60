//! Role policy: pure decisions about what a role may see or do.

use vstd::prelude::*;

use crate::model::{Section, UserRole};
use crate::outcome::Rejection;

verus! {

/// The operations whose permission rules the policy knows about.
#[derive(Clone, Copy, Debug, PartialEq, Eq, Structural)]
pub enum Action {
    ViewSection,
    CreateThread,
    EditThread,
    DeleteThread,
    LockThread,
    CreatePost,
    EditPost,
    DeletePost,
    WarnUser,
    UnbanUser,
    SendPrivateMessage,
}

/// The fixed set of actions reserved to elevated roles.
pub open spec fn action_needs_elevation(action: Action) -> bool {
    ||| action == Action::DeleteThread
    ||| action == Action::LockThread
    ||| action == Action::WarnUser
    ||| action == Action::UnbanUser
}

/// Whether the action is reserved to elevated roles (admins and moderators).
pub fn requires_elevated(action: Action) -> (r: bool)
    ensures
        r == action_needs_elevation(action),
{
    match action {
        Action::DeleteThread => true,
        Action::LockThread => true,
        Action::WarnUser => true,
        Action::UnbanUser => true,
        _ => false,
    }
}

/// Whether `role` occurs in `roles`.
pub fn role_in(roles: &Vec<UserRole>, role: UserRole) -> (r: bool)
    ensures
        r == roles@.contains(role),
{
    let mut i: usize = 0;
    while i < roles.len()
        invariant
            i <= roles.len(),
            forall|j: int| 0 <= j < i ==> roles@[j] != role,
        decreases roles.len() - i,
    {
        if roles[i] == role {
            return true;
        }
        i = i + 1;
    }
    false
}

/// A role may view a section exactly when it is in the section's allowed set.
pub fn can_view(role: UserRole, section: &Section) -> (r: bool)
    ensures
        r == section.allowed_for@.contains(role),
{
    role_in(&section.allowed_for, role)
}

/// An absent role is rejected, never defaulted to a permitted one.
pub fn can_view_opt(role: Option<UserRole>, section: &Section) -> (r: bool)
    ensures
        r == match role {
            Some(ro) => section.allowed_for@.contains(ro),
            None => false,
        },
{
    match role {
        Some(ro) => can_view(ro, section),
        None => false,
    }
}

/// A section must be visible to at least one role; an empty allowed set is
/// rejected at construction.
pub fn validate_roles<T>(v: &Vec<T>) -> (r: Result<(), Rejection>)
    ensures
        r is Ok <==> v@.len() > 0,
        r matches Err(e) ==> e == Rejection::Conflict,
{
    if v.len() == 0 {
        return Err(Rejection::Conflict);
    }
    Ok(())
}

impl Section {
    /// Builds a section, rejecting an empty allowed-role set.
    pub fn new(id: i64, name: String, description: Option<String>, allowed_for: Vec<UserRole>)
        -> (r: Result<Section, Rejection>)
        ensures
            r is Ok <==> allowed_for@.len() > 0,
            r matches Err(e) ==> e == Rejection::Conflict,
            r matches Ok(s) ==> s == (Section { id, name, description, allowed_for }),
    {
        match validate_roles(&allowed_for) {
            Ok(_) => Ok(Section { id, name, description, allowed_for }),
            Err(e) => Err(e),
        }
    }
}

/// Keeps exactly the sections the role may view, in their given order.
pub fn visible_sections(role: UserRole, sections: Vec<Section>) -> (r: Vec<Section>)
    ensures
        r@ == sections@.filter(|s: Section| s.allowed_for@.contains(role)),
{
    let ghost pred = |s: Section| s.allowed_for@.contains(role);
    let ghost all = sections@;
    let mut rest = sections;
    let mut r: Vec<Section> = Vec::new();
    let ghost mut k: int = 0;
    proof {
        reveal(Seq::filter);
    }
    while rest.len() > 0
        invariant
            pred == (|s: Section| s.allowed_for@.contains(role)),
            0 <= k <= all.len(),
            all == all.take(k) + rest@,
            r@ == all.take(k).filter(pred),
        decreases rest@.len(),
    {
        proof {
            assert(all.take(k + 1).drop_last() =~= all.take(k));
            assert(all[k] == rest@[0]);
            assert(all.take(k + 1).last() == all[k]);
            reveal(Seq::filter);
        }
        let s = rest.remove(0);
        if role_in(&s.allowed_for, role) {
            r.push(s);
        }
        proof {
            k = k + 1;
            assert(all == all.take(k) + rest@);
        }
    }
    proof {
        assert(all.take(k) =~= all);
    }
    r
}

/// Gate for a route group restricted to the given roles; rejects with
/// `Forbidden` when the acting role is not among them.
pub fn role_check(role: UserRole, allowed: &Vec<UserRole>) -> (r: Result<(), Rejection>)
    ensures
        r is Ok <==> allowed@.contains(role),
        r matches Err(e) ==> e == Rejection::Forbidden,
{
    if role_in(allowed, role) {
        Ok(())
    } else {
        Err(Rejection::Forbidden)
    }
}

} // verus!
