//! Ownership and reply-chain guard.
//!
//! Decides whether a principal may edit or delete a specific thread or post,
//! combining the role policy with content ownership and the rule that a post
//! with later replies in its thread must not be deleted.

use vstd::prelude::*;

use crate::model::{elevated, Post, Thread, User};
use crate::outcome::{Decision, Rejection};

verus! {

/// A thread may be edited by an elevated role or by its author.
pub open spec fn may_edit_thread(actor: User, thread: Thread) -> bool {
    elevated(actor.role) || thread.author == actor.id
}

/// A post may be edited by an elevated role or by its author; a post whose
/// author account was removed can only be edited by elevated roles.
pub open spec fn may_edit_post(actor: User, post: Post) -> bool {
    elevated(actor.role) || (post.author matches Some(a) && a == actor.id)
}

/// A post counts against deleting `target` when it sits in the same thread
/// and was created strictly later.
pub open spec fn later_in_thread(post: Post, target: Post) -> bool {
    post.topic == target.topic && post.created_at > target.created_at
}

/// How many posts of `posts` were created after `target` in its thread.
pub open spec fn count_later(posts: Seq<Post>, target: Post) -> nat
    decreases posts.len(),
{
    if posts.len() == 0 {
        0
    } else {
        count_later(posts.drop_last(), target) + if later_in_thread(posts.last(), target) {
            1nat
        } else {
            0nat
        }
    }
}

/// The verdict on editing a thread.
pub open spec fn edit_thread_decision(actor: User, thread: Thread) -> Decision {
    if may_edit_thread(actor, thread) {
        Decision::Allow
    } else {
        Decision::Deny(Rejection::Forbidden)
    }
}

/// The verdict on editing a post.
pub open spec fn edit_post_decision(actor: User, post: Post) -> Decision {
    if may_edit_post(actor, post) {
        Decision::Allow
    } else {
        Decision::Deny(Rejection::Forbidden)
    }
}

/// The verdict on deleting a post: the edit rule first, then the
/// reply-chain rule, which binds every actor whatever the role.
pub open spec fn delete_post_decision(actor: User, post: Post, later: nat) -> Decision {
    if !may_edit_post(actor, post) {
        Decision::Deny(Rejection::Forbidden)
    } else if later != 0 {
        Decision::Deny(Rejection::Conflict)
    } else {
        Decision::Allow
    }
}

/// The verdict on posting into a thread: a locked thread rejects new posts
/// from everyone but elevated roles.
pub open spec fn create_post_decision(actor: User, thread: Thread) -> Decision {
    if !thread.locked || elevated(actor.role) {
        Decision::Allow
    } else {
        Decision::Deny(Rejection::Forbidden)
    }
}

/// May the actor edit this thread?
pub fn can_edit_thread(actor: &User, thread: &Thread) -> (r: Decision)
    ensures
        r == edit_thread_decision(*actor, *thread),
{
    if actor.role.is_elevated() || thread.author == actor.id {
        Decision::Allow
    } else {
        Decision::Deny(Rejection::Forbidden)
    }
}

/// May the actor edit this post?
pub fn can_edit_post(actor: &User, post: &Post) -> (r: Decision)
    ensures
        r == edit_post_decision(*actor, *post),
{
    if actor.role.is_elevated() {
        return Decision::Allow;
    }
    match post.author {
        Some(a) => {
            if a == actor.id {
                Decision::Allow
            } else {
                Decision::Deny(Rejection::Forbidden)
            }
        },
        None => Decision::Deny(Rejection::Forbidden),
    }
}

/// May the actor post into this thread?
pub fn can_create_post(actor: &User, thread: &Thread) -> (r: Decision)
    ensures
        r == create_post_decision(*actor, *thread),
{
    if !thread.locked || actor.role.is_elevated() {
        Decision::Allow
    } else {
        Decision::Deny(Rejection::Forbidden)
    }
}

/// Counts the posts of `posts` created after `target` in its thread.
pub fn posts_after(posts: &Vec<Post>, target: &Post) -> (r: usize)
    ensures
        r == count_later(posts@, *target),
{
    let mut count: usize = 0;
    let mut i: usize = 0;
    while i < posts.len()
        invariant
            i <= posts.len(),
            count <= i,
            count == count_later(posts@.take(i as int), *target),
        decreases posts.len() - i,
    {
        proof {
            assert(posts@.take(i + 1 as int).drop_last() =~= posts@.take(i as int));
            assert(posts@.take(i + 1 as int).last() == posts@[i as int]);
        }
        if posts[i].topic == target.topic && posts[i].created_at > target.created_at {
            count = count + 1;
        }
        i = i + 1;
    }
    proof {
        assert(posts@.take(posts@.len() as int) =~= posts@);
    }
    count
}

/// May the actor delete this post, given how many later posts its thread
/// holds?
pub fn can_delete_post(actor: &User, post: &Post, later: usize) -> (r: Decision)
    ensures
        r == delete_post_decision(*actor, *post, later as nat),
{
    match can_edit_post(actor, post) {
        Decision::Allow => {
            if later != 0 {
                Decision::Deny(Rejection::Conflict)
            } else {
                Decision::Allow
            }
        },
        Decision::Deny(_) => Decision::Deny(Rejection::Forbidden),
    }
}

/// May the actor delete this post, judging the reply-chain rule against the
/// given posts of its thread?
pub fn can_delete_post_in(actor: &User, post: &Post, posts: &Vec<Post>) -> (r: Decision)
    ensures
        r == delete_post_decision(*actor, *post, count_later(posts@, *post)),
{
    let later = posts_after(posts, post);
    can_delete_post(actor, post, later)
}

} // verus!
