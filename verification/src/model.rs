//! Data model of the forum core.
//!
//! Identities are carried as plain 128-bit values and instants as seconds on
//! a signed 64-bit timeline, so that every rule over them is a statement
//! about integers.

use vstd::prelude::*;

verus! {

/// Seconds in one day; bans are granted with day granularity.
pub const SECONDS_PER_DAY: i64 = 86400;

/// The fixed three-tier role hierarchy.
#[derive(Clone, Copy, Debug, PartialEq, Eq, Structural)]
pub enum UserRole {
    Admin,
    Mod,
    User,
}

/// A role is elevated when it carries moderator capabilities.
pub open spec fn elevated(role: UserRole) -> bool {
    role == UserRole::Admin || role == UserRole::Mod
}

/// A ban is active exactly when an end instant is recorded strictly in the
/// future; an end instant in the past is equivalent to no ban.
pub open spec fn ban_active(banned_until: Option<i64>, now: i64) -> bool {
    match banned_until {
        Some(t) => t > now,
        None => false,
    }
}

impl UserRole {
    /// The lowercase wire name of the role.
    pub open spec fn name(self) -> Seq<char> {
        match self {
            UserRole::Admin => "admin"@,
            UserRole::Mod => "mod"@,
            UserRole::User => "user"@,
        }
    }

    pub fn to_str(&self) -> (r: String)
        ensures
            r@ == self.name(),
    {
        match self {
            UserRole::Admin => "admin".to_owned(),
            UserRole::Mod => "mod".to_owned(),
            UserRole::User => "user".to_owned(),
        }
    }

    /// Whether the role carries moderator capabilities.
    pub fn is_elevated(&self) -> (r: bool)
        ensures
            r == elevated(*self),
    {
        match self {
            UserRole::Admin => true,
            UserRole::Mod => true,
            UserRole::User => false,
        }
    }
}

#[derive(Clone, Copy, Debug, PartialEq, Eq, Structural)]
pub enum UserStatus {
    Active,
    Inactive,
    Banned,
}

/// An account acting on the system (a principal).
#[derive(Clone, Debug)]
pub struct User {
    pub id: u128,
    pub name: String,
    pub email: String,
    pub password: String,
    pub role: UserRole,
    pub verified: bool,
    pub verification_token: Option<String>,
    pub token_expires_at: Option<i64>,
    pub reset_token: Option<String>,
    pub reset_expires_at: Option<i64>,
    pub created_at: Option<i64>,
    pub updated_at: Option<i64>,
    pub description: Option<String>,
    pub avatar: Option<String>,
    pub facebook: Option<String>,
    pub x_id: Option<String>,
    pub banned_until: Option<i64>,
    pub last_online: Option<i64>,
}

/// Copies an optional owned string.
pub fn clone_opt_string(s: &Option<String>) -> (r: Option<String>)
    ensures
        r == *s,
{
    match s {
        Some(x) => Some(x.clone()),
        None => None,
    }
}

impl User {
    /// A token slot is well formed when its value and its expiry are set or
    /// unset together.
    pub open spec fn wf(self) -> bool {
        &&& (self.verification_token is Some <==> self.token_expires_at is Some)
        &&& (self.reset_token is Some <==> self.reset_expires_at is Some)
    }

    /// An exact copy of the account record.
    pub fn duplicate(&self) -> (r: User)
        ensures
            r == *self,
    {
        User {
            id: self.id,
            name: self.name.clone(),
            email: self.email.clone(),
            password: self.password.clone(),
            role: self.role,
            verified: self.verified,
            verification_token: clone_opt_string(&self.verification_token),
            token_expires_at: self.token_expires_at,
            reset_token: clone_opt_string(&self.reset_token),
            reset_expires_at: self.reset_expires_at,
            created_at: self.created_at,
            updated_at: self.updated_at,
            description: clone_opt_string(&self.description),
            avatar: clone_opt_string(&self.avatar),
            facebook: clone_opt_string(&self.facebook),
            x_id: clone_opt_string(&self.x_id),
            banned_until: self.banned_until,
            last_online: self.last_online,
        }
    }
}

/// A forum section; a set of roles permitted to view it is attached.
#[derive(Clone, Debug)]
pub struct Section {
    pub id: i64,
    pub name: String,
    pub description: Option<String>,
    pub allowed_for: Vec<UserRole>,
}

/// One row of the section-to-role permission table.
#[derive(Clone, Debug)]
pub struct SectionsAllowed {
    pub id: i32,
    pub section: i64,
    pub role: UserRole,
}

/// A discussion thread inside a section.
#[derive(Clone, Debug)]
pub struct Thread {
    pub id: i64,
    pub title: String,
    pub created_at: i64,
    pub content: String,
    pub author: u128,
    pub section_id: i64,
    pub locked: bool,
    pub sticky: bool,
}

/// A post inside a thread; the author is absent when the account was removed.
#[derive(Clone, Debug)]
pub struct Post {
    pub id: i64,
    pub content: String,
    pub author: Option<u128>,
    pub topic: i64,
    pub comments: Option<i64>,
    pub created_at: i64,
    pub modified_at: Option<i64>,
    pub likes: i32,
}

/// A thread together with a page of its posts.
#[derive(Clone, Debug)]
pub struct ThreadPosts {
    pub thread: Thread,
    pub posts: Vec<Post>,
}

/// A message on the live chat feed.
#[derive(Clone, Debug)]
pub struct ChatPost {
    pub id: i32,
    pub added: i64,
    pub author: u128,
    pub author_name: String,
    pub content: String,
}

/// A hashtag attached to a thread.
#[derive(Clone, Debug)]
pub struct Hashtag {
    pub id: i64,
    pub tag: String,
    pub topic: i64,
}

/// One entry of the moderation ledger.
#[derive(Clone, Debug)]
pub struct UserWarning {
    pub id: i64,
    pub user: u128,
    pub warn_time: i64,
    pub comment: Option<String>,
    pub warned_by: String,
    pub banned: bool,
}

impl UserWarning {
    /// An exact copy of the ledger entry.
    pub fn duplicate(&self) -> (r: UserWarning)
        ensures
            r == *self,
    {
        UserWarning {
            id: self.id,
            user: self.user,
            warn_time: self.warn_time,
            comment: clone_opt_string(&self.comment),
            warned_by: self.warned_by.clone(),
            banned: self.banned,
        }
    }
}

/// A private message between two accounts.
#[derive(Clone, Debug)]
pub struct PrivateMessage {
    pub id: i64,
    pub author: Option<u128>,
    pub receiver: u128,
    pub content: String,
}

} // verus!
