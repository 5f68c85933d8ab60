//! The principal directory and moderation ledger.
//!
//! An in-memory model of the user store: the account rows, the append-only
//! warning ledger, and the lookups every other component builds on. The
//! storage collaborator of a deployment keeps the same data in rows; this
//! structure is where the engine's cross-entity rules are stated and proved.

use vstd::prelude::*;

use crate::model::{User, UserRole, UserWarning};
use crate::outcome::Rejection;

verus! {

/// Whether an account with this identity exists.
pub open spec fn has_user_id(users: Seq<User>, id: u128) -> bool {
    exists|i: int| 0 <= i < users.len() && (#[trigger] users[i]).id == id
}

/// Whether an account with this name exists.
pub open spec fn has_user_name(users: Seq<User>, name: Seq<char>) -> bool {
    exists|i: int| 0 <= i < users.len() && (#[trigger] users[i]).name@ == name
}

/// Whether an account with this email exists.
pub open spec fn has_user_email(users: Seq<User>, email: Seq<char>) -> bool {
    exists|i: int| 0 <= i < users.len() && (#[trigger] users[i]).email@ == email
}

/// The position of the account with this identity; meaningful only when
/// `has_user_id` holds, and unique when identities are.
pub open spec fn user_index(users: Seq<User>, id: u128) -> int {
    choose|i: int| 0 <= i < users.len() && (#[trigger] users[i]).id == id
}

/// When an account with the identity exists, `user_index` names a position
/// holding it.
pub proof fn lemma_user_index(users: Seq<User>, id: u128)
    requires
        has_user_id(users, id),
    ensures
        0 <= user_index(users, id) < users.len(),
        users[user_index(users, id)].id == id,
{
}

/// The account row a registration creates: unverified, ordinary role, no
/// tokens, no ban.
pub open spec fn fresh_user(
    id: u128,
    name: String,
    email: String,
    password: String,
    now: i64,
) -> User {
    User {
        id,
        name,
        email,
        password,
        role: UserRole::User,
        verified: false,
        verification_token: None,
        token_expires_at: None,
        reset_token: None,
        reset_expires_at: None,
        created_at: Some(now),
        updated_at: None,
        description: None,
        avatar: None,
        facebook: None,
        x_id: None,
        banned_until: None,
        last_online: None,
    }
}

/// The characters of an optional lookup key.
pub open spec fn key_view(s: Option<&String>) -> Option<Seq<char>> {
    match s {
        Some(x) => Some(x@),
        None => None,
    }
}

/// One lookup query against the directory, with the precedence identity,
/// then name, then email, then live-token value.
pub open spec fn query_matches(
    u: User,
    id: Option<u128>,
    name: Option<Seq<char>>,
    email: Option<Seq<char>>,
    token: Option<Seq<char>>,
) -> bool {
    if id is Some {
        u.id == id->0
    } else if name is Some {
        u.name@ == name->0
    } else if email is Some {
        u.email@ == email->0
    } else if token is Some {
        u.verification_token matches Some(t) && t@ == token->0
    } else {
        false
    }
}

/// The principal directory together with the moderation ledger.
pub struct Directory {
    pub users: Vec<User>,
    pub warnings: Vec<UserWarning>,
    pub next_warning_id: i64,
}

impl Directory {
    /// Well-formedness: identities are unique, token slots are consistent,
    /// and ledger entries carry identifiers below the next free one.
    pub open spec fn wf(self) -> bool {
        &&& forall|i: int, j: int|
            0 <= i < j < self.users@.len() ==> (#[trigger] self.users@[i]).id != (
            #[trigger] self.users@[j]).id
        &&& forall|i: int| 0 <= i < self.users@.len() ==> (#[trigger] self.users@[i]).wf()
        &&& 0 <= self.next_warning_id
        &&& forall|i: int|
            0 <= i < self.warnings@.len() ==> (#[trigger] self.warnings@[i]).id
                < self.next_warning_id
    }

    /// An empty directory.
    pub fn new() -> (r: Directory)
        ensures
            r.wf(),
            r.users@.len() == 0,
            r.warnings@.len() == 0,
            r.next_warning_id == 0,
    {
        Directory { users: Vec::new(), warnings: Vec::new(), next_warning_id: 0 }
    }

    /// The position of the account with this identity, unique when the
    /// directory is well formed.
    pub fn index_of_id(&self, id: u128) -> (r: Option<usize>)
        ensures
            match r {
                Some(i) => i < self.users@.len() && self.users@[i as int].id == id,
                None => !has_user_id(self.users@, id),
            },
    {
        let mut i: usize = 0;
        while i < self.users.len()
            invariant
                i <= self.users@.len(),
                forall|j: int| 0 <= j < i ==> (#[trigger] self.users@[j]).id != id,
            decreases self.users@.len() - i,
        {
            if self.users[i].id == id {
                return Some(i);
            }
            i = i + 1;
        }
        None
    }

    /// Looks an account up by identity, name, email or live verification
    /// token, in that precedence; a query with no key finds nothing.
    pub fn find_user<'a>(
        &'a self,
        user_id: Option<u128>,
        name: Option<&String>,
        email: Option<&String>,
        token: Option<&String>,
    ) -> (r: Option<&'a User>)
        ensures
            r matches Some(u) ==> query_matches(
                *u,
                user_id,
                key_view(name),
                key_view(email),
                key_view(token),
            ) && self.users@.contains(*u),
            r is None ==> forall|i: int|
                0 <= i < self.users@.len() ==> !query_matches(
                    #[trigger] self.users@[i],
                    user_id,
                    key_view(name),
                    key_view(email),
                    key_view(token),
                ),
    {
        let ghost gname: Option<Seq<char>> = key_view(name);
        let ghost gemail: Option<Seq<char>> = key_view(email);
        let ghost gtoken: Option<Seq<char>> = key_view(token);
        let mut i: usize = 0;
        while i < self.users.len()
            invariant
                i <= self.users@.len(),
                gname == key_view(name),
                gemail == key_view(email),
                gtoken == key_view(token),
                forall|j: int|
                    0 <= j < i ==> !query_matches(
                        #[trigger] self.users@[j],
                        user_id,
                        gname,
                        gemail,
                        gtoken,
                    ),
            decreases self.users@.len() - i,
        {
            let u = &self.users[i];
            let hit: bool = if let Some(id) = user_id {
                u.id == id
            } else if let Some(n) = name {
                u.name == *n
            } else if let Some(e) = email {
                u.email == *e
            } else if let Some(t) = token {
                match &u.verification_token {
                    Some(v) => *v == *t,
                    None => false,
                }
            } else {
                false
            };
            if hit {
                assert(query_matches(self.users@[i as int], user_id, gname, gemail, gtoken));
                return Some(&self.users[i]);
            }
            i = i + 1;
        }
        None
    }

    /// Creates an account: unverified, ordinary role, identity, name and
    /// email all previously unused.
    pub fn register(
        &mut self,
        id: u128,
        name: String,
        email: String,
        password_hash: String,
        now: i64,
    ) -> (r: Result<(), Rejection>)
        requires
            old(self).wf(),
        ensures
            final(self).wf(),
            r is Ok <==> {
                &&& !has_user_id(old(self).users@, id)
                &&& !has_user_name(old(self).users@, name@)
                &&& !has_user_email(old(self).users@, email@)
            },
            r matches Err(e) ==> e == Rejection::Conflict && *final(self) == *old(self),
            r is Ok ==> final(self).users@ == old(self).users@.push(
                fresh_user(id, name, email, password_hash, now),
            ) && final(self).warnings == old(self).warnings && final(self).next_warning_id == old(
                self,
            ).next_warning_id,
    {
        let mut i: usize = 0;
        while i < self.users.len()
            invariant
                *self == *old(self),
                self.wf(),
                i <= self.users@.len(),
                forall|j: int|
                    0 <= j < i ==> {
                        let u = #[trigger] self.users@[j];
                        u.id != id && u.name@ != name@ && u.email@ != email@
                    },
            decreases self.users@.len() - i,
        {
            let u = &self.users[i];
            if u.id == id || u.name == name || u.email == email {
                return Err(Rejection::Conflict);
            }
            i = i + 1;
        }
        let ghost prior = self.users@;
        self.users.push(fresh_user_record(id, name, email, password_hash, now));
        proof {
            assert forall|a: int, b: int| 0 <= a < b < self.users@.len() implies (
            #[trigger] self.users@[a]).id != (#[trigger] self.users@[b]).id by {
                if b == prior.len() as int {
                    assert(self.users@[a] == prior[a]);
                }
            }
        }
        Ok(())
    }
}

/// Builds the account row a registration creates.
fn fresh_user_record(id: u128, name: String, email: String, password: String, now: i64) -> (r:
    User)
    ensures
        r == fresh_user(id, name, email, password, now),
{
    User {
        id,
        name,
        email,
        password,
        role: UserRole::User,
        verified: false,
        verification_token: None,
        token_expires_at: None,
        reset_token: None,
        reset_expires_at: None,
        created_at: Some(now),
        updated_at: None,
        description: None,
        avatar: None,
        facebook: None,
        x_id: None,
        banned_until: None,
        last_online: None,
    }
}

} // verus!
