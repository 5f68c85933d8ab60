//! Token lifecycle: time-bounded identity-proof tokens.
//!
//! Two independent kinds share one contract shape: verification tokens
//! prove email ownership at registration, reset tokens authorize a password
//! change. Each principal holds at most one live token per kind (a new
//! issue overwrites), a token is valid only strictly before its expiry, and
//! a successful verification consumes the token.

use vstd::prelude::*;

use crate::directory::{has_user_id, user_index, Directory};
use crate::model::User;
use crate::moderation::lemma_user_index_unique;
use crate::outcome::Rejection;

verus! {

/// The two identity-proof workflows a token can serve.
#[derive(Clone, Copy, Debug, PartialEq, Eq, Structural)]
pub enum TokenKind {
    Verification,
    Reset,
}

/// The token value an account stores for the kind.
pub open spec fn token_of(u: User, kind: TokenKind) -> Option<String> {
    match kind {
        TokenKind::Verification => u.verification_token,
        TokenKind::Reset => u.reset_token,
    }
}

/// The expiry an account stores for the kind.
pub open spec fn expiry_of(u: User, kind: TokenKind) -> Option<i64> {
    match kind {
        TokenKind::Verification => u.token_expires_at,
        TokenKind::Reset => u.reset_expires_at,
    }
}

/// The account with the kind's slot overwritten by a new token.
pub open spec fn with_token(u: User, kind: TokenKind, value: String, expires: i64) -> User {
    match kind {
        TokenKind::Verification => User {
            verification_token: Some(value),
            token_expires_at: Some(expires),
            ..u
        },
        TokenKind::Reset => User { reset_token: Some(value), reset_expires_at: Some(expires), ..u },
    }
}

/// The account with the kind's slot cleared.
pub open spec fn without_token(u: User, kind: TokenKind) -> User {
    match kind {
        TokenKind::Verification => User { verification_token: None, token_expires_at: None, ..u },
        TokenKind::Reset => User { reset_token: None, reset_expires_at: None, ..u },
    }
}

/// The account after a successful verification: marked verified and the
/// verification slot cleared, atomically.
pub open spec fn consumed_user(u: User) -> User {
    User { verified: true, verification_token: None, token_expires_at: None, ..u }
}

/// Whether the account stores this token value for the kind.
pub open spec fn holds_token(u: User, value: Seq<char>, kind: TokenKind) -> bool {
    token_of(u, kind) matches Some(t) && t@ == value
}

/// Whether the kind's slot is live at `now`: an expiry equal to `now`
/// already counts as expired.
pub open spec fn token_live(u: User, kind: TokenKind, now: i64) -> bool {
    expiry_of(u, kind) matches Some(e) && e > now
}

/// Whether some account holds this token value for the kind.
pub open spec fn has_token_holder(users: Seq<User>, value: Seq<char>, kind: TokenKind) -> bool {
    exists|i: int| 0 <= i < users.len() && holds_token(#[trigger] users[i], value, kind)
}

/// Whether some account holds this token value for the kind, live at `now`.
pub open spec fn has_live_token_holder(
    users: Seq<User>,
    value: Seq<char>,
    kind: TokenKind,
    now: i64,
) -> bool {
    exists|i: int|
        0 <= i < users.len() && holds_token(#[trigger] users[i], value, kind) && token_live(
            users[i],
            kind,
            now,
        )
}

/// Relies on uuid::Uuid::new_v4 for an unguessable random token value,
/// rendered in the 32-digit simple format; nothing is assumed about the
/// value beyond its length.
#[verifier::external_body]
fn fresh_token() -> (r: String)
    ensures
        r@.len() == 32,
{
    uuid::Uuid::new_v4().simple().to_string()
}

impl Directory {
    /// Issues a token of the kind for the target: stores an unguessable
    /// value with absolute expiry `now + ttl`, overwriting any earlier
    /// token of the same kind, and returns the stored value.
    pub fn issue_token(&mut self, target: u128, kind: TokenKind, ttl: i64, now: i64) -> (r: Result<
        String,
        Rejection,
    >)
        requires
            old(self).wf(),
            0 <= ttl,
            now + ttl <= i64::MAX,
        ensures
            final(self).wf(),
            r is Ok <==> has_user_id(old(self).users@, target),
            r matches Err(e) ==> e == Rejection::NotFound && *final(self) == *old(self),
            r matches Ok(t) ==> {
                let ti = user_index(old(self).users@, target);
                &&& final(self).users@ == old(self).users@.update(
                    ti,
                    with_token(old(self).users@[ti], kind, t, (now + ttl) as i64),
                )
                &&& final(self).warnings == old(self).warnings
                &&& final(self).next_warning_id == old(self).next_warning_id
            },
    {
        let ti = match self.index_of_id(target) {
            Some(i) => i,
            None => {
                return Err(Rejection::NotFound);
            },
        };
        proof {
            lemma_user_index_unique(self.users@, target, ti as int);
        }
        let token = fresh_token();
        let stored = token.clone();
        let expires = now + ttl;
        match kind {
            TokenKind::Verification => {
                self.users[ti].verification_token = Some(stored);
                self.users[ti].token_expires_at = Some(expires);
            },
            TokenKind::Reset => {
                self.users[ti].reset_token = Some(stored);
                self.users[ti].reset_expires_at = Some(expires);
            },
        }
        Ok(token)
    }

    /// Validates a presented token value of the kind at `now`.
    ///
    /// Fails with `TokenInvalid` when no account holds the value live; on
    /// success for a verification token the holder is atomically marked
    /// verified and the slot cleared (single use), while reset validation
    /// mutates nothing — the caller clears the slot only after the new
    /// credential is persisted.
    pub fn validate_token(&mut self, value: &String, kind: TokenKind, now: i64) -> (r: Result<
        User,
        Rejection,
    >)
        requires
            old(self).wf(),
        ensures
            final(self).wf(),
            r matches Err(e) ==> e == Rejection::TokenInvalid && *final(self) == *old(self),
            r is Err <==> !has_live_token_holder(old(self).users@, value@, kind, now),
            r matches Ok(u) ==> exists|i: int|
                {
                    &&& 0 <= i < old(self).users@.len()
                    &&& holds_token(#[trigger] old(self).users@[i], value@, kind)
                    &&& token_live(old(self).users@[i], kind, now)
                    &&& match kind {
                        TokenKind::Verification => {
                            &&& u == consumed_user(old(self).users@[i])
                            &&& final(self).users@ == old(self).users@.update(
                                i,
                                consumed_user(old(self).users@[i]),
                            )
                            &&& final(self).warnings == old(self).warnings
                            &&& final(self).next_warning_id == old(self).next_warning_id
                        },
                        TokenKind::Reset => u == old(self).users@[i] && *final(self) == *old(self),
                    }
                },
    {
        let mut i: usize = 0;
        while i < self.users.len()
            invariant
                *self == *old(self),
                self.wf(),
                i <= self.users@.len(),
                forall|j: int|
                    0 <= j < i ==> !(holds_token(#[trigger] self.users@[j], value@, kind)
                        && token_live(self.users@[j], kind, now)),
            decreases self.users@.len() - i,
        {
            let u = &self.users[i];
            let held: bool = match kind {
                TokenKind::Verification => match &u.verification_token {
                    Some(t) => *t == *value,
                    None => false,
                },
                TokenKind::Reset => match &u.reset_token {
                    Some(t) => *t == *value,
                    None => false,
                },
            };
            let live: bool = match kind {
                TokenKind::Verification => match u.token_expires_at {
                    Some(e) => e > now,
                    None => false,
                },
                TokenKind::Reset => match u.reset_expires_at {
                    Some(e) => e > now,
                    None => false,
                },
            };
            if held && live {
                match kind {
                    TokenKind::Verification => {
                        self.users[i].verified = true;
                        self.users[i].verification_token = None;
                        self.users[i].token_expires_at = None;
                        let out = self.users[i].duplicate();
                        proof {
                            assert(self.users@[i as int] == consumed_user(
                                old(self).users@[i as int],
                            ));
                        }
                        return Ok(out);
                    },
                    TokenKind::Reset => {
                        let out = self.users[i].duplicate();
                        return Ok(out);
                    },
                }
            }
            i = i + 1;
        }
        Err(Rejection::TokenInvalid)
    }

    /// Clears the kind's token slot on the target, whatever it held.
    pub fn clear_token(&mut self, target: u128, kind: TokenKind) -> (r: Result<(), Rejection>)
        requires
            old(self).wf(),
        ensures
            final(self).wf(),
            r is Ok <==> has_user_id(old(self).users@, target),
            r matches Err(e) ==> e == Rejection::NotFound && *final(self) == *old(self),
            r is Ok ==> {
                let ti = user_index(old(self).users@, target);
                &&& final(self).users@ == old(self).users@.update(
                    ti,
                    without_token(old(self).users@[ti], kind),
                )
                &&& final(self).warnings == old(self).warnings
                &&& final(self).next_warning_id == old(self).next_warning_id
            },
    {
        let ti = match self.index_of_id(target) {
            Some(i) => i,
            None => {
                return Err(Rejection::NotFound);
            },
        };
        proof {
            lemma_user_index_unique(self.users@, target, ti as int);
        }
        match kind {
            TokenKind::Verification => {
                self.users[ti].verification_token = None;
                self.users[ti].token_expires_at = None;
            },
            TokenKind::Reset => {
                self.users[ti].reset_token = None;
                self.users[ti].reset_expires_at = None;
            },
        }
        Ok(())
    }
}

/// Single use: once the only holder of a verification token value is
/// consumed, no holder of that value is left, so a second validation of the
/// same value must fail.
pub proof fn lemma_token_single_use(users: Seq<User>, value: Seq<char>, i: int)
    requires
        0 <= i < users.len(),
        holds_token(users[i], value, TokenKind::Verification),
        forall|j: int|
            0 <= j < users.len() && j != i ==> !holds_token(
                #[trigger] users[j],
                value,
                TokenKind::Verification,
            ),
    ensures
        !has_token_holder(
            users.update(i, consumed_user(users[i])),
            value,
            TokenKind::Verification,
        ),
        forall|t: i64|
            !has_live_token_holder(
                users.update(i, consumed_user(users[i])),
                value,
                TokenKind::Verification,
                t,
            ),
{
    let updated = users.update(i, consumed_user(users[i]));
    assert forall|j: int| 0 <= j < updated.len() implies !holds_token(
        #[trigger] updated[j],
        value,
        TokenKind::Verification,
    ) by {
        if j != i {
            assert(updated[j] == users[j]);
        }
    }
}

/// The counterpart of single use: right after an issue, the token is held
/// live, so its first validation before the expiry succeeds.
pub proof fn lemma_issued_token_live(
    users: Seq<User>,
    i: int,
    kind: TokenKind,
    value: String,
    expires: i64,
    t: i64,
)
    requires
        0 <= i < users.len(),
        t < expires,
    ensures
        has_live_token_holder(
            users.update(i, with_token(users[i], kind, value, expires)),
            value@,
            kind,
            t,
        ),
{
    let updated = users.update(i, with_token(users[i], kind, value, expires));
    assert(holds_token(updated[i], value@, kind) && token_live(updated[i], kind, t));
}

} // verus!
