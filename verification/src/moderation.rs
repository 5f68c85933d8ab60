//! Moderation ledger: warnings, temporary bans and their lazy expiry.
//!
//! Warnings are append-only history; the single live ban field on the
//! account is the only mutable moderation state. Bans do not stack: the
//! latest warning's ban wins, and only an explicit unban clears the field.

use vstd::prelude::*;

use crate::directory::{has_user_id, user_index, Directory};
use crate::model::{ban_active, User, UserWarning, SECONDS_PER_DAY};
use crate::outcome::Rejection;

verus! {

/// A principal is banned at `now` exactly when a ban end is recorded
/// strictly in the future.
pub fn is_banned(user: &User, now: i64) -> (r: bool)
    ensures
        r == ban_active(user.banned_until, now),
{
    match user.banned_until {
        Some(t) => t > now,
        None => false,
    }
}

/// The ban length a warning carries, with zero and negative requests
/// normalized to "no ban".
pub open spec fn ban_days_of(ban_days: Option<i32>) -> int {
    match ban_days {
        Some(d) => if d > 0 {
            d as int
        } else {
            0
        },
        None => 0,
    }
}

/// The account after a warning: a positive ban length overwrites the ban
/// end date; otherwise the ban state is untouched.
pub open spec fn warned_user(u: User, now: i64, days: int) -> User {
    if days > 0 {
        User { banned_until: Some((now + days * SECONDS_PER_DAY) as i64), ..u }
    } else {
        u
    }
}

/// The account with its live ban cleared.
pub open spec fn unbanned_user(u: User) -> User {
    User { banned_until: None, ..u }
}

/// Whether a ledger entry belongs to `target` and is newer than `since`.
pub open spec fn warning_selected(w: UserWarning, target: u128, since: Option<i64>) -> bool {
    w.user == target && match since {
        Some(s) => w.warn_time > s,
        None => true,
    }
}

impl Directory {
    /// Appends a warning to the ledger and, when a positive ban length is
    /// given, sets the target's ban end to `now` plus that many days,
    /// overwriting any earlier end date.
    ///
    /// Warning an absent principal, or naming an absent moderator, is a
    /// not-found error; an exhausted ledger sequence is a storage failure.
    pub fn warn_user(
        &mut self,
        target: u128,
        moderator: u128,
        comment: Option<String>,
        ban_days: Option<i32>,
        now: i64,
    ) -> (r: Result<UserWarning, Rejection>)
        requires
            old(self).wf(),
            ban_days_of(ban_days) > 0 ==> now + ban_days_of(ban_days) * SECONDS_PER_DAY
                <= i64::MAX,
        ensures
            final(self).wf(),
            r is Ok <==> {
                &&& has_user_id(old(self).users@, target)
                &&& has_user_id(old(self).users@, moderator)
                &&& old(self).next_warning_id < i64::MAX
            },
            r matches Err(e) ==> *final(self) == *old(self) && (if !has_user_id(
                old(self).users@,
                target,
            ) || !has_user_id(old(self).users@, moderator) {
                e == Rejection::NotFound
            } else {
                e == Rejection::StorageFailure
            }),
            r matches Ok(w) ==> {
                let ti = user_index(old(self).users@, target);
                let mi = user_index(old(self).users@, moderator);
                &&& w == (UserWarning {
                    id: old(self).next_warning_id,
                    user: target,
                    warn_time: now,
                    comment: comment,
                    warned_by: old(self).users@[mi].name,
                    banned: ban_days_of(ban_days) > 0,
                })
                &&& final(self).users@ == old(self).users@.update(
                    ti,
                    warned_user(old(self).users@[ti], now, ban_days_of(ban_days)),
                )
                &&& final(self).warnings@ == old(self).warnings@.push(w)
                &&& final(self).next_warning_id == old(self).next_warning_id + 1
            },
    {
        let ti = match self.index_of_id(target) {
            Some(i) => i,
            None => {
                return Err(Rejection::NotFound);
            },
        };
        let mi = match self.index_of_id(moderator) {
            Some(i) => i,
            None => {
                return Err(Rejection::NotFound);
            },
        };
        if self.next_warning_id == i64::MAX {
            return Err(Rejection::StorageFailure);
        }
        proof {
            lemma_user_index_unique(self.users@, target, ti as int);
            lemma_user_index_unique(self.users@, moderator, mi as int);
        }
        let days: i64 = match ban_days {
            Some(d) => if d > 0 {
                d as i64
            } else {
                0
            },
            None => 0,
        };
        let w = UserWarning {
            id: self.next_warning_id,
            user: target,
            warn_time: now,
            comment,
            warned_by: self.users[mi].name.clone(),
            banned: days > 0,
        };
        let record = w.duplicate();
        self.warnings.push(record);
        self.next_warning_id = self.next_warning_id + 1;
        if days > 0 {
            self.users[ti].banned_until = Some(now + days * SECONDS_PER_DAY);
        }
        Ok(w)
    }

    /// Clears the target's live ban; the warning history is untouched.
    pub fn unban_user(&mut self, target: u128) -> (r: Result<(), Rejection>)
        requires
            old(self).wf(),
        ensures
            final(self).wf(),
            r is Ok <==> has_user_id(old(self).users@, target),
            r matches Err(e) ==> e == Rejection::NotFound && *final(self) == *old(self),
            r is Ok ==> {
                let ti = user_index(old(self).users@, target);
                &&& final(self).users@ == old(self).users@.update(
                    ti,
                    unbanned_user(old(self).users@[ti]),
                )
                &&& final(self).warnings == old(self).warnings
                &&& final(self).next_warning_id == old(self).next_warning_id
            },
    {
        let ti = match self.index_of_id(target) {
            Some(i) => i,
            None => {
                return Err(Rejection::NotFound);
            },
        };
        proof {
            lemma_user_index_unique(self.users@, target, ti as int);
        }
        self.users[ti].banned_until = None;
        Ok(())
    }

    /// The target's ledger entries, newest-relevant: those after `since`,
    /// or the full history when `since` is absent, in ledger order.
    pub fn list_warnings(&self, target: u128, since: Option<i64>) -> (r: Vec<UserWarning>)
        ensures
            r@ == self.warnings@.filter(|w: UserWarning| warning_selected(w, target, since)),
    {
        let ghost pred = |w: UserWarning| warning_selected(w, target, since);
        let mut r: Vec<UserWarning> = Vec::new();
        let mut i: usize = 0;
        proof {
            reveal(Seq::filter);
        }
        while i < self.warnings.len()
            invariant
                i <= self.warnings@.len(),
                pred == (|w: UserWarning| warning_selected(w, target, since)),
                r@ == self.warnings@.take(i as int).filter(pred),
            decreases self.warnings@.len() - i,
        {
            proof {
                reveal(Seq::filter);
                assert(self.warnings@.take(i + 1 as int).drop_last() =~= self.warnings@.take(
                    i as int,
                ));
                assert(self.warnings@.take(i + 1 as int).last() == self.warnings@[i as int]);
            }
            let w = &self.warnings[i];
            let hit = w.user == target && match since {
                Some(s) => w.warn_time > s,
                None => true,
            };
            if hit {
                r.push(w.duplicate());
            }
            i = i + 1;
        }
        proof {
            assert(self.warnings@.take(self.warnings@.len() as int) =~= self.warnings@);
        }
        r
    }
}

/// A warning with a positive ban length sets the ban end to `now` plus
/// that many days; a later warning carrying no ban neither clears nor
/// changes it, and only an explicit unban clears it.
pub proof fn lemma_warn_ban_lifecycle(u: User, now1: i64, days: int, now2: i64)
    requires
        days > 0,
        now1 + days * SECONDS_PER_DAY <= i64::MAX,
    ensures
        warned_user(u, now1, days).banned_until == Some((now1 + days * SECONDS_PER_DAY) as i64),
        warned_user(warned_user(u, now1, days), now2, 0) == warned_user(u, now1, days),
        unbanned_user(warned_user(u, now1, days)).banned_until is None,
{
}

/// Under unique identities, any position holding the identity is the one
/// `user_index` names.
pub proof fn lemma_user_index_unique(users: Seq<User>, id: u128, i: int)
    requires
        0 <= i < users.len(),
        users[i].id == id,
        forall|a: int, b: int|
            0 <= a < b < users.len() ==> (#[trigger] users[a]).id != (#[trigger] users[b]).id,
    ensures
        user_index(users, id) == i,
{
    assert(has_user_id(users, id));
    crate::directory::lemma_user_index(users, id);
    let w = user_index(users, id);
    if w < i {
        assert(users[w].id != users[i].id);
    } else if w > i {
        assert(users[i].id != users[w].id);
    }
}

} // verus!
