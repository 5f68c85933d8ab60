//! Self-service account updates and the password rules.

use vstd::prelude::*;
use vstd::string::StrSliceExecFns;

use crate::directory::{has_user_id, user_index, Directory};
use crate::model::{User, UserRole};
use crate::moderation::lemma_user_index_unique;
use crate::outcome::Rejection;
use crate::tokens::{has_live_token_holder, holds_token, token_live, without_token, TokenKind};

verus! {

/// The character-class bit a password character contributes: punctuation
/// around the digits, other leading punctuation, lowercase, uppercase and
/// digits each set their own bit.
pub open spec fn char_class_mask(c: char) -> u16 {
    let n = c as u32;
    if 58 <= n && n <= 64 {  // ':' through '@'
        1
    } else if 33 <= n && n <= 47 {  // '!' through '/'
        2
    } else if 97 <= n && n <= 122 {  // 'a' through 'z'
        4
    } else if 65 <= n && n <= 90 {  // 'A' through 'Z'
        8
    } else if 48 <= n && n <= 57 {  // '0' through '9'
        16
    } else {
        0
    }
}

/// The union of the character-class bits a string sets.
pub open spec fn mask_fold(s: Seq<char>) -> u16
    decreases s.len(),
{
    if s.len() == 0 {
        0u16
    } else {
        mask_fold(s.drop_last()) | char_class_mask(s.last())
    }
}

/// A password is acceptable when it is longer than eight characters and its
/// class bits reach 29: lowercase, uppercase and digits together with one
/// of the punctuation classes.
pub open spec fn password_acceptable(s: Seq<char>) -> bool {
    s.len() > 8 && mask_fold(s) >= 29
}

/// The class bits of a prefix are contained in the class bits of the whole.
proof fn lemma_mask_fold_prefix(s: Seq<char>, i: int)
    requires
        0 <= i <= s.len(),
    ensures
        mask_fold(s.take(i)) | mask_fold(s) == mask_fold(s),
    decreases s.len() - i,
{
    if i == s.len() {
        assert(s.take(i) =~= s);
        let t = mask_fold(s);
        assert(t | t == t) by (bit_vector);
    } else {
        lemma_mask_fold_prefix(s, i + 1);
        assert(s.take(i + 1).drop_last() =~= s.take(i));
        assert(s.take(i + 1).last() == s[i]);
        let a = mask_fold(s.take(i));
        let m = char_class_mask(s[i]);
        let t = mask_fold(s);
        assert(a | t == t) by (bit_vector)
            requires
                (a | m) | t == t,
        ;
    }
}

fn mask_of_char(c: char) -> (r: u16)
    ensures
        r == char_class_mask(c),
{
    let n = c as u32;
    if 58 <= n && n <= 64 {
        1
    } else if 33 <= n && n <= 47 {
        2
    } else if 97 <= n && n <= 122 {
        4
    } else if 65 <= n && n <= 90 {
        8
    } else if 48 <= n && n <= 57 {
        16
    } else {
        0
    }
}

/// Whether a proposed password is acceptable: longer than eight characters,
/// with lowercase, uppercase, digits and punctuation represented.
pub fn validate_password(s: &str) -> (r: bool)
    ensures
        r == password_acceptable(s@),
{
    let n = s.unicode_len();
    if n <= 8 {
        return false;
    }
    let mut acc: u16 = 0;
    let mut i: usize = 0;
    while i < n
        invariant
            n == s@.len(),
            8 < n,
            i <= n,
            acc == mask_fold(s@.take(i as int)),
            acc < 29,
        decreases n - i,
    {
        let c = s.get_char(i);
        let m = mask_of_char(c);
        proof {
            assert(s@.take(i + 1 as int).drop_last() =~= s@.take(i as int));
            assert(s@.take(i + 1 as int).last() == s@[i as int]);
        }
        acc = acc | m;
        if acc >= 29 {
            proof {
                lemma_mask_fold_prefix(s@, i + 1 as int);
                let p = mask_fold(s@.take(i + 1 as int));
                let t = mask_fold(s@);
                assert(t >= p) by (bit_vector)
                    requires
                        p | t == t,
                ;
            }
            return true;
        }
        i = i + 1;
    }
    proof {
        assert(s@.take(n as int) =~= s@);
    }
    false
}

/// The account with a new credential hash.
pub open spec fn with_password(u: User, hash: String, now: i64) -> User {
    User { password: hash, updated_at: Some(now), ..u }
}

/// The account with a new display name.
pub open spec fn with_name(u: User, name: String, now: i64) -> User {
    User { name: name, updated_at: Some(now), ..u }
}

/// The account with a new role.
pub open spec fn with_role(u: User, role: UserRole, now: i64) -> User {
    User { role: role, updated_at: Some(now), ..u }
}

/// The account with a new avatar reference.
pub open spec fn with_avatar(u: User, avatar: Option<String>, now: i64) -> User {
    User { avatar: avatar, updated_at: Some(now), ..u }
}

impl Directory {
    /// Renames the target account.
    pub fn update_name(&mut self, target: u128, name: String, now: i64) -> (r: Result<
        (),
        Rejection,
    >)
        requires
            old(self).wf(),
        ensures
            final(self).wf(),
            r is Ok <==> has_user_id(old(self).users@, target),
            r matches Err(e) ==> e == Rejection::NotFound && *final(self) == *old(self),
            r is Ok ==> {
                let ti = user_index(old(self).users@, target);
                &&& final(self).users@ == old(self).users@.update(
                    ti,
                    with_name(old(self).users@[ti], name, now),
                )
                &&& final(self).warnings == old(self).warnings
                &&& final(self).next_warning_id == old(self).next_warning_id
            },
    {
        let ti = match self.index_of_id(target) {
            Some(i) => i,
            None => {
                return Err(Rejection::NotFound);
            },
        };
        proof {
            lemma_user_index_unique(self.users@, target, ti as int);
        }
        self.users[ti].name = name;
        self.users[ti].updated_at = Some(now);
        proof {
            assert(self.users@ =~= old(self).users@.update(
                ti as int,
                with_name(old(self).users@[ti as int], name, now),
            ));
        }
        Ok(())
    }

    /// Changes the target account's role.
    pub fn update_role(&mut self, target: u128, role: UserRole, now: i64) -> (r: Result<
        (),
        Rejection,
    >)
        requires
            old(self).wf(),
        ensures
            final(self).wf(),
            r is Ok <==> has_user_id(old(self).users@, target),
            r matches Err(e) ==> e == Rejection::NotFound && *final(self) == *old(self),
            r is Ok ==> {
                let ti = user_index(old(self).users@, target);
                &&& final(self).users@ == old(self).users@.update(
                    ti,
                    with_role(old(self).users@[ti], role, now),
                )
                &&& final(self).warnings == old(self).warnings
                &&& final(self).next_warning_id == old(self).next_warning_id
            },
    {
        let ti = match self.index_of_id(target) {
            Some(i) => i,
            None => {
                return Err(Rejection::NotFound);
            },
        };
        proof {
            lemma_user_index_unique(self.users@, target, ti as int);
        }
        self.users[ti].role = role;
        self.users[ti].updated_at = Some(now);
        proof {
            assert(self.users@ =~= old(self).users@.update(
                ti as int,
                with_role(old(self).users@[ti as int], role, now),
            ));
        }
        Ok(())
    }

    /// Replaces the target account's avatar reference.
    pub fn update_avatar(&mut self, target: u128, avatar: Option<String>, now: i64) -> (r: Result<
        (),
        Rejection,
    >)
        requires
            old(self).wf(),
        ensures
            final(self).wf(),
            r is Ok <==> has_user_id(old(self).users@, target),
            r matches Err(e) ==> e == Rejection::NotFound && *final(self) == *old(self),
            r is Ok ==> {
                let ti = user_index(old(self).users@, target);
                &&& final(self).users@ == old(self).users@.update(
                    ti,
                    with_avatar(old(self).users@[ti], avatar, now),
                )
                &&& final(self).warnings == old(self).warnings
                &&& final(self).next_warning_id == old(self).next_warning_id
            },
    {
        let ti = match self.index_of_id(target) {
            Some(i) => i,
            None => {
                return Err(Rejection::NotFound);
            },
        };
        proof {
            lemma_user_index_unique(self.users@, target, ti as int);
        }
        self.users[ti].avatar = avatar;
        self.users[ti].updated_at = Some(now);
        proof {
            assert(self.users@ =~= old(self).users@.update(
                ti as int,
                with_avatar(old(self).users@[ti as int], avatar, now),
            ));
        }
        Ok(())
    }

    /// Stores a new credential hash on the target account.
    pub fn set_password(&mut self, target: u128, new_hash: String, now: i64) -> (r: Result<
        (),
        Rejection,
    >)
        requires
            old(self).wf(),
        ensures
            final(self).wf(),
            r is Ok <==> has_user_id(old(self).users@, target),
            r matches Err(e) ==> e == Rejection::NotFound && *final(self) == *old(self),
            r is Ok ==> {
                let ti = user_index(old(self).users@, target);
                &&& final(self).users@ == old(self).users@.update(
                    ti,
                    with_password(old(self).users@[ti], new_hash, now),
                )
                &&& final(self).warnings == old(self).warnings
                &&& final(self).next_warning_id == old(self).next_warning_id
            },
    {
        let ti = match self.index_of_id(target) {
            Some(i) => i,
            None => {
                return Err(Rejection::NotFound);
            },
        };
        proof {
            lemma_user_index_unique(self.users@, target, ti as int);
        }
        self.users[ti].password = new_hash;
        self.users[ti].updated_at = Some(now);
        proof {
            assert(self.users@ =~= old(self).users@.update(
                ti as int,
                with_password(old(self).users@[ti as int], new_hash, now),
            ));
        }
        Ok(())
    }

    /// Changes the target's password after its old credential was checked.
    ///
    /// The caller compares the presented old password against the stored
    /// hash (a cryptographic primitive outside this crate) and passes the
    /// outcome; an unknown target reads as an invalid credential, a failed
    /// comparison as insufficient authorization.
    pub fn change_password(
        &mut self,
        target: u128,
        old_password_matches: bool,
        new_hash: String,
        now: i64,
    ) -> (r: Result<(), Rejection>)
        requires
            old(self).wf(),
        ensures
            final(self).wf(),
            r is Ok <==> has_user_id(old(self).users@, target) && old_password_matches,
            r matches Err(e) ==> *final(self) == *old(self) && (if !has_user_id(
                old(self).users@,
                target,
            ) {
                e == Rejection::InvalidCredential
            } else {
                e == Rejection::Forbidden
            }),
            r is Ok ==> {
                let ti = user_index(old(self).users@, target);
                &&& final(self).users@ == old(self).users@.update(
                    ti,
                    with_password(old(self).users@[ti], new_hash, now),
                )
                &&& final(self).warnings == old(self).warnings
                &&& final(self).next_warning_id == old(self).next_warning_id
            },
    {
        let present = match self.index_of_id(target) {
            Some(_) => true,
            None => false,
        };
        if !present {
            return Err(Rejection::InvalidCredential);
        }
        if !old_password_matches {
            return Err(Rejection::Forbidden);
        }
        match self.set_password(target, new_hash, now) {
            Ok(_) => Ok(()),
            Err(e) => Err(e),
        }
    }

    /// Completes a password reset: validates the presented reset token,
    /// stores the new credential hash, and clears the token, so that a
    /// second reset with the same token value fails.
    pub fn reset_password(&mut self, value: &String, new_hash: String, now: i64) -> (r: Result<
        (),
        Rejection,
    >)
        requires
            old(self).wf(),
        ensures
            final(self).wf(),
            r matches Err(e) ==> e == Rejection::TokenInvalid && *final(self) == *old(self),
            r is Err <==> !has_live_token_holder(old(self).users@, value@, TokenKind::Reset, now),
            r is Ok ==> exists|i: int|
                {
                    &&& 0 <= i < old(self).users@.len()
                    &&& holds_token(#[trigger] old(self).users@[i], value@, TokenKind::Reset)
                    &&& token_live(old(self).users@[i], TokenKind::Reset, now)
                    &&& final(self).users@ == old(self).users@.update(
                        i,
                        without_token(
                            with_password(old(self).users@[i], new_hash, now),
                            TokenKind::Reset,
                        ),
                    )
                    &&& final(self).warnings == old(self).warnings
                    &&& final(self).next_warning_id == old(self).next_warning_id
                },
    {
        let holder = match self.validate_token(value, TokenKind::Reset, now) {
            Ok(u) => u,
            Err(e) => {
                return Err(e);
            },
        };
        let ghost wi = choose|i: int|
            {
                &&& 0 <= i < self.users@.len()
                &&& holds_token(#[trigger] self.users@[i], value@, TokenKind::Reset)
                &&& token_live(self.users@[i], TokenKind::Reset, now)
                &&& holder == self.users@[i]
            };
        proof {
            assert(0 <= wi < self.users@.len() && holder == self.users@[wi]);
        }
        let ti = match self.index_of_id(holder.id) {
            Some(i) => i,
            None => {
                proof {
                    assert(false);
                }
                return Err(Rejection::TokenInvalid);
            },
        };
        proof {
            if ti as int != wi {
                assert(self.users@[ti as int].id != self.users@[wi].id);
            }
        }
        self.users[ti].password = new_hash;
        self.users[ti].updated_at = Some(now);
        self.users[ti].reset_token = None;
        self.users[ti].reset_expires_at = None;
        proof {
            assert(self.users@ =~= old(self).users@.update(
                wi,
                without_token(
                    with_password(old(self).users@[wi], new_hash, now),
                    TokenKind::Reset,
                ),
            ));
        }
        Ok(())
    }
}

} // verus!
