//! Auth context resolver.
//!
//! Runs first on every protected request: takes the decode outcome of the
//! presented bearer credential (signature checking is an external
//! primitive), loads the principal, checks ban state, and produces the
//! authenticated context every downstream check consumes.

use vstd::prelude::*;

use crate::directory::{has_user_id, user_index, Directory};
use crate::model::{ban_active, elevated, User, UserRole, SECONDS_PER_DAY};
use crate::moderation::{lemma_user_index_unique, warned_user};
use crate::outcome::Rejection;

verus! {

/// The decode outcome of the bearer credential on a request, as the
/// credential codec collaborator reports it.
pub enum Credential {
    /// No credential was presented.
    Missing,
    /// The credential is structurally invalid or its signature fails.
    Malformed,
    /// The verified claims the credential carries.
    Claims { user_id: u128, role: UserRole, expires_at: i64 },
}

/// The acting identity a resolved request exposes to the role policy and
/// the ownership guard.
pub struct AuthContext {
    pub user: User,
}

/// What resolution of a credential against the directory yields: the rules
/// of the `NoCredential -> CredentialPresented -> Resolved | Rejected`
/// request lifecycle.
///
/// A missing principal is reported exactly as a garbled credential, so the
/// caller cannot distinguish "exists but invalid" from "does not exist";
/// an active ban blocks resolution outright.
pub open spec fn resolve_outcome(users: Seq<User>, cred: Credential, now: i64) -> Result<
    User,
    Rejection,
> {
    match cred {
        Credential::Missing => Err(Rejection::Unauthenticated),
        Credential::Malformed => Err(Rejection::InvalidCredential),
        Credential::Claims { user_id, role, expires_at } => {
            if expires_at <= now {
                Err(Rejection::InvalidCredential)
            } else if !has_user_id(users, user_id) {
                Err(Rejection::InvalidCredential)
            } else {
                let u = users[user_index(users, user_id)];
                if ban_active(u.banned_until, now) {
                    Err(Rejection::Banned)
                } else {
                    Ok(u)
                }
            }
        },
    }
}

impl Directory {
    /// Resolves a request's credential into an authenticated context, or
    /// rejects it.
    pub fn resolve(&self, cred: &Credential, now: i64) -> (r: Result<AuthContext, Rejection>)
        requires
            self.wf(),
        ensures
            match r {
                Ok(ctx) => resolve_outcome(self.users@, *cred, now) == Ok::<User, Rejection>(
                    ctx.user,
                ),
                Err(e) => resolve_outcome(self.users@, *cred, now) == Err::<User, Rejection>(e),
            },
    {
        match cred {
            Credential::Missing => Err(Rejection::Unauthenticated),
            Credential::Malformed => Err(Rejection::InvalidCredential),
            Credential::Claims { user_id, role: _, expires_at } => {
                if *expires_at <= now {
                    return Err(Rejection::InvalidCredential);
                }
                let ti = match self.index_of_id(*user_id) {
                    Some(i) => i,
                    None => {
                        return Err(Rejection::InvalidCredential);
                    },
                };
                proof {
                    lemma_user_index_unique(self.users@, *user_id, ti as int);
                }
                let u = &self.users[ti];
                match u.banned_until {
                    Some(t) if t > now => Err(Rejection::Banned),
                    _ => Ok(AuthContext { user: u.duplicate() }),
                }
            },
        }
    }
}

/// Second-layer gate for route groups restricted to elevated roles; rejects
/// a resolved context whose role is not elevated.
pub fn require_elevated(ctx: &AuthContext) -> (r: Result<(), Rejection>)
    ensures
        r is Ok <==> elevated(ctx.user.role),
        r matches Err(e) ==> e == Rejection::Forbidden,
{
    if ctx.user.role.is_elevated() {
        Ok(())
    } else {
        Err(Rejection::Forbidden)
    }
}

/// A banned principal is blocked end to end: after a warning banned the
/// principal for `days` days at `now`, any credential naming the principal
/// resolves to `Banned` at every instant inside the ban window, whatever
/// the claims' role or expiry.
pub proof fn lemma_banned_principal_blocked(
    users: Seq<User>,
    target: u128,
    days: int,
    now: i64,
    t: i64,
    cred: Credential,
)
    requires
        forall|a: int, b: int|
            0 <= a < b < users.len() ==> (#[trigger] users[a]).id != (#[trigger] users[b]).id,
        has_user_id(users, target),
        days > 0,
        now + days * SECONDS_PER_DAY <= i64::MAX,
        now <= t < now + days * SECONDS_PER_DAY,
        cred matches Credential::Claims { user_id, role, expires_at } && user_id == target
            && expires_at > t,
    ensures
        ({
            let ti = user_index(users, target);
            let after = users.update(ti, warned_user(users[ti], now, days));
            resolve_outcome(after, cred, t) == Err::<User, Rejection>(Rejection::Banned)
        }),
{
    crate::directory::lemma_user_index(users, target);
    let ti = user_index(users, target);
    let after = users.update(ti, warned_user(users[ti], now, days));
    assert(after[ti].id == target);
    assert(has_user_id(after, target));
    assert forall|a: int, b: int| 0 <= a < b < after.len() implies (#[trigger] after[a]).id != (
    #[trigger] after[b]).id by {
        assert(after[a].id == users[a].id);
        assert(after[b].id == users[b].id);
    }
    lemma_user_index_unique(after, target, ti);
    assert(after[ti].banned_until == Some((now + days * SECONDS_PER_DAY) as i64));
    assert(ban_active(after[ti].banned_until, t));
}

} // verus!
