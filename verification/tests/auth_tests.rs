use forum_core::auth::{require_elevated, AuthContext, Credential};
use forum_core::directory::Directory;
use forum_core::model::UserRole;
use forum_core::outcome::Rejection;

const NOW: i64 = 1_700_000_000;
const DAY: i64 = 86_400;

fn forum_with_accounts() -> Directory {
    let mut d = Directory::new();
    d.register(1, "alice".to_string(), "alice@example.com".to_string(), "h1".to_string(), NOW)
        .unwrap();
    d.register(2, "mallory".to_string(), "mallory@example.com".to_string(), "h2".to_string(), NOW)
        .unwrap();
    d.update_role(2, UserRole::Mod, NOW).unwrap();
    d
}

fn claims_for(user_id: u128, expires_at: i64) -> Credential {
    Credential::Claims {
        user_id,
        role: UserRole::User,
        expires_at,
    }
}

#[test]
fn missing_credential_unauthenticated() {
    let d = forum_with_accounts();
    let r = d.resolve(&Credential::Missing, NOW);
    assert!(matches!(r, Err(Rejection::Unauthenticated)));
}

#[test]
fn malformed_credential_invalid() {
    let d = forum_with_accounts();
    let r = d.resolve(&Credential::Malformed, NOW);
    assert!(matches!(r, Err(Rejection::InvalidCredential)));
}

#[test]
fn expired_credential_invalid() {
    let d = forum_with_accounts();
    let r = d.resolve(&claims_for(1, NOW), NOW);
    assert!(matches!(r, Err(Rejection::InvalidCredential)));
}

#[test]
fn unknown_principal_reads_as_invalid_credential() {
    let d = forum_with_accounts();
    let r = d.resolve(&claims_for(99, NOW + 3600), NOW);
    assert!(matches!(r, Err(Rejection::InvalidCredential)));
}

#[test]
fn sound_credential_resolves_the_principal() {
    let d = forum_with_accounts();
    let ctx = d.resolve(&claims_for(1, NOW + 3600), NOW).unwrap();
    assert_eq!(ctx.user.id, 1);
    assert_eq!(ctx.user.name, "alice");
}

#[test]
fn banned_principal_blocked_end_to_end() {
    let mut d = forum_with_accounts();
    d.warn_user(1, 2, Some("conduct".to_string()), Some(1), NOW).unwrap();
    // anywhere inside the one-day window the resolver rejects with Banned
    for t in [NOW, NOW + 1, NOW + 3600, NOW + DAY - 1] {
        let r = d.resolve(&claims_for(1, t + 3600), t);
        assert!(matches!(r, Err(Rejection::Banned)));
    }
    // once the ban has lapsed, resolution succeeds again without any sweep
    let r = d.resolve(&claims_for(1, NOW + 2 * DAY), NOW + DAY);
    assert!(r.is_ok());
}

#[test]
fn ban_blocks_before_role_or_ownership_checks() {
    let mut d = forum_with_accounts();
    // even a moderator is blocked while banned
    d.users[1].banned_until = Some(NOW + DAY);
    let r = d.resolve(&claims_for(2, NOW + 3600), NOW);
    assert!(matches!(r, Err(Rejection::Banned)));
}

#[test]
fn elevated_gate_on_resolved_context() {
    let d = forum_with_accounts();
    let user_ctx = d.resolve(&claims_for(1, NOW + 3600), NOW).unwrap();
    let mod_ctx = d.resolve(&claims_for(2, NOW + 3600), NOW).unwrap();
    assert!(matches!(
        require_elevated(&user_ctx),
        Err(Rejection::Forbidden)
    ));
    assert!(require_elevated(&mod_ctx).is_ok());
}

#[test]
fn context_carries_the_stored_account() {
    let d = forum_with_accounts();
    let AuthContext { user } = d.resolve(&claims_for(2, NOW + 60), NOW).unwrap();
    assert_eq!(user.role, UserRole::Mod);
    assert_eq!(user.email, "mallory@example.com");
}
