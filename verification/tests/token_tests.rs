use forum_core::directory::Directory;
use forum_core::outcome::Rejection;
use forum_core::tokens::TokenKind;

const NOW: i64 = 1_700_000_000;
const DAY: i64 = 86_400;

fn forum_with_new_account() -> Directory {
    let mut d = Directory::new();
    d.register(1, "newbie".to_string(), "newbie@example.com".to_string(), "h".to_string(), NOW)
        .unwrap();
    d
}

#[test]
fn issued_token_is_opaque_and_stored() {
    let mut d = forum_with_new_account();
    let t = d.issue_token(1, TokenKind::Verification, DAY, NOW).unwrap();
    assert_eq!(t.len(), 32);
    assert_eq!(d.users[0].verification_token, Some(t));
    assert_eq!(d.users[0].token_expires_at, Some(NOW + DAY));
}

#[test]
fn issue_for_unknown_principal_not_found() {
    let mut d = forum_with_new_account();
    assert!(matches!(
        d.issue_token(9, TokenKind::Verification, DAY, NOW),
        Err(Rejection::NotFound)
    ));
}

#[test]
fn token_single_use() {
    let mut d = forum_with_new_account();
    let t = d.issue_token(1, TokenKind::Verification, DAY, NOW).unwrap();
    let u = d.validate_token(&t, TokenKind::Verification, NOW + 10).unwrap();
    assert!(u.verified);
    assert_eq!(u.verification_token, None);
    let again = d.validate_token(&t, TokenKind::Verification, NOW + 20);
    assert!(matches!(again, Err(Rejection::TokenInvalid)));
}

#[test]
fn token_expiring_now_is_invalid() {
    let mut d = forum_with_new_account();
    let t = d.issue_token(1, TokenKind::Verification, 10, NOW).unwrap();
    // expiry equals now: expired, not valid
    let r = d.validate_token(&t, TokenKind::Verification, NOW + 10);
    assert!(matches!(r, Err(Rejection::TokenInvalid)));
    // strictly before expiry: valid
    let u = d.validate_token(&t, TokenKind::Verification, NOW + 9).unwrap();
    assert!(u.verified);
}

#[test]
fn registration_verification_scenario() {
    let mut d = forum_with_new_account();
    assert!(!d.users[0].verified);
    let t = d.issue_token(1, TokenKind::Verification, DAY, NOW).unwrap();

    // one second past the 24-hour ttl: rejected, nothing consumed
    let late = d.validate_token(&t, TokenKind::Verification, NOW + DAY + 1);
    assert!(matches!(late, Err(Rejection::TokenInvalid)));
    assert_eq!(d.users[0].verification_token, Some(t.clone()));

    // one second before the ttl: accepted, account verified, token cleared
    let u = d.validate_token(&t, TokenKind::Verification, NOW + DAY - 1).unwrap();
    assert!(u.verified);
    assert!(d.users[0].verified);
    assert_eq!(d.users[0].verification_token, None);
    assert_eq!(d.users[0].token_expires_at, None);
}

#[test]
fn reissue_overwrites_previous_token() {
    let mut d = forum_with_new_account();
    let first = d.issue_token(1, TokenKind::Verification, DAY, NOW).unwrap();
    let second = d.issue_token(1, TokenKind::Verification, DAY, NOW).unwrap();
    assert_ne!(first, second);
    assert!(matches!(
        d.validate_token(&first, TokenKind::Verification, NOW + 1),
        Err(Rejection::TokenInvalid)
    ));
    assert!(d.validate_token(&second, TokenKind::Verification, NOW + 1).is_ok());
}

#[test]
fn unknown_token_is_invalid() {
    let mut d = forum_with_new_account();
    let r = d.validate_token(&"nonsense".to_string(), TokenKind::Verification, NOW);
    assert!(matches!(r, Err(Rejection::TokenInvalid)));
}

#[test]
fn token_kinds_are_independent() {
    let mut d = forum_with_new_account();
    let v = d.issue_token(1, TokenKind::Verification, DAY, NOW).unwrap();
    let r = d.issue_token(1, TokenKind::Reset, DAY, NOW).unwrap();
    assert_eq!(d.users[0].verification_token, Some(v.clone()));
    assert_eq!(d.users[0].reset_token, Some(r.clone()));
    // a reset token is no verification token
    assert!(matches!(
        d.validate_token(&r, TokenKind::Verification, NOW + 1),
        Err(Rejection::TokenInvalid)
    ));
}

#[test]
fn reset_validation_mutates_nothing() {
    let mut d = forum_with_new_account();
    let t = d.issue_token(1, TokenKind::Reset, DAY, NOW).unwrap();
    let u = d.validate_token(&t, TokenKind::Reset, NOW + 1).unwrap();
    assert_eq!(u.id, 1);
    // still present: reset validation leaves the slot to the caller
    assert_eq!(d.users[0].reset_token, Some(t.clone()));
    assert!(d.validate_token(&t, TokenKind::Reset, NOW + 2).is_ok());
}

#[test]
fn reset_password_flow_is_single_use() {
    let mut d = forum_with_new_account();
    let t = d.issue_token(1, TokenKind::Reset, DAY, NOW).unwrap();
    d.reset_password(&t, "newhash".to_string(), NOW + 5).unwrap();
    assert_eq!(d.users[0].password, "newhash");
    assert_eq!(d.users[0].reset_token, None);
    assert_eq!(d.users[0].reset_expires_at, None);
    // the same token a second time fails
    let again = d.reset_password(&t, "otherhash".to_string(), NOW + 6);
    assert!(matches!(again, Err(Rejection::TokenInvalid)));
    assert_eq!(d.users[0].password, "newhash");
}

#[test]
fn expired_reset_token_resets_nothing() {
    let mut d = forum_with_new_account();
    let t = d.issue_token(1, TokenKind::Reset, 10, NOW).unwrap();
    let r = d.reset_password(&t, "newhash".to_string(), NOW + 10);
    assert!(matches!(r, Err(Rejection::TokenInvalid)));
    assert_eq!(d.users[0].password, "h");
}

#[test]
fn clear_token_empties_the_slot() {
    let mut d = forum_with_new_account();
    let t = d.issue_token(1, TokenKind::Verification, DAY, NOW).unwrap();
    d.clear_token(1, TokenKind::Verification).unwrap();
    assert_eq!(d.users[0].verification_token, None);
    assert_eq!(d.users[0].token_expires_at, None);
    assert!(matches!(
        d.validate_token(&t, TokenKind::Verification, NOW + 1),
        Err(Rejection::TokenInvalid)
    ));
}
