use forum_core::directory::Directory;
use forum_core::model::{UserRole, SECONDS_PER_DAY};
use forum_core::moderation::is_banned;
use forum_core::outcome::Rejection;

const NOW: i64 = 1_700_000_000;

fn forum_with_mod() -> Directory {
    let mut d = Directory::new();
    d.register(1, "alice".to_string(), "alice@example.com".to_string(), "h1".to_string(), NOW)
        .unwrap();
    d.register(2, "mallory".to_string(), "mallory@example.com".to_string(), "h2".to_string(), NOW)
        .unwrap();
    d.update_role(2, UserRole::Mod, NOW).unwrap();
    d
}

#[test]
fn ban_in_past_is_no_ban() {
    let mut d = forum_with_mod();
    d.users[0].banned_until = Some(NOW - 1);
    assert!(!is_banned(&d.users[0], NOW));
}

#[test]
fn absent_ban_is_no_ban() {
    let d = forum_with_mod();
    assert!(!is_banned(&d.users[0], NOW));
}

#[test]
fn future_ban_is_active() {
    let mut d = forum_with_mod();
    d.users[0].banned_until = Some(NOW + 1);
    assert!(is_banned(&d.users[0], NOW));
}

#[test]
fn ban_ending_now_is_over() {
    let mut d = forum_with_mod();
    d.users[0].banned_until = Some(NOW);
    assert!(!is_banned(&d.users[0], NOW));
}

#[test]
fn warn_with_days_sets_ban_end() {
    let mut d = forum_with_mod();
    let w = d.warn_user(1, 2, Some("spam".to_string()), Some(3), NOW).unwrap();
    assert_eq!(d.users[0].banned_until, Some(NOW + 3 * SECONDS_PER_DAY));
    assert!(w.banned);
    assert_eq!(w.user, 1);
    assert_eq!(w.warn_time, NOW);
    assert_eq!(w.warned_by, "mallory");
    assert_eq!(w.comment, Some("spam".to_string()));
}

#[test]
fn warn_overwrites_earlier_ban_end() {
    let mut d = forum_with_mod();
    d.warn_user(1, 2, None, Some(10), NOW).unwrap();
    d.warn_user(1, 2, None, Some(1), NOW + 5).unwrap();
    assert_eq!(d.users[0].banned_until, Some(NOW + 5 + SECONDS_PER_DAY));
}

#[test]
fn warn_with_zero_days_keeps_ban() {
    let mut d = forum_with_mod();
    d.warn_user(1, 2, None, Some(2), NOW).unwrap();
    let w = d.warn_user(1, 2, Some("again".to_string()), Some(0), NOW + 100).unwrap();
    assert!(!w.banned);
    assert_eq!(d.users[0].banned_until, Some(NOW + 2 * SECONDS_PER_DAY));
}

#[test]
fn warn_without_days_changes_nothing_but_ledger() {
    let mut d = forum_with_mod();
    let w = d.warn_user(1, 2, None, None, NOW).unwrap();
    assert!(!w.banned);
    assert_eq!(d.users[0].banned_until, None);
    assert_eq!(d.warnings.len(), 1);
}

#[test]
fn warn_with_negative_days_is_no_ban() {
    let mut d = forum_with_mod();
    let w = d.warn_user(1, 2, None, Some(-5), NOW).unwrap();
    assert!(!w.banned);
    assert_eq!(d.users[0].banned_until, None);
}

#[test]
fn warn_unknown_target_not_found() {
    let mut d = forum_with_mod();
    assert!(matches!(
        d.warn_user(99, 2, None, Some(1), NOW),
        Err(Rejection::NotFound)
    ));
    assert_eq!(d.warnings.len(), 0);
}

#[test]
fn unban_clears_the_live_ban_only() {
    let mut d = forum_with_mod();
    d.warn_user(1, 2, None, Some(7), NOW).unwrap();
    assert_eq!(d.warnings.len(), 1);
    d.unban_user(1).unwrap();
    assert_eq!(d.users[0].banned_until, None);
    // the ledger keeps its history
    assert_eq!(d.warnings.len(), 1);
}

#[test]
fn unban_unknown_target_not_found() {
    let mut d = forum_with_mod();
    assert!(matches!(d.unban_user(42), Err(Rejection::NotFound)));
}

#[test]
fn warning_ids_count_up() {
    let mut d = forum_with_mod();
    let w0 = d.warn_user(1, 2, None, None, NOW).unwrap();
    let w1 = d.warn_user(1, 2, None, None, NOW + 1).unwrap();
    assert_eq!(w0.id, 0);
    assert_eq!(w1.id, 1);
}

#[test]
fn exhausted_ledger_sequence_is_a_storage_failure() {
    let mut d = forum_with_mod();
    d.next_warning_id = i64::MAX;
    assert!(matches!(
        d.warn_user(1, 2, None, None, NOW),
        Err(Rejection::StorageFailure)
    ));
}

#[test]
fn list_warnings_filters_by_time() {
    let mut d = forum_with_mod();
    d.warn_user(1, 2, Some("first".to_string()), None, NOW).unwrap();
    d.warn_user(1, 2, Some("second".to_string()), None, NOW + 100).unwrap();
    d.warn_user(2, 1, Some("other target".to_string()), None, NOW + 200).unwrap();

    let all = d.list_warnings(1, None);
    assert_eq!(all.len(), 2);
    assert_eq!(all[0].comment, Some("first".to_string()));
    assert_eq!(all[1].comment, Some("second".to_string()));

    let recent = d.list_warnings(1, Some(NOW));
    assert_eq!(recent.len(), 1);
    assert_eq!(recent[0].comment, Some("second".to_string()));
}
