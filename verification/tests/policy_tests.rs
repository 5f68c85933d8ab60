use forum_core::model::{Section, UserRole};
use forum_core::outcome::Rejection;
use forum_core::policy::{
    can_view, can_view_opt, requires_elevated, role_check, validate_roles, visible_sections,
    Action,
};

fn section_for(id: i64, roles: Vec<UserRole>) -> Section {
    Section {
        id,
        name: format!("section-{}", id),
        description: None,
        allowed_for: roles,
    }
}

#[test]
fn can_view_member_role() {
    let s = section_for(1, vec![UserRole::Admin, UserRole::User]);
    assert!(can_view(UserRole::User, &s));
    assert!(can_view(UserRole::Admin, &s));
}

#[test]
fn can_view_nonmember_role() {
    let s = section_for(2, vec![UserRole::Admin, UserRole::Mod]);
    assert!(!can_view(UserRole::User, &s));
}

#[test]
fn can_view_absent_role_rejected() {
    let s = section_for(3, vec![UserRole::Admin, UserRole::Mod, UserRole::User]);
    assert!(!can_view_opt(None, &s));
    assert!(can_view_opt(Some(UserRole::Mod), &s));
}

#[test]
fn section_with_empty_roles_rejected() {
    let r = Section::new(7, "ghost town".to_string(), None, vec![]);
    assert!(matches!(r, Err(Rejection::Conflict)));
}

#[test]
fn section_with_roles_created() {
    let r = Section::new(
        8,
        "general".to_string(),
        Some("talk".to_string()),
        vec![UserRole::User],
    );
    let s = r.unwrap();
    assert_eq!(s.id, 8);
    assert_eq!(s.name, "general");
    assert_eq!(s.allowed_for, vec![UserRole::User]);
}

#[test]
fn validate_roles_requires_one() {
    let none: Vec<UserRole> = vec![];
    assert!(matches!(validate_roles(&none), Err(Rejection::Conflict)));
    assert!(validate_roles(&vec![UserRole::Mod]).is_ok());
}

#[test]
fn elevated_actions_are_the_fixed_four() {
    assert!(requires_elevated(Action::DeleteThread));
    assert!(requires_elevated(Action::LockThread));
    assert!(requires_elevated(Action::WarnUser));
    assert!(requires_elevated(Action::UnbanUser));
    assert!(!requires_elevated(Action::ViewSection));
    assert!(!requires_elevated(Action::CreateThread));
    assert!(!requires_elevated(Action::EditThread));
    assert!(!requires_elevated(Action::CreatePost));
    assert!(!requires_elevated(Action::EditPost));
    assert!(!requires_elevated(Action::DeletePost));
    assert!(!requires_elevated(Action::SendPrivateMessage));
}

#[test]
fn role_check_gates_route_groups() {
    let elevated = vec![UserRole::Admin, UserRole::Mod];
    assert!(role_check(UserRole::Admin, &elevated).is_ok());
    assert!(role_check(UserRole::Mod, &elevated).is_ok());
    assert!(matches!(
        role_check(UserRole::User, &elevated),
        Err(Rejection::Forbidden)
    ));
}

#[test]
fn visible_sections_keeps_only_permitted() {
    let sections = vec![
        section_for(1, vec![UserRole::Admin]),
        section_for(2, vec![UserRole::Admin, UserRole::User]),
        section_for(3, vec![UserRole::Mod]),
        section_for(4, vec![UserRole::User]),
    ];
    let visible = visible_sections(UserRole::User, sections);
    let ids: Vec<i64> = visible.iter().map(|s| s.id).collect();
    assert_eq!(ids, vec![2, 4]);
}
