use backend::models::user::{User, UserRole, UserUpdate};

#[test]
fn test_user_creation() {
    let user = User::new(
        "test@example.com".to_string(),
        "hashed_password".to_string(),
        "Test User".to_string(),
    );

    assert_eq!(user.email, "test@example.com");
    assert_eq!(user.name, "Test User");
    assert_eq!(user.role, UserRole::User);
    assert!(user.is_active);
    assert!(!user.email_verified);
}

#[test]
fn test_user_roles() {
    assert!(UserRole::Admin.is_admin());
    assert!(!UserRole::User.is_admin());
    assert!(UserRole::Admin.is_moderator_or_admin());
    assert!(UserRole::Moderator.is_moderator_or_admin());
    assert!(!UserRole::User.is_moderator_or_admin());
}

#[test]
fn test_to_public() {
    let user = User::new(
        "test@example.com".to_string(),
        "hashed_password".to_string(),
        "Test User".to_string(),
    );

    let public = user.to_public();
    assert_eq!(public.email, user.email);
    assert_eq!(public.name, user.name);
    assert_eq!(public.id, user.id);
}

#[test]
fn test_update_last_login() {
    let mut user = User::new(
        "test@example.com".to_string(),
        "hashed_password".to_string(),
        "Test User".to_string(),
    );

    assert!(user.last_login_at.is_none());
    user.update_last_login();
    assert!(user.last_login_at.is_some());
}

#[test]
fn update_last_login_at_a_given_time() {
    let mut user = User::new_at("a@b.c".to_string(), "h".to_string(), "A".to_string(), 1_000);
    user.update_last_login_at(5_000);
    assert_eq!(user.last_login_at, Some(5_000));
    assert_eq!(user.updated_at, 5_000);
    assert_eq!(user.created_at, 1_000);
}

#[test]
fn test_user_update() {
    let mut user = User::new(
        "test@example.com".to_string(),
        "hashed_password".to_string(),
        "Old Name".to_string(),
    );

    let update = UserUpdate {
        name: Some("New Name".to_string()),
        avatar_url: Some("https://example.com/avatar.png".to_string()),
    };

    assert!(update.has_changes());
    update.apply_to(&mut user);

    assert_eq!(user.name, "New Name");
    assert_eq!(user.avatar_url, Some("https://example.com/avatar.png".to_string()));
}

#[test]
fn empty_user_update_changes_only_the_time() {
    let mut user = User::new_at("a@b.c".to_string(), "h".to_string(), "Name".to_string(), 10);
    let update = UserUpdate { name: None, avatar_url: None };
    assert!(!update.has_changes());
    update.apply_to_at(&mut user, 20);
    assert_eq!(user.name, "Name");
    assert!(user.avatar_url.is_none());
    assert_eq!(user.updated_at, 20);
}

#[test]
fn user_privileges_need_an_active_account() {
    let mut user = User::new_at("a@b.c".to_string(), "h".to_string(), "A".to_string(), 0);
    assert!(!user.is_admin());
    assert!(!user.is_moderator());
    user.role = UserRole::Admin;
    assert!(user.is_admin());
    assert!(user.is_moderator());
    user.is_active = false;
    assert!(!user.is_admin());
    assert!(!user.is_moderator());
    user.is_active = true;
    user.role = UserRole::Moderator;
    assert!(!user.is_admin());
    assert!(user.is_moderator());
}

#[test]
fn test_role_display() {
    assert_eq!(UserRole::User.to_string(), "user");
    assert_eq!(UserRole::Admin.to_string(), "admin");
    assert_eq!(UserRole::Moderator.to_string(), "moderator");
}

#[test]
fn role_parsing() {
    assert_eq!("ADMIN".parse::<UserRole>().unwrap(), UserRole::Admin);
    assert_eq!("moderator".parse::<UserRole>().unwrap(), UserRole::Moderator);
    assert_eq!("User".parse::<UserRole>().unwrap(), UserRole::User);
    assert_eq!(UserRole::parse("root").err().unwrap(), "Invalid user role: root");
}
