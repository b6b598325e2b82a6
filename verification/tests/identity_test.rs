use oxicord::entities::{CachedUser, MessageAuthor, User};
use oxicord::identity::IdentityService;

fn make_user(username: &str, discriminator: &str, global_name: Option<&str>) -> User {
    let mut u = User::new(123_456_789_u64, username, discriminator, None, false, None);
    if let Some(gn) = global_name {
        u = u.with_global_name(gn);
    }
    u
}

#[test]
fn test_prefer_display_name() {
    let user = make_user("username", "0", Some("Global Name"));
    assert_eq!(
        IdentityService::get_preferred_name(&user, true),
        "Global Name"
    );
}

#[test]
fn test_prefer_username_legacy() {
    let user = make_user("username", "1234", Some("Global Name"));
    assert_eq!(
        IdentityService::get_preferred_name(&user, false),
        "username#1234"
    );
}

#[test]
fn test_prefer_username_pomelo() {
    let user = make_user("username", "0", Some("Global Name"));
    assert_eq!(
        IdentityService::get_preferred_name(&user, false),
        "username"
    );
}

#[test]
fn test_fallback_when_no_global_name() {
    let user = make_user("username", "0", None);
    assert_eq!(IdentityService::get_preferred_name(&user, true), "username");
}

#[test]
fn test_cached_user_never_has_display_name() {
    let user = CachedUser::new("cached", "42");
    assert_eq!(IdentityService::get_preferred_name(&user, true), "cached#42");
}

#[test]
fn test_message_author_display_name() {
    let author = MessageAuthor {
        username: "author".to_string(),
        discriminator: "0".to_string(),
        global_name: Some("Shown Name".to_string()),
    };
    assert_eq!(IdentityService::get_preferred_name(&author, true), "Shown Name");
    assert_eq!(IdentityService::get_preferred_name(&author, false), "author");
}
