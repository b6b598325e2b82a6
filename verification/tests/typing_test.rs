use oxicord::typing::{TypingIndicatorManager, TYPING_TTL_MS};

#[test]
fn test_typing_entry_expires_exactly_at_ttl() {
    let mut m = TypingIndicatorManager::new("me");
    m.note_typing_start("chan", "u1", "User One", 1_000);

    // Still listed one tick before the deadline, gone exactly at it.
    assert_eq!(m.typing_in("chan", 1_000 + TYPING_TTL_MS - 1), vec!["User One"]);
    assert!(m.typing_in("chan", 1_000 + TYPING_TTL_MS).is_empty());
}

#[test]
fn test_typing_refresh_extends_without_duplicate() {
    let mut m = TypingIndicatorManager::new("me");
    m.note_typing_start("chan", "u1", "User One", 1_000);
    m.note_typing_start("chan", "u1", "User One", 5_000);

    // One entry, not two, and the expiry counts from the refresh.
    assert_eq!(m.typing_in("chan", 5_000), vec!["User One"]);
    assert_eq!(m.typing_in("chan", 1_000 + TYPING_TTL_MS), vec!["User One"]);
    assert!(m.typing_in("chan", 5_000 + TYPING_TTL_MS).is_empty());
}

#[test]
fn test_three_typing_events_order() {
    let mut m = TypingIndicatorManager::new("me");
    m.note_typing_start("c", "a", "A", 1_000);
    m.note_typing_start("c", "b", "B", 2_000);
    m.note_typing_start("c", "a", "A", 3_000);

    // Most recently typing first, and no duplicate for the refreshed user.
    assert_eq!(m.typing_in("c", 3_500), vec!["A", "B"]);
}

#[test]
fn test_message_removes_typing_entry() {
    let mut m = TypingIndicatorManager::new("me");
    m.note_typing_start("c", "a", "A", 1_000);
    m.note_typing_start("c", "b", "B", 1_000);
    m.note_message("c", "a");
    assert_eq!(m.typing_in("c", 1_500), vec!["B"]);
}

#[test]
fn test_local_user_excluded_and_channels_separate() {
    let mut m = TypingIndicatorManager::new("me");
    m.note_typing_start("c1", "me", "Me", 1_000);
    m.note_typing_start("c1", "a", "A", 1_000);
    m.note_typing_start("c2", "b", "B", 1_000);

    assert_eq!(m.typing_in("c1", 1_500), vec!["A"]);
    assert_eq!(m.typing_in("c2", 1_500), vec!["B"]);
}

#[test]
fn test_sweep_evicts_expired_entries() {
    let mut m = TypingIndicatorManager::new("me");
    m.note_typing_start("c", "a", "A", 0);
    m.note_typing_start("c", "b", "B", 6_000);
    m.sweep(TYPING_TTL_MS);
    assert_eq!(m.typing_in("c", TYPING_TTL_MS), vec!["B"]);
}
