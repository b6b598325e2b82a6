use oxicord::color::parse_hex_color;
use oxicord::notify::{DesktopNotificationService, NotificationService};
use oxicord::strutil::{find_sub, str_eq, trim_chars};
use oxicord::ui_state::{FileExplorerAction, LoadingState, MentionPopup};
use oxicord::dto::{ChannelResponse, ErrorResponse};

#[test]
fn test_parse_hex_color_six_digits() {
    assert_eq!(parse_hex_color("#FF0000"), Ok((255, 0, 0)));
    assert_eq!(parse_hex_color("#00ff7f"), Ok((0, 255, 127)));
    assert_eq!(parse_hex_color("123456"), Ok((0x12, 0x34, 0x56)));
}

#[test]
fn test_parse_hex_color_three_digits() {
    assert_eq!(parse_hex_color("#0f0"), Ok((0, 255, 0)));
    assert_eq!(parse_hex_color("#abc"), Ok((0xaa, 0xbb, 0xcc)));
}

#[test]
fn test_parse_hex_color_rejects_garbage() {
    assert!(parse_hex_color("#12345").is_err());
    assert!(parse_hex_color("#zzzzzz").is_err());
    assert!(parse_hex_color("").is_err());
    assert!(parse_hex_color("#").is_err());
}

#[test]
fn test_trim_and_find() {
    assert_eq!(trim_chars("  hello \t"), "hello");
    assert_eq!(trim_chars(""), "");
    assert_eq!(trim_chars(" \t "), "");
    assert!(str_eq("abc", "abc"));
    assert!(!str_eq("abc", "abd"));
    assert_eq!(find_sub("hello world", "o w", 0), Some(4));
    assert_eq!(find_sub("aaa", "aa", 1), Some(1));
    assert_eq!(find_sub("abc", "zz", 0), None);
}

#[test]
fn test_notification_services_gate() {
    let on = NotificationService::new(true);
    let off = NotificationService::new(false);
    assert!(on.is_enabled());
    assert!(!off.is_enabled());

    let desktop = DesktopNotificationService::new(true);
    assert!(desktop.is_enabled());
}

#[test]
fn test_mention_popup_preference() {
    assert!(MentionPopup::new(true).use_display_name());
    assert!(!MentionPopup::new(false).use_display_name());
}

#[test]
fn test_loading_state_default() {
    let state = LoadingState::default();
    assert!(!state.data_ready);
    assert!(!state.animation_complete);
}

#[test]
fn test_file_explorer_action_shapes() {
    let select = FileExplorerAction::SelectFile("/tmp/a.png".to_string());
    assert!(matches!(select, FileExplorerAction::SelectFile(_)));
    assert!(matches!(FileExplorerAction::Close, FileExplorerAction::Close));
    assert!(matches!(FileExplorerAction::Idle, FileExplorerAction::Idle));
}

#[test]
fn test_dto_shapes_carry_plain_values() {
    let err = ErrorResponse {
        message: "nope".to_string(),
    };
    assert_eq!(err.message, "nope");

    let chan = ChannelResponse {
        id: "123".to_string(),
        kind: 0,
        guild_id: None,
        name: Some("general".to_string()),
        owner_id: None,
        parent_id: None,
        position: 1,
        topic: None,
        last_message_id: None,
        message_count: None,
        member_count: None,
        applied_tags: vec![],
        thread_metadata: None,
        nsfw: false,
        bitrate: Some(64000),
        user_limit: Some(10000),
        rate_limit_per_user: Some(0),
        flags: Some(0),
        permission_overwrites: vec![],
        rtc_region: None,
        video_quality_mode: None,
        default_auto_archive_duration: None,
        last_pin_timestamp: None,
    };
    assert_eq!(chan.user_limit, Some(10000));
    assert_eq!(chan.bitrate, Some(64000));
}
