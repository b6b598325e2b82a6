use oxicord::search::{parse_search_query, RecentItem, SearchKind, SearchPrefix, SearchResult};

#[test]
fn test_parse_search_query() {
    assert_eq!(
        parse_search_query("*server"),
        (SearchPrefix::Guild, "server")
    );
    assert_eq!(parse_search_query("@user"), (SearchPrefix::User, "user"));
    assert_eq!(
        parse_search_query("#channel"),
        (SearchPrefix::Text, "channel")
    );
    assert_eq!(parse_search_query("!voice"), (SearchPrefix::Voice, "voice"));
    assert_eq!(
        parse_search_query("generic"),
        (SearchPrefix::Plain, "generic")
    );
    assert_eq!(parse_search_query(""), (SearchPrefix::Plain, ""));
    assert_eq!(
        parse_search_query(" * server "),
        (SearchPrefix::Guild, "server")
    );
}

#[test]
fn test_parse_thread_prefix() {
    assert_eq!(
        parse_search_query("^thread"),
        (SearchPrefix::Thread, "thread")
    );
}

#[test]
fn test_search_result_builder() {
    let result = SearchResult::new("id1", "name1", SearchKind::Channel)
        .with_guild("guild_id1", "guild_name1")
        .with_parent_name("parent1")
        .with_score(100);

    assert_eq!(result.id, "id1");
    assert_eq!(result.name, "name1");
    assert_eq!(result.kind, SearchKind::Channel);
    assert_eq!(result.guild_id, Some("guild_id1".to_string()));
    assert_eq!(result.guild_name, Some("guild_name1".to_string()));
    assert_eq!(result.parent_name, Some("parent1".to_string()));
    assert_eq!(result.score, 100);
}

#[test]
fn test_recent_item_new() {
    let result = SearchResult::new("id1", "name1", SearchKind::Channel)
        .with_guild("guild_id1", "guild_name1");

    let recent = RecentItem::new(&result);

    assert_eq!(recent.id, result.id);
    assert_eq!(recent.name, result.name);
    assert_eq!(recent.kind, result.kind);
    assert_eq!(recent.guild_id, result.guild_id);
    assert!(recent.timestamp > 0);
}

#[test]
fn test_search_kind_display() {
    assert_eq!(SearchKind::DM.label(), "DM");
    assert_eq!(SearchKind::Channel.label(), "Channel");
    assert_eq!(SearchKind::Voice.label(), "Voice");
    assert_eq!(SearchKind::Forum.label(), "Forum");
    assert_eq!(SearchKind::Thread.label(), "Thread");
    assert_eq!(SearchKind::Guild.label(), "Guild");
}

#[test]
fn test_from_char_rejects_plain_letter() {
    assert_eq!(SearchPrefix::from_char('a'), None);
    assert_eq!(SearchPrefix::from_char('*'), Some(SearchPrefix::Guild));
}
