use oxicord::search::{SearchKind, SearchResult};
use oxicord::switcher::{Key, KeyPress, QuickSwitcher, QuickSwitcherAction};

#[test]
fn test_quick_switcher_initialization() {
    let switcher = QuickSwitcher::new();
    assert!(switcher.input.is_empty());
    assert!(switcher.results.is_empty());
    assert!(switcher.selected.is_none());
}

#[test]
fn test_quick_switcher_set_results() {
    let mut switcher = QuickSwitcher::new();
    let results = vec![
        SearchResult::new("1", "Channel 1", SearchKind::Channel),
        SearchResult::new("2", "Channel 2", SearchKind::Channel),
    ];

    switcher.set_results(results.clone());
    assert_eq!(switcher.results.len(), 2);
    assert_eq!(switcher.selected, Some(0));

    switcher.set_results(vec![]);
    assert!(switcher.results.is_empty());
    assert!(switcher.selected.is_none());
}

#[test]
fn test_quick_switcher_input() {
    let mut switcher = QuickSwitcher::new();

    let action = switcher.handle_key(KeyPress::plain(Key::Char('a')));
    if let QuickSwitcherAction::UpdateSearch(s) = action {
        assert_eq!(s, "a");
    } else {
        panic!("Expected UpdateSearch");
    }
    assert_eq!(switcher.input, "a");

    let action = switcher.handle_key(KeyPress::plain(Key::Char('b')));
    if let QuickSwitcherAction::UpdateSearch(s) = action {
        assert_eq!(s, "ab");
    } else {
        panic!("Expected UpdateSearch");
    }

    let action = switcher.handle_key(KeyPress::plain(Key::Backspace));
    if let QuickSwitcherAction::UpdateSearch(s) = action {
        assert_eq!(s, "a");
    } else {
        panic!("Expected UpdateSearch");
    }
}

#[test]
fn test_quick_switcher_navigation() {
    let mut switcher = QuickSwitcher::new();
    let results = vec![
        SearchResult::new("1", "1", SearchKind::Channel),
        SearchResult::new("2", "2", SearchKind::Channel),
        SearchResult::new("3", "3", SearchKind::Channel),
    ];
    switcher.set_results(results);

    assert_eq!(switcher.selected, Some(0));

    switcher.handle_key(KeyPress::plain(Key::Down));
    assert_eq!(switcher.selected, Some(1));

    switcher.handle_key(KeyPress::plain(Key::Down));
    assert_eq!(switcher.selected, Some(2));

    switcher.handle_key(KeyPress::plain(Key::Down));
    assert_eq!(switcher.selected, Some(0));

    switcher.handle_key(KeyPress::plain(Key::Up));
    assert_eq!(switcher.selected, Some(2));
}

#[test]
fn test_quick_switcher_select() {
    let mut switcher = QuickSwitcher::new();
    let results = vec![SearchResult::new("1", "1", SearchKind::Channel)];
    switcher.set_results(results);

    let action = switcher.handle_key(KeyPress::plain(Key::Enter));
    if let QuickSwitcherAction::Select(res) = action {
        assert_eq!(res.id, "1");
    } else {
        panic!("Expected Select");
    }
}

#[test]
fn test_quick_switcher_word_delete() {
    let mut switcher = QuickSwitcher::new();
    for c in "two words".chars() {
        switcher.handle_key(KeyPress::plain(Key::Char(c)));
    }
    let action = switcher.handle_key(KeyPress {
        key: Key::Char('w'),
        ctrl: true,
        alt: false,
    });
    if let QuickSwitcherAction::UpdateSearch(s) = action {
        assert_eq!(s, "two ");
    } else {
        panic!("Expected UpdateSearch");
    }

    switcher.reset();
    for c in "one".chars() {
        switcher.handle_key(KeyPress::plain(Key::Char(c)));
    }
    let action = switcher.handle_key(KeyPress {
        key: Key::Backspace,
        ctrl: false,
        alt: true,
    });
    if let QuickSwitcherAction::UpdateSearch(s) = action {
        assert_eq!(s, "");
    } else {
        panic!("Expected UpdateSearch");
    }
}
