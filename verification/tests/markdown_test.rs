use oxicord::markdown::{parse_inline, parse_markdown, MdBlock, MdInline};

#[test]
fn test_parse_simple_bold() {
    let content = "Hello **world**";
    let blocks = parse_markdown(content);

    match &blocks[0] {
        MdBlock::Paragraph(inlines) => {
            assert_eq!(inlines.len(), 2);
            if let MdInline::Text(t) = &inlines[0] {
                assert_eq!(t, "Hello ");
            } else {
                panic!("Expected text");
            }
            if let MdInline::Bold(children) = &inlines[1] {
                if let MdInline::Text(t) = &children[0] {
                    assert_eq!(t, "world");
                } else {
                    panic!("Expected text inside bold");
                }
            } else {
                panic!("Expected bold");
            }
        }
        _ => panic!("Expected paragraph"),
    }
}

#[test]
fn test_parse_headers() {
    let content = "### Header 3\nText";
    let blocks = parse_markdown(content);
    assert_eq!(blocks.len(), 2);

    if let MdBlock::Header(level, inlines) = &blocks[0] {
        assert_eq!(*level, 3);
        if let MdInline::Text(t) = &inlines[0] {
            assert_eq!(t, "Header 3");
        }
    } else {
        panic!("Expected header");
    }
}

#[test]
fn test_parse_spoiler() {
    let content = "Hidden ||spoiler|| content";
    let blocks = parse_markdown(content);

    if let MdBlock::Paragraph(inlines) = &blocks[0] {
        assert_eq!(inlines.len(), 3);
        match &inlines[1] {
            MdInline::Spoiler(children) => {
                if let MdInline::Text(t) = &children[0] {
                    assert_eq!(t, "spoiler");
                }
            }
            _ => panic!("Expected spoiler"),
        }
    }
}

#[test]
fn test_parse_nested_styles() {
    let content = "***Bold Italic***";
    let blocks = parse_markdown(content);

    if let MdBlock::Paragraph(inlines) = &blocks[0] {
        match &inlines[0] {
            MdInline::Italic(children) => match &children[0] {
                MdInline::Bold(inner) => {
                    if let MdInline::Text(t) = &inner[0] {
                        assert_eq!(t, "Bold Italic");
                    }
                }
                _ => panic!("Expected Bold inside Italic"),
            },
            _ => panic!("Expected Italic"),
        }
    }
}

#[test]
fn test_parse_code_block_with_lang() {
    let blocks = parse_markdown("```rust\nlet x = 1;\nlet y = 2;\n```");
    match &blocks[0] {
        MdBlock::CodeBlock { lang, code } => {
            assert_eq!(lang.as_deref(), Some("rust"));
            assert_eq!(code, "let x = 1;\nlet y = 2;");
        }
        _ => panic!("Expected code block"),
    }
}

#[test]
fn test_parse_code_block_unterminated() {
    let blocks = parse_markdown("```\nraw text");
    match &blocks[0] {
        MdBlock::CodeBlock { lang, code } => {
            assert!(lang.is_none());
            assert_eq!(code, "raw text");
        }
        _ => panic!("Expected code block"),
    }
}

#[test]
fn test_parse_subtext_and_empty() {
    let blocks = parse_markdown("-# small print\n\nafter");
    match &blocks[0] {
        MdBlock::Subtext(inlines) => {
            if let MdInline::Text(t) = &inlines[0] {
                assert_eq!(t, "small print");
            } else {
                panic!("Expected text");
            }
        }
        _ => panic!("Expected subtext"),
    }
    assert!(matches!(blocks[1], MdBlock::Empty));
    assert!(matches!(blocks[2], MdBlock::Paragraph(_)));
}

#[test]
fn test_parse_list_items() {
    let blocks = parse_markdown("- first\n    * second");
    match &blocks[0] {
        MdBlock::List { indent, bullet, .. } => {
            assert_eq!(*indent, 0);
            assert_eq!(*bullet, '-');
        }
        _ => panic!("Expected list"),
    }
    match &blocks[1] {
        MdBlock::List { indent, bullet, .. } => {
            assert_eq!(*indent, 2);
            assert_eq!(*bullet, '*');
        }
        _ => panic!("Expected list"),
    }
}

#[test]
fn test_parse_block_quote_run() {
    let blocks = parse_markdown("> one\n> two\nplain");
    match &blocks[0] {
        MdBlock::BlockQuote(inner) => {
            assert_eq!(inner.len(), 2);
            assert!(matches!(inner[0], MdBlock::Paragraph(_)));
            assert!(matches!(inner[1], MdBlock::Paragraph(_)));
        }
        _ => panic!("Expected block quote"),
    }
    assert!(matches!(blocks[1], MdBlock::Paragraph(_)));
}

#[test]
fn test_parse_multiline_quote() {
    let blocks = parse_markdown(">>> one\n# two");
    assert_eq!(blocks.len(), 1);
    match &blocks[0] {
        MdBlock::BlockQuote(inner) => {
            assert_eq!(inner.len(), 2);
            assert!(matches!(inner[0], MdBlock::Paragraph(_)));
            assert!(matches!(inner[1], MdBlock::Header(1, _)));
        }
        _ => panic!("Expected block quote"),
    }
}

#[test]
fn test_parse_inline_mention() {
    let inlines = parse_inline("hi <@!1234567890> there");
    assert_eq!(inlines.len(), 3);
    match &inlines[1] {
        MdInline::Mention(id) => assert_eq!(id, "1234567890"),
        _ => panic!("Expected mention"),
    }
}

#[test]
fn test_parse_inline_mention_rejects_non_numeric() {
    let inlines = parse_inline("<@abc>");
    assert!(inlines.iter().all(|i| !matches!(i, MdInline::Mention(_))));
}

#[test]
fn test_parse_inline_code_and_escape() {
    let inlines = parse_inline("a `b` \\*c");
    match &inlines[1] {
        MdInline::Code(c) => assert_eq!(c, "b"),
        _ => panic!("Expected code"),
    }
    let has_escaped_star = inlines
        .iter()
        .any(|i| matches!(i, MdInline::Text(t) if t == "*"));
    assert!(has_escaped_star);
}

#[test]
fn test_parse_inline_underline_and_strike() {
    let inlines = parse_inline("__u__ ~~s~~");
    assert!(matches!(inlines[0], MdInline::Underline(_)));
    assert!(matches!(inlines[2], MdInline::Strike(_)));
}
