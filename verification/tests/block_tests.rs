use notion_tools::structs::block::Block;
use notion_tools::structs::block::BlockPayload;
use notion_tools::structs::common::Color;
use notion_tools::structs::common::Icon;
use notion_tools::structs::common::ParentType;
use notion_tools::Notion;

#[test]
fn constructors_set_parent_and_payload() {
    let block = Block::paragraph(
        ParentType::Page,
        String::from("page-1"),
        vec![String::from("Test Paragraph")],
    );
    assert!(matches!(block.parent.kind, ParentType::Page));
    assert_eq!(block.parent.page_id.as_deref(), Some("page-1"));
    match &block.payload {
        BlockPayload::Paragraph(p) => {
            assert_eq!(p.rich_text.len(), 1);
            assert_eq!(p.rich_text[0].plain_text, "Test Paragraph");
            assert_eq!(p.rich_text[0].text.content, "Test Paragraph");
            assert!(p.children.is_empty());
        },
        _ => panic!("expected a paragraph payload"),
    }

    let block = Block::heading_1(
        ParentType::Page,
        String::from("page-1"),
        vec![String::from("Test Heading 1")],
    );
    match &block.payload {
        BlockPayload::Heading1(h) => {
            assert_eq!(h.rich_text[0].plain_text, "Test Heading 1");
            assert!(!h.is_toggleable);
        },
        _ => panic!("expected a heading payload"),
    }

    let block = Block::to_do(
        ParentType::Block,
        String::from("block-1"),
        vec![String::from("task")],
        true,
    );
    match &block.payload {
        BlockPayload::ToDo(t) => {
            assert!(t.checked);
            assert_eq!(t.rich_text[0].plain_text, "task");
        },
        _ => panic!("expected a to-do payload"),
    }

    let block = Block::bookmark(
        ParentType::Page,
        String::from("page-1"),
        String::from("caption"),
        String::from("https://example.com"),
    );
    match &block.payload {
        BlockPayload::Bookmark(b) => {
            assert_eq!(b.url, "https://example.com");
            assert_eq!(b.caption[0].plain_text, "caption");
        },
        _ => panic!("expected a bookmark payload"),
    }

    let block = Block::code(
        ParentType::Page,
        String::from("page-1"),
        String::from("example"),
        String::from("rust"),
        vec![String::from("fn main() {}")],
    );
    match &block.payload {
        BlockPayload::Code(c) => {
            assert_eq!(c.language, "rust");
            assert_eq!(c.caption[0].plain_text, "example");
            assert_eq!(c.rich_text[0].plain_text, "fn main() {}");
        },
        _ => panic!("expected a code payload"),
    }

    let block = Block::callout(
        ParentType::Page,
        String::from("page-1"),
        String::from("note"),
        Icon::from_str("\u{1F4A1}"),
        Color::Yellow,
    );
    match &block.payload {
        BlockPayload::Callout(c) => {
            assert!(matches!(c.color, Color::Yellow));
            assert_eq!(c.icon.as_ref().map(|i| i.emoji.as_str()), Some("\u{1F4A1}"));
        },
        _ => panic!("expected a callout payload"),
    }

    let block = Block::image(
        ParentType::Page,
        String::from("page-1"),
        String::from("https://example.com/x.png"),
    );
    match &block.payload {
        BlockPayload::Image(i) => {
            assert_eq!(i.kind, "external");
            assert_eq!(i.external.url, "https://example.com/x.png");
        },
        _ => panic!("expected an image payload"),
    }

    let block = Block::divider(ParentType::Page, String::from("page-1"));
    assert!(matches!(block.payload, BlockPayload::Divider));

    let block = Block::default();
    assert!(matches!(block.payload, BlockPayload::Unset));
    assert!(matches!(block.parent.kind, ParentType::Block));
}

#[test]
fn client_holds_explicit_configuration() {
    let mut notion = Notion::from_config(String::from("key-1"), String::from("db-1"));
    assert_eq!(notion.api_key, "key-1");
    assert_eq!(notion.database_id, "db-1");
    notion.database("db-2");
    assert_eq!(notion.database_id, "db-2");
    assert_eq!(notion.api_key, "key-1");
}
