use notion_tools::structs::common::ParentType;
use notion_tools::structs::common::RichText;
use notion_tools::structs::page::Page;
use notion_tools::structs::page::PageProperty;
use notion_tools::structs::page::PageResponse;

#[test]
fn test_page_property_get_value() {
    let porp = PageProperty::checkbox(true);
    assert_eq!(porp.get_value(), "true");

    let porp = PageProperty::date(String::from("2024-12-20"));
    assert_eq!(porp.get_value(), "2024-12-20");

    let porp = PageProperty::number(String::from("123.456"));
    assert_eq!(porp.get_value(), "123.456");

    let porp = PageProperty::select(String::from("Option 1"));
    assert_eq!(porp.get_value(), "Option 1");

    let porp = PageProperty::title(RichText::from_str("Sample Title"));
    assert_eq!(porp.get_value(), "Sample Title");

    let porp = PageProperty::rich_text(vec![RichText::from_str("Sample Text")]);
    assert_eq!(porp.get_value(), "Sample Text");

    let porp = PageProperty::url(String::from("https://example.com"));
    assert_eq!(porp.get_value(), "https://example.com");

    let porp = PageProperty::email(String::from("sample@sample.com"));
    assert_eq!(porp.get_value(), "sample@sample.com");

    let porp = PageProperty::phone_number(String::from("1234567890"));
    assert_eq!(porp.get_value(), "1234567890");

    let prop = PageProperty::multi_select(vec![String::from("Option 1"), String::from("Option 2")]);
    assert_eq!(prop.get_value(), "Option 1, Option 2");

    let prop = PageProperty::relation(vec![String::from("Page ID 1"), String::from("Page ID 2")]);
    assert_eq!(prop.get_value(), "Page ID 1, Page ID 2");
}

#[test]
fn unset_and_false_values_display() {
    let prop = PageProperty::default();
    assert_eq!(prop.get_value(), "");

    let prop = PageProperty::checkbox(false);
    assert_eq!(prop.get_value(), "false");

    let prop = PageProperty::multi_select(Vec::new());
    assert_eq!(prop.get_value(), "");

    let prop = PageProperty::status(String::from("Ready"));
    assert_eq!(prop.get_value(), "Ready");

    let prop = PageProperty::rich_text(vec![
        RichText::from_str("a"),
        RichText::from_str("b"),
        RichText::from_str("c"),
    ]);
    assert_eq!(prop.get_value(), "a, b, c");
}

#[test]
fn page_defaults_and_archival_record() {
    let page = Page::default();
    assert_eq!(page.object, "page");
    assert!(!page.archived);
    assert_eq!(page.status, 200);
    assert!(page.properties.is_empty());

    let mut properties: Vec<(String, PageProperty)> = Vec::new();
    properties.push((String::from("Name"), PageProperty::title(RichText::from_str("T"))));
    let page = Page::from_properties(properties);
    assert_eq!(page.properties.len(), 1);
    assert_eq!(page.properties[0].0, "Name");

    let page = Page::for_archive(ParentType::Page, "page-9");
    assert!(page.archived);
    assert!(matches!(page.parent.kind, ParentType::Page));
    assert_eq!(page.parent.page_id.as_deref(), Some("page-9"));
    assert!(page.parent.database_id.is_none());
}

#[test]
fn absent_status_normalizes_to_success() {
    let mut response = PageResponse {
        object: String::from("list"),
        kind: String::new(),
        status: 0,
        code: String::new(),
        message: String::new(),
        results: Vec::new(),
        has_more: false,
        next_cursor: String::new(),
    };
    response.normalize();
    assert_eq!(response.status, 200);

    response.status = 404;
    response.normalize();
    assert_eq!(response.status, 404);

    let mut page = Page::default();
    page.status = 0;
    page.normalize();
    assert_eq!(page.status, 200);
}
