use notion_tools::structs::query_filter::CheckboxFilterItem;
use notion_tools::structs::query_filter::DateFilterItem;
use notion_tools::structs::query_filter::FilesFilterItem;
use notion_tools::structs::query_filter::FilterItem;
use notion_tools::structs::query_filter::FilterItem as DFItems;
use notion_tools::structs::query_filter::FormulaFilterItem;
use notion_tools::structs::query_filter::IdFilterItem;
use notion_tools::structs::query_filter::MultiSelectFilterItem;
use notion_tools::structs::query_filter::NumberFilterItem;
use notion_tools::structs::query_filter::PeopleFilterItem;
use notion_tools::structs::query_filter::QueryFilter;
use notion_tools::structs::query_filter::RelationFilterItem;
use notion_tools::structs::query_filter::RichTextFilterItem;
use notion_tools::structs::query_filter::SelectFilterItem;
use notion_tools::structs::query_filter::StatusFilterItem;
use notion_tools::structs::query_filter::TimestampFilterItem;

#[test]
fn test_build_query_filter() {
    let mut filter = QueryFilter::new();
    filter.or(vec![
        DFItems::checkbox(String::from("Property 1"), CheckboxFilterItem::equals()),
        DFItems::date(
            String::from("Property 2"),
            DateFilterItem::equals(String::from("2024-12-20")),
        ),
        DFItems::and(vec![
            DFItems::select(
                String::from("Property 3"),
                SelectFilterItem::equals(String::from("Option 1")),
            ),
            DFItems::rich_text(
                String::from("Property 4"),
                RichTextFilterItem::contains(String::from("Sample Text")),
            ),
        ]),
    ]);

    let filter = filter.build();
    println!("{}", filter);
    assert_eq!(
        filter,
        r#"{"filter":{"or":[{"property":"Property 1","checkbox":{"equals":true}},{"property":"Property 2","date":{"equals":"2024-12-20"}},{"and":[{"property":"Property 3","select":{"equals":"Option 1"}},{"property":"Property 4","rich_text":{"contains":"Sample Text"}}]}]}}"#,
    );
}

fn body_of(item: FilterItem) -> String {
    let mut filter = QueryFilter::new();
    filter.args(item);
    filter.build()
}

#[test]
fn empty_filter_serializes_as_empty_object() {
    let filter = QueryFilter::new();
    assert_eq!(filter.build(), r#"{"filter":{}}"#);
}

#[test]
fn empty_cursor_is_omitted_and_set_cursor_is_emitted() {
    let mut filter = QueryFilter::new();
    filter.args(FilterItem::status(
        String::from("Status"),
        StatusFilterItem::equals(String::from("ToDo")),
    ));
    assert_eq!(
        filter.build(),
        r#"{"filter":{"property":"Status","status":{"equals":"ToDo"}}}"#,
    );
    filter.start_cursor = String::from("abc-123");
    assert_eq!(
        filter.build(),
        r#"{"filter":{"property":"Status","status":{"equals":"ToDo"}},"start_cursor":"abc-123"}"#,
    );
}

#[test]
fn single_predicate_emits_single_key() {
    assert_eq!(
        body_of(FilterItem::date(
            String::from("D"),
            DateFilterItem::on_or_after(String::from("2024-01-01")),
        )),
        r#"{"filter":{"property":"D","date":{"on_or_after":"2024-01-01"}}}"#,
    );
    assert_eq!(
        body_of(FilterItem::date(String::from("D"), DateFilterItem::is_empty())),
        r#"{"filter":{"property":"D","date":{"is_empty":true}}}"#,
    );
    assert_eq!(
        body_of(FilterItem::rich_text(
            String::from("T"),
            RichTextFilterItem::starts_with(String::from("A")),
        )),
        r#"{"filter":{"property":"T","rich_text":{"starts_with":"A"}}}"#,
    );
}

#[test]
fn every_leaf_kind_uses_its_own_key() {
    assert_eq!(
        body_of(FilterItem::checkbox(String::from("P"), CheckboxFilterItem::does_not_equal())),
        r#"{"filter":{"property":"P","checkbox":{"does_not_equal":true}}}"#,
    );
    assert_eq!(
        body_of(FilterItem::files(String::from("P"), FilesFilterItem::is_not_empty())),
        r#"{"filter":{"property":"P","files":{"is_not_empty":true}}}"#,
    );
    assert_eq!(
        body_of(FilterItem::formula(
            String::from("P"),
            FormulaFilterItem::number(NumberFilterItem::greater_than(5)),
        )),
        r#"{"filter":{"property":"P","formula":{"number":{"greater_than":5}}}}"#,
    );
    assert_eq!(
        body_of(FilterItem::formula(
            String::from("P"),
            FormulaFilterItem::string(RichTextFilterItem::equals(String::from("x"))),
        )),
        r#"{"filter":{"property":"P","formula":{"string":{"equals":"x"}}}}"#,
    );
    assert_eq!(
        body_of(FilterItem::multi_select(
            String::from("P"),
            MultiSelectFilterItem::contains(String::from("Tag")),
        )),
        r#"{"filter":{"property":"P","multi_select":{"contains":"Tag"}}}"#,
    );
    assert_eq!(
        body_of(FilterItem::number(String::from("P"), NumberFilterItem::less_than_or_equal_to(42))),
        r#"{"filter":{"property":"P","number":{"less_than_or_equal_to":42}}}"#,
    );
    assert_eq!(
        body_of(FilterItem::people(
            String::from("P"),
            PeopleFilterItem::contains(String::from("user-1")),
        )),
        r#"{"filter":{"property":"P","people":{"contains":"user-1"}}}"#,
    );
    assert_eq!(
        body_of(FilterItem::relation(
            String::from("P"),
            RelationFilterItem::does_not_contain(String::from("page-1")),
        )),
        r#"{"filter":{"property":"P","relation":{"does_not_contain":"page-1"}}}"#,
    );
    assert_eq!(
        body_of(FilterItem::select(String::from("P"), SelectFilterItem::does_not_equals(
            String::from("Option 2"),
        ))),
        r#"{"filter":{"property":"P","select":{"does_not_equals":"Option 2"}}}"#,
    );
    assert_eq!(
        body_of(FilterItem::status(String::from("P"), StatusFilterItem::is_empty())),
        r#"{"filter":{"property":"P","status":{"is_empty":true}}}"#,
    );
    assert_eq!(
        body_of(FilterItem::timestamp(
            String::from("P"),
            TimestampFilterItem::created_time(DateFilterItem::before(String::from("2023-06-01"))),
        )),
        r#"{"filter":{"property":"P","timestamp":{"created_time":{"before":"2023-06-01"}}}}"#,
    );
    assert_eq!(
        body_of(FilterItem::timestamp(
            String::from("P"),
            TimestampFilterItem::timestamp(String::from("created_time")),
        )),
        r#"{"filter":{"property":"P","timestamp":{"timestamp":"created_time"}}}"#,
    );
    assert_eq!(
        body_of(FilterItem::id(String::from("P"), IdFilterItem::greater_than_or_equal_to(7))),
        r#"{"filter":{"property":"P","id":{"greater_than_or_equal_to":7}}}"#,
    );
}

#[test]
fn number_predicates_render_decimal_extremes() {
    assert_eq!(
        body_of(FilterItem::number(String::from("N"), NumberFilterItem::equals(0))),
        r#"{"filter":{"property":"N","number":{"equals":0}}}"#,
    );
    assert_eq!(
        body_of(FilterItem::id(
            String::from("N"),
            IdFilterItem::equals(340282366920938463463374607431768211455),
        )),
        r#"{"filter":{"property":"N","id":{"equals":340282366920938463463374607431768211455}}}"#,
    );
}

#[test]
fn property_names_and_values_are_json_escaped() {
    assert_eq!(
        body_of(FilterItem::rich_text(
            String::from("Na\"me\\x"),
            RichTextFilterItem::equals(String::from("a\nb\tc\u{1}")),
        )),
        "{\"filter\":{\"property\":\"Na\\\"me\\\\x\",\"rich_text\":{\"equals\":\"a\\nb\\tc\\u0001\"}}}",
    );
}

#[test]
fn combinators_keep_child_order() {
    let body = body_of(FilterItem::and(vec![
        FilterItem::status(String::from("S"), StatusFilterItem::equals(String::from("A"))),
        FilterItem::status(String::from("S"), StatusFilterItem::equals(String::from("B"))),
        FilterItem::status(String::from("S"), StatusFilterItem::equals(String::from("C"))),
    ]));
    assert_eq!(
        body,
        r#"{"filter":{"and":[{"property":"S","status":{"equals":"A"}},{"property":"S","status":{"equals":"B"}},{"property":"S","status":{"equals":"C"}}]}}"#,
    );
}

#[test]
fn empty_combinator_serializes_permissively() {
    // Building never validates: a combinator with no children is emitted
    // as an empty list and left for the remote service to reject.
    assert_eq!(body_of(FilterItem::and(Vec::new())), r#"{"filter":{"and":[]}}"#);
    assert_eq!(body_of(FilterItem::or(Vec::new())), r#"{"filter":{"or":[]}}"#);
}
