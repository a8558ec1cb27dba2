use notion_tools::protocol::ApiError;
use notion_tools::protocol::AppendSession;
use notion_tools::protocol::Paginator;
use notion_tools::structs::block::Block;
use notion_tools::structs::block::BlockPayload;
use notion_tools::structs::common::ParentType;
use notion_tools::structs::page::PageResponse;
use notion_tools::structs::query_filter::FilterItem;
use notion_tools::structs::query_filter::QueryFilter;
use notion_tools::structs::query_filter::StatusFilterItem;

fn labeled_blocks(n: usize) -> Vec<Block> {
    let mut blocks = Vec::new();
    for i in 0..n {
        blocks.push(Block::paragraph(
            ParentType::Page,
            String::from("parent-1"),
            vec![format!("Test Paragraph {}", i)],
        ));
    }
    blocks
}

fn label(block: &Block) -> String {
    match &block.payload {
        BlockPayload::Paragraph(p) => p.rich_text[0].plain_text.clone(),
        _ => panic!("expected a paragraph block"),
    }
}

#[test]
fn chunks_of_250_blocks_cover_the_input_in_order() {
    let mut session = AppendSession::new(labeled_blocks(250));
    let mut sizes = Vec::new();
    let mut all_labels = Vec::new();
    while let Some(body) = session.take_chunk() {
        sizes.push(body.children.len());
        for block in &body.children {
            all_labels.push(label(block));
        }
        session.absorb(body.children);
    }
    assert_eq!(sizes, vec![100, 100, 50]);
    assert_eq!(all_labels.len(), 250);
    for i in 0..250 {
        assert_eq!(all_labels[i], format!("Test Paragraph {}", i));
    }
    assert!(session.is_done());

    let response = session.finish();
    assert_eq!(response.status, 200);
    assert_eq!(response.object, "list");
    assert_eq!(response.results.len(), 250);
    for i in 0..250 {
        assert_eq!(label(&response.results[i]), format!("Test Paragraph {}", i));
    }
}

#[test]
fn zero_blocks_issue_zero_calls() {
    let mut session = AppendSession::new(Vec::new());
    assert!(session.take_chunk().is_none());
    assert!(session.is_done());
    let response = session.finish();
    assert_eq!(response.status, 200);
    assert!(response.results.is_empty());
}

#[test]
fn chunk_boundaries_at_the_limit() {
    let mut session = AppendSession::new(labeled_blocks(100));
    let first = session.take_chunk().expect("one chunk");
    assert_eq!(first.children.len(), 100);
    session.absorb(first.children);
    assert!(session.take_chunk().is_none());

    let mut session = AppendSession::new(labeled_blocks(101));
    let first = session.take_chunk().expect("first chunk");
    assert_eq!(first.children.len(), 100);
    session.absorb(first.children);
    let second = session.take_chunk().expect("second chunk");
    assert_eq!(second.children.len(), 1);
    assert_eq!(label(&second.children[0]), "Test Paragraph 100");
    session.absorb(second.children);
    assert!(session.take_chunk().is_none());
}

#[test]
fn failing_chunk_stops_the_batch_and_names_itself() {
    // The transport is mocked to succeed on the first chunk and fail on the
    // second: the third chunk must never be requested.
    let mut session = AppendSession::new(labeled_blocks(250));
    let outcomes = vec![true, false];
    let mut submitted = Vec::new();
    let mut failure: Option<ApiError> = None;
    while let Some(body) = session.take_chunk() {
        let succeeds = outcomes[submitted.len()];
        submitted.push(body.children.len());
        if succeeds {
            session.absorb(body.children);
        } else {
            failure = Some(session.chunk_failure(String::from("server unavailable")));
            break;
        }
    }
    assert_eq!(submitted, vec![100, 100]);
    assert!(!session.is_done());
    match failure {
        Some(ApiError::ChunkFailure { chunk, message }) => {
            assert_eq!(chunk, 2);
            assert_eq!(message, "server unavailable");
        },
        _ => panic!("expected a chunk failure"),
    }
}

fn mock_response(has_more: bool, next_cursor: &str) -> PageResponse {
    PageResponse {
        object: String::from("list"),
        kind: String::new(),
        status: 200,
        code: String::new(),
        message: String::new(),
        results: Vec::new(),
        has_more,
        next_cursor: String::from(next_cursor),
    }
}

#[test]
fn pagination_stops_after_the_last_page() {
    let mut filter = QueryFilter::new();
    filter.args(FilterItem::status(
        String::from("Status"),
        StatusFilterItem::equals(String::from("ToDo")),
    ));
    let mut paginator = Paginator::new(filter);

    let responses =
        vec![mock_response(true, "cursor-1"), mock_response(true, "cursor-2"), mock_response(
            false,
            "",
        )];
    let mut bodies = Vec::new();
    let mut round = 0;
    while let Some(body) = paginator.next_body() {
        bodies.push(body);
        paginator.absorb(&responses[round]);
        round += 1;
    }

    let base = r#"{"filter":{"property":"Status","status":{"equals":"ToDo"}}"#;
    assert_eq!(bodies.len(), 3);
    assert_eq!(bodies[0], format!("{}}}", base));
    assert_eq!(bodies[1], format!("{},\"start_cursor\":\"cursor-1\"}}", base));
    assert_eq!(bodies[2], format!("{},\"start_cursor\":\"cursor-2\"}}", base));
    assert!(paginator.next_body().is_none());
}
