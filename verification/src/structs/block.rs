//! Content blocks: the tagged payload of each block kind, constructors for
//! building blocks to append under a page or another block, and the
//! request/response records of the block-append endpoint.

use crate::structs::common::{
    are_plain_text_runs, is_plain_text_run, plain_text_runs, Color, ExternalUrl, File, Icon,
    Parent, ParentType, RichText,
};
use vstd::prelude::*;
use vstd::string::*;

verus! {

/// A bookmark of an external URL.
#[derive(Debug, Clone)]
pub struct Bookmark {
    pub caption: Vec<RichText>,
    pub url: String,
}

/// One item of a bulleted list.
#[derive(Debug)]
pub struct BulletedListItem {
    pub rich_text: Vec<RichText>,
    pub color: Color,
    pub children: Vec<Block>,
}

/// A callout box.
#[derive(Debug, Clone)]
pub struct Callout {
    pub rich_text: Vec<RichText>,
    pub icon: Option<Icon>,
    pub color: Color,
}

/// A child database reference.
#[derive(Debug, Clone)]
pub struct ChildDatabase {
    pub title: String,
}

/// A child page reference.
#[derive(Debug, Clone)]
pub struct ChildPage {
    pub title: String,
}

/// A code block.
#[derive(Debug, Clone)]
pub struct Code {
    pub caption: Vec<RichText>,
    pub rich_text: Vec<RichText>,
    pub language: String,
}

/// An embedded resource.
#[derive(Debug, Clone)]
pub struct Embed {
    pub url: String,
}

/// A display equation.
#[derive(Debug, Clone)]
pub struct Equation {
    pub expression: String,
}

/// A heading of any level.
#[derive(Debug, Clone)]
pub struct Heading {
    pub rich_text: Vec<RichText>,
    pub color: Color,
    pub is_toggleable: bool,
}

/// An externally hosted image.
#[derive(Debug, Clone)]
pub struct Image {
    pub kind: String,
    pub external: ExternalUrl,
}

/// A link preview card.
#[derive(Debug, Clone)]
pub struct LinkPreview {
    pub url: String,
}

/// One item of a numbered list.
#[derive(Debug)]
pub struct NumberedListItem {
    pub rich_text: Vec<RichText>,
    pub color: Color,
    pub children: Vec<Block>,
}

/// An externally hosted PDF.
#[derive(Debug, Clone)]
pub struct Pdf {
    pub kind: String,
    pub external: ExternalUrl,
}

/// A quotation.
#[derive(Debug)]
pub struct Quote {
    pub rich_text: Vec<RichText>,
    pub color: Color,
    pub children: Vec<Block>,
}

/// A paragraph of text.
#[derive(Debug)]
pub struct Paragraph {
    pub rich_text: Vec<RichText>,
    pub color: Color,
    pub children: Vec<Block>,
}

/// A table container.
#[derive(Debug, Clone)]
pub struct Table {
    pub table_width: u32,
    pub has_column_header: bool,
    pub has_row_header: bool,
}

/// One row of a table.
#[derive(Debug, Clone)]
pub struct TableRow {
    pub cells: Vec<RichText>,
}

/// A table-of-contents block.
#[derive(Debug, Clone)]
pub struct TableOfContents {
    pub color: Color,
}

/// A to-do item with a checked state.
#[derive(Debug)]
pub struct ToDo {
    pub rich_text: Vec<RichText>,
    pub color: Color,
    pub checked: bool,
    pub children: Vec<Block>,
}

/// A collapsible toggle.
#[derive(Debug)]
pub struct ToggleBlock {
    pub rich_text: Vec<RichText>,
    pub color: Color,
    pub children: Vec<Block>,
}

/// An externally hosted video.
#[derive(Debug, Clone)]
pub struct Video {
    pub kind: String,
    pub external: ExternalUrl,
}

/// The kind tag of a block together with its single payload.  Kinds whose
/// wire payload is an empty object carry no data.
#[derive(Debug)]
pub enum BlockPayload {
    Bookmark(Bookmark),
    Breadcrumb,
    BulletedListItem(BulletedListItem),
    Callout(Callout),
    ChildDatabase(ChildDatabase),
    ChildPage(ChildPage),
    Code(Code),
    ColumnList,
    Column,
    Divider,
    Embed(Embed),
    Equation(Equation),
    File(File),
    Heading1(Heading),
    Heading2(Heading),
    Heading3(Heading),
    Image(Image),
    LinkPreview(LinkPreview),
    NumberedListItem(NumberedListItem),
    Paragraph(Paragraph),
    Pdf(Pdf),
    Quote(Quote),
    Table(Table),
    TableRow(TableRow),
    TableOfContents(TableOfContents),
    ToDo(ToDo),
    Toggle(ToggleBlock),
    Video(Video),
    Unset,
}

/// One unit of page content: where it goes and what it holds.
#[derive(Debug)]
pub struct Block {
    pub parent: Parent,
    pub payload: BlockPayload,
}

impl Default for Block {
    /// A block with no payload, parented under an unnamed block.
    fn default() -> (r: Block)
        ensures
            r.parent.kind == ParentType::Block,
            r.parent.database_id is None && r.parent.page_id is None
                && r.parent.workspace_id is None && r.parent.block_id is None,
            r.payload is Unset,
    {
        Block {
            parent: Parent {
                kind: ParentType::Block,
                database_id: None,
                page_id: None,
                workspace_id: None,
                block_id: None,
            },
            payload: BlockPayload::Unset,
        }
    }
}

/// A single plain text run, as block constructors build from one caption.
fn one_run(text: &str) -> (r: Vec<RichText>)
    ensures
        r@.len() == 1,
        is_plain_text_run(r@[0], text@),
{
    let mut runs: Vec<RichText> = Vec::new();
    runs.push(RichText::from_str(text));
    runs
}

impl Block {
    pub fn bookmark(parent_type: ParentType, parent_id: String, caption: String, url: String) -> (r:
        Block)
        ensures
            r.parent.points_at(parent_type, parent_id@),
            (r.payload matches BlockPayload::Bookmark(b) && b.url@ == url@ && b.caption@.len() == 1
                && is_plain_text_run(b.caption@[0], caption@)),
    {
        Block {
            parent: Parent::from(parent_type, parent_id.as_str()),
            payload: BlockPayload::Bookmark(Bookmark { caption: one_run(caption.as_str()), url }),
        }
    }

    pub fn breadcrumb(parent_type: ParentType, parent_id: String) -> (r: Block)
        ensures
            r.parent.points_at(parent_type, parent_id@),
            r.payload is Breadcrumb,
    {
        Block {
            parent: Parent::from(parent_type, parent_id.as_str()),
            payload: BlockPayload::Breadcrumb,
        }
    }

    pub fn bulleted_list_item(parent_type: ParentType, parent_id: String, texts: Vec<String>) -> (r:
        Block)
        ensures
            r.parent.points_at(parent_type, parent_id@),
            (r.payload matches BlockPayload::BulletedListItem(b) && are_plain_text_runs(
                b.rich_text@,
                texts@,
            ) && b.color == Color::Default && b.children@.len() == 0),
    {
        let rich_text = plain_text_runs(&texts);
        Block {
            parent: Parent::from(parent_type, parent_id.as_str()),
            payload: BlockPayload::BulletedListItem(
                BulletedListItem { rich_text, color: Color::Default, children: Vec::new() },
            ),
        }
    }

    pub fn callout(
        parent_type: ParentType,
        parent_id: String,
        text: String,
        icon: Icon,
        color: Color,
    ) -> (r: Block)
        ensures
            r.parent.points_at(parent_type, parent_id@),
            (r.payload matches BlockPayload::Callout(c) && c.rich_text@.len() == 1
                && is_plain_text_run(c.rich_text@[0], text@) && c.icon == Some(icon) && c.color
                == color),
    {
        Block {
            parent: Parent::from(parent_type, parent_id.as_str()),
            payload: BlockPayload::Callout(
                Callout { rich_text: one_run(text.as_str()), icon: Some(icon), color },
            ),
        }
    }

    pub fn child_database(parent_type: ParentType, parent_id: String, title: String) -> (r: Block)
        ensures
            r.parent.points_at(parent_type, parent_id@),
            (r.payload matches BlockPayload::ChildDatabase(c) && c.title@ == title@),
    {
        Block {
            parent: Parent::from(parent_type, parent_id.as_str()),
            payload: BlockPayload::ChildDatabase(ChildDatabase { title }),
        }
    }

    pub fn child_page(parent_type: ParentType, parent_id: String, title: String) -> (r: Block)
        ensures
            r.parent.points_at(parent_type, parent_id@),
            (r.payload matches BlockPayload::ChildPage(c) && c.title@ == title@),
    {
        Block {
            parent: Parent::from(parent_type, parent_id.as_str()),
            payload: BlockPayload::ChildPage(ChildPage { title }),
        }
    }

    pub fn code(
        parent_type: ParentType,
        parent_id: String,
        caption: String,
        language: String,
        texts: Vec<String>,
    ) -> (r: Block)
        ensures
            r.parent.points_at(parent_type, parent_id@),
            (r.payload matches BlockPayload::Code(c) && c.caption@.len() == 1 && is_plain_text_run(
                c.caption@[0],
                caption@,
            ) && are_plain_text_runs(c.rich_text@, texts@) && c.language@ == language@),
    {
        let rich_text = plain_text_runs(&texts);
        Block {
            parent: Parent::from(parent_type, parent_id.as_str()),
            payload: BlockPayload::Code(
                Code { caption: one_run(caption.as_str()), rich_text, language },
            ),
        }
    }

    pub fn column_list(parent_type: ParentType, parent_id: String) -> (r: Block)
        ensures
            r.parent.points_at(parent_type, parent_id@),
            r.payload is ColumnList,
    {
        Block {
            parent: Parent::from(parent_type, parent_id.as_str()),
            payload: BlockPayload::ColumnList,
        }
    }

    pub fn column(parent_type: ParentType, parent_id: String) -> (r: Block)
        ensures
            r.parent.points_at(parent_type, parent_id@),
            r.payload is Column,
    {
        Block {
            parent: Parent::from(parent_type, parent_id.as_str()),
            payload: BlockPayload::Column,
        }
    }

    pub fn divider(parent_type: ParentType, parent_id: String) -> (r: Block)
        ensures
            r.parent.points_at(parent_type, parent_id@),
            r.payload is Divider,
    {
        Block {
            parent: Parent::from(parent_type, parent_id.as_str()),
            payload: BlockPayload::Divider,
        }
    }

    pub fn embed(parent_type: ParentType, parent_id: String, url: String) -> (r: Block)
        ensures
            r.parent.points_at(parent_type, parent_id@),
            (r.payload matches BlockPayload::Embed(e) && e.url@ == url@),
    {
        Block {
            parent: Parent::from(parent_type, parent_id.as_str()),
            payload: BlockPayload::Embed(Embed { url }),
        }
    }

    pub fn equation(parent_type: ParentType, parent_id: String, expression: String) -> (r: Block)
        ensures
            r.parent.points_at(parent_type, parent_id@),
            (r.payload matches BlockPayload::Equation(e) && e.expression@ == expression@),
    {
        Block {
            parent: Parent::from(parent_type, parent_id.as_str()),
            payload: BlockPayload::Equation(Equation { expression }),
        }
    }

    pub fn file(parent_type: ParentType, parent_id: String) -> (r: Block)
        ensures
            r.parent.points_at(parent_type, parent_id@),
            (r.payload matches BlockPayload::File(f) && f.name@.len() == 0 && f.kind@.len() == 0
                && f.external.url@.len() == 0 && f.caption@.len() == 0),
    {
        Block {
            parent: Parent::from(parent_type, parent_id.as_str()),
            payload: BlockPayload::File(
                File {
                    name: String::new(),
                    kind: String::new(),
                    external: ExternalUrl { url: String::new() },
                    caption: Vec::new(),
                },
            ),
        }
    }

    pub fn heading_1(parent_type: ParentType, parent_id: String, texts: Vec<String>) -> (r: Block)
        ensures
            r.parent.points_at(parent_type, parent_id@),
            (r.payload matches BlockPayload::Heading1(h) && are_plain_text_runs(
                h.rich_text@,
                texts@,
            ) && h.color == Color::Default && !h.is_toggleable),
    {
        let rich_text = plain_text_runs(&texts);
        Block {
            parent: Parent::from(parent_type, parent_id.as_str()),
            payload: BlockPayload::Heading1(
                Heading { rich_text, color: Color::Default, is_toggleable: false },
            ),
        }
    }

    pub fn heading_2(parent_type: ParentType, parent_id: String, texts: Vec<String>) -> (r: Block)
        ensures
            r.parent.points_at(parent_type, parent_id@),
            (r.payload matches BlockPayload::Heading2(h) && are_plain_text_runs(
                h.rich_text@,
                texts@,
            ) && h.color == Color::Default && !h.is_toggleable),
    {
        let rich_text = plain_text_runs(&texts);
        Block {
            parent: Parent::from(parent_type, parent_id.as_str()),
            payload: BlockPayload::Heading2(
                Heading { rich_text, color: Color::Default, is_toggleable: false },
            ),
        }
    }

    pub fn heading_3(parent_type: ParentType, parent_id: String, texts: Vec<String>) -> (r: Block)
        ensures
            r.parent.points_at(parent_type, parent_id@),
            (r.payload matches BlockPayload::Heading3(h) && are_plain_text_runs(
                h.rich_text@,
                texts@,
            ) && h.color == Color::Default && !h.is_toggleable),
    {
        let rich_text = plain_text_runs(&texts);
        Block {
            parent: Parent::from(parent_type, parent_id.as_str()),
            payload: BlockPayload::Heading3(
                Heading { rich_text, color: Color::Default, is_toggleable: false },
            ),
        }
    }

    pub fn image(parent_type: ParentType, parent_id: String, url: String) -> (r: Block)
        ensures
            r.parent.points_at(parent_type, parent_id@),
            (r.payload matches BlockPayload::Image(i) && i.kind@ == "external"@ && i.external.url@
                == url@),
    {
        Block {
            parent: Parent::from(parent_type, parent_id.as_str()),
            payload: BlockPayload::Image(
                Image { kind: String::from_str("external"), external: ExternalUrl { url } },
            ),
        }
    }

    pub fn link_preview(parent_type: ParentType, parent_id: String, url: String) -> (r: Block)
        ensures
            r.parent.points_at(parent_type, parent_id@),
            (r.payload matches BlockPayload::LinkPreview(l) && l.url@ == url@),
    {
        Block {
            parent: Parent::from(parent_type, parent_id.as_str()),
            payload: BlockPayload::LinkPreview(LinkPreview { url }),
        }
    }

    pub fn numbered_list_item(parent_type: ParentType, parent_id: String, texts: Vec<String>) -> (r:
        Block)
        ensures
            r.parent.points_at(parent_type, parent_id@),
            (r.payload matches BlockPayload::NumberedListItem(b) && are_plain_text_runs(
                b.rich_text@,
                texts@,
            ) && b.color == Color::Default && b.children@.len() == 0),
    {
        let rich_text = plain_text_runs(&texts);
        Block {
            parent: Parent::from(parent_type, parent_id.as_str()),
            payload: BlockPayload::NumberedListItem(
                NumberedListItem { rich_text, color: Color::Default, children: Vec::new() },
            ),
        }
    }

    pub fn paragraph(parent_type: ParentType, parent_id: String, texts: Vec<String>) -> (r: Block)
        ensures
            r.parent.points_at(parent_type, parent_id@),
            (r.payload matches BlockPayload::Paragraph(p) && are_plain_text_runs(
                p.rich_text@,
                texts@,
            ) && p.color == Color::Default && p.children@.len() == 0),
    {
        let rich_text = plain_text_runs(&texts);
        Block {
            parent: Parent::from(parent_type, parent_id.as_str()),
            payload: BlockPayload::Paragraph(
                Paragraph { rich_text, color: Color::Default, children: Vec::new() },
            ),
        }
    }

    pub fn pdf(parent_type: ParentType, parent_id: String, url: String) -> (r: Block)
        ensures
            r.parent.points_at(parent_type, parent_id@),
            (r.payload matches BlockPayload::Pdf(p) && p.kind@ == "external"@ && p.external.url@
                == url@),
    {
        Block {
            parent: Parent::from(parent_type, parent_id.as_str()),
            payload: BlockPayload::Pdf(
                Pdf { kind: String::from_str("external"), external: ExternalUrl { url } },
            ),
        }
    }

    pub fn quote(parent_type: ParentType, parent_id: String, texts: Vec<String>) -> (r: Block)
        ensures
            r.parent.points_at(parent_type, parent_id@),
            (r.payload matches BlockPayload::Quote(q) && are_plain_text_runs(q.rich_text@, texts@)
                && q.color == Color::Default && q.children@.len() == 0),
    {
        let rich_text = plain_text_runs(&texts);
        Block {
            parent: Parent::from(parent_type, parent_id.as_str()),
            payload: BlockPayload::Quote(
                Quote { rich_text, color: Color::Default, children: Vec::new() },
            ),
        }
    }

    pub fn table(parent_type: ParentType, parent_id: String) -> (r: Block)
        ensures
            r.parent.points_at(parent_type, parent_id@),
            (r.payload matches BlockPayload::Table(t) && t.table_width == 0 && !t.has_column_header
                && !t.has_row_header),
    {
        Block {
            parent: Parent::from(parent_type, parent_id.as_str()),
            payload: BlockPayload::Table(
                Table { table_width: 0, has_column_header: false, has_row_header: false },
            ),
        }
    }

    pub fn table_row(parent_type: ParentType, parent_id: String, cells: Vec<String>) -> (r: Block)
        ensures
            r.parent.points_at(parent_type, parent_id@),
            (r.payload matches BlockPayload::TableRow(t) && are_plain_text_runs(t.cells@, cells@)),
    {
        let runs = plain_text_runs(&cells);
        Block {
            parent: Parent::from(parent_type, parent_id.as_str()),
            payload: BlockPayload::TableRow(TableRow { cells: runs }),
        }
    }

    pub fn table_of_contents(parent_type: ParentType, parent_id: String) -> (r: Block)
        ensures
            r.parent.points_at(parent_type, parent_id@),
            (r.payload matches BlockPayload::TableOfContents(t) && t.color == Color::Default),
    {
        Block {
            parent: Parent::from(parent_type, parent_id.as_str()),
            payload: BlockPayload::TableOfContents(TableOfContents { color: Color::Default }),
        }
    }

    pub fn to_do(parent_type: ParentType, parent_id: String, texts: Vec<String>, checked: bool) -> (
        r: Block)
        ensures
            r.parent.points_at(parent_type, parent_id@),
            (r.payload matches BlockPayload::ToDo(t) && are_plain_text_runs(t.rich_text@, texts@)
                && t.color == Color::Default && t.checked == checked && t.children@.len() == 0),
    {
        let rich_text = plain_text_runs(&texts);
        Block {
            parent: Parent::from(parent_type, parent_id.as_str()),
            payload: BlockPayload::ToDo(
                ToDo { rich_text, color: Color::Default, checked, children: Vec::new() },
            ),
        }
    }

    pub fn toggle_blocks(parent_type: ParentType, parent_id: String, texts: Vec<String>) -> (r:
        Block)
        ensures
            r.parent.points_at(parent_type, parent_id@),
            (r.payload matches BlockPayload::Toggle(t) && are_plain_text_runs(t.rich_text@, texts@)
                && t.color == Color::Default && t.children@.len() == 0),
    {
        let rich_text = plain_text_runs(&texts);
        Block {
            parent: Parent::from(parent_type, parent_id.as_str()),
            payload: BlockPayload::Toggle(
                ToggleBlock { rich_text, color: Color::Default, children: Vec::new() },
            ),
        }
    }

    pub fn video(parent_type: ParentType, parent_id: String, url: String) -> (r: Block)
        ensures
            r.parent.points_at(parent_type, parent_id@),
            (r.payload matches BlockPayload::Video(v) && v.kind@ == "external"@ && v.external.url@
                == url@),
    {
        Block {
            parent: Parent::from(parent_type, parent_id.as_str()),
            payload: BlockPayload::Video(
                Video { kind: String::from_str("external"), external: ExternalUrl { url } },
            ),
        }
    }
}

/// What one block-append call (or the whole batched operation) returned.
#[derive(Debug)]
pub struct BlockResponse {
    pub object: String,
    pub status: u32,
    pub code: String,
    pub message: String,
    pub results: Vec<Block>,
}

/// The body of one block-append request: at most the per-request limit of
/// children.
#[derive(Debug)]
pub struct BlockBody {
    pub children: Vec<Block>,
}

} // verus!
