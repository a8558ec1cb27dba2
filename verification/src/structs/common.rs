//! Shared value types: colors, icons, rich text, parents and the small
//! scalar records that property payloads are made of.

use vstd::prelude::*;
use vstd::string::*;

verus! {

/// Display color of a text run or block.
#[derive(Debug, Clone, Copy, PartialEq, Eq, Structural)]
pub enum Color {
    Default,
    Blue,
    BlueBackground,
    Brown,
    BrownBackground,
    Gray,
    GrayBackground,
    Green,
    GreenBackground,
    Orange,
    OrangeBackground,
    Yellow,
    YellowBackground,
    Pink,
    PinkBackground,
    Purple,
    PurpleBackground,
    Red,
    RedBackground,
}

impl Default for Color {
    fn default() -> (r: Color)
        ensures
            r == Color::Default,
    {
        Color::Default
    }
}

/// An emoji icon.
#[derive(Debug, Clone)]
pub struct Icon {
    pub emoji: String,
}

impl Icon {
    pub fn from_str(emoji: &str) -> (r: Icon)
        ensures
            r.emoji@ == emoji@,
    {
        Icon { emoji: String::from_str(emoji) }
    }
}

/// A date value, kept as the wire text of its start.
#[derive(Debug, Clone)]
pub struct Date {
    pub start: String,
}

/// An email address.
#[derive(Debug, Clone)]
pub struct Email {
    pub email: String,
}

/// An externally hosted URL.
#[derive(Debug, Clone)]
pub struct ExternalUrl {
    pub url: String,
}

/// A file attachment.
#[derive(Debug, Clone)]
pub struct File {
    pub name: String,
    pub kind: String,
    pub external: ExternalUrl,
    pub caption: Vec<RichText>,
}

/// A phone number.
#[derive(Debug, Clone)]
pub struct PhoneNumber {
    pub phone_number: String,
}

/// One option of a select, multi-select or status property.
#[derive(Debug, Clone)]
pub struct SelectOption {
    pub id: String,
    pub name: String,
    pub color: Color,
}

/// A reference to another page.
#[derive(Debug, Clone)]
pub struct Relation {
    pub id: String,
}

/// An auto-incremented identifier with an optional prefix.
#[derive(Debug, Clone)]
pub struct UniqueId {
    pub number: u128,
    pub prefix: String,
}

/// A user record.
#[derive(Debug, Clone)]
pub struct User {
    pub object: String,
    pub id: String,
    pub name: String,
    pub avatar_url: Option<String>,
    pub kind: String,
    pub person: Email,
}

impl Default for User {
    fn default() -> (r: User)
        ensures
            r.object@ == Seq::<char>::empty(),
            r.id@ == Seq::<char>::empty(),
            r.name@ == Seq::<char>::empty(),
            r.avatar_url is None,
            r.kind@ == Seq::<char>::empty(),
            r.person.email@ == Seq::<char>::empty(),
    {
        User {
            object: String::new(),
            id: String::new(),
            name: String::new(),
            avatar_url: None,
            kind: String::new(),
            person: Email { email: String::new() },
        }
    }
}

/// The status normalization rule for decoded responses: a wire body that
/// carried no explicit status decodes to 0, which stands for success.
pub open spec fn normalized_status(s: u32) -> u32 {
    if s == 0 {
        200
    } else {
        s
    }
}

/// Which kind of object a parent reference points at.
#[derive(Debug, Clone, Copy, PartialEq, Eq, Structural)]
pub enum ParentType {
    Database,
    Page,
    Workspace,
    Block,
}

impl Default for ParentType {
    fn default() -> (r: ParentType)
        ensures
            r == ParentType::Database,
    {
        ParentType::Database
    }
}

/// The parent of a page or block: exactly the id field matching
/// `kind` is set.
#[derive(Debug, Clone)]
pub struct Parent {
    pub kind: ParentType,
    pub database_id: Option<String>,
    pub page_id: Option<String>,
    pub workspace_id: Option<String>,
    pub block_id: Option<String>,
}

impl Parent {
    fn database(database_id: &str) -> (r: Parent)
        ensures
            r.kind == ParentType::Database,
            r.database_id matches Some(id) && id@ == database_id@,
            r.page_id is None && r.workspace_id is None && r.block_id is None,
    {
        Parent {
            kind: ParentType::Database,
            database_id: Some(String::from_str(database_id)),
            page_id: None,
            workspace_id: None,
            block_id: None,
        }
    }

    fn page(page_id: &str) -> (r: Parent)
        ensures
            r.kind == ParentType::Page,
            r.page_id matches Some(id) && id@ == page_id@,
            r.database_id is None && r.workspace_id is None && r.block_id is None,
    {
        Parent {
            kind: ParentType::Page,
            database_id: None,
            page_id: Some(String::from_str(page_id)),
            workspace_id: None,
            block_id: None,
        }
    }

    fn workspace(workspace_id: &str) -> (r: Parent)
        ensures
            r.kind == ParentType::Workspace,
            r.workspace_id matches Some(id) && id@ == workspace_id@,
            r.database_id is None && r.page_id is None && r.block_id is None,
    {
        Parent {
            kind: ParentType::Workspace,
            database_id: None,
            page_id: None,
            workspace_id: Some(String::from_str(workspace_id)),
            block_id: None,
        }
    }

    fn block(block_id: &str) -> (r: Parent)
        ensures
            r.kind == ParentType::Block,
            r.block_id matches Some(id) && id@ == block_id@,
            r.database_id is None && r.page_id is None && r.workspace_id is None,
    {
        Parent {
            kind: ParentType::Block,
            database_id: None,
            page_id: None,
            workspace_id: None,
            block_id: Some(String::from_str(block_id)),
        }
    }

    /// Whether exactly the id slot selected by `kind` holds `id`.
    pub open spec fn points_at(self, parent_type: ParentType, id: Seq<char>) -> bool {
        &&& self.kind == parent_type
        &&& match parent_type {
            ParentType::Database => self.database_id matches Some(d) && d@ == id
                && self.page_id is None && self.workspace_id is None && self.block_id is None,
            ParentType::Page => self.page_id matches Some(d) && d@ == id
                && self.database_id is None && self.workspace_id is None && self.block_id is None,
            ParentType::Workspace => self.workspace_id matches Some(d) && d@ == id
                && self.database_id is None && self.page_id is None && self.block_id is None,
            ParentType::Block => self.block_id matches Some(d) && d@ == id
                && self.database_id is None && self.page_id is None && self.workspace_id is None,
        }
    }

    /// Build a parent reference of the given kind.
    pub fn from(parent_type: ParentType, parent_id: &str) -> (r: Parent)
        ensures
            r.points_at(parent_type, parent_id@),
    {
        match parent_type {
            ParentType::Database => Parent::database(parent_id),
            ParentType::Page => Parent::page(parent_id),
            ParentType::Workspace => Parent::workspace(parent_id),
            ParentType::Block => Parent::block(parent_id),
        }
    }
}

/// The literal text of a rich-text run.
#[derive(Debug, Clone)]
pub struct TextObject {
    pub content: String,
    pub link: Option<String>,
}

impl Default for TextObject {
    fn default() -> (r: TextObject)
        ensures
            r.content@ == Seq::<char>::empty(),
            r.link is None,
    {
        TextObject { content: String::new(), link: None }
    }
}

/// Styling flags of a rich-text run.
#[derive(Debug, Clone)]
pub struct AnnotationObject {
    pub bold: bool,
    pub italic: bool,
    pub strikethrough: bool,
    pub underline: bool,
    pub code: bool,
    pub color: String,
}

impl Default for AnnotationObject {
    fn default() -> (r: AnnotationObject)
        ensures
            !r.bold && !r.italic && !r.strikethrough && !r.underline && !r.code,
            r.color@ == "default"@,
    {
        AnnotationObject {
            bold: false,
            italic: false,
            strikethrough: false,
            underline: false,
            code: false,
            color: String::from_str("default"),
        }
    }
}

/// One styled run of text.
#[derive(Debug, Clone)]
pub struct RichText {
    pub kind: String,
    pub text: TextObject,
    pub annotations: AnnotationObject,
    pub plain_text: String,
    pub href: Option<String>,
}

impl Default for RichText {
    fn default() -> (r: RichText)
        ensures
            r.kind@ == "text"@,
            r.text.content@ == Seq::<char>::empty(),
            r.text.link is None,
            r.plain_text@ == Seq::<char>::empty(),
            r.href is None,
            !r.annotations.bold && !r.annotations.italic && !r.annotations.strikethrough
                && !r.annotations.underline && !r.annotations.code,
            r.annotations.color@ == "default"@,
    {
        RichText {
            kind: String::from_str("text"),
            text: TextObject::default(),
            annotations: AnnotationObject::default(),
            plain_text: String::new(),
            href: None,
        }
    }
}

/// Whether `r` is a plain text run holding `value`: default styling, no
/// link, and `value` as both content and plain-text echo.
pub open spec fn is_plain_text_run(r: RichText, value: Seq<char>) -> bool {
    &&& r.kind@ == "text"@
    &&& r.text.content@ == value
    &&& r.text.link is None
    &&& r.plain_text@ == value
    &&& r.href is None
    &&& !r.annotations.bold && !r.annotations.italic && !r.annotations.strikethrough
        && !r.annotations.underline && !r.annotations.code
    &&& r.annotations.color@ == "default"@
}

impl RichText {
    /// A plain run: `value` as both content and plain text, default styling.
    pub fn from_str(value: &str) -> (r: RichText)
        ensures
            is_plain_text_run(r, value@),
    {
        let mut rich_text = RichText::default();
        rich_text.text.content = String::from_str(value);
        rich_text.plain_text = String::from_str(value);
        rich_text
    }

    /// A styled run: `value` as content with the given annotations.  As in
    /// the plain constructor, only the content is set; the plain-text echo
    /// stays empty.
    pub fn from_str_with_annotations(
        value: &str,
        bold: bool,
        italic: bool,
        underline: bool,
        strikethrough: bool,
        code: bool,
        color: String,
    ) -> (r: RichText)
        ensures
            r.kind@ == "text"@,
            r.text.content@ == value@,
            r.text.link is None,
            r.plain_text@ == Seq::<char>::empty(),
            r.href is None,
            r.annotations.bold == bold,
            r.annotations.italic == italic,
            r.annotations.underline == underline,
            r.annotations.strikethrough == strikethrough,
            r.annotations.code == code,
            r.annotations.color == color,
    {
        let mut text = TextObject::default();
        text.content = String::from_str(value);
        let annotations = AnnotationObject { bold, italic, underline, strikethrough, code, color };
        let mut rich_text = RichText::default();
        rich_text.text = text;
        rich_text.annotations = annotations;
        rich_text
    }
}

/// Whether `runs` holds one plain text run for each entry of `texts`, in
/// order.
pub open spec fn are_plain_text_runs(runs: Seq<RichText>, texts: Seq<String>) -> bool {
    &&& runs.len() == texts.len()
    &&& forall|i: int| 0 <= i < runs.len() ==> is_plain_text_run(#[trigger] runs[i], texts[i]@)
}

/// One plain text run per entry of `texts`.
pub fn plain_text_runs(texts: &Vec<String>) -> (r: Vec<RichText>)
    ensures
        are_plain_text_runs(r@, texts@),
{
    let mut runs: Vec<RichText> = Vec::new();
    let mut i: usize = 0;
    while i < texts.len()
        invariant
            i <= texts@.len(),
            runs@.len() == i,
            forall|j: int| 0 <= j < i ==> is_plain_text_run(#[trigger] runs@[j], texts@[j]@),
        decreases texts@.len() - i,
    {
        runs.push(RichText::from_str(texts[i].as_str()));
        i = i + 1;
    }
    runs
}

} // verus!
