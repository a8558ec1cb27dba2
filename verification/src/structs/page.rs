//! Pages: property values with a display accessor, the page record itself,
//! and the paged response of the query endpoint.

use crate::structs::common::{
    normalized_status, Color, Date, Email, File, Parent, ParentType, PhoneNumber, Relation,
    RichText, SelectOption, UniqueId, User,
};
use crate::wire::{bool_text, join_comma, joined, push_bool, string_views};
use vstd::prelude::*;
use vstd::string::*;

verus! {

/// The names of a list of select options, in order.
pub open spec fn option_names(opts: Seq<SelectOption>) -> Seq<Seq<char>> {
    Seq::new(opts.len(), |i: int| opts[i].name@)
}

/// The target ids of a list of relations, in order.
pub open spec fn relation_ids(rs: Seq<Relation>) -> Seq<Seq<char>> {
    Seq::new(rs.len(), |i: int| rs[i].id@)
}

/// The plain texts of a list of rich-text runs, in order.
pub open spec fn plain_texts(ts: Seq<RichText>) -> Seq<Seq<char>> {
    Seq::new(ts.len(), |i: int| ts[i].plain_text@)
}

/// One property value of a page: a kind tag with the single payload of that
/// kind.  `Unset` stands for a record whose kind was absent or not
/// recognized.  A number is kept as its decimal wire text.
#[derive(Debug, Clone)]
pub enum PageProperty {
    Checkbox(bool),
    Date(Date),
    Email(Email),
    Files(Vec<File>),
    MultiSelect(Vec<SelectOption>),
    Number(String),
    People(Vec<User>),
    PhoneNumber(PhoneNumber),
    Relation(Vec<Relation>),
    RichText(Vec<RichText>),
    Select(SelectOption),
    Status(SelectOption),
    Title(Vec<RichText>),
    Url(String),
    UniqueId(UniqueId),
    Unset,
}

impl Default for PageProperty {
    fn default() -> (r: PageProperty)
        ensures
            r is Unset,
    {
        PageProperty::Unset
    }
}

impl PageProperty {
    /// The display string of a property: scalar kinds render their scalar,
    /// list kinds join their elements' display strings with `", "`, and a
    /// kind without a display form renders as the empty string.
    pub open spec fn display(self) -> Seq<char> {
        match self {
            PageProperty::Checkbox(b) => bool_text(b),
            PageProperty::Date(d) => d.start@,
            PageProperty::Email(e) => e.email@,
            PageProperty::Files(_) => Seq::empty(),
            PageProperty::MultiSelect(opts) => joined(option_names(opts@), 0),
            PageProperty::Number(n) => n@,
            PageProperty::People(_) => Seq::empty(),
            PageProperty::PhoneNumber(p) => p.phone_number@,
            PageProperty::Relation(rs) => joined(relation_ids(rs@), 0),
            PageProperty::RichText(ts) => joined(plain_texts(ts@), 0),
            PageProperty::Select(o) => o.name@,
            PageProperty::Status(o) => o.name@,
            PageProperty::Title(ts) => joined(plain_texts(ts@), 0),
            PageProperty::Url(u) => u@,
            PageProperty::UniqueId(_) => Seq::empty(),
            PageProperty::Unset => Seq::empty(),
        }
    }

    pub fn checkbox(value: bool) -> (r: Self)
        ensures
            r == PageProperty::Checkbox(value),
    {
        PageProperty::Checkbox(value)
    }

    pub fn date(value: String) -> (r: Self)
        ensures
            (r matches PageProperty::Date(d) && d.start == value),
    {
        PageProperty::Date(Date { start: value })
    }

    pub fn email(value: String) -> (r: Self)
        ensures
            (r matches PageProperty::Email(e) && e.email == value),
    {
        PageProperty::Email(Email { email: value })
    }

    pub fn multi_select(value: Vec<String>) -> (r: Self)
        ensures
            (r matches PageProperty::MultiSelect(opts) && opts@.len() == value@.len() && forall|
                i: int,
            |
                0 <= i < opts@.len() ==> {
                    &&& (#[trigger] opts@[i]).name@ == value@[i]@
                    &&& opts@[i].id@ == Seq::<char>::empty()
                    &&& opts@[i].color == Color::Default
                }),
    {
        let mut options: Vec<SelectOption> = Vec::new();
        let mut i: usize = 0;
        while i < value.len()
            invariant
                i <= value@.len(),
                options@.len() == i,
                forall|j: int|
                    0 <= j < i ==> {
                        &&& (#[trigger] options@[j]).name@ == value@[j]@
                        &&& options@[j].id@ == Seq::<char>::empty()
                        &&& options@[j].color == Color::Default
                    },
            decreases value@.len() - i,
        {
            options.push(
                SelectOption { id: String::new(), name: value[i].clone(), color: Color::Default },
            );
            i = i + 1;
        }
        PageProperty::MultiSelect(options)
    }

    /// A number property; the value is its decimal wire text.
    pub fn number(value: String) -> (r: Self)
        ensures
            r == PageProperty::Number(value),
    {
        PageProperty::Number(value)
    }

    pub fn phone_number(value: String) -> (r: Self)
        ensures
            (r matches PageProperty::PhoneNumber(p) && p.phone_number == value),
    {
        PageProperty::PhoneNumber(PhoneNumber { phone_number: value })
    }

    pub fn relation(value: Vec<String>) -> (r: Self)
        ensures
            (r matches PageProperty::Relation(rs) && rs@.len() == value@.len() && forall|i: int|
                0 <= i < rs@.len() ==> (#[trigger] rs@[i]).id@ == value@[i]@),
    {
        let mut relations: Vec<Relation> = Vec::new();
        let mut i: usize = 0;
        while i < value.len()
            invariant
                i <= value@.len(),
                relations@.len() == i,
                forall|j: int| 0 <= j < i ==> (#[trigger] relations@[j]).id@ == value@[j]@,
            decreases value@.len() - i,
        {
            relations.push(Relation { id: value[i].clone() });
            i = i + 1;
        }
        PageProperty::Relation(relations)
    }

    pub fn rich_text(value: Vec<RichText>) -> (r: Self)
        ensures
            r == PageProperty::RichText(value),
    {
        PageProperty::RichText(value)
    }

    pub fn select(value: String) -> (r: Self)
        ensures
            (r matches PageProperty::Select(o) && o.name == value && o.id@ == Seq::<char>::empty()
                && o.color == Color::Default),
    {
        PageProperty::Select(SelectOption { id: String::new(), name: value, color: Color::Default })
    }

    pub fn status(value: String) -> (r: Self)
        ensures
            (r matches PageProperty::Status(o) && o.name == value && o.id@ == Seq::<char>::empty()
                && o.color == Color::Default),
    {
        PageProperty::Status(SelectOption { id: String::new(), name: value, color: Color::Default })
    }

    pub fn title(value: RichText) -> (r: Self)
        ensures
            (r matches PageProperty::Title(ts) && ts@.len() == 1 && ts@[0] == value),
    {
        let mut ts: Vec<RichText> = Vec::new();
        ts.push(value);
        PageProperty::Title(ts)
    }

    pub fn url(value: String) -> (r: Self)
        ensures
            r == PageProperty::Url(value),
    {
        PageProperty::Url(value)
    }

    /// The display string of the property.  Total: a record with no
    /// displayable payload yields the empty string rather than an error.
    pub fn get_value(&self) -> (r: String)
        ensures
            r@ == self.display(),
    {
        match self {
            PageProperty::Checkbox(b) => {
                let mut out = String::new();
                push_bool(&mut out, *b);
                out
            },
            PageProperty::Date(d) => d.start.clone(),
            PageProperty::Email(e) => e.email.clone(),
            PageProperty::Files(_) => String::new(),
            PageProperty::MultiSelect(opts) => {
                let mut values: Vec<String> = Vec::new();
                let mut i: usize = 0;
                while i < opts.len()
                    invariant
                        i <= opts@.len(),
                        values@.len() == i,
                        forall|j: int| 0 <= j < i ==> (#[trigger] values@[j])@ == opts@[j].name@,
                    decreases opts@.len() - i,
                {
                    values.push(opts[i].name.clone());
                    i = i + 1;
                }
                proof {
                    assert(string_views(values@) =~= option_names(opts@));
                }
                join_comma(&values)
            },
            PageProperty::Number(n) => n.clone(),
            PageProperty::People(_) => String::new(),
            PageProperty::PhoneNumber(p) => p.phone_number.clone(),
            PageProperty::Relation(rs) => {
                let mut values: Vec<String> = Vec::new();
                let mut i: usize = 0;
                while i < rs.len()
                    invariant
                        i <= rs@.len(),
                        values@.len() == i,
                        forall|j: int| 0 <= j < i ==> (#[trigger] values@[j])@ == rs@[j].id@,
                    decreases rs@.len() - i,
                {
                    values.push(rs[i].id.clone());
                    i = i + 1;
                }
                proof {
                    assert(string_views(values@) =~= relation_ids(rs@));
                }
                join_comma(&values)
            },
            PageProperty::RichText(ts) => {
                let mut values: Vec<String> = Vec::new();
                let mut i: usize = 0;
                while i < ts.len()
                    invariant
                        i <= ts@.len(),
                        values@.len() == i,
                        forall|j: int| 0 <= j < i ==> (#[trigger] values@[j])@ == ts@[j].plain_text@,
                    decreases ts@.len() - i,
                {
                    values.push(ts[i].plain_text.clone());
                    i = i + 1;
                }
                proof {
                    assert(string_views(values@) =~= plain_texts(ts@));
                }
                join_comma(&values)
            },
            PageProperty::Select(o) => o.name.clone(),
            PageProperty::Status(o) => o.name.clone(),
            PageProperty::Title(ts) => {
                let mut values: Vec<String> = Vec::new();
                let mut i: usize = 0;
                while i < ts.len()
                    invariant
                        i <= ts@.len(),
                        values@.len() == i,
                        forall|j: int| 0 <= j < i ==> (#[trigger] values@[j])@ == ts@[j].plain_text@,
                    decreases ts@.len() - i,
                {
                    values.push(ts[i].plain_text.clone());
                    i = i + 1;
                }
                proof {
                    assert(string_views(values@) =~= plain_texts(ts@));
                }
                join_comma(&values)
            },
            PageProperty::Url(u) => u.clone(),
            PageProperty::UniqueId(_) => String::new(),
            PageProperty::Unset => String::new(),
        }
    }
}

/// A page record: its parent, its named property values in insertion
/// order, and the metadata a response carries back.
#[derive(Debug, Clone)]
pub struct Page {
    pub parent: Parent,
    pub properties: Vec<(String, PageProperty)>,
    pub object: String,
    pub id: String,
    pub created_time: String,
    pub last_edited_time: String,
    pub created_by: User,
    pub last_edited_by: User,
    pub archived: bool,
    pub in_trash: bool,
    pub next_cursor: Option<String>,
    pub has_more: bool,
    pub kind: String,
    pub status: u32,
    pub code: String,
    pub message: String,
}

impl Default for Page {
    /// A fresh page: not archived, no properties, parented under an
    /// unnamed database, with a success status.
    fn default() -> (r: Page)
        ensures
            r.parent.kind == ParentType::Database,
            r.parent.database_id is None && r.parent.page_id is None && r.parent.workspace_id
                is None && r.parent.block_id is None,
            r.properties@.len() == 0,
            r.object@ == "page"@,
            r.kind@ == "page"@,
            !r.archived,
            !r.in_trash,
            !r.has_more,
            r.next_cursor is None,
            r.status == 200,
            r.id@ == Seq::<char>::empty(),
            r.code@ == Seq::<char>::empty(),
            r.message@ == Seq::<char>::empty(),
    {
        Page {
            parent: Parent {
                kind: ParentType::Database,
                database_id: None,
                page_id: None,
                workspace_id: None,
                block_id: None,
            },
            properties: Vec::new(),
            object: String::from_str("page"),
            id: String::new(),
            created_time: String::new(),
            last_edited_time: String::new(),
            created_by: User::default(),
            last_edited_by: User::default(),
            archived: false,
            in_trash: false,
            next_cursor: None,
            has_more: false,
            kind: String::from_str("page"),
            status: 200,
            code: String::new(),
            message: String::new(),
        }
    }
}

impl Page {
    /// A fresh page holding the given properties.
    pub fn from_properties(properties: Vec<(String, PageProperty)>) -> (r: Page)
        ensures
            r.properties == properties,
            r.parent.kind == ParentType::Database,
            r.parent.database_id is None,
            r.object@ == "page"@,
            !r.archived,
            r.status == 200,
    {
        let mut page = Page::default();
        page.properties = properties;
        page
    }

    /// The update record that archives a page: empty but for the archived
    /// flag and the parent it lives under.
    pub fn for_archive(parent_type: ParentType, parent_id: &str) -> (r: Page)
        ensures
            r.archived,
            r.parent.points_at(parent_type, parent_id@),
            r.properties@.len() == 0,
            r.object@ == "page"@,
    {
        let mut page = Page::default();
        page.archived = true;
        page.parent = Parent::from(parent_type, parent_id);
        page
    }

    /// Apply the absent-status rule to a decoded page.
    pub fn normalize(&mut self)
        ensures
            final(self).status == normalized_status(old(self).status),
            *final(self) == (Page { status: final(self).status, ..*old(self) }),
    {
        if self.status == 0 {
            self.status = 200;
        }
    }
}

/// One page of query results: the records, whether more pages follow, and
/// the cursor that resumes the query when they do.
#[derive(Debug, Clone)]
pub struct PageResponse {
    pub object: String,
    pub kind: String,
    pub status: u32,
    pub code: String,
    pub message: String,
    pub results: Vec<Page>,
    pub has_more: bool,
    pub next_cursor: String,
}

impl PageResponse {
    /// Apply the absent-status rule to a decoded response.
    pub fn normalize(&mut self)
        ensures
            final(self).status == normalized_status(old(self).status),
            *final(self) == (PageResponse { status: final(self).status, ..*old(self) }),
    {
        if self.status == 0 {
            self.status = 200;
        }
    }
}

} // verus!
