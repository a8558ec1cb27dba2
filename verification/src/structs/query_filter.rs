//! The query-filter engine: a recursive boolean tree of per-property
//! conditions, and its serialization into the exact request body the query
//! endpoint expects.
//!
//! A filter node is either a combinator (`and` / `or` over a list of child
//! filters) or a leaf naming one property, its kind, and a single predicate.
//! Each predicate type below is a tagged union, so a leaf always carries
//! exactly one operator; serialization emits exactly that operator's key and
//! nothing else.

use crate::wire::{
    obj_bool, obj_num, obj_raw, obj_str, push_char, push_obj_bool, push_obj_num, push_obj_str,
    push_quoted, quoted,
};
use vstd::prelude::*;
use vstd::string::*;

verus! {

/// Predicate on a checkbox property.
#[derive(Debug, Clone)]
pub enum CheckboxFilterItem {
    Equals(bool),
    DoesNotEqual(bool),
}

impl CheckboxFilterItem {
    /// The serialized predicate object.
    pub open spec fn wire(self) -> Seq<char> {
        match self {
            CheckboxFilterItem::Equals(b) => obj_bool("equals"@, b),
            CheckboxFilterItem::DoesNotEqual(b) => obj_bool("does_not_equal"@, b),
        }
    }

    pub fn equals() -> (r: Self)
        ensures
            r == CheckboxFilterItem::Equals(true),
    {
        CheckboxFilterItem::Equals(true)
    }

    pub fn does_not_equal() -> (r: Self)
        ensures
            r == CheckboxFilterItem::DoesNotEqual(true),
    {
        CheckboxFilterItem::DoesNotEqual(true)
    }

    fn push_wire(&self, out: &mut String)
        ensures
            final(out)@ == old(out)@ + self.wire(),
    {
        match self {
            CheckboxFilterItem::Equals(b) => push_obj_bool(out, "equals", *b),
            CheckboxFilterItem::DoesNotEqual(b) => push_obj_bool(out, "does_not_equal", *b),
        }
    }
}

/// Predicate on a date property.
#[derive(Debug, Clone)]
pub enum DateFilterItem {
    After(String),
    Before(String),
    Equals(String),
    IsEmpty(bool),
    IsNotEmpty(bool),
    OnOrAfter(String),
    OnOrBefore(String),
}

impl DateFilterItem {
    /// The serialized predicate object.
    pub open spec fn wire(self) -> Seq<char> {
        match self {
            DateFilterItem::After(v) => obj_str("after"@, v@),
            DateFilterItem::Before(v) => obj_str("before"@, v@),
            DateFilterItem::Equals(v) => obj_str("equals"@, v@),
            DateFilterItem::IsEmpty(b) => obj_bool("is_empty"@, b),
            DateFilterItem::IsNotEmpty(b) => obj_bool("is_not_empty"@, b),
            DateFilterItem::OnOrAfter(v) => obj_str("on_or_after"@, v@),
            DateFilterItem::OnOrBefore(v) => obj_str("on_or_before"@, v@),
        }
    }

    pub fn equals(value: String) -> (r: Self)
        ensures
            r == DateFilterItem::Equals(value),
    {
        DateFilterItem::Equals(value)
    }

    pub fn after(value: String) -> (r: Self)
        ensures
            r == DateFilterItem::After(value),
    {
        DateFilterItem::After(value)
    }

    pub fn before(value: String) -> (r: Self)
        ensures
            r == DateFilterItem::Before(value),
    {
        DateFilterItem::Before(value)
    }

    pub fn is_empty() -> (r: Self)
        ensures
            r == DateFilterItem::IsEmpty(true),
    {
        DateFilterItem::IsEmpty(true)
    }

    pub fn is_not_empty() -> (r: Self)
        ensures
            r == DateFilterItem::IsNotEmpty(true),
    {
        DateFilterItem::IsNotEmpty(true)
    }

    pub fn on_or_after(value: String) -> (r: Self)
        ensures
            r == DateFilterItem::OnOrAfter(value),
    {
        DateFilterItem::OnOrAfter(value)
    }

    pub fn on_or_before(value: String) -> (r: Self)
        ensures
            r == DateFilterItem::OnOrBefore(value),
    {
        DateFilterItem::OnOrBefore(value)
    }

    fn push_wire(&self, out: &mut String)
        ensures
            final(out)@ == old(out)@ + self.wire(),
    {
        match self {
            DateFilterItem::After(v) => push_obj_str(out, "after", v.as_str()),
            DateFilterItem::Before(v) => push_obj_str(out, "before", v.as_str()),
            DateFilterItem::Equals(v) => push_obj_str(out, "equals", v.as_str()),
            DateFilterItem::IsEmpty(b) => push_obj_bool(out, "is_empty", *b),
            DateFilterItem::IsNotEmpty(b) => push_obj_bool(out, "is_not_empty", *b),
            DateFilterItem::OnOrAfter(v) => push_obj_str(out, "on_or_after", v.as_str()),
            DateFilterItem::OnOrBefore(v) => push_obj_str(out, "on_or_before", v.as_str()),
        }
    }
}

/// Predicate on a files property.
#[derive(Debug, Clone)]
pub enum FilesFilterItem {
    IsEmpty(bool),
    IsNotEmpty(bool),
}

impl FilesFilterItem {
    /// The serialized predicate object.
    pub open spec fn wire(self) -> Seq<char> {
        match self {
            FilesFilterItem::IsEmpty(b) => obj_bool("is_empty"@, b),
            FilesFilterItem::IsNotEmpty(b) => obj_bool("is_not_empty"@, b),
        }
    }

    pub fn is_empty() -> (r: Self)
        ensures
            r == FilesFilterItem::IsEmpty(true),
    {
        FilesFilterItem::IsEmpty(true)
    }

    pub fn is_not_empty() -> (r: Self)
        ensures
            r == FilesFilterItem::IsNotEmpty(true),
    {
        FilesFilterItem::IsNotEmpty(true)
    }

    fn push_wire(&self, out: &mut String)
        ensures
            final(out)@ == old(out)@ + self.wire(),
    {
        match self {
            FilesFilterItem::IsEmpty(b) => push_obj_bool(out, "is_empty", *b),
            FilesFilterItem::IsNotEmpty(b) => push_obj_bool(out, "is_not_empty", *b),
        }
    }
}

/// Predicate on a number property.
#[derive(Debug, Clone)]
pub enum NumberFilterItem {
    Equals(u128),
    DoesNotEqual(u128),
    GreaterThan(u128),
    LessThan(u128),
    GreaterThanOrEqualTo(u128),
    LessThanOrEqualTo(u128),
    IsEmpty(bool),
    IsNotEmpty(bool),
}

impl NumberFilterItem {
    /// The serialized predicate object.
    pub open spec fn wire(self) -> Seq<char> {
        match self {
            NumberFilterItem::Equals(v) => obj_num("equals"@, v as nat),
            NumberFilterItem::DoesNotEqual(v) => obj_num("does_not_equal"@, v as nat),
            NumberFilterItem::GreaterThan(v) => obj_num("greater_than"@, v as nat),
            NumberFilterItem::LessThan(v) => obj_num("less_than"@, v as nat),
            NumberFilterItem::GreaterThanOrEqualTo(v) => obj_num(
                "greater_than_or_equal_to"@,
                v as nat,
            ),
            NumberFilterItem::LessThanOrEqualTo(v) => obj_num("less_than_or_equal_to"@, v as nat),
            NumberFilterItem::IsEmpty(b) => obj_bool("is_empty"@, b),
            NumberFilterItem::IsNotEmpty(b) => obj_bool("is_not_empty"@, b),
        }
    }

    pub fn equals(value: u128) -> (r: Self)
        ensures
            r == NumberFilterItem::Equals(value),
    {
        NumberFilterItem::Equals(value)
    }

    pub fn does_not_equal(value: u128) -> (r: Self)
        ensures
            r == NumberFilterItem::DoesNotEqual(value),
    {
        NumberFilterItem::DoesNotEqual(value)
    }

    pub fn greater_than(value: u128) -> (r: Self)
        ensures
            r == NumberFilterItem::GreaterThan(value),
    {
        NumberFilterItem::GreaterThan(value)
    }

    pub fn less_than(value: u128) -> (r: Self)
        ensures
            r == NumberFilterItem::LessThan(value),
    {
        NumberFilterItem::LessThan(value)
    }

    pub fn greater_than_or_equal_to(value: u128) -> (r: Self)
        ensures
            r == NumberFilterItem::GreaterThanOrEqualTo(value),
    {
        NumberFilterItem::GreaterThanOrEqualTo(value)
    }

    pub fn less_than_or_equal_to(value: u128) -> (r: Self)
        ensures
            r == NumberFilterItem::LessThanOrEqualTo(value),
    {
        NumberFilterItem::LessThanOrEqualTo(value)
    }

    pub fn is_empty() -> (r: Self)
        ensures
            r == NumberFilterItem::IsEmpty(true),
    {
        NumberFilterItem::IsEmpty(true)
    }

    pub fn is_not_empty() -> (r: Self)
        ensures
            r == NumberFilterItem::IsNotEmpty(true),
    {
        NumberFilterItem::IsNotEmpty(true)
    }

    fn push_wire(&self, out: &mut String)
        ensures
            final(out)@ == old(out)@ + self.wire(),
    {
        match self {
            NumberFilterItem::Equals(v) => push_obj_num(out, "equals", *v),
            NumberFilterItem::DoesNotEqual(v) => push_obj_num(out, "does_not_equal", *v),
            NumberFilterItem::GreaterThan(v) => push_obj_num(out, "greater_than", *v),
            NumberFilterItem::LessThan(v) => push_obj_num(out, "less_than", *v),
            NumberFilterItem::GreaterThanOrEqualTo(v) => push_obj_num(
                out,
                "greater_than_or_equal_to",
                *v,
            ),
            NumberFilterItem::LessThanOrEqualTo(v) => push_obj_num(
                out,
                "less_than_or_equal_to",
                *v,
            ),
            NumberFilterItem::IsEmpty(b) => push_obj_bool(out, "is_empty", *b),
            NumberFilterItem::IsNotEmpty(b) => push_obj_bool(out, "is_not_empty", *b),
        }
    }
}

/// Predicate on a formula property: the comparison applies to the formula's
/// result, so it wraps a predicate of the result's type.
#[derive(Debug, Clone)]
pub enum FormulaFilterItem {
    Checkbox(CheckboxFilterItem),
    Date(DateFilterItem),
    Number(NumberFilterItem),
    Text(RichTextFilterItem),
}

impl FormulaFilterItem {
    /// The serialized predicate object.
    pub open spec fn wire(self) -> Seq<char> {
        match self {
            FormulaFilterItem::Checkbox(p) => obj_raw("checkbox"@, p.wire()),
            FormulaFilterItem::Date(p) => obj_raw("date"@, p.wire()),
            FormulaFilterItem::Number(p) => obj_raw("number"@, p.wire()),
            FormulaFilterItem::Text(p) => obj_raw("string"@, p.wire()),
        }
    }

    pub fn checkbox(item: CheckboxFilterItem) -> (r: Self)
        ensures
            r == FormulaFilterItem::Checkbox(item),
    {
        FormulaFilterItem::Checkbox(item)
    }

    pub fn date(item: DateFilterItem) -> (r: Self)
        ensures
            r == FormulaFilterItem::Date(item),
    {
        FormulaFilterItem::Date(item)
    }

    pub fn number(item: NumberFilterItem) -> (r: Self)
        ensures
            r == FormulaFilterItem::Number(item),
    {
        FormulaFilterItem::Number(item)
    }

    pub fn string(item: RichTextFilterItem) -> (r: Self)
        ensures
            r == FormulaFilterItem::Text(item),
    {
        FormulaFilterItem::Text(item)
    }

    fn push_wire(&self, out: &mut String)
        ensures
            final(out)@ == old(out)@ + self.wire(),
    {
        match self {
            FormulaFilterItem::Checkbox(p) => {
                push_char(out, '{');
                push_char(out, '"');
                out.append("checkbox");
                out.append("\":");
                p.push_wire(out);
                push_char(out, '}');
                proof {
                    assert(out@ =~= old(out)@ + self.wire());
                }
            },
            FormulaFilterItem::Date(p) => {
                push_char(out, '{');
                push_char(out, '"');
                out.append("date");
                out.append("\":");
                p.push_wire(out);
                push_char(out, '}');
                proof {
                    assert(out@ =~= old(out)@ + self.wire());
                }
            },
            FormulaFilterItem::Number(p) => {
                push_char(out, '{');
                push_char(out, '"');
                out.append("number");
                out.append("\":");
                p.push_wire(out);
                push_char(out, '}');
                proof {
                    assert(out@ =~= old(out)@ + self.wire());
                }
            },
            FormulaFilterItem::Text(p) => {
                push_char(out, '{');
                push_char(out, '"');
                out.append("string");
                out.append("\":");
                p.push_wire(out);
                push_char(out, '}');
                proof {
                    assert(out@ =~= old(out)@ + self.wire());
                }
            },
        }
    }
}

/// Predicate on a multi-select property.
#[derive(Debug, Clone)]
pub enum MultiSelectFilterItem {
    Contains(String),
    DoesNotContain(String),
    Equals(bool),
    DoesNotEqual(bool),
}

impl MultiSelectFilterItem {
    /// The serialized predicate object.
    pub open spec fn wire(self) -> Seq<char> {
        match self {
            MultiSelectFilterItem::Contains(v) => obj_str("contains"@, v@),
            MultiSelectFilterItem::DoesNotContain(v) => obj_str("does_not_contain"@, v@),
            MultiSelectFilterItem::Equals(b) => obj_bool("equals"@, b),
            MultiSelectFilterItem::DoesNotEqual(b) => obj_bool("does_not_equal"@, b),
        }
    }

    pub fn contains(value: String) -> (r: Self)
        ensures
            r == MultiSelectFilterItem::Contains(value),
    {
        MultiSelectFilterItem::Contains(value)
    }

    pub fn does_not_contain(value: String) -> (r: Self)
        ensures
            r == MultiSelectFilterItem::DoesNotContain(value),
    {
        MultiSelectFilterItem::DoesNotContain(value)
    }

    pub fn equals() -> (r: Self)
        ensures
            r == MultiSelectFilterItem::Equals(true),
    {
        MultiSelectFilterItem::Equals(true)
    }

    pub fn does_not_equal() -> (r: Self)
        ensures
            r == MultiSelectFilterItem::DoesNotEqual(true),
    {
        MultiSelectFilterItem::DoesNotEqual(true)
    }

    fn push_wire(&self, out: &mut String)
        ensures
            final(out)@ == old(out)@ + self.wire(),
    {
        match self {
            MultiSelectFilterItem::Contains(v) => push_obj_str(out, "contains", v.as_str()),
            MultiSelectFilterItem::DoesNotContain(v) => push_obj_str(
                out,
                "does_not_contain",
                v.as_str(),
            ),
            MultiSelectFilterItem::Equals(b) => push_obj_bool(out, "equals", *b),
            MultiSelectFilterItem::DoesNotEqual(b) => push_obj_bool(out, "does_not_equal", *b),
        }
    }
}

/// Predicate on a people property.
#[derive(Debug, Clone)]
pub enum PeopleFilterItem {
    Contains(String),
    DoesNotContain(String),
    IsEmpty(bool),
    IsNotEmpty(bool),
}

impl PeopleFilterItem {
    /// The serialized predicate object.
    pub open spec fn wire(self) -> Seq<char> {
        match self {
            PeopleFilterItem::Contains(v) => obj_str("contains"@, v@),
            PeopleFilterItem::DoesNotContain(v) => obj_str("does_not_contain"@, v@),
            PeopleFilterItem::IsEmpty(b) => obj_bool("is_empty"@, b),
            PeopleFilterItem::IsNotEmpty(b) => obj_bool("is_not_empty"@, b),
        }
    }

    pub fn contains(value: String) -> (r: Self)
        ensures
            r == PeopleFilterItem::Contains(value),
    {
        PeopleFilterItem::Contains(value)
    }

    pub fn does_not_contain(value: String) -> (r: Self)
        ensures
            r == PeopleFilterItem::DoesNotContain(value),
    {
        PeopleFilterItem::DoesNotContain(value)
    }

    pub fn is_empty() -> (r: Self)
        ensures
            r == PeopleFilterItem::IsEmpty(true),
    {
        PeopleFilterItem::IsEmpty(true)
    }

    pub fn is_not_empty() -> (r: Self)
        ensures
            r == PeopleFilterItem::IsNotEmpty(true),
    {
        PeopleFilterItem::IsNotEmpty(true)
    }

    fn push_wire(&self, out: &mut String)
        ensures
            final(out)@ == old(out)@ + self.wire(),
    {
        match self {
            PeopleFilterItem::Contains(v) => push_obj_str(out, "contains", v.as_str()),
            PeopleFilterItem::DoesNotContain(v) => push_obj_str(
                out,
                "does_not_contain",
                v.as_str(),
            ),
            PeopleFilterItem::IsEmpty(b) => push_obj_bool(out, "is_empty", *b),
            PeopleFilterItem::IsNotEmpty(b) => push_obj_bool(out, "is_not_empty", *b),
        }
    }
}

/// Predicate on a relation property.
#[derive(Debug, Clone)]
pub enum RelationFilterItem {
    Contains(String),
    DoesNotContain(String),
    IsEmpty(bool),
    IsNotEmpty(bool),
}

impl RelationFilterItem {
    /// The serialized predicate object.
    pub open spec fn wire(self) -> Seq<char> {
        match self {
            RelationFilterItem::Contains(v) => obj_str("contains"@, v@),
            RelationFilterItem::DoesNotContain(v) => obj_str("does_not_contain"@, v@),
            RelationFilterItem::IsEmpty(b) => obj_bool("is_empty"@, b),
            RelationFilterItem::IsNotEmpty(b) => obj_bool("is_not_empty"@, b),
        }
    }

    pub fn contains(value: String) -> (r: Self)
        ensures
            r == RelationFilterItem::Contains(value),
    {
        RelationFilterItem::Contains(value)
    }

    pub fn does_not_contain(value: String) -> (r: Self)
        ensures
            r == RelationFilterItem::DoesNotContain(value),
    {
        RelationFilterItem::DoesNotContain(value)
    }

    pub fn is_empty() -> (r: Self)
        ensures
            r == RelationFilterItem::IsEmpty(true),
    {
        RelationFilterItem::IsEmpty(true)
    }

    pub fn is_not_empty() -> (r: Self)
        ensures
            r == RelationFilterItem::IsNotEmpty(true),
    {
        RelationFilterItem::IsNotEmpty(true)
    }

    fn push_wire(&self, out: &mut String)
        ensures
            final(out)@ == old(out)@ + self.wire(),
    {
        match self {
            RelationFilterItem::Contains(v) => push_obj_str(out, "contains", v.as_str()),
            RelationFilterItem::DoesNotContain(v) => push_obj_str(
                out,
                "does_not_contain",
                v.as_str(),
            ),
            RelationFilterItem::IsEmpty(b) => push_obj_bool(out, "is_empty", *b),
            RelationFilterItem::IsNotEmpty(b) => push_obj_bool(out, "is_not_empty", *b),
        }
    }
}

/// Predicate on a rich-text (or title) property.
#[derive(Debug, Clone)]
pub enum RichTextFilterItem {
    Contains(String),
    DoesNotContain(String),
    Equals(String),
    DoesNotEqual(String),
    StartsWith(String),
    EndsWith(String),
    IsEmpty(bool),
    IsNotEmpty(bool),
}

impl RichTextFilterItem {
    /// The serialized predicate object.
    pub open spec fn wire(self) -> Seq<char> {
        match self {
            RichTextFilterItem::Contains(v) => obj_str("contains"@, v@),
            RichTextFilterItem::DoesNotContain(v) => obj_str("does_not_contain"@, v@),
            RichTextFilterItem::Equals(v) => obj_str("equals"@, v@),
            RichTextFilterItem::DoesNotEqual(v) => obj_str("does_not_equal"@, v@),
            RichTextFilterItem::StartsWith(v) => obj_str("starts_with"@, v@),
            RichTextFilterItem::EndsWith(v) => obj_str("ends_with"@, v@),
            RichTextFilterItem::IsEmpty(b) => obj_bool("is_empty"@, b),
            RichTextFilterItem::IsNotEmpty(b) => obj_bool("is_not_empty"@, b),
        }
    }

    pub fn contains(value: String) -> (r: Self)
        ensures
            r == RichTextFilterItem::Contains(value),
    {
        RichTextFilterItem::Contains(value)
    }

    pub fn does_not_contain(value: String) -> (r: Self)
        ensures
            r == RichTextFilterItem::DoesNotContain(value),
    {
        RichTextFilterItem::DoesNotContain(value)
    }

    pub fn equals(value: String) -> (r: Self)
        ensures
            r == RichTextFilterItem::Equals(value),
    {
        RichTextFilterItem::Equals(value)
    }

    pub fn does_not_equal(value: String) -> (r: Self)
        ensures
            r == RichTextFilterItem::DoesNotEqual(value),
    {
        RichTextFilterItem::DoesNotEqual(value)
    }

    pub fn starts_with(value: String) -> (r: Self)
        ensures
            r == RichTextFilterItem::StartsWith(value),
    {
        RichTextFilterItem::StartsWith(value)
    }

    pub fn ends_with(value: String) -> (r: Self)
        ensures
            r == RichTextFilterItem::EndsWith(value),
    {
        RichTextFilterItem::EndsWith(value)
    }

    pub fn is_empty() -> (r: Self)
        ensures
            r == RichTextFilterItem::IsEmpty(true),
    {
        RichTextFilterItem::IsEmpty(true)
    }

    pub fn is_not_empty() -> (r: Self)
        ensures
            r == RichTextFilterItem::IsNotEmpty(true),
    {
        RichTextFilterItem::IsNotEmpty(true)
    }

    fn push_wire(&self, out: &mut String)
        ensures
            final(out)@ == old(out)@ + self.wire(),
    {
        match self {
            RichTextFilterItem::Contains(v) => push_obj_str(out, "contains", v.as_str()),
            RichTextFilterItem::DoesNotContain(v) => push_obj_str(
                out,
                "does_not_contain",
                v.as_str(),
            ),
            RichTextFilterItem::Equals(v) => push_obj_str(out, "equals", v.as_str()),
            RichTextFilterItem::DoesNotEqual(v) => push_obj_str(out, "does_not_equal", v.as_str()),
            RichTextFilterItem::StartsWith(v) => push_obj_str(out, "starts_with", v.as_str()),
            RichTextFilterItem::EndsWith(v) => push_obj_str(out, "ends_with", v.as_str()),
            RichTextFilterItem::IsEmpty(b) => push_obj_bool(out, "is_empty", *b),
            RichTextFilterItem::IsNotEmpty(b) => push_obj_bool(out, "is_not_empty", *b),
        }
    }
}

/// Predicate on a select property.
#[derive(Debug, Clone)]
pub enum SelectFilterItem {
    Equals(String),
    DoesNotEquals(String),
    IsEmpty(bool),
    IsNotEmpty(bool),
}

impl SelectFilterItem {
    /// The serialized predicate object.
    pub open spec fn wire(self) -> Seq<char> {
        match self {
            SelectFilterItem::Equals(v) => obj_str("equals"@, v@),
            SelectFilterItem::DoesNotEquals(v) => obj_str("does_not_equals"@, v@),
            SelectFilterItem::IsEmpty(b) => obj_bool("is_empty"@, b),
            SelectFilterItem::IsNotEmpty(b) => obj_bool("is_not_empty"@, b),
        }
    }

    pub fn equals(value: String) -> (r: Self)
        ensures
            r == SelectFilterItem::Equals(value),
    {
        SelectFilterItem::Equals(value)
    }

    pub fn does_not_equals(value: String) -> (r: Self)
        ensures
            r == SelectFilterItem::DoesNotEquals(value),
    {
        SelectFilterItem::DoesNotEquals(value)
    }

    pub fn is_empty() -> (r: Self)
        ensures
            r == SelectFilterItem::IsEmpty(true),
    {
        SelectFilterItem::IsEmpty(true)
    }

    pub fn is_not_empty() -> (r: Self)
        ensures
            r == SelectFilterItem::IsNotEmpty(true),
    {
        SelectFilterItem::IsNotEmpty(true)
    }

    fn push_wire(&self, out: &mut String)
        ensures
            final(out)@ == old(out)@ + self.wire(),
    {
        match self {
            SelectFilterItem::Equals(v) => push_obj_str(out, "equals", v.as_str()),
            SelectFilterItem::DoesNotEquals(v) => push_obj_str(out, "does_not_equals", v.as_str()),
            SelectFilterItem::IsEmpty(b) => push_obj_bool(out, "is_empty", *b),
            SelectFilterItem::IsNotEmpty(b) => push_obj_bool(out, "is_not_empty", *b),
        }
    }
}

/// Predicate on a status property.
#[derive(Debug, Clone)]
pub enum StatusFilterItem {
    Equals(String),
    DoesNotEquals(String),
    IsEmpty(bool),
    IsNotEmpty(bool),
}

impl StatusFilterItem {
    /// The serialized predicate object.
    pub open spec fn wire(self) -> Seq<char> {
        match self {
            StatusFilterItem::Equals(v) => obj_str("equals"@, v@),
            StatusFilterItem::DoesNotEquals(v) => obj_str("does_not_equals"@, v@),
            StatusFilterItem::IsEmpty(b) => obj_bool("is_empty"@, b),
            StatusFilterItem::IsNotEmpty(b) => obj_bool("is_not_empty"@, b),
        }
    }

    pub fn equals(value: String) -> (r: Self)
        ensures
            r == StatusFilterItem::Equals(value),
    {
        StatusFilterItem::Equals(value)
    }

    pub fn does_not_equals(value: String) -> (r: Self)
        ensures
            r == StatusFilterItem::DoesNotEquals(value),
    {
        StatusFilterItem::DoesNotEquals(value)
    }

    pub fn is_empty() -> (r: Self)
        ensures
            r == StatusFilterItem::IsEmpty(true),
    {
        StatusFilterItem::IsEmpty(true)
    }

    pub fn is_not_empty() -> (r: Self)
        ensures
            r == StatusFilterItem::IsNotEmpty(true),
    {
        StatusFilterItem::IsNotEmpty(true)
    }

    fn push_wire(&self, out: &mut String)
        ensures
            final(out)@ == old(out)@ + self.wire(),
    {
        match self {
            StatusFilterItem::Equals(v) => push_obj_str(out, "equals", v.as_str()),
            StatusFilterItem::DoesNotEquals(v) => push_obj_str(out, "does_not_equals", v.as_str()),
            StatusFilterItem::IsEmpty(b) => push_obj_bool(out, "is_empty", *b),
            StatusFilterItem::IsNotEmpty(b) => push_obj_bool(out, "is_not_empty", *b),
        }
    }
}

/// Predicate on a timestamp: either a raw timestamp name, or a date
/// predicate on the created or last-edited time.
#[derive(Debug, Clone)]
pub enum TimestampFilterItem {
    Timestamp(String),
    CreatedTime(DateFilterItem),
    LastEditedTime(DateFilterItem),
}

impl TimestampFilterItem {
    /// The serialized predicate object.
    pub open spec fn wire(self) -> Seq<char> {
        match self {
            TimestampFilterItem::Timestamp(v) => obj_str("timestamp"@, v@),
            TimestampFilterItem::CreatedTime(p) => obj_raw("created_time"@, p.wire()),
            TimestampFilterItem::LastEditedTime(p) => obj_raw("last_edited_time"@, p.wire()),
        }
    }

    pub fn timestamp(value: String) -> (r: Self)
        ensures
            r == TimestampFilterItem::Timestamp(value),
    {
        TimestampFilterItem::Timestamp(value)
    }

    pub fn created_time(item: DateFilterItem) -> (r: Self)
        ensures
            r == TimestampFilterItem::CreatedTime(item),
    {
        TimestampFilterItem::CreatedTime(item)
    }

    pub fn last_edited_time(item: DateFilterItem) -> (r: Self)
        ensures
            r == TimestampFilterItem::LastEditedTime(item),
    {
        TimestampFilterItem::LastEditedTime(item)
    }

    fn push_wire(&self, out: &mut String)
        ensures
            final(out)@ == old(out)@ + self.wire(),
    {
        match self {
            TimestampFilterItem::Timestamp(v) => push_obj_str(out, "timestamp", v.as_str()),
            TimestampFilterItem::CreatedTime(p) => {
                push_char(out, '{');
                push_char(out, '"');
                out.append("created_time");
                out.append("\":");
                p.push_wire(out);
                push_char(out, '}');
                proof {
                    assert(out@ =~= old(out)@ + self.wire());
                }
            },
            TimestampFilterItem::LastEditedTime(p) => {
                push_char(out, '{');
                push_char(out, '"');
                out.append("last_edited_time");
                out.append("\":");
                p.push_wire(out);
                push_char(out, '}');
                proof {
                    assert(out@ =~= old(out)@ + self.wire());
                }
            },
        }
    }
}

/// Predicate on the auto-incremented unique-id property.
#[derive(Debug, Clone)]
pub enum IdFilterItem {
    Equals(u128),
    DoesNotEqual(u128),
    GreaterThan(u128),
    LessThan(u128),
    GreaterThanOrEqualTo(u128),
    LessThanOrEqualTo(u128),
}

impl IdFilterItem {
    /// The serialized predicate object.
    pub open spec fn wire(self) -> Seq<char> {
        match self {
            IdFilterItem::Equals(v) => obj_num("equals"@, v as nat),
            IdFilterItem::DoesNotEqual(v) => obj_num("does_not_equal"@, v as nat),
            IdFilterItem::GreaterThan(v) => obj_num("greater_than"@, v as nat),
            IdFilterItem::LessThan(v) => obj_num("less_than"@, v as nat),
            IdFilterItem::GreaterThanOrEqualTo(v) => obj_num("greater_than_or_equal_to"@, v as nat),
            IdFilterItem::LessThanOrEqualTo(v) => obj_num("less_than_or_equal_to"@, v as nat),
        }
    }

    pub fn equals(value: u128) -> (r: Self)
        ensures
            r == IdFilterItem::Equals(value),
    {
        IdFilterItem::Equals(value)
    }

    pub fn does_not_equal(value: u128) -> (r: Self)
        ensures
            r == IdFilterItem::DoesNotEqual(value),
    {
        IdFilterItem::DoesNotEqual(value)
    }

    pub fn greater_than(value: u128) -> (r: Self)
        ensures
            r == IdFilterItem::GreaterThan(value),
    {
        IdFilterItem::GreaterThan(value)
    }

    pub fn less_than(value: u128) -> (r: Self)
        ensures
            r == IdFilterItem::LessThan(value),
    {
        IdFilterItem::LessThan(value)
    }

    pub fn greater_than_or_equal_to(value: u128) -> (r: Self)
        ensures
            r == IdFilterItem::GreaterThanOrEqualTo(value),
    {
        IdFilterItem::GreaterThanOrEqualTo(value)
    }

    pub fn less_than_or_equal_to(value: u128) -> (r: Self)
        ensures
            r == IdFilterItem::LessThanOrEqualTo(value),
    {
        IdFilterItem::LessThanOrEqualTo(value)
    }

    fn push_wire(&self, out: &mut String)
        ensures
            final(out)@ == old(out)@ + self.wire(),
    {
        match self {
            IdFilterItem::Equals(v) => push_obj_num(out, "equals", *v),
            IdFilterItem::DoesNotEqual(v) => push_obj_num(out, "does_not_equal", *v),
            IdFilterItem::GreaterThan(v) => push_obj_num(out, "greater_than", *v),
            IdFilterItem::LessThan(v) => push_obj_num(out, "less_than", *v),
            IdFilterItem::GreaterThanOrEqualTo(v) => push_obj_num(
                out,
                "greater_than_or_equal_to",
                *v,
            ),
            IdFilterItem::LessThanOrEqualTo(v) => push_obj_num(out, "less_than_or_equal_to", *v),
        }
    }
}

/// The kind-specific predicate of a leaf condition, tagged with the
/// property kind whose key it is serialized under.
#[derive(Debug, Clone)]
pub enum FilterCondition {
    Checkbox(CheckboxFilterItem),
    Date(DateFilterItem),
    Files(FilesFilterItem),
    Formula(FormulaFilterItem),
    MultiSelect(MultiSelectFilterItem),
    Number(NumberFilterItem),
    People(PeopleFilterItem),
    Relation(RelationFilterItem),
    RichText(RichTextFilterItem),
    Select(SelectFilterItem),
    Status(StatusFilterItem),
    Timestamp(TimestampFilterItem),
    Id(IdFilterItem),
}

impl FilterCondition {
    /// The kind key of the condition, with the separating comma, quotes and
    /// colon it is emitted with after the property name.
    pub open spec fn key_text(self) -> Seq<char> {
        match self {
            FilterCondition::Checkbox(_) => ",\"checkbox\":"@,
            FilterCondition::Date(_) => ",\"date\":"@,
            FilterCondition::Files(_) => ",\"files\":"@,
            FilterCondition::Formula(_) => ",\"formula\":"@,
            FilterCondition::MultiSelect(_) => ",\"multi_select\":"@,
            FilterCondition::Number(_) => ",\"number\":"@,
            FilterCondition::People(_) => ",\"people\":"@,
            FilterCondition::Relation(_) => ",\"relation\":"@,
            FilterCondition::RichText(_) => ",\"rich_text\":"@,
            FilterCondition::Select(_) => ",\"select\":"@,
            FilterCondition::Status(_) => ",\"status\":"@,
            FilterCondition::Timestamp(_) => ",\"timestamp\":"@,
            FilterCondition::Id(_) => ",\"id\":"@,
        }
    }

    /// The serialized predicate object.
    pub open spec fn wire(self) -> Seq<char> {
        match self {
            FilterCondition::Checkbox(p) => p.wire(),
            FilterCondition::Date(p) => p.wire(),
            FilterCondition::Files(p) => p.wire(),
            FilterCondition::Formula(p) => p.wire(),
            FilterCondition::MultiSelect(p) => p.wire(),
            FilterCondition::Number(p) => p.wire(),
            FilterCondition::People(p) => p.wire(),
            FilterCondition::Relation(p) => p.wire(),
            FilterCondition::RichText(p) => p.wire(),
            FilterCondition::Select(p) => p.wire(),
            FilterCondition::Status(p) => p.wire(),
            FilterCondition::Timestamp(p) => p.wire(),
            FilterCondition::Id(p) => p.wire(),
        }
    }

    fn push_key(&self, out: &mut String)
        ensures
            final(out)@ == old(out)@ + self.key_text(),
    {
        match self {
            FilterCondition::Checkbox(_) => out.append(",\"checkbox\":"),
            FilterCondition::Date(_) => out.append(",\"date\":"),
            FilterCondition::Files(_) => out.append(",\"files\":"),
            FilterCondition::Formula(_) => out.append(",\"formula\":"),
            FilterCondition::MultiSelect(_) => out.append(",\"multi_select\":"),
            FilterCondition::Number(_) => out.append(",\"number\":"),
            FilterCondition::People(_) => out.append(",\"people\":"),
            FilterCondition::Relation(_) => out.append(",\"relation\":"),
            FilterCondition::RichText(_) => out.append(",\"rich_text\":"),
            FilterCondition::Select(_) => out.append(",\"select\":"),
            FilterCondition::Status(_) => out.append(",\"status\":"),
            FilterCondition::Timestamp(_) => out.append(",\"timestamp\":"),
            FilterCondition::Id(_) => out.append(",\"id\":"),
        }
    }

    fn push_wire(&self, out: &mut String)
        ensures
            final(out)@ == old(out)@ + self.wire(),
    {
        match self {
            FilterCondition::Checkbox(p) => p.push_wire(out),
            FilterCondition::Date(p) => p.push_wire(out),
            FilterCondition::Files(p) => p.push_wire(out),
            FilterCondition::Formula(p) => p.push_wire(out),
            FilterCondition::MultiSelect(p) => p.push_wire(out),
            FilterCondition::Number(p) => p.push_wire(out),
            FilterCondition::People(p) => p.push_wire(out),
            FilterCondition::Relation(p) => p.push_wire(out),
            FilterCondition::RichText(p) => p.push_wire(out),
            FilterCondition::Select(p) => p.push_wire(out),
            FilterCondition::Status(p) => p.push_wire(out),
            FilterCondition::Timestamp(p) => p.push_wire(out),
            FilterCondition::Id(p) => p.push_wire(out),
        }
    }
}

/// One node of a filter tree: an `and` or `or` combinator over child
/// filters, or a leaf condition on a named property.
#[derive(Debug)]
pub enum FilterItem {
    And(Vec<FilterItem>),
    Or(Vec<FilterItem>),
    Condition { property: String, condition: FilterCondition },
}

impl FilterItem {
    /// The serialized filter node: combinators emit their child list under
    /// `and` or `or`; a leaf emits the property name followed by its kind
    /// key and predicate object.  Absent operators are never emitted.
    pub open spec fn wire(self) -> Seq<char>
        decreases self, 0int,
    {
        match self {
            FilterItem::And(items) => "{\"and\":["@ + FilterItem::wire_list(items@, 0) + "]}"@,
            FilterItem::Or(items) => "{\"or\":["@ + FilterItem::wire_list(items@, 0) + "]}"@,
            FilterItem::Condition { property, condition } => "{\"property\":"@ + quoted(property@)
                + condition.key_text() + condition.wire() + "}"@,
        }
    }

    /// The serialized nodes of `items` from position `from` on, separated
    /// by commas.
    pub open spec fn wire_list(items: Seq<FilterItem>, from: int) -> Seq<char>
        decreases items, items.len() - from,
    {
        if from < 0 || from >= items.len() {
            Seq::empty()
        } else if from == items.len() - 1 {
            items[from].wire()
        } else {
            items[from].wire() + seq![','] + FilterItem::wire_list(items, from + 1)
        }
    }

    pub fn and(items: Vec<FilterItem>) -> (r: Self)
        ensures
            r == FilterItem::And(items),
    {
        FilterItem::And(items)
    }

    pub fn or(items: Vec<FilterItem>) -> (r: Self)
        ensures
            r == FilterItem::Or(items),
    {
        FilterItem::Or(items)
    }

    pub fn checkbox(property: String, item: CheckboxFilterItem) -> (r: Self)
        ensures
            r == (FilterItem::Condition {
                property,
                condition: FilterCondition::Checkbox(item),
            }),
    {
        FilterItem::Condition { property, condition: FilterCondition::Checkbox(item) }
    }

    pub fn date(property: String, item: DateFilterItem) -> (r: Self)
        ensures
            r == (FilterItem::Condition { property, condition: FilterCondition::Date(item) }),
    {
        FilterItem::Condition { property, condition: FilterCondition::Date(item) }
    }

    pub fn files(property: String, item: FilesFilterItem) -> (r: Self)
        ensures
            r == (FilterItem::Condition { property, condition: FilterCondition::Files(item) }),
    {
        FilterItem::Condition { property, condition: FilterCondition::Files(item) }
    }

    pub fn formula(property: String, item: FormulaFilterItem) -> (r: Self)
        ensures
            r == (FilterItem::Condition { property, condition: FilterCondition::Formula(item) }),
    {
        FilterItem::Condition { property, condition: FilterCondition::Formula(item) }
    }

    pub fn multi_select(property: String, item: MultiSelectFilterItem) -> (r: Self)
        ensures
            r == (FilterItem::Condition {
                property,
                condition: FilterCondition::MultiSelect(item),
            }),
    {
        FilterItem::Condition { property, condition: FilterCondition::MultiSelect(item) }
    }

    pub fn number(property: String, item: NumberFilterItem) -> (r: Self)
        ensures
            r == (FilterItem::Condition { property, condition: FilterCondition::Number(item) }),
    {
        FilterItem::Condition { property, condition: FilterCondition::Number(item) }
    }

    pub fn people(property: String, item: PeopleFilterItem) -> (r: Self)
        ensures
            r == (FilterItem::Condition { property, condition: FilterCondition::People(item) }),
    {
        FilterItem::Condition { property, condition: FilterCondition::People(item) }
    }

    pub fn relation(property: String, item: RelationFilterItem) -> (r: Self)
        ensures
            r == (FilterItem::Condition { property, condition: FilterCondition::Relation(item) }),
    {
        FilterItem::Condition { property, condition: FilterCondition::Relation(item) }
    }

    pub fn rich_text(property: String, item: RichTextFilterItem) -> (r: Self)
        ensures
            r == (FilterItem::Condition { property, condition: FilterCondition::RichText(item) }),
    {
        FilterItem::Condition { property, condition: FilterCondition::RichText(item) }
    }

    pub fn select(property: String, item: SelectFilterItem) -> (r: Self)
        ensures
            r == (FilterItem::Condition { property, condition: FilterCondition::Select(item) }),
    {
        FilterItem::Condition { property, condition: FilterCondition::Select(item) }
    }

    pub fn status(property: String, item: StatusFilterItem) -> (r: Self)
        ensures
            r == (FilterItem::Condition { property, condition: FilterCondition::Status(item) }),
    {
        FilterItem::Condition { property, condition: FilterCondition::Status(item) }
    }

    pub fn timestamp(property: String, item: TimestampFilterItem) -> (r: Self)
        ensures
            r == (FilterItem::Condition {
                property,
                condition: FilterCondition::Timestamp(item),
            }),
    {
        FilterItem::Condition { property, condition: FilterCondition::Timestamp(item) }
    }

    pub fn id(property: String, item: IdFilterItem) -> (r: Self)
        ensures
            r == (FilterItem::Condition { property, condition: FilterCondition::Id(item) }),
    {
        FilterItem::Condition { property, condition: FilterCondition::Id(item) }
    }

    fn push_wire(&self, out: &mut String)
        ensures
            final(out)@ == old(out)@ + self.wire(),
        decreases self, 0int,
    {
        match self {
            FilterItem::And(items) => {
                out.append("{\"and\":[");
                FilterItem::push_wire_list(items, 0, out);
                out.append("]}");
                proof {
                    assert(out@ =~= old(out)@ + self.wire());
                }
            },
            FilterItem::Or(items) => {
                out.append("{\"or\":[");
                FilterItem::push_wire_list(items, 0, out);
                out.append("]}");
                proof {
                    assert(out@ =~= old(out)@ + self.wire());
                }
            },
            FilterItem::Condition { property, condition } => {
                out.append("{\"property\":");
                push_quoted(out, property.as_str());
                condition.push_key(out);
                condition.push_wire(out);
                out.append("}");
                proof {
                    assert(out@ =~= old(out)@ + self.wire());
                }
            },
        }
    }

    fn push_wire_list(items: &Vec<FilterItem>, from: usize, out: &mut String)
        ensures
            final(out)@ == old(out)@ + FilterItem::wire_list(items@, from as int),
        decreases items@, items@.len() - from,
    {
        if from < items.len() {
            let item = &items[from];
            item.push_wire(out);
            if from + 1 < items.len() {
                push_char(out, ',');
                FilterItem::push_wire_list(items, from + 1, out);
            }
            proof {
                assert(out@ =~= old(out)@ + FilterItem::wire_list(items@, from as int));
            }
        }
    }
}

/// A whole query request: the root filter plus the pagination cursor, an
/// empty cursor meaning the first page.
#[derive(Debug)]
pub struct QueryFilter {
    pub filter: Option<FilterItem>,
    pub start_cursor: String,
}

impl QueryFilter {
    /// The serialized request body.  The filter is emitted under `filter`
    /// (an empty object when none was set); the cursor is emitted under
    /// `start_cursor` only when it is non-empty.
    pub open spec fn wire_body(self) -> Seq<char> {
        "{\"filter\":"@ + (match self.filter {
            Some(f) => f.wire(),
            None => "{}"@,
        }) + (if self.start_cursor@.len() == 0 {
            Seq::<char>::empty()
        } else {
            ",\"start_cursor\":"@ + quoted(self.start_cursor@)
        }) + "}"@
    }

    /// A query with no condition and no cursor.
    pub fn new() -> (r: Self)
        ensures
            r.filter is None,
            r.start_cursor@ == Seq::<char>::empty(),
    {
        QueryFilter { filter: None, start_cursor: String::new() }
    }

    /// Set the root filter.
    pub fn args(&mut self, item: FilterItem)
        ensures
            final(self).filter == Some(item),
            final(self).start_cursor == old(self).start_cursor,
    {
        self.filter = Some(item);
    }

    /// Make the root filter an `and` combinator over `items`.
    pub fn and(&mut self, items: Vec<FilterItem>)
        ensures
            final(self).filter == Some(FilterItem::And(items)),
            final(self).start_cursor == old(self).start_cursor,
    {
        self.filter = Some(FilterItem::And(items));
    }

    /// Make the root filter an `or` combinator over `items`.
    pub fn or(&mut self, items: Vec<FilterItem>)
        ensures
            final(self).filter == Some(FilterItem::Or(items)),
            final(self).start_cursor == old(self).start_cursor,
    {
        self.filter = Some(FilterItem::Or(items));
    }

    /// Serialize the request body; building never fails.
    pub fn build(&self) -> (r: String)
        ensures
            r@ == self.wire_body(),
    {
        let mut out = String::new();
        out.append("{\"filter\":");
        match &self.filter {
            Some(f) => f.push_wire(&mut out),
            None => out.append("{}"),
        }
        if !self.start_cursor.as_str().is_empty() {
            out.append(",\"start_cursor\":");
            push_quoted(&mut out, self.start_cursor.as_str());
        }
        out.append("}");
        proof {
            assert(out@ =~= self.wire_body());
        }
        out
    }
}

} // verus!
