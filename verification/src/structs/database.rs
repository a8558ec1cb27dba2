//! Database schema records: the per-kind configuration objects, one
//! property description, and the database record that schema retrieval
//! decodes into.

use crate::structs::common::{normalized_status, RichText, SelectOption, User};
use vstd::prelude::*;
use vstd::string::*;

verus! {

/// The formula configured on a formula property.
#[derive(Debug, Clone)]
pub struct FormulaExpression {
    pub expression: String,
}

impl FormulaExpression {
    pub fn is_empty(&self) -> (r: bool)
        ensures
            r == (self.expression@.len() == 0),
    {
        self.expression.as_str().is_empty()
    }
}

/// The options configured on a multi-select property.
#[derive(Debug, Clone)]
pub struct MultiSelectObject {
    pub options: Vec<SelectOption>,
}

impl MultiSelectObject {
    pub fn is_empty(&self) -> (r: bool)
        ensures
            r == (self.options@.len() == 0),
    {
        self.options.is_empty()
    }
}

/// The display format configured on a number property.
#[derive(Debug, Clone)]
pub struct NumberFormat {
    pub format: String,
}

impl NumberFormat {
    pub fn is_empty(&self) -> (r: bool)
        ensures
            r == (self.format@.len() == 0),
    {
        self.format.as_str().is_empty()
    }
}

/// The target database configured on a relation property.
#[derive(Debug, Clone)]
pub struct RelationObject {
    pub database_id: String,
    pub synced_property_id: String,
    pub synced_property_name: String,
}

impl RelationObject {
    pub fn is_empty(&self) -> (r: bool)
        ensures
            r == (self.database_id@.len() == 0),
    {
        self.database_id.as_str().is_empty()
    }
}

/// The source property and function configured on a rollup property.
#[derive(Debug, Clone)]
pub struct RollupObject {
    pub rollup_property_id: String,
    pub rollup_property_name: String,
    pub relation_property_id: String,
    pub relation_property_name: String,
    pub function: String,
}

impl RollupObject {
    pub fn is_empty(&self) -> (r: bool)
        ensures
            r == (self.rollup_property_id@.len() == 0),
    {
        self.rollup_property_id.as_str().is_empty()
    }
}

/// The options configured on a select property.
#[derive(Debug, Clone)]
pub struct SelectObject {
    pub options: Vec<SelectOption>,
}

impl SelectObject {
    pub fn is_empty(&self) -> (r: bool)
        ensures
            r == (self.options@.len() == 0),
    {
        self.options.is_empty()
    }
}

/// The options configured on a status property.
#[derive(Debug, Clone)]
pub struct StatusObject {
    pub options: Vec<SelectOption>,
}

impl StatusObject {
    pub fn is_empty(&self) -> (r: bool)
        ensures
            r == (self.options@.len() == 0),
    {
        self.options.is_empty()
    }
}

/// One property of a database schema: its id, name and kind, and the
/// configuration objects of the kinds that carry one.
#[derive(Debug, Clone)]
pub struct DatabaseProperty {
    pub id: String,
    pub name: String,
    pub kind: String,
    pub formula: FormulaExpression,
    pub multi_select: MultiSelectObject,
    pub number: NumberFormat,
    pub relation: RelationObject,
    pub rollup: RollupObject,
    pub select: SelectObject,
    pub status: StatusObject,
}

/// A database record: identity, metadata, and the named schema properties
/// in the order the response listed them.
#[derive(Debug, Clone)]
pub struct Database {
    pub object: String,
    pub status: u32,
    pub code: String,
    pub message: String,
    pub request_id: String,
    pub id: String,
    pub created_time: String,
    pub last_edited_time: String,
    pub created_by: User,
    pub last_edited_by: User,
    pub url: String,
    pub archived: bool,
    pub is_inline: bool,
    pub public_url: Option<String>,
    pub title: Vec<RichText>,
    pub description: Vec<RichText>,
    pub properties: Vec<(String, DatabaseProperty)>,
}

impl Database {
    /// Apply the absent-status rule to a decoded database.
    pub fn normalize(&mut self)
        ensures
            final(self).status == normalized_status(old(self).status),
            *final(self) == (Database { status: final(self).status, ..*old(self) }),
    {
        if self.status == 0 {
            self.status = 200;
        }
    }
}

} // verus!
