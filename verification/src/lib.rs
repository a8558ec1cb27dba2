//! Typed client binding for a document-database web API.
//!
//! The crate centers on three pieces of logic: building a structured query
//! filter and serializing it into the exact JSON the service expects,
//! splitting a bulk block-append into bounded-size sequential batches, and
//! driving cursor-based query pagination.  HTTP transport and credential
//! handling are left to the surrounding application.

pub mod protocol;
pub mod structs;
pub mod wire;

use vstd::prelude::*;

verus! {

/// Client handle for the remote service: the API credential and the
/// default database id that query operations target.
#[derive(Debug, Clone)]
pub struct Notion {
    pub api_key: String,
    pub database_id: String,
}

impl Notion {
    /// Build a client from an explicit configuration; reading the values
    /// from the process environment is the caller's concern.
    pub fn from_config(api_key: String, database_id: String) -> (r: Notion)
        ensures
            r.api_key@ == api_key@,
            r.database_id@ == database_id@,
    {
        Notion { api_key, database_id }
    }

    /// Set the database ID that later queries address.
    pub fn database(&mut self, database_id: &str)
        ensures
            final(self).database_id@ == database_id@,
            final(self).api_key == old(self).api_key,
    {
        self.database_id = String::from_str(database_id);
    }
}

} // verus!
