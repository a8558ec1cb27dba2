pub mod block;
pub mod common;
pub mod database;
pub mod page;
pub mod query_filter;
