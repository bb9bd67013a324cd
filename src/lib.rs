//! A code-search client core: query building, link-header pagination and

pub mod text;
pub mod link;
pub mod config;
pub mod query;
pub mod error;
pub mod highlight;
pub mod render;
pub mod pager;
