//! Carries single-table statements from a relational query builder's debug
//! text over to a document store's statement dialect.

pub mod bindings;
pub mod error;
pub mod inserts;
pub mod laws;
pub mod lexer;
pub mod listing;
pub mod model;
pub mod parser;
pub mod pipeline;
pub mod placeholders;
pub mod provisioning;
pub mod registry;
pub mod render;
pub mod schema;
pub mod statement;
pub mod text;
pub mod translator;
pub mod values;
