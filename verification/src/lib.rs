//! Lex: a declarative engine that reads module contracts and applies them to
//! incoming records: validation, hooks, identifier sanitising and the SQL that
//! persistence needs.

pub mod text;
pub mod sanitizer;
pub mod json;
pub mod numeric;
pub mod pattern;
pub mod contract;
pub mod validator;
pub mod engine;
pub mod registry;
pub mod sql;
pub mod api;
