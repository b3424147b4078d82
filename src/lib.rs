pub mod ast;
pub mod at_rule;
pub mod config;
pub mod doc;
pub mod text;
