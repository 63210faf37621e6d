//! A static vulnerability scanner: declarative rules matched against source
//! files by syntax-tree queries and regular expressions.

pub mod text;
pub mod language;
pub mod rule;
pub mod matcher;
pub mod registry;
pub mod embedded;
pub mod engine;
pub mod report;
pub mod protocol;
pub mod backend;
pub mod prompt;
