//! Internationalization: the supported languages and the translated UI
//! string tables.

pub mod common_distinct;
pub mod common_strings;
pub mod language;
pub mod strings;

pub use language::Language;
