//! Overrides of XDG desktop entries: the path arithmetic, the generator
//! pipeline, the override marker and the write and clean decisions, each
//! with a contract over the text of the entries.
pub mod filter;
pub mod marker;
pub mod overrides;
pub mod paths;
pub mod pipeline;
pub mod text;
