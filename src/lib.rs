//! A columnar batch library: typed, nullable-aware columns are checked
//! against a schema and assembled into an immutable record batch, which can
//! be rendered as text for inspection.

pub mod batch;
pub mod column;
pub mod render;
pub mod sample;
pub mod schema;
