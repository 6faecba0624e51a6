//! Descriptive-statistics summaries of tabular data.
//!
//! The library decides, for each column of a schema, which statistics apply
//! and which aggregation the query engine is asked for (`plan`), and turns
//! the engine's single-row wide result back into a long table with one row
//! per statistic and one column per input column (`reshape`).
pub mod kind;
pub mod text;
pub mod plan;
pub mod reshape;
