//! Extraction of bracketed markers (`[tag:x]`, `[ref:x]`, `[file:x]`, `[dir:x]`)
//! from the lines of one input, with their 1-based line numbers.
pub mod extract;
pub mod label;
pub mod laws;
pub mod pattern;

pub use extract::parse;
pub use label::{Label, LabelView, Labels, LabelsView, Type};
