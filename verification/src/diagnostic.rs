//! The diagnostic model and the engine that lays a report out as rows of text.

pub mod annotate;
pub mod cell;
pub mod char_set;
pub mod color;
pub mod decimal;
pub mod label;
pub mod layout;
pub mod line;
pub mod margin;
pub mod order;
pub mod paint;
pub mod position;
pub mod render;
pub mod report;
pub mod report_builder;
pub mod select;
pub mod source;
pub mod span;
