//! Session audits of the h5i browser, read from JSON and rendered as a self-contained HTML report.

pub mod cli;
pub mod fields;
pub mod json;
pub mod model;
pub mod page;
pub mod parse;
pub mod render;
pub mod shows;
pub mod text;

pub use json::Json;
pub use model::Audit;
pub use parse::{parse_audit, parse_audit_value, Error};
pub use render::render_report;
