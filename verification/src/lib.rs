//! Severity thresholds, path display and text rendering for the diagnostics
//! that a static analyzer reports.

pub mod diagnostic;
pub mod driver;
pub mod error;
pub mod locate;
pub mod path;
pub mod pipeline;
pub mod render;
pub mod report;
pub mod severity;
pub mod style;
pub mod text;
pub mod uri;
