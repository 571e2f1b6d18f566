//! Recommendation engine decisions and the Markdown analysis report.

pub mod engine;
pub mod page;
pub mod report;

pub use engine::Recommendation;
pub use engine::Status;
