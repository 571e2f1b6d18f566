//! Post-flash validation: the EGR-delete checklist.

pub mod egr_delete;

pub use egr_delete::CheckOutcome;
pub use egr_delete::CheckStatus;
pub use egr_delete::ValidationReport;
