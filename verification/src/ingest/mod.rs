//! VCDS log ingestion: the canonicalizer that maps `NNN-K` group-field ids
//! to channel names, the CSV table reader, and the sidecar DTC parser.

pub mod canonicalize;
pub mod dtc;
pub mod vcds;

pub use canonicalize::build_column_map;
pub use canonicalize::canonical_name;
pub use canonicalize::groups_present;
pub use dtc::parse_dtc_text;
