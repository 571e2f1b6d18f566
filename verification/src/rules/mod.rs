//! AMF rule pack: rule descriptors, the rule-id enumeration, the DTC-scan
//! rule and the per-rule evaluation plan.

pub mod base;
pub mod pack;

pub use base::Rule;
pub use base::RuleScope;
pub use base::Severity;
pub use pack::RuleId;
pub use pack::ALL_RULE_IDS;
