//! Single-platform VCDS datalog analyser for the Skoda Fabia Mk1 1.4 TDI PD
//! (engine code AMF, Bosch EDC15P+): the verified core.

use vstd::prelude::*;

pub mod disclaimer;
pub mod error;
pub mod ingest;
pub mod platform;
pub mod recommend;
pub mod rules;
pub mod util;
pub mod validate;
pub mod text;

verus! {

/// Library version.
pub const VERSION: &'static str = "6.0.0";

} // verus!
