//! Supported platform(s).

pub mod amf_edc15p;
