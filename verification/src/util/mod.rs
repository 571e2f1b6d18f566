//! Small index utilities shared by pull detection and the rules.

pub mod runs;
