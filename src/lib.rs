//! Diagnostic data structures: severities, labels and the diagnostics that
//! bundle them, with builder operations whose effects are stated as contracts.

pub mod diagnostic;
pub mod label;
pub mod severity;
