//! Normalisation of decoded FIT telemetry into a uniform, string-valued
//! record model, and the two-variant outcome that reports a parse.

pub mod outcome;
pub mod text;
pub mod value;
pub mod record;
pub mod decoder;
pub mod entry;
