//! The decision logic of a `touch` utility: lexing and interpreting the
//! command line, decoding compact timestamps, resolving which times to
//! apply, and planning the change for each file.

pub mod arglex;
pub mod text;
pub mod error;
pub mod args;
pub mod calendar;
pub mod stamp;
pub mod resolve;
pub mod plan;
