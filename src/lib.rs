//! One error type for the storage engine, with conversions from the errors
//! of the subsystems it calls and into the errors of those that call it.

pub mod convert;
pub mod error;
pub mod laws;
pub mod outside;

pub use error::Error;
pub use error::Result;
