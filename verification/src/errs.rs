//! Error values: an error of any type under one name, and an error that is
//! only a message.

pub mod boxed;
pub mod errors;

pub use boxed::{BoxedError, Result};
pub use errors::AssertionError;
