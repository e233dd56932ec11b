//! Error reporting for a CBOR codec.
//!
//! [`ErrorCode`] names the kinds of fault, [`Error`] couples one of them with
//! the byte offset at which it was met, and `to_string` on either gives the
//! text for a human reader. The module [`framework`] holds the constructors
//! that a serialization framework calls.

pub mod code;
pub mod decimal;
pub mod error;
pub mod framework;

pub use crate::code::ErrorCode;
pub use crate::error::Error;
pub use crate::framework::Actual;
