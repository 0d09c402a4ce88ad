//! Marshalling between Rust values and the plain C data that a native
//! dependency solver exchanges with its bindings.
//!
//! Text on its way to the native side becomes a [`NativeString`], or an
//! [`Error`] that names the nul byte which keeps it from crossing; bytes
//! that come back are read as text. Beside them stand the numbers that
//! the native side reads: the flags for loading a repository and the
//! kinds of distribution.

pub mod decimal;
pub mod error;
pub mod marshal;
pub mod native_string;
pub mod nul_char;
pub mod repo;

pub use error::Error;
pub use native_string::{NativeString, NulError};
pub use repo::DistType;
