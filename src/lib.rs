//! A small, copyable error type for obtaining random bytes: a non-zero
//! 32-bit code that is either one of the library's own codes or an error
//! number of the platform.

pub mod error;

pub use error::{
    error_unavailable, error_unknown, Error, IoRepr, CODE_PREFIX, CODE_UNAVAILABLE, CODE_UNKNOWN,
    MSG_UNAVAILABLE, MSG_UNKNOWN,
};
