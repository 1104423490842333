//! Codec building blocks for an integer-tagged text record format: forward-compatible
//! enumerations and lazily decoded field values.

pub mod user;
pub mod thunk;
pub mod percent;
pub mod processors;

pub use processors::{Base64Decoder, PercentDecoder};
pub use thunk::{ProcessError, Thunk, ThunkProcessor};
pub use user::{Color, ModLevel};
