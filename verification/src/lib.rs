//! Capacity planning and slice validation for a zero-knowledge WASM circuit,
//! together with the framing and checking of the setup key files that its
//! proving parameters are derived from.

pub mod circuits;
pub mod error;
pub mod slice;
pub mod decimal;
pub mod zksync_key;
pub mod file_util;
pub mod field_text;
pub mod args;
