//! Typed requests and responses of the Watchman file-watching service, with
//! their encoding to and decoding from self-describing wire values.

pub mod admin;
pub mod bser;
pub mod clock;
pub mod codec;
pub mod encode;
pub mod error;
pub mod query;
pub mod scalar;
pub mod subscribe;
pub mod timeout;
pub mod trigger;
pub mod wire;
