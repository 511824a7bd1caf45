//! The data model, validation and workflow contracts of a proxy re-encryption
//! binding: fixed-length byte fields, the records exchanged with callers, and
//! the operations that hand validated values to the cryptographic engine.

pub mod api256;
pub mod engine;
pub mod error;
pub mod model;
pub mod object;
pub mod util;
pub mod round_trip;
pub mod scalar;
