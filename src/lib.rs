//! Smallbank workload generation: typed transaction records, a seeded
//! generator, content addresses, a structured-text document codec, and the
//! header of the signed envelope around each record.

pub mod address;
pub mod codec;
pub mod envelope;
pub mod error;
pub mod generator;
pub mod playlist;
pub mod record;
