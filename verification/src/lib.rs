//! Decoder for the instructions of an on-chain exchange program, and the
//! projection of each decoded instruction, with its account list, into a named
//! record that is handed to an entity sink.

pub mod account;
pub mod codec;
pub mod decode_laws;
pub mod entity;
pub mod handler;
pub mod instruction;
pub mod nonzero;
pub mod record;
pub mod record_laws;
pub mod sink;
