//! A minimal counter program: it decodes a tagged instruction from raw bytes
//! and applies it to a single unsigned 32-bit counter persisted as the whole
//! contents of one account's data buffer.

pub mod instructions;
pub mod processor;
pub mod state;
