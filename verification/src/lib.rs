//! Request validation, Ed25519 signing and verification, and instruction
//! shaping for a Solana toolbox service.
//!
//! Every function here is a pure function of its arguments, except key
//! generation, which draws on the operating system's random source.

pub mod base58;
pub mod base64;
pub mod decimal;
pub mod envelope;
pub mod errors;
pub mod handlers;
pub mod instruction;
pub mod keys;
pub mod models;
pub mod utils;
