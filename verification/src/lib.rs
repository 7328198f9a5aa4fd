//! Persisted-state core of a small coffee machine controller.
//!
//! The heart of the crate is a fixed 128-byte record that survives restarts:
//! a field registry maps named fields to byte ranges, a little-endian codec
//! converts typed values to bytes, a record buffer gives bounds-checked access
//! to the raw bytes, and a state facade combines them behind a typed get/set
//! API. Reading and writing the backing file is left to the embedding
//! program; this crate produces and validates the exact byte images.

pub mod codec;
pub mod controller;
pub mod errors;
pub mod facade;
pub mod persist;
pub mod record;
pub mod registry;
