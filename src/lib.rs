//! A bridge between a host runtime and the lingua language detector:
//! decoding of configuration atoms, resolution of the candidate languages,
//! detector assembly and the encoding of results.

mod engine;

pub mod bridge;
pub mod language;
pub mod option;
pub mod strategy;
pub mod text;
