//! The context-aware derivations: builders and generators that are handed a
//! context at every step and hand it back.

pub mod builder;
pub mod element;
pub mod generator;
