//! Derivation of builders and generators from a record's description.
//!
//! A derivation reads the directives on the fields of a record, settles for
//! every field how its default is made, and writes the source of the builder
//! or generator. [`entry`] holds the derivations as they are called;
//! [`depth`], [`tokens`] and [`reading`] measure text and hand it to the Rust
//! parser;
//! [`attributes`], [`meta`] and [`plan`] read directives; [`builder`],
//! [`generator`] and [`persian_rug`] write source.

pub mod attributes;
pub mod builder;
pub mod depth;
pub mod element;
pub mod entry;
pub mod error;
pub mod generator;
pub mod helpers;
pub mod input;
pub mod meta;
pub mod persian_rug;
pub mod plan;
pub mod reading;
pub mod repeat;
pub mod report;
pub mod string;
pub mod syntax;
pub mod table;
pub mod template;
pub mod tokens;
pub mod text;
pub mod wrapper;
