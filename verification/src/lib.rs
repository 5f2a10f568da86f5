//! Builders and generators for records, and the engine that derives them.
//!
//! A *builder* makes one record, with defaults for every field that was not
//! set. A *generator* makes an unending sequence of records, each field
//! following its own rule. Both come in a second form for records that live
//! in a *context*, a store that owns the records and gives out handles: there
//! every step is handed the context and hands it back.
//!
//! The module [`derive`] turns the description of a record, with the
//! directives written on its fields, into the source of its builder and of
//! its generator. The other modules are what that source builds on.

pub mod builder;
pub mod derive;
pub mod generator;
pub mod generators;
pub mod persian_rug;
pub mod recycle;

pub use crate::builder::Buildable;
pub use crate::builder::Builder;
pub use crate::generator::Generatable;
pub use crate::generator::Generator;
pub use crate::generator::GeneratorIterator;
pub use crate::generator::GeneratorMutIterator;
pub use crate::generators::Always;
pub use crate::generators::Const;
pub use crate::generators::Inc;
pub use crate::generators::Sample;
pub use crate::persian_rug::builder::BuildableWithPersianRug;
pub use crate::persian_rug::builder::BuilderWithPersianRug;
pub use crate::persian_rug::existing::RepeatFromPersianRug;
pub use crate::persian_rug::existing::SampleFromPersianRug;
pub use crate::persian_rug::existing::SubsetsFromPersianRug;
pub use crate::persian_rug::existing::TryRepeatFromPersianRug;
pub use crate::persian_rug::generator::GeneratableWithPersianRug;
pub use crate::persian_rug::generator::GeneratorWithPersianRug;
pub use crate::persian_rug::iterator::GeneratorWithPersianRugIterator;
pub use crate::persian_rug::iterator::GeneratorWithPersianRugMutIterator;
pub use crate::persian_rug::sequence::GeneratorToGeneratorWithPersianRugWrapper;
pub use crate::persian_rug::sequence::SequenceGeneratorWithPersianRug;
pub use crate::recycle::Repeat;
pub use crate::recycle::Subsets;
