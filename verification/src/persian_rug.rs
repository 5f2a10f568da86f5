//! Builders and generators for records that live in a context: a store that
//! owns the records and gives out handles to them.
//!
//! A context-aware builder or generator is handed the context at every step
//! and hands it back, so that a step can look at the records made so far and
//! add records of its own.

pub mod builder;
pub mod convert;
pub mod existing;
pub mod generator;
pub mod iterator;
pub mod lifted;
pub mod sequence;
pub mod table;

pub use crate::persian_rug::builder::BuildableWithPersianRug;
pub use crate::persian_rug::builder::BuilderWithPersianRug;
pub use crate::persian_rug::builder::OptionBuildableWithPersianRug;
pub use crate::persian_rug::builder::OptionProxyBuildableWithPersianRug;
pub use crate::persian_rug::builder::ProxyBuildableWithPersianRug;
pub use crate::persian_rug::convert::ConverterWithPersianRug;
pub use crate::persian_rug::existing::RepeatFromPersianRug;
pub use crate::persian_rug::existing::SampleFromPersianRug;
pub use crate::persian_rug::existing::SubsetsFromPersianRug;
pub use crate::persian_rug::existing::TryRepeatFromPersianRug;
pub use crate::persian_rug::generator::GeneratableWithPersianRug;
pub use crate::persian_rug::generator::GeneratorWithPersianRug;
pub use crate::persian_rug::iterator::GeneratorWithPersianRugIterator;
pub use crate::persian_rug::iterator::GeneratorWithPersianRugMutIterator;
pub use crate::persian_rug::sequence::GeneratorToGeneratorWithPersianRugWrapper;
pub use crate::persian_rug::sequence::SequenceGeneratorWithPersianRug;
pub use crate::persian_rug::table::Owner;
pub use crate::persian_rug::table::Proxy;
pub use crate::persian_rug::table::Table;
