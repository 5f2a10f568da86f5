//! What can go wrong while a record's directives are read.

use vstd::prelude::*;

verus! {

/// A refusal to derive. A variant that carries text carries what its
/// message names.
pub enum DeriveError {
    /// The text is no sequence of Rust tokens.
    Lex,
    /// The text nests deeper than is handed to the Rust parser.
    TooDeep,
    /// The text holds a literal of a kind that is not handed to the Rust
    /// parser.
    UnknownLiteral(String),
    /// The Rust parser refused the text; its own message is carried.
    Syntax(String),
    /// An attribute was written without arguments in parentheses.
    MissingArguments,
    /// A directive with a known name is written in the wrong form.
    Malformed(String),
    /// The directive's name is not one of the library's.
    UnsupportedAttribute(String),
    /// A context-aware directive stands in a derive that has no context.
    OutsidePersianRug(String),
    /// A context-aware generator value was given without its type.
    MissingType(String),
    /// A nested context-aware generator was given per-field overrides.
    NestedCustomisation(String),
    /// The record names no context.
    NoContext,
    /// The record-level directive holds an unknown constraint.
    UnsupportedConstraint(String),
}

/// The model of an error: its kind and the text it carries.
pub enum DeriveErrorView {
    Lex,
    TooDeep,
    UnknownLiteral(Seq<char>),
    Syntax(Seq<char>),
    MissingArguments,
    Malformed(Seq<char>),
    UnsupportedAttribute(Seq<char>),
    OutsidePersianRug(Seq<char>),
    MissingType(Seq<char>),
    NestedCustomisation(Seq<char>),
    NoContext,
    UnsupportedConstraint(Seq<char>),
}

impl View for DeriveError {
    type V = DeriveErrorView;

    open spec fn view(&self) -> DeriveErrorView {
        match self {
            DeriveError::Lex => DeriveErrorView::Lex,
            DeriveError::TooDeep => DeriveErrorView::TooDeep,
            DeriveError::UnknownLiteral(s) => DeriveErrorView::UnknownLiteral(s@),
            DeriveError::Syntax(s) => DeriveErrorView::Syntax(s@),
            DeriveError::MissingArguments => DeriveErrorView::MissingArguments,
            DeriveError::Malformed(s) => DeriveErrorView::Malformed(s@),
            DeriveError::UnsupportedAttribute(s) => DeriveErrorView::UnsupportedAttribute(s@),
            DeriveError::OutsidePersianRug(s) => DeriveErrorView::OutsidePersianRug(s@),
            DeriveError::MissingType(s) => DeriveErrorView::MissingType(s@),
            DeriveError::NestedCustomisation(s) => DeriveErrorView::NestedCustomisation(s@),
            DeriveError::NoContext => DeriveErrorView::NoContext,
            DeriveError::UnsupportedConstraint(s) => DeriveErrorView::UnsupportedConstraint(s@),
        }
    }
}

} // verus!
