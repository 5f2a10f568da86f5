//! The derivations as they are called for a record: each hands out source,
//! which fails to compile with a message where the record was refused.

use crate::derive::attributes::outcome_is;
use crate::derive::builder::buildable_derivation;
use crate::derive::builder::derive_buildable;
use crate::derive::builder::source_outcome;
use crate::derive::error::DeriveErrorView;
use crate::derive::generator::derive_generatable;
use crate::derive::generator::generatable_derivation;
use crate::derive::input::DeriveInput;
use crate::derive::persian_rug::builder::buildable_with_persian_rug_derivation;
use crate::derive::persian_rug::builder::derive_buildable_with_persian_rug;
use crate::derive::persian_rug::generator::derive_generatable_with_persian_rug;
use crate::derive::persian_rug::generator::generatable_with_persian_rug_derivation;
use crate::derive::repeat::expand_repeat;
use crate::derive::repeat::repeat_expansion;
use crate::derive::report::emitted;
use crate::derive::report::hand_out;
use crate::derive::report::handed_out;
use crate::derive::report::reported;
use crate::derive::string::expand_pattern;
use crate::derive::string::pattern_expansion;
use vstd::prelude::*;

verus! {

/// What is handed out for an expected outcome is what is handed out for the
/// outcome.
pub proof fn lemma_handed_out(
    out: Seq<char>,
    got: Result<Seq<char>, DeriveErrorView>,
    expected: Result<Seq<char>, DeriveErrorView>,
)
    requires
        outcome_is(got, expected),
        match got {
            Ok(source) => out == source,
            Err(e) => out == reported(e),
        },
    ensures
        handed_out(out, expected),
{
}

/// The source of the builder of a record.
pub fn builder(input: &DeriveInput) -> (out: String)
    ensures
        handed_out(out@, buildable_derivation(*input)),
{
    let r = derive_buildable(input);
    proof {
        lemma_handed_out(
            emitted(r),
            source_outcome(r),
            buildable_derivation(*input),
        );
    }
    hand_out(r)
}

/// The source of the generator of a record.
pub fn generatable(input: &DeriveInput) -> (out: String)
    ensures
        handed_out(out@, generatable_derivation(*input)),
{
    let r = derive_generatable(input);
    proof {
        lemma_handed_out(
            emitted(r),
            source_outcome(r),
            generatable_derivation(*input),
        );
    }
    hand_out(r)
}

/// The source of the context-aware builder of a record.
pub fn buildable_with_persian_rug(input: &DeriveInput) -> (out: String)
    ensures
        handed_out(out@, buildable_with_persian_rug_derivation(*input)),
{
    let r = derive_buildable_with_persian_rug(input);
    proof {
        lemma_handed_out(
            emitted(r),
            source_outcome(r),
            buildable_with_persian_rug_derivation(*input),
        );
    }
    hand_out(r)
}

/// The source of the context-aware generator of a record.
pub fn generatable_with_persian_rug(input: &DeriveInput) -> (out: String)
    ensures
        handed_out(out@, generatable_with_persian_rug_derivation(*input)),
{
    let r = derive_generatable_with_persian_rug(input);
    proof {
        lemma_handed_out(
            emitted(r),
            source_outcome(r),
            generatable_with_persian_rug_derivation(*input),
        );
    }
    hand_out(r)
}

/// The source of a generator of formatted strings, for the pattern and the
/// generators written in `input`.
pub fn string_pattern(input: &str) -> (out: String)
    ensures
        handed_out(out@, pattern_expansion(input@)),
{
    let r = expand_pattern(input);
    proof {
        lemma_handed_out(
            emitted(r),
            source_outcome(r),
            pattern_expansion(input@),
        );
    }
    hand_out(r)
}

/// The source of a generator that recycles the values written in `input`.
pub fn repeat(input: &str) -> (out: String)
    ensures
        handed_out(out@, repeat_expansion(input@)),
{
    let r = expand_repeat(input);
    proof {
        lemma_handed_out(
            emitted(r),
            source_outcome(r),
            repeat_expansion(input@),
        );
    }
    hand_out(r)
}

} // verus!
