//! The source of a generator that recycles a list of values, each converted
//! to the type that is asked for.

use crate::derive::attributes::outcome_is;
use crate::derive::reading::expr_list;
use crate::derive::reading::read_exprs;
use crate::derive::reading::refusal;
use crate::derive::builder::source_outcome;
use crate::derive::element::fill1;
use crate::derive::error::DeriveError;
use crate::derive::error::DeriveErrorView;
use crate::derive::syntax::texts;
use crate::derive::template::filled;
use vstd::prelude::*;
use vstd::string::StringExecFns;

verus! {

/// The value `$a`, converted and put behind the others.
pub const REPEAT_ITEM: &'static str = "items.push($a.into());\n";

/// The generator that recycles the values that `$a` puts in a list.
pub const REPEAT_SOURCE: &'static str = "{
let mut items = Vec::new();
$a
::boulder::Repeat::new(items)
}";

/// The values to recycle, as expressions.
pub struct RepeatCall {
    pub items: Vec<String>,
}

impl View for RepeatCall {
    type V = Seq<Seq<char>>;

    open spec fn view(&self) -> Seq<Seq<char>> {
        texts(self.items@)
    }
}

/// The values written in `text`, which are a list separated by commas.
pub open spec fn repeat_call_in(text: Seq<char>) -> Result<Seq<Seq<char>>, DeriveErrorView> {
    match expr_list(text) {
        None => Err(refusal(text)),
        Some(items) => Ok(items),
    }
}

/// The putting of the first `n` values in the list.
pub open spec fn repeat_items_text(items: Seq<Seq<char>>, n: int) -> Seq<char>
    decreases n,
{
    if n <= 0 {
        Seq::empty()
    } else {
        repeat_items_text(items, n - 1) + filled(REPEAT_ITEM@, seq![items[n - 1]])
    }
}

/// The source of the generator that recycles the values.
pub open spec fn repeat_source(items: Seq<Seq<char>>) -> Seq<char> {
    filled(REPEAT_SOURCE@, seq![repeat_items_text(items, items.len() as int)])
}

/// What writing the generator for `text` comes to.
pub open spec fn repeat_expansion(text: Seq<char>) -> Result<Seq<char>, DeriveErrorView> {
    match repeat_call_in(text) {
        Err(e) => Err(e),
        Ok(items) => Ok(repeat_source(items)),
    }
}

impl RepeatCall {
    /// Reads the values.
    pub fn parse(text: &str) -> (r: Result<RepeatCall, DeriveError>)
        ensures
            outcome_is(
                match r {
                    Ok(call) => Ok(call@),
                    Err(e) => Err(e@),
                },
                repeat_call_in(text@),
            ),
    {
        match read_exprs(text) {
            Err(e) => Err(e),
            Ok(items) => Ok(RepeatCall { items }),
        }
    }
}

/// Writes the source of the generator that recycles the values.
pub fn repeat_macro(call: &RepeatCall) -> (out: String)
    ensures
        out@ == repeat_source(call@),
{
    let mut items = String::new();
    let n = call.items.len();
    let mut i: usize = 0;
    while i < n
        invariant
            i <= n,
            n == call.items@.len(),
            items@ == repeat_items_text(call@, i as int),
        decreases n - i,
    {
        items.append(fill1(REPEAT_ITEM, call.items[i].as_str()).as_str());
        i = i + 1;
    }
    fill1(REPEAT_SOURCE, items.as_str())
}

/// Reads the values in `text` and writes the source of the generator that
/// recycles them.
pub fn expand_repeat(text: &str) -> (r: Result<String, DeriveError>)
    ensures
        outcome_is(source_outcome(r), repeat_expansion(text@)),
{
    match RepeatCall::parse(text) {
        Err(e) => Err(e),
        Ok(call) => Ok(repeat_macro(&call)),
    }
}

} // verus!
