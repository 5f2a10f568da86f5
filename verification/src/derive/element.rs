//! The expressions that make one element: by a nested builder, by a nested
//! generator, from a value, or by the structural default.

use crate::derive::syntax::texts;
use crate::derive::table::values_view;
use crate::derive::table::AttributeValue;
use crate::derive::template::fill;
use crate::derive::template::filled;
use crate::derive::text::owned;
use vstd::prelude::*;
use vstd::string::StringExecFns;

verus! {

/// One call that sets a field: `.$a($b)`.
pub const OVERRIDE: &'static str = ".$a($b)";

/// The element type of a collection type `$a`.
pub const ITEM_TYPE: &'static str = "<$a as ::std::iter::IntoIterator>::Item";

/// The builder of `$a`, with the calls `$b` that set fields, finished.
pub const BUILD: &'static str =
    "<<$a as ::boulder::Buildable>::Builder as ::boulder::Builder>::build(<$a as ::boulder::Buildable>::builder()$b)";

/// The generator of `$a`, with the calls `$b` that set fields' rules.
pub const GENERATE: &'static str = "<$a as ::boulder::Generatable>::generator()$b";

/// The value `$a`, converted to the type it is needed at.
pub const VALUE: &'static str = "($a).into()";

/// The structural default.
pub const STRUCTURAL_DEFAULT: &'static str = "Default::default()";

/// The calls that set the first `n` fields of a table, in its order.
pub open spec fn overrides_text(table: Seq<(Seq<char>, Seq<char>)>, n: int) -> Seq<char>
    decreases n,
{
    if n <= 0 {
        Seq::empty()
    } else {
        overrides_text(table, n - 1) + filled(OVERRIDE@, seq![table[n - 1].0, table[n - 1].1])
    }
}

/// The element type of a collection type.
pub open spec fn item_type_text(ty: Seq<char>) -> Seq<char> {
    filled(ITEM_TYPE@, seq![ty])
}

/// The expression that builds a `ty` with the fields of `table` set.
pub open spec fn build_text(ty: Seq<char>, table: Seq<(Seq<char>, Seq<char>)>) -> Seq<char> {
    filled(BUILD@, seq![ty, overrides_text(table, table.len() as int)])
}

/// The expression that is the generator of `ty` with the rules of `table`
/// set.
pub open spec fn generate_text(ty: Seq<char>, table: Seq<(Seq<char>, Seq<char>)>) -> Seq<char> {
    filled(GENERATE@, seq![ty, overrides_text(table, table.len() as int)])
}

/// The expression that converts a value.
pub open spec fn value_text(expr: Seq<char>) -> Seq<char> {
    filled(VALUE@, seq![expr])
}

/// Fills a template with one argument.
pub fn fill1(template: &str, a: &str) -> (out: String)
    ensures
        out@ == filled(template@, seq![a@]),
{
    let mut args: Vec<String> = Vec::new();
    args.push(owned(a));
    assert(texts(args@) =~= seq![a@]);
    fill(template, &args)
}

/// Fills a template with two arguments.
pub fn fill2(template: &str, a: &str, b: &str) -> (out: String)
    ensures
        out@ == filled(template@, seq![a@, b@]),
{
    let mut args: Vec<String> = Vec::new();
    args.push(owned(a));
    args.push(owned(b));
    assert(texts(args@) =~= seq![a@, b@]);
    fill(template, &args)
}

/// Fills a template with three arguments.
pub fn fill3(template: &str, a: &str, b: &str, c: &str) -> (out: String)
    ensures
        out@ == filled(template@, seq![a@, b@, c@]),
{
    let mut args: Vec<String> = Vec::new();
    args.push(owned(a));
    args.push(owned(b));
    args.push(owned(c));
    assert(texts(args@) =~= seq![a@, b@, c@]);
    fill(template, &args)
}

/// The calls that set the fields of a table, in its order.
pub fn overrides(table: &Vec<AttributeValue>) -> (out: String)
    ensures
        out@ == overrides_text(values_view(table@), table@.len() as int),
{
    let mut out = String::new();
    let n = table.len();
    let mut i: usize = 0;
    while i < n
        invariant
            i <= n,
            n == table@.len(),
            out@ == overrides_text(values_view(table@), i as int),
        decreases n - i,
    {
        let call = fill2(OVERRIDE, table[i].name.as_str(), table[i].value.as_str());
        out.append(call.as_str());
        i = i + 1;
    }
    out
}

/// The element type of a collection type.
pub fn item_type(ty: &str) -> (out: String)
    ensures
        out@ == item_type_text(ty@),
{
    fill1(ITEM_TYPE, ty)
}

/// The expression that builds a `ty` with the fields of `table` set.
pub fn build_expr(ty: &str, table: &Vec<AttributeValue>) -> (out: String)
    ensures
        out@ == build_text(ty@, values_view(table@)),
{
    let calls = overrides(table);
    fill2(BUILD, ty, calls.as_str())
}

/// The expression that is the generator of `ty` with the rules of `table`
/// set.
pub fn generate_expr(ty: &str, table: &Vec<AttributeValue>) -> (out: String)
    ensures
        out@ == generate_text(ty@, values_view(table@)),
{
    let calls = overrides(table);
    fill2(GENERATE, ty, calls.as_str())
}

/// The expression that converts a value.
pub fn value_expr(expr: &str) -> (out: String)
    ensures
        out@ == value_text(expr@),
{
    fill1(VALUE, expr)
}

} // verus!
