//! The expressions and local types that make one element where a context is
//! at hand.

use crate::derive::element::build_expr;
use crate::derive::element::build_text;
use crate::derive::element::fill1;
use crate::derive::element::fill2;
use crate::derive::element::fill3;
use crate::derive::element::overrides;
use crate::derive::element::overrides_text;
use crate::derive::element::value_expr;
use crate::derive::element::value_text;
use crate::derive::element::STRUCTURAL_DEFAULT;
use crate::derive::input::DeriveInput;
use crate::derive::meta::BuildType;
use crate::derive::meta::BuildTypeView;
use crate::derive::syntax::texts;
use crate::derive::table::values_view;
use crate::derive::table::AttributeValue;
use crate::derive::template::fill;
use crate::derive::template::filled;
use crate::derive::text::owned;
use vstd::prelude::*;
use vstd::string::StringExecFns;

verus! {

/// The predicate that the context `$a` holds records of type `$b`.
pub const ACCESS: &'static str = "$a: ::boulder::persian_rug::Owner<$b>, ";

/// The context-aware builder of `$a` in the context `$b`, with the calls `$c`
/// that set fields, finished against `context`.
pub const BUILD_IN_CONTEXT: &'static str =
    "<<$a as ::boulder::BuildableWithPersianRug<$b>>::Builder as ::boulder::BuilderWithPersianRug<$b>>::build(<$a as ::boulder::BuildableWithPersianRug<$b>>::builder()$c, context)";

/// The function `$a` applied to `context`; its value converted.
pub const VALUE_IN_CONTEXT: &'static str =
    "let closure = { $a }; let (result, context) = closure(context); (result.into(), context)";

/// The name of the local generator that makes the default of the field `$a`.
pub const DEFAULT_GENERATOR_NAME: &'static str = "BoulderDefaultGenerator_$a";

/// The name of the local generator that makes the count of the field `$a`.
pub const SEQUENCE_GENERATOR_NAME: &'static str = "BoulderDefaultSequenceGenerator_$a";

/// A local generator: the type `$a` with the record's generics `$b`, that
/// holds nothing but the record's type `$c $d`, and in the context `$e`
/// makes a `$g` by `$h`. `$f` is the predicates it needs.
pub const LOCAL_GENERATOR: &'static str = "struct $a $b {
_marker: ::core::marker::PhantomData<$c $d>,
}

#[automatically_derived]
impl $b ::boulder::GeneratorWithPersianRug<$e> for $a $d
where
$f
{
type Output = $g;
fn generate(&mut self, context: $e) -> (Self::Output, $e) {
$h
}
}

";

/// A local generator of the type `$a`, made.
pub const LOCAL_GENERATOR_VALUE: &'static str = "$a { _marker: Default::default() }";

/// The predicates that the context holds records of the first `n` types.
pub open spec fn access_text(context: Seq<char>, types: Seq<Seq<char>>, n: int) -> Seq<char>
    decreases n,
{
    if n <= 0 {
        Seq::empty()
    } else {
        access_text(context, types, n - 1) + filled(ACCESS@, seq![context, types[n - 1]])
    }
}

/// The predicates of every `impl` of a record in a context: the context
/// holds the types the record reaches, and the record's own predicates.
pub open spec fn predicates_text(input: DeriveInput, context: Seq<char>, types: Seq<Seq<char>>) -> Seq<
    char,
> {
    access_text(context, types, types.len() as int) + input.generics.bare_where_text()
}

/// The expression that builds a `ty` in the context, with the fields of
/// `table` set.
pub open spec fn build_in_context_text(
    ty: Seq<char>,
    context: Seq<char>,
    table: Seq<(Seq<char>, Seq<char>)>,
) -> Seq<char> {
    filled(BUILD_IN_CONTEXT@, seq![ty, context, overrides_text(table, table.len() as int)])
}

/// The code that makes one element of type `ty` as the builder's directive
/// says. With `needs_context` it reads `context` and is worth the element
/// and the context; without, it is worth the element.
pub open spec fn static_value_text(
    ty: Seq<char>,
    context: Seq<char>,
    element: BuildTypeView,
    needs_context: bool,
) -> Seq<char> {
    match element {
        BuildTypeView::Buildable(table) => if needs_context {
            build_in_context_text(ty, context, table)
        } else {
            build_text(ty, table)
        },
        BuildTypeView::Value { expr, ty: _ } => if needs_context {
            filled(VALUE_IN_CONTEXT@, seq![expr])
        } else {
            value_text(expr)
        },
        BuildTypeView::Default => STRUCTURAL_DEFAULT@,
    }
}

/// The name of the local generator that makes the default of a field.
pub open spec fn default_generator_name(field: Seq<char>) -> Seq<char> {
    filled(DEFAULT_GENERATOR_NAME@, seq![field])
}

/// The name of the local generator that makes the count of a field.
pub open spec fn sequence_generator_name(field: Seq<char>) -> Seq<char> {
    filled(SEQUENCE_GENERATOR_NAME@, seq![field])
}

/// A local generator named `name` that makes an `output` by `body`.
pub open spec fn local_generator_text(
    input: DeriveInput,
    context: Seq<char>,
    predicates: Seq<char>,
    name: Seq<char>,
    output: Seq<char>,
    body: Seq<char>,
) -> Seq<char> {
    filled(
        LOCAL_GENERATOR@,
        seq![
            name,
            input.generics.impl_generics_text(),
            input.ident@,
            input.generics.ty_generics_text(),
            context,
            predicates,
            output,
            body,
        ],
    )
}

/// The predicates that the context holds records of the types.
pub fn access(context: &str, types: &Vec<String>) -> (out: String)
    ensures
        out@ == access_text(context@, texts(types@), types@.len() as int),
{
    let mut out = String::new();
    let n = types.len();
    let mut i: usize = 0;
    while i < n
        invariant
            i <= n,
            n == types@.len(),
            out@ == access_text(context@, texts(types@), i as int),
        decreases n - i,
    {
        out.append(fill2(ACCESS, context, types[i].as_str()).as_str());
        i = i + 1;
    }
    out
}

/// The predicates of every `impl` of a record in a context.
pub fn predicates(input: &DeriveInput, context: &str, types: &Vec<String>) -> (out: String)
    ensures
        out@ == predicates_text(*input, context@, texts(types@)),
{
    let mut out = access(context, types);
    out.append(input.generics.bare_where().as_str());
    out
}

/// The expression that builds a `ty` in the context.
pub fn build_in_context(ty: &str, context: &str, table: &Vec<AttributeValue>) -> (out: String)
    ensures
        out@ == build_in_context_text(ty@, context@, values_view(table@)),
{
    let calls = overrides(table);
    fill3(BUILD_IN_CONTEXT, ty, context, calls.as_str())
}

/// The code that makes one element of type `ty` as the builder's directive
/// says.
pub fn static_value(ty: &str, context: &str, element: &BuildType, needs_context: bool) -> (out:
    String)
    ensures
        out@ == static_value_text(ty@, context@, element@, needs_context),
{
    match element {
        BuildType::Buildable(table) => if needs_context {
            build_in_context(ty, context, table)
        } else {
            build_expr(ty, table)
        },
        BuildType::Value { expr, ty: _ } => if needs_context {
            fill1(VALUE_IN_CONTEXT, expr.as_str())
        } else {
            value_expr(expr.as_str())
        },
        BuildType::Default => owned(STRUCTURAL_DEFAULT),
    }
}

/// The name of the local generator that makes the default of a field.
pub fn make_generator_id_for_field(field: &str) -> (out: String)
    ensures
        out@ == default_generator_name(field@),
{
    fill1(DEFAULT_GENERATOR_NAME, field)
}

/// The name of the local generator that makes the count of a field.
pub fn make_sequence_generator_id_for_field(field: &str) -> (out: String)
    ensures
        out@ == sequence_generator_name(field@),
{
    fill1(SEQUENCE_GENERATOR_NAME, field)
}

/// A local generator named `name` that makes an `output` by `body`.
pub fn local_generator(
    input: &DeriveInput,
    context: &str,
    predicates: &str,
    name: &str,
    output: &str,
    body: &str,
) -> (out: String)
    ensures
        out@ == local_generator_text(
            *input,
            context@,
            predicates@,
            name@,
            output@,
            body@,
        ),
{
    let mut args: Vec<String> = Vec::new();
    args.push(owned(name));
    args.push(input.generics.impl_generics());
    args.push(owned(input.ident.as_str()));
    args.push(input.generics.ty_generics());
    args.push(owned(context));
    args.push(owned(predicates));
    args.push(owned(output));
    args.push(owned(body));
    assert(texts(args@) =~= seq![
        name@,
        input.generics.impl_generics_text(),
        input.ident@,
        input.generics.ty_generics_text(),
        context@,
        predicates@,
        output@,
        body@,
    ]);
    fill(LOCAL_GENERATOR, &args)
}

} // verus!
