//! The source of a record's context-aware builder.
//!
//! It differs from the plain builder in three ways. A slot is empty until it
//! is set, and its default is made only when the record is built, because
//! what it is may depend on what the context holds by then. Building takes
//! the context and hands it back. And a directive may be context-aware
//! itself: a value that is a function of the context, a nested builder that
//! builds in the context, a count that is a function of the context.

use crate::derive::attributes::outcome_is;
use crate::derive::builder::source_outcome;
use crate::derive::builder::GENERATOR_BLOCK;
use crate::derive::builder::SLOT_MOVE;
use crate::derive::element::build_expr;
use crate::derive::element::build_text;
use crate::derive::element::fill1;
use crate::derive::element::fill2;
use crate::derive::element::fill3;
use crate::derive::element::generate_expr;
use crate::derive::element::generate_text;
use crate::derive::element::item_type;
use crate::derive::element::item_type_text;
use crate::derive::element::overrides;
use crate::derive::element::overrides_text;
use crate::derive::error::DeriveError;
use crate::derive::error::DeriveErrorView;
use crate::derive::helpers::get_persian_rug_constraints;
use crate::derive::helpers::record_constraints;
use crate::derive::input::DeriveInput;
use crate::derive::meta::BuildType;
use crate::derive::meta::BuildTypeView;
use crate::derive::meta::GeneratorType;
use crate::derive::meta::GeneratorTypeView;
use crate::derive::persian_rug::element::build_in_context;
use crate::derive::persian_rug::element::build_in_context_text;
use crate::derive::persian_rug::element::default_generator_name;
use crate::derive::persian_rug::element::local_generator;
use crate::derive::persian_rug::element::local_generator_text;
use crate::derive::persian_rug::element::make_generator_id_for_field;
use crate::derive::persian_rug::element::predicates;
use crate::derive::persian_rug::element::predicates_text;
use crate::derive::persian_rug::element::static_value;
use crate::derive::persian_rug::element::static_value_text;
use crate::derive::persian_rug::element::LOCAL_GENERATOR_VALUE;
use crate::derive::plan::plan_record;
use crate::derive::plan::plans_view;
use crate::derive::plan::record_plans;
use crate::derive::plan::FieldPlan;
use crate::derive::plan::FieldPlanView;
use crate::derive::syntax::texts;
use crate::derive::template::fill;
use crate::derive::template::filled;
use crate::derive::text::owned;
use crate::derive::wrapper::contextual_layers;
use crate::derive::wrapper::layers_in_context;
use crate::derive::wrapper::Wrapper;
use vstd::prelude::*;
use vstd::string::StringExecFns;

verus! {

/// A slot that is empty until set: the field `$a` of type `$b`.
pub const OPTIONAL_SLOT: &'static str = "$a: Option<$b>,\n";

/// The empty slot of the field `$a`.
pub const EMPTY_SLOT: &'static str = "$a: ::std::default::Default::default(),\n";

/// The method that sets the slot `$a` of type `$b`.
pub const OPTIONAL_SETTER: &'static str =
    "pub fn $a<S>(mut self, value: S) -> Self where S: Into<$b> { self.$a = Some(value.into()); self }\n";

/// The field `$a`, made.
pub const MADE: &'static str = "$a,\n";

/// The generator of `$a` in the context `$b`, with the calls `$c` that set
/// fields' rules.
pub const GENERATE_IN_CONTEXT: &'static str =
    "<$a as ::boulder::GeneratableWithPersianRug<$b>>::generator()$c";

/// The rule that makes `$a` anew at every step.
pub const REPEATED_BLOCK: &'static str = "|| { $a }";

/// The count `$a`.
pub const COUNT: &'static str = "let count = $a;";

/// The count that the function `$a` makes of the context.
pub const COUNT_IN_CONTEXT: &'static str =
    "let closure = { $a }; let (count, mut context) = closure(context);";

/// The field `$a`: what was set, else what `$b` builds in the context.
pub const SLOT_BUILD_IN_CONTEXT: &'static str =
    "let ($a, mut context) = if let Some(value) = self.$a { (value, context) } else { $b };\n";

/// The field `$a`: what was set, else what `$b` builds.
pub const SLOT_BUILD: &'static str =
    "let $a = if let Some(value) = self.$a { value } else { $b };\n";

/// The field `$a`: what was set, else what the function `$b` makes of the
/// context.
pub const SLOT_VALUE_IN_CONTEXT: &'static str =
    "let ($a, mut context) = if let Some(value) = self.$a { (value, context) } else { let closure = { $b }; closure(context) };\n";

/// The field `$a`: what was set, else the value `$b`.
pub const SLOT_VALUE: &'static str = "let $a = self.$a.unwrap_or_else(|| ($b).into());\n";

/// The field `$a`: what was set, else the structural default.
pub const SLOT_STRUCTURAL: &'static str = "let $a = self.$a.unwrap_or_default();\n";

/// The field `$a`: what was set, else a collection. `$b` makes the count,
/// `$c` is the generator, which is asked in the context once per element, in
/// order.
pub const COLLECT_IN_CONTEXT: &'static str =
    "let ($a, mut context) = if let Some(value) = self.$a { (value, context) } else { $b let mut gen = $c; let mut iter = ::boulder::GeneratorWithPersianRugIterator::new(gen, context); let mut storage = Vec::new(); for _ in 0..count { storage.push(iter.next().unwrap()); } let (gen, context) = iter.into_inner(); let value = storage.into_iter().collect(); (value, context) };\n";

/// The field `$a`: what was set, else a collection. `$b` makes the count,
/// `$c` is the generator, which needs no context.
pub const COLLECT: &'static str =
    "let ($a, mut context) = if let Some(value) = self.$a { (value, context) } else { $b let mut gen = $c; let iter = ::boulder::GeneratorIterator::new(gen); let value = iter.take(count).into_iter().collect(); (value, context) };\n";

/// The context-aware builder of a record. `$a` is its visibility, `$b` its
/// parameters as declared, `$c` its `where` clause, `$d` the slots, `$e` its
/// parameters as arguments, `$f` the empty slots, `$g` the slots' moves, `$h`
/// the setters, `$i` the generics of an `impl` for it, `$j` its name, `$k`
/// the arguments of its type, `$l` the rules for the layers, `$m` the
/// predicates of its impls, `$n` the context, `$o` the local generators, `$p`
/// the making of the fields, `$q` the fields made.
pub const CONTEXT_BUILDER_SOURCE: &'static str = "const _: () = {
$a struct Builder<BoulderTypeMarkerParam $b> $c {
_boulder_created_marker: ::core::marker::PhantomData<BoulderTypeMarkerParam>,
$d}

$o
#[automatically_derived]
impl<BoulderTypeMarkerParam $b> Builder<BoulderTypeMarkerParam $e> $c {
pub fn new() -> Self {
Self {
_boulder_created_marker: Default::default(),
$f}
}

fn change_type<BoulderFunctionTypeParam>(self) -> Builder<BoulderFunctionTypeParam $e> {
Builder {
_boulder_created_marker: Default::default(),
$g}
}

$h}

#[automatically_derived]
impl $i ::boulder::persian_rug::builder::BoulderBase for $j $k $c {
type Base = $j $k;
}

#[automatically_derived]
impl $i ::boulder::persian_rug::builder::MiniBuildableWithPersianRug<$j $k, $n> for $j $k
where
$m
{
type Builder = Builder<$j $k $e>;
fn mini_builder() -> Self::Builder {
Builder::new()
}
}

#[automatically_derived]
impl $i ::boulder::BuilderWithPersianRug<$n> for Builder<$j $k $e>
where
$m
{
type Result = $j $k;
fn build(self, mut context: $n) -> (Self::Result, $n) {
$p(
$j {
$q},
context
)
}
}

$l};
";

/// The rule for one layer in a context: the builder of a record inside the
/// layer `$a` builds the record and puts the layer on by `$b`. `$c` is the
/// record's parameters as declared, `$d` its name, `$e` the arguments of its
/// type, `$f` its parameters as arguments, `$g` the predicates of its impls,
/// `$h` the context, `$i` what the layer needs of the context.
pub const CONTEXT_BUILDER_LAYER: &'static str = "#[automatically_derived]
impl<BoulderExtraGenericParam $c> ::boulder::persian_rug::builder::MiniBuildableWithPersianRug<$d $e, $h> for $a<BoulderExtraGenericParam>
where
BoulderExtraGenericParam: ::boulder::persian_rug::builder::MiniBuildableWithPersianRug<$d $e, $h>,
Builder<BoulderExtraGenericParam $f>: ::boulder::BuilderWithPersianRug<$h, Result = BoulderExtraGenericParam>,
$i$g
{
type Builder = Builder<$a<BoulderExtraGenericParam> $f>;
fn mini_builder() -> Self::Builder {
Builder::new()
}
}

#[automatically_derived]
impl<BoulderExtraGenericParam $c> ::boulder::BuilderWithPersianRug<$h> for Builder<$a<BoulderExtraGenericParam> $f>
where
Builder<BoulderExtraGenericParam $f>: ::boulder::BuilderWithPersianRug<$h, Result = BoulderExtraGenericParam>,
$i$g
{
type Result = $a<BoulderExtraGenericParam>;
fn build(self, context: $h) -> (Self::Result, $h) {
let (result, mut context) = <Builder<BoulderExtraGenericParam $f> as ::boulder::BuilderWithPersianRug<$h>>::build(self.change_type(), context);
$b
}
}

";

/// Whether the elements of a collection are made in the context: as the
/// generator's directive says where there is one, else as the builder's.
pub open spec fn items_need_context(plan: FieldPlanView) -> bool {
    match plan.meta.generator.element {
        GeneratorTypeView::Default => plan.meta.builder.needs_context,
        _ => plan.meta.generator.needs_context,
    }
}

/// Whether a field needs a local generator for its default: a collection
/// whose elements the builder's directive makes in the context.
pub open spec fn needs_local_generator(plan: FieldPlanView) -> bool {
    plan.meta.builder.sequence is Some && plan.meta.generator.element is Default
        && plan.meta.builder.needs_context
}

/// The generator from which a collection's elements are drawn.
pub open spec fn context_item_source_text(plan: FieldPlanView, context: Seq<char>) -> Seq<char> {
    let item = item_type_text(plan.ty);
    match plan.meta.generator.element {
        GeneratorTypeView::Generator { expr, ty: _ } => filled(GENERATOR_BLOCK@, seq![expr]),
        GeneratorTypeView::Generatable(table) => if plan.meta.generator.needs_context {
            filled(
                GENERATE_IN_CONTEXT@,
                seq![item, context, overrides_text(table, table.len() as int)],
            )
        } else {
            generate_text(item, table)
        },
        GeneratorTypeView::Default => if plan.meta.builder.needs_context {
            filled(LOCAL_GENERATOR_VALUE@, seq![default_generator_name(plan.ident)])
        } else {
            filled(
                REPEATED_BLOCK@,
                seq![static_value_text(item, context, plan.meta.builder.element, false)],
            )
        },
    }
}

/// The local generator of a field, where it needs one.
pub open spec fn field_generator_text(
    input: DeriveInput,
    context: Seq<char>,
    predicates: Seq<char>,
    plan: FieldPlanView,
) -> Seq<char> {
    if needs_local_generator(plan) {
        local_generator_text(
            input,
            context,
            predicates,
            default_generator_name(plan.ident),
            item_type_text(plan.ty),
            static_value_text(item_type_text(plan.ty), context, plan.meta.builder.element, true),
        )
    } else {
        Seq::empty()
    }
}

/// The statement that makes a field: what was set, else its default.
pub open spec fn field_statement_text(plan: FieldPlanView, context: Seq<char>) -> Seq<char> {
    let b = plan.meta.builder;
    match b.sequence {
        Some(count) => {
            let counted = if b.sequence_needs_context {
                filled(COUNT_IN_CONTEXT@, seq![count.0])
            } else {
                filled(COUNT@, seq![count.0])
            };
            if items_need_context(plan) {
                filled(
                    COLLECT_IN_CONTEXT@,
                    seq![plan.ident, counted, context_item_source_text(plan, context)],
                )
            } else {
                filled(COLLECT@, seq![plan.ident, counted, context_item_source_text(plan, context)])
            }
        },
        None => match b.element {
            BuildTypeView::Buildable(table) => if b.needs_context {
                filled(
                    SLOT_BUILD_IN_CONTEXT@,
                    seq![plan.ident, build_in_context_text(plan.ty, context, table)],
                )
            } else {
                filled(SLOT_BUILD@, seq![plan.ident, build_text(plan.ty, table)])
            },
            BuildTypeView::Value { expr, ty: _ } => if b.needs_context {
                filled(SLOT_VALUE_IN_CONTEXT@, seq![plan.ident, expr])
            } else {
                filled(SLOT_VALUE@, seq![plan.ident, expr])
            },
            BuildTypeView::Default => filled(SLOT_STRUCTURAL@, seq![plan.ident]),
        },
    }
}

/// The slots of the first `n` fields.
pub open spec fn optional_slots_text(plans: Seq<FieldPlanView>, n: int) -> Seq<char>
    decreases n,
{
    if n <= 0 {
        Seq::empty()
    } else {
        optional_slots_text(plans, n - 1) + filled(
            OPTIONAL_SLOT@,
            seq![plans[n - 1].ident, plans[n - 1].ty],
        )
    }
}

/// The empty slots of the first `n` fields.
pub open spec fn empty_slots_text(plans: Seq<FieldPlanView>, n: int) -> Seq<char>
    decreases n,
{
    if n <= 0 {
        Seq::empty()
    } else {
        empty_slots_text(plans, n - 1) + filled(EMPTY_SLOT@, seq![plans[n - 1].ident])
    }
}

/// The moves of the first `n` slots.
pub open spec fn moves_text(plans: Seq<FieldPlanView>, n: int) -> Seq<char>
    decreases n,
{
    if n <= 0 {
        Seq::empty()
    } else {
        moves_text(plans, n - 1) + filled(SLOT_MOVE@, seq![plans[n - 1].ident])
    }
}

/// The setters of the first `n` slots.
pub open spec fn optional_setters_text(plans: Seq<FieldPlanView>, n: int) -> Seq<char>
    decreases n,
{
    if n <= 0 {
        Seq::empty()
    } else {
        optional_setters_text(plans, n - 1) + filled(
            OPTIONAL_SETTER@,
            seq![plans[n - 1].ident, plans[n - 1].ty],
        )
    }
}

/// The first `n` fields, made.
pub open spec fn made_text(plans: Seq<FieldPlanView>, n: int) -> Seq<char>
    decreases n,
{
    if n <= 0 {
        Seq::empty()
    } else {
        made_text(plans, n - 1) + filled(MADE@, seq![plans[n - 1].ident])
    }
}

/// The statements that make the first `n` fields, in the fields' order.
pub open spec fn statements_text(plans: Seq<FieldPlanView>, context: Seq<char>, n: int) -> Seq<
    char,
>
    decreases n,
{
    if n <= 0 {
        Seq::empty()
    } else {
        statements_text(plans, context, n - 1) + field_statement_text(plans[n - 1], context)
    }
}

/// The local generators of the first `n` fields.
pub open spec fn field_generators_text(
    input: DeriveInput,
    context: Seq<char>,
    predicates: Seq<char>,
    plans: Seq<FieldPlanView>,
    n: int,
) -> Seq<char>
    decreases n,
{
    if n <= 0 {
        Seq::empty()
    } else {
        field_generators_text(input, context, predicates, plans, n - 1) + field_generator_text(
            input,
            context,
            predicates,
            plans[n - 1],
        )
    }
}

/// The rule for one layer around the record.
pub open spec fn context_builder_layer_text(
    input: DeriveInput,
    context: Seq<char>,
    predicates: Seq<char>,
    layer: Wrapper,
) -> Seq<char> {
    filled(
        CONTEXT_BUILDER_LAYER@,
        seq![
            layer.type_path(),
            layer.rewrap_text(),
            input.generics.bare_generics_text(),
            input.ident@,
            input.generics.ty_generics_text(),
            input.generics.bare_ty_generics_text(),
            predicates,
            context,
            layer.needs_text(context, "BoulderExtraGenericParam"@),
        ],
    )
}

/// The rules for the first `n` layers.
pub open spec fn context_builder_layers_text(
    input: DeriveInput,
    context: Seq<char>,
    predicates: Seq<char>,
    all: Seq<Wrapper>,
    n: int,
) -> Seq<char>
    decreases n,
{
    if n <= 0 {
        Seq::empty()
    } else {
        context_builder_layers_text(input, context, predicates, all, n - 1)
            + context_builder_layer_text(input, context, predicates, all[n - 1])
    }
}

/// The source of the context-aware builder of a record whose fields have
/// these plans, in the context `context`, reaching `types`.
pub open spec fn context_builder_source(
    input: DeriveInput,
    context: Seq<char>,
    types: Seq<Seq<char>>,
    plans: Seq<FieldPlanView>,
) -> Seq<char> {
    let predicates = predicates_text(input, context, types);
    let n = plans.len() as int;
    filled(
        CONTEXT_BUILDER_SOURCE@,
        seq![
            input.vis@,
            input.generics.bare_generics_text(),
            input.generics.where_clause_text(),
            optional_slots_text(plans, n),
            input.generics.bare_ty_generics_text(),
            empty_slots_text(plans, n),
            moves_text(plans, n),
            optional_setters_text(plans, n),
            input.generics.impl_generics_text(),
            input.ident@,
            input.generics.ty_generics_text(),
            context_builder_layers_text(
                input,
                context,
                predicates,
                contextual_layers(),
                contextual_layers().len() as int,
            ),
            predicates,
            context,
            field_generators_text(input, context, predicates, plans, n),
            statements_text(plans, context, n),
            made_text(plans, n),
        ],
    )
}

/// What deriving a context-aware builder comes to: the record's context is
/// found first, then the fields' annotations are read, and the first refusal
/// on the way is the outcome.
pub open spec fn buildable_with_persian_rug_derivation(input: DeriveInput) -> Result<
    Seq<char>,
    DeriveErrorView,
> {
    match record_constraints(input.attrs@) {
        Err(e) => Err(e),
        Ok((context, types)) => match record_plans(input, true) {
            Err(e) => Err(e),
            Ok(plans) => Ok(context_builder_source(input, context, types, plans)),
        },
    }
}

/// Whether the elements of a collection are made in the context.
pub fn items_in_context(plan: &FieldPlan) -> (r: bool)
    ensures
        r == items_need_context(plan@),
{
    match &plan.generator.element {
        GeneratorType::Default => plan.builder.needs_context,
        _ => plan.generator.needs_context,
    }
}

/// Whether a field needs a local generator for its default.
pub fn wants_local_generator(plan: &FieldPlan) -> (r: bool)
    ensures
        r == needs_local_generator(plan@),
{
    let by_builder = match &plan.generator.element {
        GeneratorType::Default => true,
        _ => false,
    };
    plan.builder.sequence.is_some() && by_builder && plan.builder.needs_context
}

/// The generator from which a collection's elements are drawn.
pub fn context_item_source(plan: &FieldPlan, context: &str) -> (out: String)
    ensures
        out@ == context_item_source_text(plan@, context@),
{
    let item = item_type(plan.ty.as_str());
    match &plan.generator.element {
        GeneratorType::Generator { expr, ty: _ } => fill1(GENERATOR_BLOCK, expr.as_str()),
        GeneratorType::Generatable(table) => if plan.generator.needs_context {
            let calls = overrides(table);
            fill3(GENERATE_IN_CONTEXT, item.as_str(), context, calls.as_str())
        } else {
            generate_expr(item.as_str(), table)
        },
        GeneratorType::Default => if plan.builder.needs_context {
            let name = make_generator_id_for_field(plan.ident.as_str());
            fill1(LOCAL_GENERATOR_VALUE, name.as_str())
        } else {
            let made = static_value(item.as_str(), context, &plan.builder.element, false);
            fill1(REPEATED_BLOCK, made.as_str())
        },
    }
}

/// The local generator of a field, where it needs one.
pub fn field_generator(input: &DeriveInput, context: &str, predicates: &str, plan: &FieldPlan) -> (out:
    String)
    ensures
        out@ == field_generator_text(*input, context@, predicates@, plan@),
{
    if wants_local_generator(plan) {
        let name = make_generator_id_for_field(plan.ident.as_str());
        let item = item_type(plan.ty.as_str());
        let body = static_value(item.as_str(), context, &plan.builder.element, true);
        local_generator(input, context, predicates, name.as_str(), item.as_str(), body.as_str())
    } else {
        String::new()
    }
}

/// The statement that makes a field: what was set, else its default.
pub fn field_statement(plan: &FieldPlan, context: &str) -> (out: String)
    ensures
        out@ == field_statement_text(plan@, context@),
{
    match &plan.builder.sequence {
        Some(count) => {
            let counted = if plan.builder.sequence_needs_context {
                fill1(COUNT_IN_CONTEXT, count.expr.as_str())
            } else {
                fill1(COUNT, count.expr.as_str())
            };
            let source = context_item_source(plan, context);
            if items_in_context(plan) {
                fill3(COLLECT_IN_CONTEXT, plan.ident.as_str(), counted.as_str(), source.as_str())
            } else {
                fill3(COLLECT, plan.ident.as_str(), counted.as_str(), source.as_str())
            }
        },
        None => match &plan.builder.element {
            BuildType::Buildable(table) => if plan.builder.needs_context {
                let built = build_in_context(plan.ty.as_str(), context, table);
                fill2(SLOT_BUILD_IN_CONTEXT, plan.ident.as_str(), built.as_str())
            } else {
                let built = build_expr(plan.ty.as_str(), table);
                fill2(SLOT_BUILD, plan.ident.as_str(), built.as_str())
            },
            BuildType::Value { expr, ty: _ } => if plan.builder.needs_context {
                fill2(SLOT_VALUE_IN_CONTEXT, plan.ident.as_str(), expr.as_str())
            } else {
                fill2(SLOT_VALUE, plan.ident.as_str(), expr.as_str())
            },
            BuildType::Default => fill1(SLOT_STRUCTURAL, plan.ident.as_str()),
        },
    }
}

/// The rules for the layers around the record.
pub fn context_builder_layers(input: &DeriveInput, context: &str, predicates: &str) -> (out: String)
    ensures
        out@ == context_builder_layers_text(
            *input,
            context@,
            predicates@,
            contextual_layers(),
            contextual_layers().len() as int,
        ),
{
    let all = layers_in_context();
    let declared = input.generics.bare_generics();
    let arguments = input.generics.ty_generics();
    let bare_arguments = input.generics.bare_ty_generics();
    let mut out = String::new();
    let n = all.len();
    let mut i: usize = 0;
    while i < n
        invariant
            i <= n,
            n == all@.len(),
            all@ == contextual_layers(),
            declared@ == input.generics.bare_generics_text(),
            arguments@ == input.generics.ty_generics_text(),
            bare_arguments@ == input.generics.bare_ty_generics_text(),
            out@ == context_builder_layers_text(*input, context@, predicates@, all@, i as int),
        decreases n - i,
    {
        let mut args: Vec<String> = Vec::new();
        args.push(all[i].path());
        args.push(all[i].rewrap());
        args.push(owned(declared.as_str()));
        args.push(owned(input.ident.as_str()));
        args.push(owned(arguments.as_str()));
        args.push(owned(bare_arguments.as_str()));
        args.push(owned(predicates));
        args.push(owned(context));
        args.push(all[i].needs(context, "BoulderExtraGenericParam"));
        assert(texts(args@) =~= seq![
            all@[i as int].type_path(),
            all@[i as int].rewrap_text(),
            input.generics.bare_generics_text(),
            input.ident@,
            input.generics.ty_generics_text(),
            input.generics.bare_ty_generics_text(),
            predicates@,
            context@,
            all@[i as int].needs_text(context@, "BoulderExtraGenericParam"@),
        ]);
        let rule = fill(CONTEXT_BUILDER_LAYER, &args);
        out.append(rule.as_str());
        i = i + 1;
    }
    out
}

/// The source of the context-aware builder of a record whose fields have
/// these plans.
pub fn render_context_builder(
    input: &DeriveInput,
    context: &str,
    types: &Vec<String>,
    plans: &Vec<FieldPlan>,
) -> (out: String)
    ensures
        out@ == context_builder_source(*input, context@, texts(types@), plans_view(plans@)),
{
    let ghost views = plans_view(plans@);
    let needed = predicates(input, context, types);
    let mut slots = String::new();
    let mut empties = String::new();
    let mut moves = String::new();
    let mut setters = String::new();
    let mut generators = String::new();
    let mut statements = String::new();
    let mut made = String::new();
    let n = plans.len();
    let mut i: usize = 0;
    while i < n
        invariant
            i <= n,
            n == plans@.len(),
            views == plans_view(plans@),
            needed@ == predicates_text(*input, context@, texts(types@)),
            slots@ == optional_slots_text(views, i as int),
            empties@ == empty_slots_text(views, i as int),
            moves@ == moves_text(views, i as int),
            setters@ == optional_setters_text(views, i as int),
            generators@ == field_generators_text(*input, context@, needed@, views, i as int),
            statements@ == statements_text(views, context@, i as int),
            made@ == made_text(views, i as int),
        decreases n - i,
    {
        let plan = &plans[i];
        slots.append(fill2(OPTIONAL_SLOT, plan.ident.as_str(), plan.ty.as_str()).as_str());
        empties.append(fill1(EMPTY_SLOT, plan.ident.as_str()).as_str());
        moves.append(fill1(SLOT_MOVE, plan.ident.as_str()).as_str());
        setters.append(fill2(OPTIONAL_SETTER, plan.ident.as_str(), plan.ty.as_str()).as_str());
        generators.append(field_generator(input, context, needed.as_str(), plan).as_str());
        statements.append(field_statement(plan, context).as_str());
        made.append(fill1(MADE, plan.ident.as_str()).as_str());
        i = i + 1;
    }
    let layers = context_builder_layers(input, context, needed.as_str());
    let mut args: Vec<String> = Vec::new();
    args.push(owned(input.vis.as_str()));
    args.push(input.generics.bare_generics());
    args.push(input.generics.where_clause());
    args.push(slots);
    args.push(input.generics.bare_ty_generics());
    args.push(empties);
    args.push(moves);
    args.push(setters);
    args.push(input.generics.impl_generics());
    args.push(owned(input.ident.as_str()));
    args.push(input.generics.ty_generics());
    args.push(layers);
    args.push(needed);
    args.push(owned(context));
    args.push(generators);
    args.push(statements);
    args.push(made);
    let ghost p = predicates_text(*input, context@, texts(types@));
    assert(texts(args@) =~= seq![
        input.vis@,
        input.generics.bare_generics_text(),
        input.generics.where_clause_text(),
        optional_slots_text(views, views.len() as int),
        input.generics.bare_ty_generics_text(),
        empty_slots_text(views, views.len() as int),
        moves_text(views, views.len() as int),
        optional_setters_text(views, views.len() as int),
        input.generics.impl_generics_text(),
        input.ident@,
        input.generics.ty_generics_text(),
        context_builder_layers_text(
            *input,
            context@,
            p,
            contextual_layers(),
            contextual_layers().len() as int,
        ),
        p,
        context@,
        field_generators_text(*input, context@, p, views, views.len() as int),
        statements_text(views, context@, views.len() as int),
        made_text(views, views.len() as int),
    ]);
    fill(CONTEXT_BUILDER_SOURCE, &args)
}

/// Derives the context-aware builder of a record: finds the record's
/// context, reads the annotations of its fields and writes the builder's
/// source.
pub fn derive_buildable_with_persian_rug(input: &DeriveInput) -> (r: Result<String, DeriveError>)
    ensures
        outcome_is(source_outcome(r), buildable_with_persian_rug_derivation(*input)),
{
    match get_persian_rug_constraints(&input.attrs) {
        Err(e) => Err(e),
        Ok((context, types)) => match plan_record(input, true) {
            Err(e) => Err(e),
            Ok(plans) => Ok(render_context_builder(input, context.as_str(), &types, &plans)),
        },
    }
}

} // verus!
