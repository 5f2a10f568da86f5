//! The source of a record's builder.
//!
//! The builder has one slot per field, a method per field that sets its
//! slot, and `build`, which puts the slots together. A slot that was not set
//! holds its default: the value of the field's `default` directive, what the
//! field type's own builder makes for a `buildable` directive, and the
//! type's structural default where the field has neither. A field with a
//! `sequence` directive is a collection of that many elements.

use crate::derive::attributes::outcome_is;
use crate::derive::element::build_expr;
use crate::derive::element::build_text;
use crate::derive::element::fill1;
use crate::derive::element::fill2;
use crate::derive::element::generate_expr;
use crate::derive::element::generate_text;
use crate::derive::element::item_type;
use crate::derive::element::item_type_text;
use crate::derive::element::value_expr;
use crate::derive::element::value_text;
use crate::derive::element::STRUCTURAL_DEFAULT;
use crate::derive::error::DeriveError;
use crate::derive::error::DeriveErrorView;
use crate::derive::input::DeriveInput;
use crate::derive::meta::BuildType;
use crate::derive::meta::BuildTypeView;
use crate::derive::meta::GeneratorType;
use crate::derive::meta::GeneratorTypeView;
use crate::derive::plan::plan_record;
use crate::derive::plan::plans_view;
use crate::derive::plan::record_plans;
use crate::derive::plan::FieldPlan;
use crate::derive::plan::FieldPlanView;
use crate::derive::syntax::texts;
use crate::derive::template::fill;
use crate::derive::template::filled;
use crate::derive::text::owned;
use crate::derive::wrapper::layers;
use crate::derive::wrapper::plain_layers;
use crate::derive::wrapper::Wrapper;
use vstd::prelude::*;
use vstd::string::StringExecFns;

verus! {

/// A slot: the field `$a` of type `$b`.
pub const SLOT: &'static str = "$a: $b,\n";

/// A slot's initial value: the field `$a` made by `$b`.
pub const SLOT_DEFAULT: &'static str = "$a: $b,\n";

/// The move of the slot `$a` out of the builder.
pub const SLOT_MOVE: &'static str = "$a: self.$a,\n";

/// The method that sets the slot `$a` of type `$b`.
pub const SETTER: &'static str =
    "pub fn $a<S>(mut self, value: S) -> Self where S: Into<$b> { self.$a = value.into(); self }\n";

/// The generator `$a` written as an expression.
pub const GENERATOR_BLOCK: &'static str = "{ $a }";

/// The rule that makes `$a` anew at every step.
pub const REPEATED: &'static str = "|| $a";

/// A collection of `$b` elements drawn from the generator `$a`.
pub const COLLECTED: &'static str =
    "::boulder::GeneratorIterator::new($a).take($b).into_iter().collect()";

/// The builder of a record. `$a` is its visibility, `$b` its parameters as
/// declared, `$c` its `where` clause, `$d` the slots, `$e` its parameters as
/// arguments, `$f` the slots' initial values, `$g` the slots' moves, `$h` the
/// setters, `$i` the generics of an `impl` for it, `$j` its name, `$k` the
/// arguments of its type, `$l` the rules for the layers.
pub const BUILDER_SOURCE: &'static str = "const _: () = {
$a struct Builder<BoulderTypeMarkerParam $b> $c {
_boulder_type_marker: ::core::marker::PhantomData<BoulderTypeMarkerParam>,
$d}

#[automatically_derived]
impl<BoulderTypeMarkerParam $b> Builder<BoulderTypeMarkerParam $e> $c {
pub fn new() -> Self {
Self {
_boulder_type_marker: Default::default(),
$f}
}

fn change_type<BoulderFunctionTypeParam>(self) -> Builder<BoulderFunctionTypeParam $e> {
Builder {
_boulder_type_marker: Default::default(),
$g}
}

$h}

#[automatically_derived]
impl $i ::boulder::builder::BoulderBase for $j $k $c {
type Base = $j $k;
}

#[automatically_derived]
impl $i ::boulder::builder::MiniBuildable<$j $k> for $j $k $c {
type Builder = Builder<$j $k $e>;
fn mini_builder() -> Self::Builder {
Builder::new()
}
}

#[automatically_derived]
impl $i ::boulder::Builder for Builder<$j $k $e> $c {
type Result = $j $k;
fn build(self) -> $j $k {
$j {
$g}
}
}

$l};
";

/// The rule for one layer: the builder of a record inside the layer `$a`
/// builds the record and puts the layer on with `$b`. `$c` is the record's
/// parameters as declared, `$d` its name, `$e` the arguments of its type,
/// `$f` its parameters as arguments, `$g` the predicates of its `where`
/// clause.
pub const BUILDER_LAYER: &'static str = "#[automatically_derived]
impl<BoulderExtraGenericParam $c> ::boulder::builder::MiniBuildable<$d $e> for $a<BoulderExtraGenericParam>
where
BoulderExtraGenericParam: ::boulder::builder::MiniBuildable<$d $e>,
Builder<BoulderExtraGenericParam $f>: ::boulder::Builder<Result = BoulderExtraGenericParam>,
$g
{
type Builder = Builder<$a<BoulderExtraGenericParam> $f>;
fn mini_builder() -> Self::Builder {
Builder::new()
}
}

#[automatically_derived]
impl<BoulderExtraGenericParam $c> ::boulder::Builder for Builder<$a<BoulderExtraGenericParam> $f>
where
Builder<BoulderExtraGenericParam $f>: ::boulder::Builder<Result = BoulderExtraGenericParam>,
$g
{
type Result = $a<BoulderExtraGenericParam>;
fn build(self) -> $a<BoulderExtraGenericParam> {
$b(<Builder<BoulderExtraGenericParam $f> as ::boulder::Builder>::build(self.change_type()))
}
}

";

/// The expression that makes one element of type `ty` as the builder's
/// directive says: the explicit value, else the nested builder, else the
/// structural default.
pub open spec fn element_default_text(ty: Seq<char>, element: BuildTypeView) -> Seq<char> {
    match element {
        BuildTypeView::Buildable(table) => build_text(ty, table),
        BuildTypeView::Value { expr, ty: _ } => value_text(expr),
        BuildTypeView::Default => STRUCTURAL_DEFAULT@,
    }
}

/// The generator from which a collection's elements are drawn: the
/// generator's directive where there is one, else the builder's way of
/// making an element, followed anew for each.
pub open spec fn item_source_text(plan: FieldPlanView) -> Seq<char> {
    match plan.meta.generator.element {
        GeneratorTypeView::Generator { expr, ty: _ } => filled(GENERATOR_BLOCK@, seq![expr]),
        GeneratorTypeView::Generatable(table) => generate_text(item_type_text(plan.ty), table),
        GeneratorTypeView::Default => filled(
            REPEATED@,
            seq![element_default_text(item_type_text(plan.ty), plan.meta.builder.element)],
        ),
    }
}

/// The expression that makes the default of a field.
pub open spec fn slot_default_text(plan: FieldPlanView) -> Seq<char> {
    match plan.meta.builder.sequence {
        Some(count) => filled(COLLECTED@, seq![item_source_text(plan), count.0]),
        None => element_default_text(plan.ty, plan.meta.builder.element),
    }
}

/// The slots of the first `n` fields.
pub open spec fn slots_text(plans: Seq<FieldPlanView>, n: int) -> Seq<char>
    decreases n,
{
    if n <= 0 {
        Seq::empty()
    } else {
        slots_text(plans, n - 1) + filled(SLOT@, seq![plans[n - 1].ident, plans[n - 1].ty])
    }
}

/// The initial values of the first `n` slots.
pub open spec fn slot_defaults_text(plans: Seq<FieldPlanView>, n: int) -> Seq<char>
    decreases n,
{
    if n <= 0 {
        Seq::empty()
    } else {
        slot_defaults_text(plans, n - 1) + filled(
            SLOT_DEFAULT@,
            seq![plans[n - 1].ident, slot_default_text(plans[n - 1])],
        )
    }
}

/// The moves of the first `n` slots.
pub open spec fn slot_moves_text(plans: Seq<FieldPlanView>, n: int) -> Seq<char>
    decreases n,
{
    if n <= 0 {
        Seq::empty()
    } else {
        slot_moves_text(plans, n - 1) + filled(SLOT_MOVE@, seq![plans[n - 1].ident])
    }
}

/// The setters of the first `n` slots.
pub open spec fn setters_text(plans: Seq<FieldPlanView>, n: int) -> Seq<char>
    decreases n,
{
    if n <= 0 {
        Seq::empty()
    } else {
        setters_text(plans, n - 1) + filled(SETTER@, seq![plans[n - 1].ident, plans[n - 1].ty])
    }
}

/// The rule for one layer around the record.
pub open spec fn builder_layer_text(input: DeriveInput, layer: Wrapper) -> Seq<char> {
    filled(
        BUILDER_LAYER@,
        seq![
            layer.type_path(),
            layer.constructor(),
            input.generics.bare_generics_text(),
            input.ident@,
            input.generics.ty_generics_text(),
            input.generics.bare_ty_generics_text(),
            input.generics.bare_where_text(),
        ],
    )
}

/// The rules for the first `n` layers.
pub open spec fn builder_layers_text(input: DeriveInput, all: Seq<Wrapper>, n: int) -> Seq<char>
    decreases n,
{
    if n <= 0 {
        Seq::empty()
    } else {
        builder_layers_text(input, all, n - 1) + builder_layer_text(input, all[n - 1])
    }
}

/// The source of the builder of a record whose fields have these plans.
pub open spec fn builder_source(input: DeriveInput, plans: Seq<FieldPlanView>) -> Seq<char> {
    filled(
        BUILDER_SOURCE@,
        seq![
            input.vis@,
            input.generics.bare_generics_text(),
            input.generics.where_clause_text(),
            slots_text(plans, plans.len() as int),
            input.generics.bare_ty_generics_text(),
            slot_defaults_text(plans, plans.len() as int),
            slot_moves_text(plans, plans.len() as int),
            setters_text(plans, plans.len() as int),
            input.generics.impl_generics_text(),
            input.ident@,
            input.generics.ty_generics_text(),
            builder_layers_text(input, plain_layers(), plain_layers().len() as int),
        ],
    )
}

/// What deriving a builder comes to: the source, or the first refusal among
/// the fields' annotations.
pub open spec fn buildable_derivation(input: DeriveInput) -> Result<Seq<char>, DeriveErrorView> {
    match record_plans(input, false) {
        Err(e) => Err(e),
        Ok(plans) => Ok(builder_source(input, plans)),
    }
}

/// The model of an outcome that is source text.
pub open spec fn source_outcome(r: Result<String, DeriveError>) -> Result<
    Seq<char>,
    DeriveErrorView,
> {
    match r {
        Ok(s) => Ok(s@),
        Err(e) => Err(e@),
    }
}

/// The expression that makes one element of type `ty` as the builder's
/// directive says.
pub fn element_default(ty: &str, element: &BuildType) -> (out: String)
    ensures
        out@ == element_default_text(ty@, element@),
{
    match element {
        BuildType::Buildable(table) => build_expr(ty, table),
        BuildType::Value { expr, ty: _ } => value_expr(expr.as_str()),
        BuildType::Default => owned(STRUCTURAL_DEFAULT),
    }
}

/// The generator from which a collection's elements are drawn.
pub fn item_source(plan: &FieldPlan) -> (out: String)
    ensures
        out@ == item_source_text(plan@),
{
    match &plan.generator.element {
        GeneratorType::Generator { expr, ty: _ } => fill1(GENERATOR_BLOCK, expr.as_str()),
        GeneratorType::Generatable(table) => {
            let item = item_type(plan.ty.as_str());
            generate_expr(item.as_str(), table)
        },
        GeneratorType::Default => {
            let item = item_type(plan.ty.as_str());
            let made = element_default(item.as_str(), &plan.builder.element);
            fill1(REPEATED, made.as_str())
        },
    }
}

/// The expression that makes the default of a field.
pub fn slot_default(plan: &FieldPlan) -> (out: String)
    ensures
        out@ == slot_default_text(plan@),
{
    match &plan.builder.sequence {
        Some(count) => {
            let source = item_source(plan);
            fill2(COLLECTED, source.as_str(), count.expr.as_str())
        },
        None => element_default(plan.ty.as_str(), &plan.builder.element),
    }
}

/// The rules for the layers around the record.
pub fn builder_layers(input: &DeriveInput) -> (out: String)
    ensures
        out@ == builder_layers_text(*input, plain_layers(), plain_layers().len() as int),
{
    let all = layers();
    let declared = input.generics.bare_generics();
    let arguments = input.generics.ty_generics();
    let bare_arguments = input.generics.bare_ty_generics();
    let predicates = input.generics.bare_where();
    let mut out = String::new();
    let n = all.len();
    let mut i: usize = 0;
    while i < n
        invariant
            i <= n,
            n == all@.len(),
            all@ == plain_layers(),
            declared@ == input.generics.bare_generics_text(),
            arguments@ == input.generics.ty_generics_text(),
            bare_arguments@ == input.generics.bare_ty_generics_text(),
            predicates@ == input.generics.bare_where_text(),
            out@ == builder_layers_text(*input, all@, i as int),
        decreases n - i,
    {
        let mut args: Vec<String> = Vec::new();
        args.push(all[i].path());
        args.push(all[i].wrap());
        args.push(owned(declared.as_str()));
        args.push(owned(input.ident.as_str()));
        args.push(owned(arguments.as_str()));
        args.push(owned(bare_arguments.as_str()));
        args.push(owned(predicates.as_str()));
        assert(texts(args@) =~= seq![
            all@[i as int].type_path(),
            all@[i as int].constructor(),
            input.generics.bare_generics_text(),
            input.ident@,
            input.generics.ty_generics_text(),
            input.generics.bare_ty_generics_text(),
            input.generics.bare_where_text(),
        ]);
        let rule = fill(BUILDER_LAYER, &args);
        out.append(rule.as_str());
        i = i + 1;
    }
    out
}

/// The source of the builder of a record whose fields have these plans.
pub fn render_builder(input: &DeriveInput, plans: &Vec<FieldPlan>) -> (out: String)
    ensures
        out@ == builder_source(*input, plans_view(plans@)),
{
    let ghost views = plans_view(plans@);
    let mut slots = String::new();
    let mut defaults = String::new();
    let mut moves = String::new();
    let mut setters = String::new();
    let n = plans.len();
    let mut i: usize = 0;
    while i < n
        invariant
            i <= n,
            n == plans@.len(),
            views == plans_view(plans@),
            slots@ == slots_text(views, i as int),
            defaults@ == slot_defaults_text(views, i as int),
            moves@ == slot_moves_text(views, i as int),
            setters@ == setters_text(views, i as int),
        decreases n - i,
    {
        let plan = &plans[i];
        let made = slot_default(plan);
        slots.append(fill2(SLOT, plan.ident.as_str(), plan.ty.as_str()).as_str());
        defaults.append(fill2(SLOT_DEFAULT, plan.ident.as_str(), made.as_str()).as_str());
        moves.append(fill1(SLOT_MOVE, plan.ident.as_str()).as_str());
        setters.append(fill2(SETTER, plan.ident.as_str(), plan.ty.as_str()).as_str());
        i = i + 1;
    }
    let mut args: Vec<String> = Vec::new();
    args.push(owned(input.vis.as_str()));
    args.push(input.generics.bare_generics());
    args.push(input.generics.where_clause());
    args.push(slots);
    args.push(input.generics.bare_ty_generics());
    args.push(defaults);
    args.push(moves);
    args.push(setters);
    args.push(input.generics.impl_generics());
    args.push(owned(input.ident.as_str()));
    args.push(input.generics.ty_generics());
    args.push(builder_layers(input));
    assert(texts(args@) =~= seq![
        input.vis@,
        input.generics.bare_generics_text(),
        input.generics.where_clause_text(),
        slots_text(views, views.len() as int),
        input.generics.bare_ty_generics_text(),
        slot_defaults_text(views, views.len() as int),
        slot_moves_text(views, views.len() as int),
        setters_text(views, views.len() as int),
        input.generics.impl_generics_text(),
        input.ident@,
        input.generics.ty_generics_text(),
        builder_layers_text(*input, plain_layers(), plain_layers().len() as int),
    ]);
    fill(BUILDER_SOURCE, &args)
}

/// Derives the builder of a record: reads the annotations of its fields and
/// writes the builder's source.
pub fn derive_buildable(input: &DeriveInput) -> (r: Result<String, DeriveError>)
    ensures
        outcome_is(source_outcome(r), buildable_derivation(*input)),
{
    match plan_record(input, false) {
        Err(e) => Err(e),
        Ok(plans) => Ok(render_builder(input, &plans)),
    }
}

/// A record without directives is never refused, and every field of its
/// builder starts at the structural default of the field's type: a builder
/// that is finished at once makes the record whose every field is at that
/// default.
pub proof fn lemma_bare_record_defaults(input: DeriveInput)
    requires
        input.fields is Some,
        forall|i: int|
            0 <= i < input.fields->0@.len() ==> crate::derive::plan::no_directives(
                (#[trigger] input.fields->0@[i]).attrs@,
            ),
    ensures
        record_plans(input, false) is Ok,
        buildable_derivation(input) is Ok,
        record_plans(input, false)->Ok_0.len() == input.fields->0@.len(),
        forall|i: int|
            0 <= i < input.fields->0@.len() ==> slot_default_text(
                #[trigger] record_plans(input, false)->Ok_0[i],
            ) == STRUCTURAL_DEFAULT@,
{
    let fields = input.fields->0@;
    crate::derive::plan::lemma_bare_record_plans(fields, fields.len() as int, false);
}

/// A field with a value for its default, and no count, starts at that value.
pub proof fn lemma_explicit_value_default(plan: FieldPlanView, expr: Seq<char>, ty: Option<Seq<char>>)
    requires
        plan.meta.builder.sequence is None,
        plan.meta.builder.element == (BuildTypeView::Value { expr, ty }),
    ensures
        slot_default_text(plan) == value_text(expr),
{
}

/// A field with a nested builder for its default, and no count, starts at
/// what that builder builds with the fields given set.
pub proof fn lemma_nested_builder_default(plan: FieldPlanView, table: Seq<(Seq<char>, Seq<char>)>)
    requires
        plan.meta.builder.sequence is None,
        plan.meta.builder.element == BuildTypeView::Buildable(table),
    ensures
        slot_default_text(plan) == build_text(plan.ty, table),
{
}

} // verus!
