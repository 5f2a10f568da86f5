//! The source of a record's generator.
//!
//! The generator has one rule per field, a method per field that replaces
//! its rule, and `generate`, which asks every rule once and puts the answers
//! together. A field's rule is its `generator` directive, or the field
//! type's own generator for a `generatable` directive; where the field has
//! neither, the rule makes the builder's default anew at every step. A field
//! with a `sequence_generator` directive is a collection whose length is
//! drawn from that generator at every step, and one with only a `sequence`
//! directive is a collection of that length at every step.

use crate::derive::attributes::outcome_is;
use crate::derive::builder::element_default;
use crate::derive::builder::element_default_text;
use crate::derive::builder::source_outcome;
use crate::derive::builder::REPEATED;
use crate::derive::element::fill1;
use crate::derive::element::fill2;
use crate::derive::element::generate_expr;
use crate::derive::element::generate_text;
use crate::derive::element::item_type;
use crate::derive::element::item_type_text;
use crate::derive::error::DeriveError;
use crate::derive::error::DeriveErrorView;
use crate::derive::input::DeriveInput;
use crate::derive::meta::GeneratorType;
use crate::derive::meta::GeneratorTypeView;
use crate::derive::plan::plan_record;
use crate::derive::plan::plans_view;
use crate::derive::plan::record_plans;
use crate::derive::plan::FieldPlan;
use crate::derive::plan::FieldPlanView;
use crate::derive::syntax::texts;
use crate::derive::template::fill;
use crate::derive::template::filled;
use crate::derive::text::owned;
use crate::derive::wrapper::layers;
use crate::derive::wrapper::plain_layers;
use crate::derive::wrapper::Wrapper;
use vstd::prelude::*;
use vstd::string::StringExecFns;

verus! {

/// A rule's slot: the field `$a` of type `$b`.
pub const RULE_SLOT: &'static str = "$a: Box<dyn ::boulder::Generator<Output = $b>>,\n";

/// A slot's initial rule: the field `$a` ruled by `$b`.
pub const RULE_DEFAULT: &'static str = "$a: $b,\n";

/// The answer of the rule of the field `$a`.
pub const RULE_ANSWER: &'static str = "$a: gen.$a.generate(),\n";

/// The method that replaces the rule of the field `$a` of type `$b`.
pub const RULE_SETTER: &'static str =
    "pub fn $a<V>(mut self, generator: V) -> Self where V: 'static + ::boulder::Generator<Output = $b> { self.$a = Box::new(generator); self }\n";

/// The rule that gives the count `$a` at every step.
pub const FIXED_COUNT: &'static str = "|| (($a) as usize)";

/// The rule `$a` as a slot holds it.
pub const BOXED_RULE: &'static str = "Box::new($a)";

/// The rule of a collection: at every step as many elements as the
/// generator `$a` says, drawn from the generator `$b`.
pub const COLLECTION_RULE: &'static str =
    "{ let mut seq = $a; let mut value = { $b }; Box::new(move || { ::boulder::GeneratorMutIterator::new(&mut value).take(::boulder::Generator::generate(&mut seq).into()).into_iter().collect() }) }";

/// The generator of a record. `$a` is its visibility, `$b` its parameters as
/// declared, `$c` its `where` clause, `$d` the rules' slots, `$e` its
/// parameters as arguments, `$f` the slots' initial rules, `$g` the rules'
/// answers, `$h` the setters, `$i` the generics of an `impl` for it, `$j` its
/// name, `$k` the arguments of its type, `$l` the rules for the layers, `$m`
/// the predicates of its `where` clause.
pub const GENERATOR_SOURCE: &'static str = "const _: () = {
$a struct Generator<BoulderTypeMarkerParam $b> $c {
_boulder_type_marker: ::core::marker::PhantomData<BoulderTypeMarkerParam>,
$d}

$a trait NestedGenerate $i $c {
type Output;
fn nested_generate<BoulderFunctionParam>(gen: &mut Generator<BoulderFunctionParam $e>) -> Self::Output;
}

#[automatically_derived]
impl<BoulderTypeMarkerParam $b> Generator<BoulderTypeMarkerParam $e> $c {
pub fn new() -> Self {
Self {
_boulder_type_marker: Default::default(),
$f}
}

$h}

#[automatically_derived]
impl<BoulderTypeMarkerParam $b> ::boulder::Generator for Generator<BoulderTypeMarkerParam $e>
where
Self: NestedGenerate $k,
BoulderTypeMarkerParam: 'static,
$m
{
type Output = <Self as NestedGenerate $k>::Output;
fn generate(&mut self) -> Self::Output {
<Self as NestedGenerate $k>::nested_generate(self)
}
}

#[automatically_derived]
impl $i ::boulder::generator::BoulderBase for $j $k $c {
type Base = $j $k;
}

#[automatically_derived]
impl $i ::boulder::generator::MiniGeneratable<$j $k> for $j $k $c {
type Generator = Generator<$j $k $e>;
fn mini_generator() -> Self::Generator {
Generator::new()
}
}

#[automatically_derived]
impl $i NestedGenerate $k for Generator<$j $k $e> $c {
type Output = $j $k;
fn nested_generate<BoulderFunctionParam>(gen: &mut Generator<BoulderFunctionParam $e>) -> Self::Output {
$j {
$g}
}
}

$l
$a struct Values<BoulderExtraGenericParam>(::boulder::GeneratorIterator<BoulderExtraGenericParam>);

#[automatically_derived]
impl<BoulderExtraGenericParam> ::std::iter::Iterator for Values<BoulderExtraGenericParam>
where
BoulderExtraGenericParam: ::boulder::Generator,
{
type Item = <BoulderExtraGenericParam as ::boulder::Generator>::Output;
fn next(&mut self) -> Option<Self::Item> {
self.0.next()
}
}

$a struct ValuesMut<'boulder_reference_lifetime, BoulderExtraGenericParam>(::boulder::GeneratorMutIterator<'boulder_reference_lifetime, BoulderExtraGenericParam>);

#[automatically_derived]
impl<'boulder_reference_lifetime, BoulderExtraGenericParam> ::std::iter::Iterator for ValuesMut<'boulder_reference_lifetime, BoulderExtraGenericParam>
where
BoulderExtraGenericParam: ::boulder::Generator,
{
type Item = <BoulderExtraGenericParam as ::boulder::Generator>::Output;
fn next(&mut self) -> Option<Self::Item> {
self.0.next()
}
}

#[automatically_derived]
impl<BoulderExtraGenericParam $b> ::std::iter::IntoIterator for Generator<BoulderExtraGenericParam $e>
where
Generator<BoulderExtraGenericParam $e>: ::boulder::Generator<Output = BoulderExtraGenericParam>,
$m
{
type Item = BoulderExtraGenericParam;
type IntoIter = Values<Self>;
fn into_iter(self) -> Self::IntoIter {
Values(::boulder::GeneratorIterator::new(self))
}
}

#[automatically_derived]
impl<'boulder_reference_lifetime, BoulderExtraGenericParam $b> ::std::iter::IntoIterator for &'boulder_reference_lifetime mut Generator<BoulderExtraGenericParam $e>
where
Generator<BoulderExtraGenericParam $e>: ::boulder::Generator<Output = BoulderExtraGenericParam>,
$m
{
type Item = BoulderExtraGenericParam;
type IntoIter = ValuesMut<'boulder_reference_lifetime, Generator<BoulderExtraGenericParam $e>>;
fn into_iter(self) -> Self::IntoIter {
ValuesMut(::boulder::GeneratorMutIterator::new(self))
}
}
};
";

/// The rule for one layer: the generator of a record inside the layer `$a`
/// generates the record and puts the layer on with `$b`. `$c` is the record's
/// parameters as declared, `$d` its name, `$e` the arguments of its type,
/// `$f` its parameters as arguments, `$g` the predicates of its `where`
/// clause.
pub const GENERATOR_LAYER: &'static str = "#[automatically_derived]
impl<BoulderExtraGenericParam $c> ::boulder::generator::MiniGeneratable<$d $e> for $a<BoulderExtraGenericParam>
where
BoulderExtraGenericParam: ::boulder::generator::MiniGeneratable<$d $e>,
Generator<$a<BoulderExtraGenericParam> $f>: ::boulder::Generator<Output = $a<BoulderExtraGenericParam>>,
$g
{
type Generator = Generator<$a<BoulderExtraGenericParam> $f>;
fn mini_generator() -> Self::Generator {
Generator::new()
}
}

#[automatically_derived]
impl<BoulderExtraGenericParam $c> NestedGenerate $e for Generator<$a<BoulderExtraGenericParam> $f>
where
Generator<BoulderExtraGenericParam $f>: NestedGenerate $e,
$g
{
type Output = $a<<Generator<BoulderExtraGenericParam $f> as NestedGenerate $e>::Output>;
fn nested_generate<BoulderFunctionParam>(gen: &mut Generator<BoulderFunctionParam $f>) -> Self::Output {
$b(Generator::<BoulderExtraGenericParam $f>::nested_generate(gen))
}
}

";

/// The rule that gives a collection's length at every step: the
/// generator's count where it has one, else the builder's count, the same
/// at every step; `None` where the field is no collection.
pub open spec fn count_rule_text(plan: FieldPlanView) -> Option<Seq<char>> {
    match plan.meta.generator.sequence {
        Some(count) => Some(count.0),
        None => match plan.meta.builder.sequence {
            Some(count) => Some(filled(FIXED_COUNT@, seq![count.0])),
            None => None,
        },
    }
}

/// The type of what the element rule makes: the collection's element type
/// for a collection, else the field's type.
pub open spec fn element_type_text(plan: FieldPlanView) -> Seq<char> {
    if count_rule_text(plan) is Some {
        item_type_text(plan.ty)
    } else {
        plan.ty
    }
}

/// The rule that makes an element: the generator's directive where there is
/// one, else the builder's way of making an element, followed anew at every
/// step.
pub open spec fn element_rule_text(plan: FieldPlanView) -> Seq<char> {
    match plan.meta.generator.element {
        GeneratorTypeView::Generator { expr, ty: _ } => expr,
        GeneratorTypeView::Generatable(table) => generate_text(element_type_text(plan), table),
        GeneratorTypeView::Default => filled(
            REPEATED@,
            seq![element_default_text(element_type_text(plan), plan.meta.builder.element)],
        ),
    }
}

/// The rule that a field's slot starts with.
pub open spec fn slot_rule_text(plan: FieldPlanView) -> Seq<char> {
    match count_rule_text(plan) {
        Some(count) => filled(COLLECTION_RULE@, seq![count, element_rule_text(plan)]),
        None => filled(BOXED_RULE@, seq![element_rule_text(plan)]),
    }
}

/// The rules' slots of the first `n` fields.
pub open spec fn rule_slots_text(plans: Seq<FieldPlanView>, n: int) -> Seq<char>
    decreases n,
{
    if n <= 0 {
        Seq::empty()
    } else {
        rule_slots_text(plans, n - 1) + filled(
            RULE_SLOT@,
            seq![plans[n - 1].ident, plans[n - 1].ty],
        )
    }
}

/// The initial rules of the first `n` slots.
pub open spec fn rule_defaults_text(plans: Seq<FieldPlanView>, n: int) -> Seq<char>
    decreases n,
{
    if n <= 0 {
        Seq::empty()
    } else {
        rule_defaults_text(plans, n - 1) + filled(
            RULE_DEFAULT@,
            seq![plans[n - 1].ident, slot_rule_text(plans[n - 1])],
        )
    }
}

/// The answers of the first `n` rules.
pub open spec fn rule_answers_text(plans: Seq<FieldPlanView>, n: int) -> Seq<char>
    decreases n,
{
    if n <= 0 {
        Seq::empty()
    } else {
        rule_answers_text(plans, n - 1) + filled(RULE_ANSWER@, seq![plans[n - 1].ident])
    }
}

/// The setters of the first `n` rules.
pub open spec fn rule_setters_text(plans: Seq<FieldPlanView>, n: int) -> Seq<char>
    decreases n,
{
    if n <= 0 {
        Seq::empty()
    } else {
        rule_setters_text(plans, n - 1) + filled(
            RULE_SETTER@,
            seq![plans[n - 1].ident, plans[n - 1].ty],
        )
    }
}

/// The rule for one layer around the record.
pub open spec fn generator_layer_text(input: DeriveInput, layer: Wrapper) -> Seq<char> {
    filled(
        GENERATOR_LAYER@,
        seq![
            layer.type_path(),
            layer.constructor(),
            input.generics.bare_generics_text(),
            input.ident@,
            input.generics.ty_generics_text(),
            input.generics.bare_ty_generics_text(),
            input.generics.bare_where_text(),
        ],
    )
}

/// The rules for the first `n` layers.
pub open spec fn generator_layers_text(input: DeriveInput, all: Seq<Wrapper>, n: int) -> Seq<char>
    decreases n,
{
    if n <= 0 {
        Seq::empty()
    } else {
        generator_layers_text(input, all, n - 1) + generator_layer_text(input, all[n - 1])
    }
}

/// The source of the generator of a record whose fields have these plans.
pub open spec fn generator_source(input: DeriveInput, plans: Seq<FieldPlanView>) -> Seq<char> {
    filled(
        GENERATOR_SOURCE@,
        seq![
            input.vis@,
            input.generics.bare_generics_text(),
            input.generics.where_clause_text(),
            rule_slots_text(plans, plans.len() as int),
            input.generics.bare_ty_generics_text(),
            rule_defaults_text(plans, plans.len() as int),
            rule_answers_text(plans, plans.len() as int),
            rule_setters_text(plans, plans.len() as int),
            input.generics.impl_generics_text(),
            input.ident@,
            input.generics.ty_generics_text(),
            generator_layers_text(input, plain_layers(), plain_layers().len() as int),
            input.generics.bare_where_text(),
        ],
    )
}

/// What deriving a generator comes to: the source, or the first refusal
/// among the fields' annotations.
pub open spec fn generatable_derivation(input: DeriveInput) -> Result<Seq<char>, DeriveErrorView> {
    match record_plans(input, false) {
        Err(e) => Err(e),
        Ok(plans) => Ok(generator_source(input, plans)),
    }
}

/// The rule that gives a collection's length at every step.
pub fn count_rule(plan: &FieldPlan) -> (out: Option<String>)
    ensures
        match out {
            Some(s) => count_rule_text(plan@) == Some(s@),
            None => count_rule_text(plan@) is None,
        },
{
    match &plan.generator.sequence {
        Some(count) => Some(owned(count.expr.as_str())),
        None => match &plan.builder.sequence {
            Some(count) => Some(fill1(FIXED_COUNT, count.expr.as_str())),
            None => None,
        },
    }
}

/// The rule that makes an element of type `element`.
fn element_rule(plan: &FieldPlan, element: &str) -> (out: String)
    requires
        element@ == element_type_text(plan@),
    ensures
        out@ == element_rule_text(plan@),
{
    match &plan.generator.element {
        GeneratorType::Generator { expr, ty: _ } => owned(expr.as_str()),
        GeneratorType::Generatable(table) => generate_expr(element, table),
        GeneratorType::Default => {
            let made = element_default(element, &plan.builder.element);
            fill1(REPEATED, made.as_str())
        },
    }
}

/// The rule that a field's slot starts with.
pub fn slot_rule(plan: &FieldPlan) -> (out: String)
    ensures
        out@ == slot_rule_text(plan@),
{
    match count_rule(plan) {
        Some(count) => {
            let element = item_type(plan.ty.as_str());
            let rule = element_rule(plan, element.as_str());
            fill2(COLLECTION_RULE, count.as_str(), rule.as_str())
        },
        None => {
            let rule = element_rule(plan, plan.ty.as_str());
            fill1(BOXED_RULE, rule.as_str())
        },
    }
}

/// The rules for the layers around the record.
pub fn generator_layers(input: &DeriveInput) -> (out: String)
    ensures
        out@ == generator_layers_text(*input, plain_layers(), plain_layers().len() as int),
{
    let all = layers();
    let declared = input.generics.bare_generics();
    let arguments = input.generics.ty_generics();
    let bare_arguments = input.generics.bare_ty_generics();
    let predicates = input.generics.bare_where();
    let mut out = String::new();
    let n = all.len();
    let mut i: usize = 0;
    while i < n
        invariant
            i <= n,
            n == all@.len(),
            all@ == plain_layers(),
            declared@ == input.generics.bare_generics_text(),
            arguments@ == input.generics.ty_generics_text(),
            bare_arguments@ == input.generics.bare_ty_generics_text(),
            predicates@ == input.generics.bare_where_text(),
            out@ == generator_layers_text(*input, all@, i as int),
        decreases n - i,
    {
        let mut args: Vec<String> = Vec::new();
        args.push(all[i].path());
        args.push(all[i].wrap());
        args.push(owned(declared.as_str()));
        args.push(owned(input.ident.as_str()));
        args.push(owned(arguments.as_str()));
        args.push(owned(bare_arguments.as_str()));
        args.push(owned(predicates.as_str()));
        assert(texts(args@) =~= seq![
            all@[i as int].type_path(),
            all@[i as int].constructor(),
            input.generics.bare_generics_text(),
            input.ident@,
            input.generics.ty_generics_text(),
            input.generics.bare_ty_generics_text(),
            input.generics.bare_where_text(),
        ]);
        let rule = fill(GENERATOR_LAYER, &args);
        out.append(rule.as_str());
        i = i + 1;
    }
    out
}

/// The source of the generator of a record whose fields have these plans.
pub fn render_generator(input: &DeriveInput, plans: &Vec<FieldPlan>) -> (out: String)
    ensures
        out@ == generator_source(*input, plans_view(plans@)),
{
    let ghost views = plans_view(plans@);
    let mut slots = String::new();
    let mut defaults = String::new();
    let mut answers = String::new();
    let mut setters = String::new();
    let n = plans.len();
    let mut i: usize = 0;
    while i < n
        invariant
            i <= n,
            n == plans@.len(),
            views == plans_view(plans@),
            slots@ == rule_slots_text(views, i as int),
            defaults@ == rule_defaults_text(views, i as int),
            answers@ == rule_answers_text(views, i as int),
            setters@ == rule_setters_text(views, i as int),
        decreases n - i,
    {
        let plan = &plans[i];
        let rule = slot_rule(plan);
        slots.append(fill2(RULE_SLOT, plan.ident.as_str(), plan.ty.as_str()).as_str());
        defaults.append(fill2(RULE_DEFAULT, plan.ident.as_str(), rule.as_str()).as_str());
        answers.append(fill1(RULE_ANSWER, plan.ident.as_str()).as_str());
        setters.append(fill2(RULE_SETTER, plan.ident.as_str(), plan.ty.as_str()).as_str());
        i = i + 1;
    }
    let mut args: Vec<String> = Vec::new();
    args.push(owned(input.vis.as_str()));
    args.push(input.generics.bare_generics());
    args.push(input.generics.where_clause());
    args.push(slots);
    args.push(input.generics.bare_ty_generics());
    args.push(defaults);
    args.push(answers);
    args.push(setters);
    args.push(input.generics.impl_generics());
    args.push(owned(input.ident.as_str()));
    args.push(input.generics.ty_generics());
    args.push(generator_layers(input));
    args.push(input.generics.bare_where());
    assert(texts(args@) =~= seq![
        input.vis@,
        input.generics.bare_generics_text(),
        input.generics.where_clause_text(),
        rule_slots_text(views, views.len() as int),
        input.generics.bare_ty_generics_text(),
        rule_defaults_text(views, views.len() as int),
        rule_answers_text(views, views.len() as int),
        rule_setters_text(views, views.len() as int),
        input.generics.impl_generics_text(),
        input.ident@,
        input.generics.ty_generics_text(),
        generator_layers_text(*input, plain_layers(), plain_layers().len() as int),
        input.generics.bare_where_text(),
    ]);
    fill(GENERATOR_SOURCE, &args)
}

/// Derives the generator of a record: reads the annotations of its fields
/// and writes the generator's source.
pub fn derive_generatable(input: &DeriveInput) -> (r: Result<String, DeriveError>)
    ensures
        outcome_is(source_outcome(r), generatable_derivation(*input)),
{
    match plan_record(input, false) {
        Err(e) => Err(e),
        Ok(plans) => Ok(render_generator(input, &plans)),
    }
}

} // verus!
