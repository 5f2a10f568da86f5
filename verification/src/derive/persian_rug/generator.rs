//! The source of a record's context-aware generator.
//!
//! Its rules are handed the context and hand it back, so a rule is no boxed
//! function: every slot has a type parameter of its own, and replacing a
//! slot's rule changes the generator's type. A rule that needs no context is
//! wrapped so that it passes the context through. A directive whose value is
//! a context-aware generator must say the generator's type, since the
//! generator's own type has to name it.

use crate::derive::attributes::outcome_is;
use crate::derive::builder::source_outcome;
use crate::derive::element::fill1;
use crate::derive::element::fill2;
use crate::derive::element::fill3;
use crate::derive::element::generate_expr;
use crate::derive::element::generate_text;
use crate::derive::element::item_type;
use crate::derive::element::item_type_text;
use crate::derive::error::DeriveError;
use crate::derive::error::DeriveErrorView;
use crate::derive::helpers::get_persian_rug_constraints;
use crate::derive::helpers::record_constraints;
use crate::derive::input::impl_params;
use crate::derive::input::param_names;
use crate::derive::input::DeriveInput;
use crate::derive::input::Field;
use crate::derive::meta::GeneratorType;
use crate::derive::meta::GeneratorTypeView;
use crate::derive::persian_rug::builder::MADE;
use crate::derive::persian_rug::builder::REPEATED_BLOCK;
use crate::derive::persian_rug::element::default_generator_name;
use crate::derive::persian_rug::element::local_generator;
use crate::derive::persian_rug::element::local_generator_text;
use crate::derive::persian_rug::element::make_generator_id_for_field;
use crate::derive::persian_rug::element::make_sequence_generator_id_for_field;
use crate::derive::persian_rug::element::predicates;
use crate::derive::persian_rug::element::predicates_text;
use crate::derive::persian_rug::element::sequence_generator_name;
use crate::derive::persian_rug::element::static_value;
use crate::derive::persian_rug::element::static_value_text;
use crate::derive::persian_rug::element::LOCAL_GENERATOR_VALUE;
use crate::derive::plan::plan_field;
use crate::derive::plan::planned;
use crate::derive::plan::FieldPlan;
use crate::derive::plan::FieldPlanView;
use crate::derive::syntax::texts;
use crate::derive::template::fill;
use crate::derive::template::filled;
use crate::derive::text::owned;
use crate::derive::text::same_text;
use crate::derive::wrapper::contextual_layers;
use crate::derive::wrapper::layers_in_context;
use crate::derive::wrapper::Wrapper;
use vstd::prelude::*;
use vstd::string::StringExecFns;

verus! {

/// A rule's slot: the field `$a`, of its own type parameter.
pub const GENERIC_SLOT: &'static str = "$a: BoulderGenericType_$a,\n";

/// The type parameter of the slot of the field `$a`, as an argument.
pub const GENERIC_ARGUMENT: &'static str = ", BoulderGenericType_$a";

/// The type parameter of the slot of the field `$a`, as a parameter.
pub const GENERIC_PARAMETER: &'static str = "BoulderGenericType_$a, ";

/// What the type parameter of the slot of the field `$a` has to be: a
/// generator in the context `$b` of the field's type `$c`.
pub const GENERIC_BOUND: &'static str =
    "BoulderGenericType_$a: ::boulder::GeneratorWithPersianRug<$b, Output = $c>,\n";

/// The answer of the rule of the field `$a`.
pub const CONTEXT_ANSWER: &'static str = "let ($a, mut context) = gen.$a.generate(context);\n";

/// The slot `$a` with the new rule.
pub const REPLACED: &'static str = "$a: generator,\n";

/// The slot `$a` as it was.
pub const KEPT: &'static str = "$a: self.$a,\n";

/// The type of the new rule, as an argument.
pub const REPLACED_ARGUMENT: &'static str = ", BoulderFieldTypeParam";

/// The method that replaces the rule of the field `$a` of type `$e`. `$b` is
/// the record's parameters as arguments, `$c` the slots' types after the
/// change, `$d` the context, `$f` the slots after the change.
pub const CONTEXT_SETTER: &'static str = "pub fn $a<BoulderFieldTypeParam>(self, generator: BoulderFieldTypeParam) -> Generator<BoulderTypeMarkerParam $b $c>
where
BoulderFieldTypeParam: ::boulder::GeneratorWithPersianRug<$d, Output = $e>,
{
Generator {
_boulder_type_marker: Default::default(),
_boulder_type_storage: Default::default(),
$f}
}
";

/// The generator `$a`, which needs no context, wrapped.
pub const WRAPPED: &'static str =
    "::boulder::GeneratorToGeneratorWithPersianRugWrapper::new($a)";

/// The type of a wrapped generator of `$a`.
pub const WRAPPED_TYPE: &'static str =
    "::boulder::GeneratorToGeneratorWithPersianRugWrapper<$a>";

/// The generator of `$a` in the context `$b`.
pub const OWN_GENERATOR: &'static str =
    "<$a as ::boulder::GeneratableWithPersianRug<$b>>::generator()";

/// The type of the generator of `$a` in the context `$b`.
pub const OWN_GENERATOR_TYPE: &'static str =
    "<$a as ::boulder::GeneratableWithPersianRug<$b>>::Generator";

/// The type `$a` with the arguments `$b`.
pub const APPLIED: &'static str = "$a $b";

/// The rule that gives the count `$a` at every step.
pub const FIXED_COUNT_RULE: &'static str = "|| ($a).into()";

/// The count that the function `$a` makes of the context.
pub const COUNT_BODY: &'static str = "let closure = { $a }; closure(context).into()";

/// The rule of a collection: as many elements as the generator `$a` says,
/// drawn from the generator `$b`.
pub const COLLECTION: &'static str =
    "::boulder::SequenceGeneratorWithPersianRug::new($a, $b)";

/// The type of the rule of a collection `$c`, with counts from `$a` and
/// elements from `$b`.
pub const COLLECTION_TYPE: &'static str =
    "::boulder::SequenceGeneratorWithPersianRug<$a, $b, $c>";

/// A slot's initial rule: the field `$a` ruled by `$b`.
pub const INITIAL_RULE: &'static str = "$a: $b,\n";

/// A slot's initial type, as an argument.
pub const INITIAL_TYPE: &'static str = ", $a";

/// What the handle's layer holds: the record that the generator of what is
/// inside makes. `$a` is the record's parameters as arguments, `$b` the
/// slots' types, `$c` the arguments of the generator's trait.
pub const HELD: &'static str =
    "<Generator<BoulderExtraGenericParam $a $b> as NestedGenerate $c>::Output";

/// The context-aware generator of a record. `$a` is its visibility, `$b` its
/// parameters as declared, `$c` its `where` clause, `$d` the slots, `$e` its
/// parameters as arguments, `$f` the slots' initial rules, `$g` the rules'
/// answers, `$h` the setters, `$i` the generics of an `impl` for it, `$j` its
/// name, `$k` the arguments of its type, `$l` the rules for the layers, `$m`
/// the predicates of its impls, `$n` the context, `$o` the local generators,
/// `$p` the fields made, `$q` the slots' type parameters as arguments, `$r`
/// what they have to be, `$s` the slots' initial types, `$t` the parameters
/// of the generator's trait, `$u` its arguments.
pub const CONTEXT_GENERATOR_SOURCE: &'static str = "const _: () = {
$a struct Generator<BoulderTypeMarkerParam $b $q> $c {
_boulder_type_marker: ::core::marker::PhantomData<BoulderTypeMarkerParam>,
_boulder_type_storage: ::core::marker::PhantomData<$j $k>,
$d}

$a trait NestedGenerate $t {
type Output;
fn nested_generate<BoulderFunctionParam>(gen: &mut Generator<BoulderFunctionParam $e $q>, context: $n) -> (Self::Output, $n);
}

#[automatically_derived]
impl<BoulderTypeMarkerParam $b> Generator<BoulderTypeMarkerParam $e $s>
where
$m
{
pub fn new() -> Self {
Self {
_boulder_type_marker: Default::default(),
_boulder_type_storage: Default::default(),
$f}
}
}

#[automatically_derived]
impl<BoulderTypeMarkerParam $b $q> Generator<BoulderTypeMarkerParam $e $q>
where
$r$m
{
$h}

#[automatically_derived]
impl<BoulderTypeMarkerParam $b $q> ::boulder::GeneratorWithPersianRug<$n> for Generator<BoulderTypeMarkerParam $e $q>
where
Self: NestedGenerate $u,
$r$m
{
type Output = <Self as NestedGenerate $u>::Output;
fn generate(&mut self, context: $n) -> (Self::Output, $n) {
<Self as NestedGenerate $u>::nested_generate(self, context)
}
}

#[automatically_derived]
impl $i ::boulder::persian_rug::generator::BoulderBase for $j $k $c {
type Base = $j $k;
}

$o
#[automatically_derived]
impl $i ::boulder::persian_rug::generator::MiniGeneratableWithPersianRug<$j $k, $n> for $j $k
where
$m
{
type Generator = Generator<$j $k $e $s>;
fn mini_generator() -> Self::Generator {
Generator::new()
}
}

#[automatically_derived]
impl $t NestedGenerate $u for Generator<$j $k $e $q>
where
$r$m
{
type Output = $j $k;
fn nested_generate<BoulderFunctionParam>(gen: &mut Generator<BoulderFunctionParam $e $q>, mut context: $n) -> (Self::Output, $n) {
$g(
$j {
$p},
context
)
}
}

$l};
";

/// The rule for one layer in a context: the generator of a record inside the
/// layer `$a` generates the record and puts the layer on by `$b`. `$c` is the
/// record's parameters as declared, `$d` its name, `$e` the arguments of its
/// type, `$f` its parameters as arguments, `$g` the predicates of its impls,
/// `$h` the context, `$i` what the layer needs of the context, `$j` the
/// slots' type parameters as arguments, `$k` what they have to be, `$l` the
/// slots' initial types, `$m` the arguments of the generator's trait.
pub const CONTEXT_GENERATOR_LAYER: &'static str = "#[automatically_derived]
impl<BoulderExtraGenericParam $c> ::boulder::persian_rug::generator::MiniGeneratableWithPersianRug<$d $e, $h> for $a<BoulderExtraGenericParam>
where
BoulderExtraGenericParam: ::boulder::persian_rug::generator::MiniGeneratableWithPersianRug<$d $e, $h>,
Generator<$a<BoulderExtraGenericParam> $f $l>: ::boulder::GeneratorWithPersianRug<$h, Output = $a<BoulderExtraGenericParam>>,
$g
{
type Generator = Generator<$a<BoulderExtraGenericParam> $f $l>;
fn mini_generator() -> Self::Generator {
Generator::new()
}
}

#[automatically_derived]
impl<BoulderExtraGenericParam $c $j> NestedGenerate $m for Generator<$a<BoulderExtraGenericParam> $f $j>
where
Generator<BoulderExtraGenericParam $f $j>: NestedGenerate $m,
$i$k$g
{
type Output = $a<<Generator<BoulderExtraGenericParam $f $j> as NestedGenerate $m>::Output>;
fn nested_generate<BoulderFunctionParam>(gen: &mut Generator<BoulderFunctionParam $f $j>, context: $h) -> (Self::Output, $h) {
let (result, mut context) = Generator::<BoulderExtraGenericParam $f $j>::nested_generate(gen, context);
$b
}
}

";

/// A rule and the type of the rule.
pub struct Rule {
    pub value: String,
    pub ty: String,
}

impl View for Rule {
    type V = (Seq<char>, Seq<char>);

    open spec fn view(&self) -> (Seq<char>, Seq<char>) {
        (self.value@, self.ty@)
    }
}

/// The model of an outcome that is a rule.
pub open spec fn rule_outcome(r: Result<Rule, DeriveError>) -> Result<
    (Seq<char>, Seq<char>),
    DeriveErrorView,
> {
    match r {
        Ok(rule) => Ok(rule@),
        Err(e) => Err(e@),
    }
}

/// Whether a field is a collection: the generator or the builder says how
/// many elements it has.
pub open spec fn is_collection(plan: FieldPlanView) -> bool {
    plan.meta.generator.sequence is Some || plan.meta.builder.sequence is Some
}

/// The type of what the element rule makes.
pub open spec fn context_element_type_text(plan: FieldPlanView) -> Seq<char> {
    if is_collection(plan) {
        item_type_text(plan.ty)
    } else {
        plan.ty
    }
}

/// A generator that needs no context, wrapped, and the type of the wrapped
/// generator.
pub open spec fn wrapped_rule(generator: Seq<char>, output: Seq<char>) -> (Seq<char>, Seq<char>) {
    (filled(WRAPPED@, seq![generator]), filled(WRAPPED_TYPE@, seq![output]))
}

/// Whether the builder's way of making an element stands in for a rule and
/// needs the context: the field then gets a local generator.
pub open spec fn needs_default_generator(plan: FieldPlanView) -> bool {
    plan.meta.generator.element is Default && plan.meta.builder.needs_context
}

/// Whether the builder's count stands in for a count rule and needs the
/// context: the field then gets a local generator of counts.
pub open spec fn needs_sequence_generator(plan: FieldPlanView) -> bool {
    plan.meta.generator.sequence is None && plan.meta.builder.sequence is Some
        && plan.meta.builder.sequence_needs_context
}

/// The rule that makes an element, and its type.
///
/// A `generator` directive gives the rule; a context-aware one must say its
/// type. A `generatable` directive gives the element type's own generator; a
/// context-aware one may not set any of its rules. Without either, the
/// builder's way of making an element is followed anew at every step.
pub open spec fn context_element_rule(
    input: DeriveInput,
    context: Seq<char>,
    plan: FieldPlanView,
) -> Result<(Seq<char>, Seq<char>), DeriveErrorView> {
    let element = context_element_type_text(plan);
    let g = plan.meta.generator;
    match g.element {
        GeneratorTypeView::Generator { expr, ty } => if g.needs_context {
            match ty {
                None => Err(DeriveErrorView::MissingType(expr)),
                Some(t) => Ok((expr, t)),
            }
        } else {
            Ok(wrapped_rule(expr, element))
        },
        GeneratorTypeView::Generatable(table) => if g.needs_context {
            if table.len() > 0 {
                Err(DeriveErrorView::NestedCustomisation(table[0].0))
            } else {
                Ok(
                    (
                        filled(OWN_GENERATOR@, seq![element, context]),
                        filled(OWN_GENERATOR_TYPE@, seq![element, context]),
                    ),
                )
            }
        } else {
            Ok(wrapped_rule(generate_text(element, table), element))
        },
        GeneratorTypeView::Default => if plan.meta.builder.needs_context {
            Ok(
                (
                    filled(LOCAL_GENERATOR_VALUE@, seq![default_generator_name(plan.ident)]),
                    filled(
                        APPLIED@,
                        seq![default_generator_name(plan.ident), input.generics.ty_generics_text()],
                    ),
                ),
            )
        } else {
            Ok(
                wrapped_rule(
                    filled(
                        REPEATED_BLOCK@,
                        seq![static_value_text(element, context, plan.meta.builder.element, false)],
                    ),
                    element,
                ),
            )
        },
    }
}

/// The rule of a collection, and its type.
pub open spec fn collection_rule(
    count: (Seq<char>, Seq<char>),
    element: (Seq<char>, Seq<char>),
    ty: Seq<char>,
) -> (Seq<char>, Seq<char>) {
    (
        filled(COLLECTION@, seq![count.0, element.0]),
        filled(COLLECTION_TYPE@, seq![count.1, element.1, ty]),
    )
}

/// The rule that a field's slot starts with, and the rule's type.
///
/// The generator's count rule comes first; a context-aware one must say its
/// type. Where the generator has none, the builder's count is the count at
/// every step. Where neither has one, the slot's rule is the element rule.
pub open spec fn context_slot_rule(
    input: DeriveInput,
    context: Seq<char>,
    plan: FieldPlanView,
) -> Result<(Seq<char>, Seq<char>), DeriveErrorView> {
    match context_element_rule(input, context, plan) {
        Err(e) => Err(e),
        Ok(element) => match plan.meta.generator.sequence {
            Some(count) => if plan.meta.generator.sequence_needs_context {
                match count.1 {
                    None => Err(DeriveErrorView::MissingType(count.0)),
                    Some(t) => Ok(collection_rule((count.0, t), element, plan.ty)),
                }
            } else {
                Ok(collection_rule(wrapped_rule(count.0, "usize"@), element, plan.ty))
            },
            None => match plan.meta.builder.sequence {
                Some(count) => if plan.meta.builder.sequence_needs_context {
                    Ok(
                        collection_rule(
                            (
                                filled(
                                    LOCAL_GENERATOR_VALUE@,
                                    seq![sequence_generator_name(plan.ident)],
                                ),
                                filled(
                                    APPLIED@,
                                    seq![
                                        sequence_generator_name(plan.ident),
                                        input.generics.ty_generics_text(),
                                    ],
                                ),
                            ),
                            element,
                            plan.ty,
                        ),
                    )
                } else {
                    Ok(
                        collection_rule(
                            wrapped_rule(filled(FIXED_COUNT_RULE@, seq![count.0]), "usize"@),
                            element,
                            plan.ty,
                        ),
                    )
                },
                None => Ok(element),
            },
        },
    }
}

/// The expression of a count; nothing where there is no count.
pub open spec fn count_expr(count: Option<(Seq<char>, Option<Seq<char>>)>) -> Seq<char> {
    match count {
        Some(c) => c.0,
        None => Seq::empty(),
    }
}

/// The local generators of a field: the one that makes its elements, where it
/// needs one, and the one that makes its counts, where it needs one.
pub open spec fn context_field_generators_text(
    input: DeriveInput,
    context: Seq<char>,
    predicates: Seq<char>,
    plan: FieldPlanView,
) -> Seq<char> {
    let element = context_element_type_text(plan);
    let first = if needs_default_generator(plan) {
        local_generator_text(
            input,
            context,
            predicates,
            default_generator_name(plan.ident),
            element,
            static_value_text(element, context, plan.meta.builder.element, true),
        )
    } else {
        Seq::empty()
    };
    let second = if needs_sequence_generator(plan) {
        local_generator_text(
            input,
            context,
            predicates,
            sequence_generator_name(plan.ident),
            "usize"@,
            filled(COUNT_BODY@, seq![count_expr(plan.meta.builder.sequence)]),
        )
    } else {
        Seq::empty()
    };
    first + second
}

/// A field with its plan and the rule its slot starts with.
pub struct RuledField {
    pub plan: FieldPlan,
    pub rule: Rule,
}

/// The model of a [`RuledField`].
pub struct RuledFieldView {
    pub plan: FieldPlanView,
    pub rule: (Seq<char>, Seq<char>),
}

impl View for RuledField {
    type V = RuledFieldView;

    open spec fn view(&self) -> RuledFieldView {
        RuledFieldView { plan: self.plan@, rule: self.rule@ }
    }
}

/// What a vector of ruled fields holds, one by one.
pub open spec fn ruled_view(v: Seq<RuledField>) -> Seq<RuledFieldView> {
    Seq::new(v.len(), |i: int| v[i]@)
}

/// A field with its plan and its rule: the annotations are read first, then
/// the rule is made.
pub open spec fn ruled(input: DeriveInput, context: Seq<char>, field: Field) -> Result<
    RuledFieldView,
    DeriveErrorView,
> {
    match planned(field, true) {
        Err(e) => Err(e),
        Ok(plan) => match context_slot_rule(input, context, plan) {
            Err(e) => Err(e),
            Ok(rule) => Ok(RuledFieldView { plan, rule }),
        },
    }
}

/// The first `n` fields with their plans and rules, or the first refusal
/// among them.
pub open spec fn ruled_fields(input: DeriveInput, context: Seq<char>, fields: Seq<Field>, n: int) -> Result<
    Seq<RuledFieldView>,
    DeriveErrorView,
>
    decreases n,
{
    if n <= 0 {
        Ok(Seq::empty())
    } else {
        match ruled_fields(input, context, fields, n - 1) {
            Err(e) => Err(e),
            Ok(before) => match ruled(input, context, fields[n - 1]) {
                Err(e) => Err(e),
                Ok(field) => Ok(before.push(field)),
            },
        }
    }
}

/// The fields of a record with their plans and rules. Anything but a struct
/// with named fields has none.
pub open spec fn record_rules(input: DeriveInput, context: Seq<char>) -> Result<
    Seq<RuledFieldView>,
    DeriveErrorView,
> {
    match input.fields {
        Some(fields) => ruled_fields(input, context, fields@, fields@.len() as int),
        None => Ok(Seq::empty()),
    }
}

/// The slots of the first `n` fields.
pub open spec fn generic_slots_text(fields: Seq<RuledFieldView>, n: int) -> Seq<char>
    decreases n,
{
    if n <= 0 {
        Seq::empty()
    } else {
        generic_slots_text(fields, n - 1) + filled(GENERIC_SLOT@, seq![fields[n - 1].plan.ident])
    }
}

/// The type parameters of the first `n` slots, as arguments.
pub open spec fn generic_arguments_text(fields: Seq<RuledFieldView>, n: int) -> Seq<char>
    decreases n,
{
    if n <= 0 {
        Seq::empty()
    } else {
        generic_arguments_text(fields, n - 1) + filled(
            GENERIC_ARGUMENT@,
            seq![fields[n - 1].plan.ident],
        )
    }
}

/// The type parameters of the first `n` slots, as parameters.
pub open spec fn generic_parameters_text(fields: Seq<RuledFieldView>, n: int) -> Seq<char>
    decreases n,
{
    if n <= 0 {
        Seq::empty()
    } else {
        generic_parameters_text(fields, n - 1) + filled(
            GENERIC_PARAMETER@,
            seq![fields[n - 1].plan.ident],
        )
    }
}

/// What the type parameters of the first `n` slots have to be.
pub open spec fn generic_bounds_text(fields: Seq<RuledFieldView>, context: Seq<char>, n: int) -> Seq<
    char,
>
    decreases n,
{
    if n <= 0 {
        Seq::empty()
    } else {
        generic_bounds_text(fields, context, n - 1) + filled(
            GENERIC_BOUND@,
            seq![fields[n - 1].plan.ident, context, fields[n - 1].plan.ty],
        )
    }
}

/// The answers of the first `n` rules, asked in the fields' order.
pub open spec fn context_answers_text(fields: Seq<RuledFieldView>, n: int) -> Seq<char>
    decreases n,
{
    if n <= 0 {
        Seq::empty()
    } else {
        context_answers_text(fields, n - 1) + filled(
            CONTEXT_ANSWER@,
            seq![fields[n - 1].plan.ident],
        )
    }
}

/// The first `n` fields, made.
pub open spec fn made_fields_text(fields: Seq<RuledFieldView>, n: int) -> Seq<char>
    decreases n,
{
    if n <= 0 {
        Seq::empty()
    } else {
        made_fields_text(fields, n - 1) + filled(MADE@, seq![fields[n - 1].plan.ident])
    }
}

/// The initial rules of the first `n` slots.
pub open spec fn initial_rules_text(fields: Seq<RuledFieldView>, n: int) -> Seq<char>
    decreases n,
{
    if n <= 0 {
        Seq::empty()
    } else {
        initial_rules_text(fields, n - 1) + filled(
            INITIAL_RULE@,
            seq![fields[n - 1].plan.ident, fields[n - 1].rule.0],
        )
    }
}

/// The initial types of the first `n` slots, as arguments.
pub open spec fn initial_types_text(fields: Seq<RuledFieldView>, n: int) -> Seq<char>
    decreases n,
{
    if n <= 0 {
        Seq::empty()
    } else {
        initial_types_text(fields, n - 1) + filled(INITIAL_TYPE@, seq![fields[n - 1].rule.1])
    }
}

/// The local generators of the first `n` fields.
pub open spec fn local_generators_text(
    input: DeriveInput,
    context: Seq<char>,
    predicates: Seq<char>,
    fields: Seq<RuledFieldView>,
    n: int,
) -> Seq<char>
    decreases n,
{
    if n <= 0 {
        Seq::empty()
    } else {
        local_generators_text(input, context, predicates, fields, n - 1)
            + context_field_generators_text(input, context, predicates, fields[n - 1].plan)
    }
}

/// The first `n` slots after the rule of the field `replace` was replaced:
/// that slot holds the new rule, every other slot is moved as it is.
pub open spec fn replaced_slots_text(fields: Seq<RuledFieldView>, replace: Seq<char>, n: int) -> Seq<
    char,
>
    decreases n,
{
    if n <= 0 {
        Seq::empty()
    } else {
        replaced_slots_text(fields, replace, n - 1) + if fields[n - 1].plan.ident == replace {
            filled(REPLACED@, seq![fields[n - 1].plan.ident])
        } else {
            filled(KEPT@, seq![fields[n - 1].plan.ident])
        }
    }
}

/// The types of the first `n` slots after the rule of the field `replace`
/// was replaced, as arguments.
pub open spec fn replaced_arguments_text(fields: Seq<RuledFieldView>, replace: Seq<char>, n: int) -> Seq<
    char,
>
    decreases n,
{
    if n <= 0 {
        Seq::empty()
    } else {
        replaced_arguments_text(fields, replace, n - 1) + if fields[n - 1].plan.ident == replace {
            REPLACED_ARGUMENT@
        } else {
            filled(GENERIC_ARGUMENT@, seq![fields[n - 1].plan.ident])
        }
    }
}

/// The method that replaces the rule of one field.
pub open spec fn context_setter_text(
    input: DeriveInput,
    context: Seq<char>,
    fields: Seq<RuledFieldView>,
    field: RuledFieldView,
) -> Seq<char> {
    filled(
        CONTEXT_SETTER@,
        seq![
            field.plan.ident,
            input.generics.bare_ty_generics_text(),
            replaced_arguments_text(fields, field.plan.ident, fields.len() as int),
            context,
            field.plan.ty,
            replaced_slots_text(fields, field.plan.ident, fields.len() as int),
        ],
    )
}

/// The setters of the first `n` slots.
pub open spec fn context_setters_text(
    input: DeriveInput,
    context: Seq<char>,
    fields: Seq<RuledFieldView>,
    n: int,
) -> Seq<char>
    decreases n,
{
    if n <= 0 {
        Seq::empty()
    } else {
        context_setters_text(input, context, fields, n - 1) + context_setter_text(
            input,
            context,
            fields,
            fields[n - 1],
        )
    }
}

/// The parameters of the generator's trait: the record's, then the slots'.
pub open spec fn trait_parameters_text(input: DeriveInput, fields: Seq<RuledFieldView>) -> Seq<char> {
    "<"@ + impl_params(input.generics.params@, input.generics.params@.len() as int)
        + generic_parameters_text(fields, fields.len() as int) + ">"@
}

/// The arguments of the generator's trait: the record's, then the slots'.
pub open spec fn trait_arguments_text(input: DeriveInput, fields: Seq<RuledFieldView>) -> Seq<char> {
    "<"@ + param_names(input.generics.params@, input.generics.params@.len() as int)
        + generic_parameters_text(fields, fields.len() as int) + ">"@
}

/// The rule for one layer around the record.
pub open spec fn context_generator_layer_text(
    input: DeriveInput,
    context: Seq<char>,
    predicates: Seq<char>,
    fields: Seq<RuledFieldView>,
    layer: Wrapper,
) -> Seq<char> {
    let n = fields.len() as int;
    let slots = generic_arguments_text(fields, n);
    filled(
        CONTEXT_GENERATOR_LAYER@,
        seq![
            layer.type_path(),
            layer.rewrap_text(),
            input.generics.bare_generics_text(),
            input.ident@,
            input.generics.ty_generics_text(),
            input.generics.bare_ty_generics_text(),
            predicates,
            context,
            layer.needs_text(
                context,
                filled(
                    HELD@,
                    seq![
                        input.generics.bare_ty_generics_text(),
                        slots,
                        trait_arguments_text(input, fields),
                    ],
                ),
            ),
            slots,
            generic_bounds_text(fields, context, n),
            initial_types_text(fields, n),
            trait_arguments_text(input, fields),
        ],
    )
}

/// The rules for the first `n` layers.
pub open spec fn context_generator_layers_text(
    input: DeriveInput,
    context: Seq<char>,
    predicates: Seq<char>,
    fields: Seq<RuledFieldView>,
    all: Seq<Wrapper>,
    n: int,
) -> Seq<char>
    decreases n,
{
    if n <= 0 {
        Seq::empty()
    } else {
        context_generator_layers_text(input, context, predicates, fields, all, n - 1)
            + context_generator_layer_text(input, context, predicates, fields, all[n - 1])
    }
}

/// The source of the context-aware generator of a record whose fields have
/// these plans and rules, in the context `context`, reaching `types`.
pub open spec fn context_generator_source(
    input: DeriveInput,
    context: Seq<char>,
    types: Seq<Seq<char>>,
    fields: Seq<RuledFieldView>,
) -> Seq<char> {
    let predicates = predicates_text(input, context, types);
    let n = fields.len() as int;
    filled(
        CONTEXT_GENERATOR_SOURCE@,
        seq![
            input.vis@,
            input.generics.bare_generics_text(),
            input.generics.where_clause_text(),
            generic_slots_text(fields, n),
            input.generics.bare_ty_generics_text(),
            initial_rules_text(fields, n),
            context_answers_text(fields, n),
            context_setters_text(input, context, fields, n),
            input.generics.impl_generics_text(),
            input.ident@,
            input.generics.ty_generics_text(),
            context_generator_layers_text(
                input,
                context,
                predicates,
                fields,
                contextual_layers(),
                contextual_layers().len() as int,
            ),
            predicates,
            context,
            local_generators_text(input, context, predicates, fields, n),
            made_fields_text(fields, n),
            generic_arguments_text(fields, n),
            generic_bounds_text(fields, context, n),
            initial_types_text(fields, n),
            trait_parameters_text(input, fields),
            trait_arguments_text(input, fields),
        ],
    )
}

/// What deriving a context-aware generator comes to: the record's context is
/// found first, then field by field the annotations are read and the rule
/// is made, and the first refusal on the way is the outcome.
pub open spec fn generatable_with_persian_rug_derivation(input: DeriveInput) -> Result<
    Seq<char>,
    DeriveErrorView,
> {
    match record_constraints(input.attrs@) {
        Err(e) => Err(e),
        Ok((context, types)) => match record_rules(input, context) {
            Err(e) => Err(e),
            Ok(fields) => Ok(context_generator_source(input, context, types, fields)),
        },
    }
}

/// A generator that needs no context, wrapped.
pub fn wrapped(generator: &str, output: &str) -> (rule: Rule)
    ensures
        rule@ == wrapped_rule(generator@, output@),
{
    Rule { value: fill1(WRAPPED, generator), ty: fill1(WRAPPED_TYPE, output) }
}

/// A local generator of the given name, made, and its type.
pub fn local_rule(input: &DeriveInput, name: &str) -> (rule: Rule)
    ensures
        rule@ == (
            filled(LOCAL_GENERATOR_VALUE@, seq![name@]),
            filled(APPLIED@, seq![name@, input.generics.ty_generics_text()]),
        ),
{
    let arguments = input.generics.ty_generics();
    Rule { value: fill1(LOCAL_GENERATOR_VALUE, name), ty: fill2(APPLIED, name, arguments.as_str()) }
}

/// Whether a field is a collection.
pub fn collects(plan: &FieldPlan) -> (r: bool)
    ensures
        r == is_collection(plan@),
{
    plan.generator.sequence.is_some() || plan.builder.sequence.is_some()
}

/// The type of what the element rule makes.
pub fn context_element_type(plan: &FieldPlan) -> (out: String)
    ensures
        out@ == context_element_type_text(plan@),
{
    if collects(plan) {
        item_type(plan.ty.as_str())
    } else {
        owned(plan.ty.as_str())
    }
}

/// The rule that makes an element, and its type.
pub fn context_element(input: &DeriveInput, context: &str, plan: &FieldPlan) -> (r: Result<
    Rule,
    DeriveError,
>)
    ensures
        rule_outcome(r) == context_element_rule(*input, context@, plan@),
{
    let element = context_element_type(plan);
    match &plan.generator.element {
        GeneratorType::Generator { expr, ty } => if plan.generator.needs_context {
            match ty {
                None => Err(DeriveError::MissingType(owned(expr.as_str()))),
                Some(t) => Ok(Rule { value: owned(expr.as_str()), ty: owned(t.as_str()) }),
            }
        } else {
            Ok(wrapped(expr.as_str(), element.as_str()))
        },
        GeneratorType::Generatable(table) => if plan.generator.needs_context {
            if table.len() > 0 {
                Err(DeriveError::NestedCustomisation(owned(table[0].name.as_str())))
            } else {
                Ok(
                    Rule {
                        value: fill2(OWN_GENERATOR, element.as_str(), context),
                        ty: fill2(OWN_GENERATOR_TYPE, element.as_str(), context),
                    },
                )
            }
        } else {
            let generator = generate_expr(element.as_str(), table);
            Ok(wrapped(generator.as_str(), element.as_str()))
        },
        GeneratorType::Default => if plan.builder.needs_context {
            let name = make_generator_id_for_field(plan.ident.as_str());
            Ok(local_rule(input, name.as_str()))
        } else {
            let made = static_value(element.as_str(), context, &plan.builder.element, false);
            let repeated = fill1(REPEATED_BLOCK, made.as_str());
            Ok(wrapped(repeated.as_str(), element.as_str()))
        },
    }
}

/// The rule of a collection, and its type.
pub fn collection(count: &Rule, element: &Rule, ty: &str) -> (rule: Rule)
    ensures
        rule@ == collection_rule(count@, element@, ty@),
{
    Rule {
        value: fill2(COLLECTION, count.value.as_str(), element.value.as_str()),
        ty: fill3(COLLECTION_TYPE, count.ty.as_str(), element.ty.as_str(), ty),
    }
}

/// The rule that a field's slot starts with, and the rule's type.
pub fn context_slot(input: &DeriveInput, context: &str, plan: &FieldPlan) -> (r: Result<
    Rule,
    DeriveError,
>)
    ensures
        rule_outcome(r) == context_slot_rule(*input, context@, plan@),
{
    match context_element(input, context, plan) {
        Err(e) => Err(e),
        Ok(element) => match &plan.generator.sequence {
            Some(count) => if plan.generator.sequence_needs_context {
                match &count.ty {
                    None => Err(DeriveError::MissingType(owned(count.expr.as_str()))),
                    Some(t) => {
                        let counts = Rule {
                            value: owned(count.expr.as_str()),
                            ty: owned(t.as_str()),
                        };
                        Ok(collection(&counts, &element, plan.ty.as_str()))
                    },
                }
            } else {
                let counts = wrapped(count.expr.as_str(), "usize");
                Ok(collection(&counts, &element, plan.ty.as_str()))
            },
            None => match &plan.builder.sequence {
                Some(count) => if plan.builder.sequence_needs_context {
                    let name = make_sequence_generator_id_for_field(plan.ident.as_str());
                    let counts = local_rule(input, name.as_str());
                    Ok(collection(&counts, &element, plan.ty.as_str()))
                } else {
                    let fixed = fill1(FIXED_COUNT_RULE, count.expr.as_str());
                    let counts = wrapped(fixed.as_str(), "usize");
                    Ok(collection(&counts, &element, plan.ty.as_str()))
                },
                None => Ok(element),
            },
        },
    }
}

/// The local generators of a field.
pub fn context_field_generators(
    input: &DeriveInput,
    context: &str,
    predicates: &str,
    plan: &FieldPlan,
) -> (out: String)
    ensures
        out@ == context_field_generators_text(*input, context@, predicates@, plan@),
{
    let element = context_element_type(plan);
    let by_builder = match &plan.generator.element {
        GeneratorType::Default => true,
        _ => false,
    };
    let mut out = if by_builder && plan.builder.needs_context {
        let name = make_generator_id_for_field(plan.ident.as_str());
        let body = static_value(element.as_str(), context, &plan.builder.element, true);
        local_generator(input, context, predicates, name.as_str(), element.as_str(), body.as_str())
    } else {
        String::new()
    };
    if plan.generator.sequence.is_none() && plan.builder.sequence_needs_context {
        match &plan.builder.sequence {
            Some(count) => {
                let name = make_sequence_generator_id_for_field(plan.ident.as_str());
                let body = fill1(COUNT_BODY, count.expr.as_str());
                let second = local_generator(
                    input,
                    context,
                    predicates,
                    name.as_str(),
                    "usize",
                    body.as_str(),
                );
                out.append(second.as_str());
                return out;
            },
            None => {},
        }
    }
    assert(out@ + Seq::<char>::empty() =~= out@);
    out
}

/// The model of an outcome that is a ruled field.
pub open spec fn ruled_outcome(r: Result<RuledField, DeriveError>) -> Result<
    RuledFieldView,
    DeriveErrorView,
> {
    match r {
        Ok(f) => Ok(f@),
        Err(e) => Err(e@),
    }
}

/// The model of an outcome that is a vector of ruled fields.
pub open spec fn rules_outcome(r: Result<Vec<RuledField>, DeriveError>) -> Result<
    Seq<RuledFieldView>,
    DeriveErrorView,
> {
    match r {
        Ok(f) => Ok(ruled_view(f@)),
        Err(e) => Err(e@),
    }
}

/// Reads the annotations of a field and makes its rule.
pub fn rule_field(input: &DeriveInput, context: &str, field: &Field) -> (r: Result<
    RuledField,
    DeriveError,
>)
    ensures
        outcome_is(ruled_outcome(r), ruled(*input, context@, *field)),
{
    match plan_field(field, true) {
        Err(e) => Err(e),
        Ok(plan) => match context_slot(input, context, &plan) {
            Err(e) => Err(e),
            Ok(rule) => Ok(RuledField { plan, rule }),
        },
    }
}

/// A refusal among the first `k` fields is the refusal of any longer run.
pub proof fn lemma_rules_refused(
    input: DeriveInput,
    context: Seq<char>,
    fields: Seq<Field>,
    k: int,
    n: int,
)
    requires
        0 <= k <= n,
        ruled_fields(input, context, fields, k) is Err,
    ensures
        ruled_fields(input, context, fields, n) == ruled_fields(input, context, fields, k),
    decreases n - k,
{
    if k < n {
        lemma_rules_refused(input, context, fields, k, n - 1);
    }
}

/// Reads the annotations of every field and makes its rule, field by field,
/// and stops at the first refusal.
pub fn rule_fields(input: &DeriveInput, context: &str, fields: &Vec<Field>) -> (r: Result<
    Vec<RuledField>,
    DeriveError,
>)
    ensures
        outcome_is(
            rules_outcome(r),
            ruled_fields(*input, context@, fields@, fields@.len() as int),
        ),
{
    let mut out: Vec<RuledField> = Vec::new();
    assert(ruled_view(out@) =~= Seq::empty());
    let n = fields.len();
    let mut i: usize = 0;
    while i < n
        invariant
            i <= n,
            n == fields@.len(),
            ruled_fields(*input, context@, fields@, i as int) == Ok::<_, DeriveErrorView>(
                ruled_view(out@),
            ),
        decreases n - i,
    {
        match rule_field(input, context, &fields[i]) {
            Err(e) => {
                proof {
                    lemma_rules_refused(*input, context@, fields@, i as int + 1, n as int);
                }
                return Err(e);
            },
            Ok(field) => {
                let ghost before = ruled_view(out@);
                out.push(field);
                assert(ruled_view(out@) =~= before.push(field@));
            },
        }
        i = i + 1;
    }
    Ok(out)
}

/// Reads the annotations of every field of a record and makes its rule.
pub fn rule_record(input: &DeriveInput, context: &str) -> (r: Result<Vec<RuledField>, DeriveError>)
    ensures
        outcome_is(rules_outcome(r), record_rules(*input, context@)),
{
    match &input.fields {
        None => {
            let out: Vec<RuledField> = Vec::new();
            assert(ruled_view(out@) =~= Seq::empty());
            Ok(out)
        },
        Some(fields) => rule_fields(input, context, fields),
    }
}

/// The slots, and the slots' types as arguments, after the rule of the field
/// `replace` was replaced.
pub fn make_method_body(fields: &Vec<RuledField>, replace: &str) -> (out: (String, String))
    ensures
        out.0@ == replaced_slots_text(ruled_view(fields@), replace@, fields@.len() as int),
        out.1@ == replaced_arguments_text(ruled_view(fields@), replace@, fields@.len() as int),
{
    let ghost views = ruled_view(fields@);
    let mut body = String::new();
    let mut generics = String::new();
    let n = fields.len();
    let mut i: usize = 0;
    while i < n
        invariant
            i <= n,
            n == fields@.len(),
            views == ruled_view(fields@),
            body@ == replaced_slots_text(views, replace@, i as int),
            generics@ == replaced_arguments_text(views, replace@, i as int),
        decreases n - i,
    {
        let name = fields[i].plan.ident.as_str();
        if same_text(name, replace) {
            body.append(fill1(REPLACED, name).as_str());
            generics.append(REPLACED_ARGUMENT);
        } else {
            body.append(fill1(KEPT, name).as_str());
            generics.append(fill1(GENERIC_ARGUMENT, name).as_str());
        }
        i = i + 1;
    }
    (body, generics)
}

/// The method that replaces the rule of one field.
pub fn context_setter(
    input: &DeriveInput,
    context: &str,
    fields: &Vec<RuledField>,
    field: &RuledField,
) -> (out: String)
    ensures
        out@ == context_setter_text(*input, context@, ruled_view(fields@), field@),
{
    let (body, generics) = make_method_body(fields, field.plan.ident.as_str());
    let mut args: Vec<String> = Vec::new();
    args.push(owned(field.plan.ident.as_str()));
    args.push(input.generics.bare_ty_generics());
    args.push(generics);
    args.push(owned(context));
    args.push(owned(field.plan.ty.as_str()));
    args.push(body);
    let ghost views = ruled_view(fields@);
    assert(texts(args@) =~= seq![
        field@.plan.ident,
        input.generics.bare_ty_generics_text(),
        replaced_arguments_text(views, field@.plan.ident, views.len() as int),
        context@,
        field@.plan.ty,
        replaced_slots_text(views, field@.plan.ident, views.len() as int),
    ]);
    fill(CONTEXT_SETTER, &args)
}

/// The texts that are made field by field.
pub struct FieldTexts {
    pub slots: String,
    pub arguments: String,
    pub parameters: String,
    pub bounds: String,
    pub answers: String,
    pub made: String,
    pub rules: String,
    pub types: String,
    pub generators: String,
    pub setters: String,
}

/// Makes the texts that are made field by field.
pub fn field_texts(input: &DeriveInput, context: &str, predicates: &str, fields: &Vec<RuledField>) -> (out:
    FieldTexts)
    ensures
        out.slots@ == generic_slots_text(ruled_view(fields@), fields@.len() as int),
        out.arguments@ == generic_arguments_text(ruled_view(fields@), fields@.len() as int),
        out.parameters@ == generic_parameters_text(ruled_view(fields@), fields@.len() as int),
        out.bounds@ == generic_bounds_text(ruled_view(fields@), context@, fields@.len() as int),
        out.answers@ == context_answers_text(ruled_view(fields@), fields@.len() as int),
        out.made@ == made_fields_text(ruled_view(fields@), fields@.len() as int),
        out.rules@ == initial_rules_text(ruled_view(fields@), fields@.len() as int),
        out.types@ == initial_types_text(ruled_view(fields@), fields@.len() as int),
        out.generators@ == local_generators_text(
            *input,
            context@,
            predicates@,
            ruled_view(fields@),
            fields@.len() as int,
        ),
        out.setters@ == context_setters_text(
            *input,
            context@,
            ruled_view(fields@),
            fields@.len() as int,
        ),
{
    let ghost views = ruled_view(fields@);
    let mut out = FieldTexts {
        slots: String::new(),
        arguments: String::new(),
        parameters: String::new(),
        bounds: String::new(),
        answers: String::new(),
        made: String::new(),
        rules: String::new(),
        types: String::new(),
        generators: String::new(),
        setters: String::new(),
    };
    let n = fields.len();
    let mut i: usize = 0;
    while i < n
        invariant
            i <= n,
            n == fields@.len(),
            views == ruled_view(fields@),
            out.slots@ == generic_slots_text(views, i as int),
            out.arguments@ == generic_arguments_text(views, i as int),
            out.parameters@ == generic_parameters_text(views, i as int),
            out.bounds@ == generic_bounds_text(views, context@, i as int),
            out.answers@ == context_answers_text(views, i as int),
            out.made@ == made_fields_text(views, i as int),
            out.rules@ == initial_rules_text(views, i as int),
            out.types@ == initial_types_text(views, i as int),
            out.generators@ == local_generators_text(*input, context@, predicates@, views, i as int),
            out.setters@ == context_setters_text(*input, context@, views, i as int),
        decreases n - i,
    {
        let field = &fields[i];
        let name = field.plan.ident.as_str();
        out.slots.append(fill1(GENERIC_SLOT, name).as_str());
        out.arguments.append(fill1(GENERIC_ARGUMENT, name).as_str());
        out.parameters.append(fill1(GENERIC_PARAMETER, name).as_str());
        out.bounds.append(fill3(GENERIC_BOUND, name, context, field.plan.ty.as_str()).as_str());
        out.answers.append(fill1(CONTEXT_ANSWER, name).as_str());
        out.made.append(fill1(MADE, name).as_str());
        out.rules.append(fill2(INITIAL_RULE, name, field.rule.value.as_str()).as_str());
        out.types.append(fill1(INITIAL_TYPE, field.rule.ty.as_str()).as_str());
        out.generators.append(
            context_field_generators(input, context, predicates, &field.plan).as_str(),
        );
        out.setters.append(context_setter(input, context, fields, field).as_str());
        i = i + 1;
    }
    out
}

/// The parameters as an `impl` declares them, a comma behind each.
pub fn impl_parameters(input: &DeriveInput) -> (out: String)
    ensures
        out@ == impl_params(input.generics.params@, input.generics.params@.len() as int),
{
    let mut out = String::new();
    let n = input.generics.params.len();
    let mut i: usize = 0;
    while i < n
        invariant
            i <= n,
            n == input.generics.params@.len(),
            out@ == impl_params(input.generics.params@, i as int),
        decreases n - i,
    {
        out.append(input.generics.params[i].impl_decl.as_str());
        out.append(", ");
        i = i + 1;
    }
    out
}

/// The parameters' names, a comma behind each.
pub fn parameter_names(input: &DeriveInput) -> (out: String)
    ensures
        out@ == param_names(input.generics.params@, input.generics.params@.len() as int),
{
    let mut out = String::new();
    let n = input.generics.params.len();
    let mut i: usize = 0;
    while i < n
        invariant
            i <= n,
            n == input.generics.params@.len(),
            out@ == param_names(input.generics.params@, i as int),
        decreases n - i,
    {
        out.append(input.generics.params[i].name.as_str());
        out.append(", ");
        i = i + 1;
    }
    out
}

/// The rules for the layers around the record.
fn context_generator_layers(
    input: &DeriveInput,
    context: &str,
    predicates: &str,
    fields: &Vec<RuledField>,
    made: &FieldTexts,
    trait_arguments: &str,
) -> (out: String)
    requires
        made.arguments@ == generic_arguments_text(ruled_view(fields@), fields@.len() as int),
        made.bounds@ == generic_bounds_text(ruled_view(fields@), context@, fields@.len() as int),
        made.types@ == initial_types_text(ruled_view(fields@), fields@.len() as int),
        trait_arguments@ == trait_arguments_text(*input, ruled_view(fields@)),
    ensures
        out@ == context_generator_layers_text(
            *input,
            context@,
            predicates@,
            ruled_view(fields@),
            contextual_layers(),
            contextual_layers().len() as int,
        ),
{
    let ghost views = ruled_view(fields@);
    let all = layers_in_context();
    let declared = input.generics.bare_generics();
    let arguments = input.generics.ty_generics();
    let bare_arguments = input.generics.bare_ty_generics();
    let held = fill3(HELD, bare_arguments.as_str(), made.arguments.as_str(), trait_arguments);
    let mut out = String::new();
    let n = all.len();
    let mut i: usize = 0;
    while i < n
        invariant
            i <= n,
            n == all@.len(),
            all@ == contextual_layers(),
            views == ruled_view(fields@),
            declared@ == input.generics.bare_generics_text(),
            arguments@ == input.generics.ty_generics_text(),
            bare_arguments@ == input.generics.bare_ty_generics_text(),
            made.arguments@ == generic_arguments_text(views, views.len() as int),
            made.bounds@ == generic_bounds_text(views, context@, views.len() as int),
            made.types@ == initial_types_text(views, views.len() as int),
            trait_arguments@ == trait_arguments_text(*input, views),
            held@ == filled(
                HELD@,
                seq![
                    input.generics.bare_ty_generics_text(),
                    generic_arguments_text(views, views.len() as int),
                    trait_arguments_text(*input, views),
                ],
            ),
            out@ == context_generator_layers_text(
                *input,
                context@,
                predicates@,
                views,
                all@,
                i as int,
            ),
        decreases n - i,
    {
        let mut args: Vec<String> = Vec::new();
        args.push(all[i].path());
        args.push(all[i].rewrap());
        args.push(owned(declared.as_str()));
        args.push(owned(input.ident.as_str()));
        args.push(owned(arguments.as_str()));
        args.push(owned(bare_arguments.as_str()));
        args.push(owned(predicates));
        args.push(owned(context));
        args.push(all[i].needs(context, held.as_str()));
        args.push(owned(made.arguments.as_str()));
        args.push(owned(made.bounds.as_str()));
        args.push(owned(made.types.as_str()));
        args.push(owned(trait_arguments));
        assert(texts(args@) =~= seq![
            all@[i as int].type_path(),
            all@[i as int].rewrap_text(),
            input.generics.bare_generics_text(),
            input.ident@,
            input.generics.ty_generics_text(),
            input.generics.bare_ty_generics_text(),
            predicates@,
            context@,
            all@[i as int].needs_text(context@, held@),
            generic_arguments_text(views, views.len() as int),
            generic_bounds_text(views, context@, views.len() as int),
            initial_types_text(views, views.len() as int),
            trait_arguments_text(*input, views),
        ]);
        let rule = fill(CONTEXT_GENERATOR_LAYER, &args);
        out.append(rule.as_str());
        i = i + 1;
    }
    out
}

/// The source of the context-aware generator of a record whose fields have
/// these plans and rules.
pub fn render_context_generator(
    input: &DeriveInput,
    context: &str,
    types: &Vec<String>,
    fields: &Vec<RuledField>,
) -> (out: String)
    ensures
        out@ == context_generator_source(*input, context@, texts(types@), ruled_view(fields@)),
{
    let ghost views = ruled_view(fields@);
    let needed = predicates(input, context, types);
    let made = field_texts(input, context, needed.as_str(), fields);
    let mut trait_parameters = String::from_str("<");
    trait_parameters.append(impl_parameters(input).as_str());
    trait_parameters.append(made.parameters.as_str());
    trait_parameters.append(">");
    let mut trait_arguments = String::from_str("<");
    trait_arguments.append(parameter_names(input).as_str());
    trait_arguments.append(made.parameters.as_str());
    trait_arguments.append(">");
    let layers = context_generator_layers(
        input,
        context,
        needed.as_str(),
        fields,
        &made,
        trait_arguments.as_str(),
    );
    let mut args: Vec<String> = Vec::new();
    args.push(owned(input.vis.as_str()));
    args.push(input.generics.bare_generics());
    args.push(input.generics.where_clause());
    args.push(made.slots);
    args.push(input.generics.bare_ty_generics());
    args.push(made.rules);
    args.push(made.answers);
    args.push(made.setters);
    args.push(input.generics.impl_generics());
    args.push(owned(input.ident.as_str()));
    args.push(input.generics.ty_generics());
    args.push(layers);
    args.push(owned(needed.as_str()));
    args.push(owned(context));
    args.push(made.generators);
    args.push(made.made);
    args.push(made.arguments);
    args.push(made.bounds);
    args.push(made.types);
    args.push(trait_parameters);
    args.push(trait_arguments);
    let ghost p = predicates_text(*input, context@, texts(types@));
    let ghost n = views.len() as int;
    assert(texts(args@) =~= seq![
        input.vis@,
        input.generics.bare_generics_text(),
        input.generics.where_clause_text(),
        generic_slots_text(views, n),
        input.generics.bare_ty_generics_text(),
        initial_rules_text(views, n),
        context_answers_text(views, n),
        context_setters_text(*input, context@, views, n),
        input.generics.impl_generics_text(),
        input.ident@,
        input.generics.ty_generics_text(),
        context_generator_layers_text(
            *input,
            context@,
            p,
            views,
            contextual_layers(),
            contextual_layers().len() as int,
        ),
        p,
        context@,
        local_generators_text(*input, context@, p, views, n),
        made_fields_text(views, n),
        generic_arguments_text(views, n),
        generic_bounds_text(views, context@, n),
        initial_types_text(views, n),
        trait_parameters_text(*input, views),
        trait_arguments_text(*input, views),
    ]);
    fill(CONTEXT_GENERATOR_SOURCE, &args)
}

/// Derives the context-aware generator of a record: finds the record's
/// context, then field by field reads the annotations and makes the rule,
/// and writes the generator's source.
pub fn derive_generatable_with_persian_rug(input: &DeriveInput) -> (r: Result<
    String,
    DeriveError,
>)
    ensures
        outcome_is(source_outcome(r), generatable_with_persian_rug_derivation(*input)),
{
    match get_persian_rug_constraints(&input.attrs) {
        Err(e) => Err(e),
        Ok((context, types)) => match rule_record(input, context.as_str()) {
            Err(e) => Err(e),
            Ok(fields) => Ok(
                render_context_generator(input, context.as_str(), &types, &fields),
            ),
        },
    }
}

} // verus!
