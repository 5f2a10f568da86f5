//! What the annotations of one field come to.
//!
//! A field may carry several annotations. They are read in the order in which
//! they are written, and each slot is filled by the first annotation that
//! speaks of it.

use crate::derive::attributes::outcome_is;
use crate::derive::error::DeriveError;
use crate::derive::error::DeriveErrorView;
use crate::derive::input::Attribute;
use crate::derive::input::DeriveInput;
use crate::derive::input::Field;
use crate::derive::meta::contextual_meta_in;
use crate::derive::meta::empty_builder_data;
use crate::derive::meta::empty_generator_data;
use crate::derive::meta::empty_meta;
use crate::derive::meta::meta_in;
use crate::derive::meta::BuildType;
use crate::derive::meta::BuilderData;
use crate::derive::meta::BuilderDataView;
use crate::derive::meta::BuilderMeta;
use crate::derive::meta::BuilderMetaWithPersianRug;
use crate::derive::meta::GeneratorData;
use crate::derive::meta::GeneratorDataView;
use crate::derive::meta::GeneratorType;
use crate::derive::meta::MetaView;
use crate::derive::text::owned;
use vstd::prelude::*;

verus! {

/// What a field's annotations come to, with the field's name and type.
pub struct FieldPlan {
    pub ident: String,
    pub ty: String,
    pub builder: BuilderData,
    pub generator: GeneratorData,
}

/// The model of a [`FieldPlan`].
pub struct FieldPlanView {
    pub ident: Seq<char>,
    pub ty: Seq<char>,
    pub meta: MetaView,
}

impl View for FieldPlan {
    type V = FieldPlanView;

    open spec fn view(&self) -> FieldPlanView {
        FieldPlanView {
            ident: self.ident@,
            ty: self.ty@,
            meta: MetaView { builder: self.builder@, generator: self.generator@ },
        }
    }
}

/// What a vector of plans holds, one by one.
pub open spec fn plans_view(v: Seq<FieldPlan>) -> Seq<FieldPlanView> {
    Seq::new(v.len(), |i: int| v[i]@)
}

/// Two annotations as one: each slot as the first fills it, and as the second
/// fills it where the first leaves it empty.
pub open spec fn merge(first: MetaView, second: MetaView) -> MetaView {
    let b = first.builder;
    let g = first.generator;
    MetaView {
        builder: BuilderDataView {
            element: if b.element is Default {
                second.builder.element
            } else {
                b.element
            },
            needs_context: if b.element is Default {
                second.builder.needs_context
            } else {
                b.needs_context
            },
            sequence: if b.sequence is None {
                second.builder.sequence
            } else {
                b.sequence
            },
            sequence_needs_context: if b.sequence is None {
                second.builder.sequence_needs_context
            } else {
                b.sequence_needs_context
            },
        },
        generator: GeneratorDataView {
            element: if g.element is Default {
                second.generator.element
            } else {
                g.element
            },
            needs_context: if g.element is Default {
                second.generator.needs_context
            } else {
                g.needs_context
            },
            sequence: if g.sequence is None {
                second.generator.sequence
            } else {
                g.sequence
            },
            sequence_needs_context: if g.sequence is None {
                second.generator.sequence_needs_context
            } else {
                g.sequence_needs_context
            },
        },
    }
}

/// What one of this library's attributes says: what its arguments are read
/// as. `contextual` says whether a context is at hand.
pub open spec fn attribute_meta(attr: Attribute, contextual: bool) -> Result<
    MetaView,
    DeriveErrorView,
> {
    match attr.args {
        None => Err(DeriveErrorView::MissingArguments),
        Some(text) => if contextual {
            contextual_meta_in(text@)
        } else {
            meta_in(text@)
        },
    }
}

/// What the first `n` attributes come to, or the first refusal among them.
/// An attribute that is not this library's is passed over.
pub open spec fn merged(attrs: Seq<Attribute>, n: int, contextual: bool) -> Result<
    MetaView,
    DeriveErrorView,
>
    decreases n,
{
    if n <= 0 {
        Ok(empty_meta())
    } else {
        match merged(attrs, n - 1, contextual) {
            Err(e) => Err(e),
            Ok(before) => if !attrs[n - 1].is_boulder() {
                Ok(before)
            } else {
                match attribute_meta(attrs[n - 1], contextual) {
                    Err(e) => Err(e),
                    Ok(meta) => Ok(merge(before, meta)),
                }
            },
        }
    }
}

/// The plan of a field.
pub open spec fn planned(field: Field, contextual: bool) -> Result<FieldPlanView, DeriveErrorView> {
    match merged(field.attrs@, field.attrs@.len() as int, contextual) {
        Err(e) => Err(e),
        Ok(meta) => Ok(FieldPlanView { ident: field.ident@, ty: field.ty@, meta }),
    }
}

/// The plans of the first `n` fields, or the first refusal among them.
pub open spec fn planned_fields(fields: Seq<Field>, n: int, contextual: bool) -> Result<
    Seq<FieldPlanView>,
    DeriveErrorView,
>
    decreases n,
{
    if n <= 0 {
        Ok(Seq::empty())
    } else {
        match planned_fields(fields, n - 1, contextual) {
            Err(e) => Err(e),
            Ok(before) => match planned(fields[n - 1], contextual) {
                Err(e) => Err(e),
                Ok(plan) => Ok(before.push(plan)),
            },
        }
    }
}

/// The plans of a record's fields. Anything but a struct with named fields
/// has none.
pub open spec fn record_plans(input: DeriveInput, contextual: bool) -> Result<
    Seq<FieldPlanView>,
    DeriveErrorView,
> {
    match input.fields {
        Some(fields) => planned_fields(fields@, fields@.len() as int, contextual),
        None => Ok(Seq::empty()),
    }
}

/// Fills the slots that are still empty from a later annotation.
pub fn merge_into(
    builder: &mut BuilderData,
    generator: &mut GeneratorData,
    later_builder: BuilderData,
    later_generator: GeneratorData,
)
    ensures
        (MetaView { builder: final(builder)@, generator: final(generator)@ }) == merge(
            MetaView { builder: old(builder)@, generator: old(generator)@ },
            MetaView { builder: later_builder@, generator: later_generator@ },
        ),
{
    let builder_free = match &builder.element {
        BuildType::Default => true,
        _ => false,
    };
    let generator_free = match &generator.element {
        GeneratorType::Default => true,
        _ => false,
    };
    if builder_free {
        builder.element = later_builder.element;
        builder.needs_context = later_builder.needs_context;
    }
    if builder.sequence.is_none() {
        builder.sequence = later_builder.sequence;
        builder.sequence_needs_context = later_builder.sequence_needs_context;
    }
    if generator_free {
        generator.element = later_generator.element;
        generator.needs_context = later_generator.needs_context;
    }
    if generator.sequence.is_none() {
        generator.sequence = later_generator.sequence;
        generator.sequence_needs_context = later_generator.sequence_needs_context;
    }
}

/// A refusal among the first `k` attributes is the refusal of any longer run.
pub proof fn lemma_merged_refused(attrs: Seq<Attribute>, k: int, n: int, contextual: bool)
    requires
        0 <= k <= n,
        merged(attrs, k, contextual) is Err,
    ensures
        merged(attrs, n, contextual) == merged(attrs, k, contextual),
    decreases n - k,
{
    if k < n {
        lemma_merged_refused(attrs, k, n - 1, contextual);
    }
}

/// A refusal among the first `k` fields is the refusal of any longer run.
pub proof fn lemma_fields_refused(fields: Seq<Field>, k: int, n: int, contextual: bool)
    requires
        0 <= k <= n,
        planned_fields(fields, k, contextual) is Err,
    ensures
        planned_fields(fields, n, contextual) == planned_fields(fields, k, contextual),
    decreases n - k,
{
    if k < n {
        lemma_fields_refused(fields, k, n - 1, contextual);
    }
}

/// The model of an outcome that is a plan.
pub open spec fn plan_outcome(r: Result<FieldPlan, DeriveError>) -> Result<
    FieldPlanView,
    DeriveErrorView,
> {
    match r {
        Ok(p) => Ok(p@),
        Err(e) => Err(e@),
    }
}

/// The model of an outcome that is a vector of plans.
pub open spec fn plans_outcome(r: Result<Vec<FieldPlan>, DeriveError>) -> Result<
    Seq<FieldPlanView>,
    DeriveErrorView,
> {
    match r {
        Ok(p) => Ok(plans_view(p@)),
        Err(e) => Err(e@),
    }
}

/// Reads the annotations of a field.
pub fn plan_field(field: &Field, contextual: bool) -> (r: Result<FieldPlan, DeriveError>)
    ensures
        outcome_is(plan_outcome(r), planned(*field, contextual)),
{
    let mut builder = empty_builder_data();
    let mut generator = empty_generator_data();
    let n = field.attrs.len();
    let mut i: usize = 0;
    while i < n
        invariant
            i <= n,
            n == field.attrs@.len(),
            merged(field.attrs@, i as int, contextual) == Ok::<_, DeriveErrorView>(
                MetaView { builder: builder@, generator: generator@ },
            ),
        decreases n - i,
    {
        let attr = &field.attrs[i];
        if attr.names_boulder() {
            match &attr.args {
                None => {
                    proof {
                        lemma_merged_refused(field.attrs@, i as int + 1, n as int, contextual);
                    }
                    return Err(DeriveError::MissingArguments);
                },
                Some(text) => {
                    if contextual {
                        match BuilderMetaWithPersianRug::parse(text.as_str()) {
                            Err(e) => {
                                proof {
                                    lemma_merged_refused(
                                        field.attrs@,
                                        i as int + 1,
                                        n as int,
                                        contextual,
                                    );
                                }
                                return Err(e);
                            },
                            Ok(meta) => {
                                merge_into(&mut builder, &mut generator, meta.builder, meta.generator);
                            },
                        }
                    } else {
                        match BuilderMeta::parse(text.as_str()) {
                            Err(e) => {
                                proof {
                                    lemma_merged_refused(
                                        field.attrs@,
                                        i as int + 1,
                                        n as int,
                                        contextual,
                                    );
                                }
                                return Err(e);
                            },
                            Ok(meta) => {
                                merge_into(&mut builder, &mut generator, meta.builder, meta.generator);
                            },
                        }
                    }
                },
            }
        }
        i = i + 1;
    }
    Ok(
        FieldPlan {
            ident: owned(field.ident.as_str()),
            ty: owned(field.ty.as_str()),
            builder,
            generator,
        },
    )
}

/// Reads the annotations of every field, and stops at the first refusal.
pub fn plan_fields(fields: &Vec<Field>, contextual: bool) -> (r: Result<Vec<FieldPlan>, DeriveError>)
    ensures
        outcome_is(
            plans_outcome(r),
            planned_fields(fields@, fields@.len() as int, contextual),
        ),
{
    let mut out: Vec<FieldPlan> = Vec::new();
    assert(plans_view(out@) =~= Seq::empty());
    let n = fields.len();
    let mut i: usize = 0;
    while i < n
        invariant
            i <= n,
            n == fields@.len(),
            planned_fields(fields@, i as int, contextual) == Ok::<_, DeriveErrorView>(
                plans_view(out@),
            ),
        decreases n - i,
    {
        match plan_field(&fields[i], contextual) {
            Err(e) => {
                proof {
                    lemma_fields_refused(fields@, i as int + 1, n as int, contextual);
                }
                return Err(e);
            },
            Ok(plan) => {
                let ghost before = plans_view(out@);
                out.push(plan);
                assert(plans_view(out@) =~= before.push(plan@));
            },
        }
        i = i + 1;
    }
    Ok(out)
}

/// Reads the annotations of every field of a record, and stops at the first
/// refusal.
pub fn plan_record(input: &DeriveInput, contextual: bool) -> (r: Result<Vec<FieldPlan>, DeriveError>)
    ensures
        outcome_is(plans_outcome(r), record_plans(*input, contextual)),
{
    match &input.fields {
        None => {
            let out: Vec<FieldPlan> = Vec::new();
            assert(plans_view(out@) =~= Seq::empty());
            Ok(out)
        },
        Some(fields) => plan_fields(fields, contextual),
    }
}

/// Whether none of the attributes is this library's.
pub open spec fn no_directives(attrs: Seq<Attribute>) -> bool {
    forall|j: int| 0 <= j < attrs.len() ==> !(#[trigger] attrs[j]).is_boulder()
}

/// A field without directives gets the plan that says nothing.
pub proof fn lemma_bare_field_plan(attrs: Seq<Attribute>, n: int, contextual: bool)
    requires
        0 <= n <= attrs.len(),
        no_directives(attrs),
    ensures
        merged(attrs, n, contextual) == Ok::<MetaView, DeriveErrorView>(empty_meta()),
    decreases n,
{
    if n > 0 {
        lemma_bare_field_plan(attrs, n - 1, contextual);
        assert(!attrs[n - 1].is_boulder());
    }
}

/// A record without directives is never refused, and every field of it gets
/// the plan that says nothing.
pub proof fn lemma_bare_record_plans(fields: Seq<Field>, n: int, contextual: bool)
    requires
        0 <= n <= fields.len(),
        forall|i: int| 0 <= i < fields.len() ==> no_directives((#[trigger] fields[i]).attrs@),
    ensures
        planned_fields(fields, n, contextual) is Ok,
        planned_fields(fields, n, contextual)->Ok_0.len() == n,
        forall|i: int|
            0 <= i < n ==> (#[trigger] planned_fields(fields, n, contextual)->Ok_0[i])
                == (FieldPlanView { ident: fields[i].ident@, ty: fields[i].ty@, meta: empty_meta() }),
    decreases n,
{
    if n > 0 {
        lemma_bare_record_plans(fields, n - 1, contextual);
        lemma_bare_field_plan(fields[n - 1].attrs@, fields[n - 1].attrs@.len() as int, contextual);
        let before = planned_fields(fields, n - 1, contextual)->Ok_0;
        let all = planned_fields(fields, n, contextual)->Ok_0;
        assert(all == before.push(
            FieldPlanView { ident: fields[n - 1].ident@, ty: fields[n - 1].ty@, meta: empty_meta() },
        ));
        assert forall|i: int| 0 <= i < n implies (#[trigger] all[i]) == (FieldPlanView {
            ident: fields[i].ident@,
            ty: fields[i].ty@,
            meta: empty_meta(),
        }) by {
            if i < n - 1 {
                assert(all[i] == before[i]);
            }
        }
    }
}

/// Of two annotations, the first decides every slot that it fills.
pub proof fn lemma_first_annotation_wins(first: MetaView, second: MetaView)
    ensures
        !(first.builder.element is Default) ==> merge(first, second).builder.element
            == first.builder.element,
        first.builder.sequence is Some ==> merge(first, second).builder.sequence
            == first.builder.sequence,
        !(first.generator.element is Default) ==> merge(first, second).generator.element
            == first.generator.element,
        first.generator.sequence is Some ==> merge(first, second).generator.sequence
            == first.generator.sequence,
{
}

} // verus!
