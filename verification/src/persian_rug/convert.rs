//! The rules that put a layer around a value in a context.
//!
//! Each rule takes a value and the context and gives the wrapped value and
//! the context. Only the handle's rule changes the context: it adds the
//! value to it. Rules stack: a value inside several layers is wrapped by the
//! innermost rule first.

use crate::persian_rug::table::Owner;
use crate::persian_rug::table::Proxy;
use std::rc::Rc;
use std::sync::Arc;
use vstd::prelude::*;

verus! {

/// A rule that turns a value into another in a context.
pub trait ConverterWithPersianRug<C, From> {
    /// The type of the value made.
    type Output;

    /// Whether the rule may turn `input` in the context `before` into `out`,
    /// leaving the context `after`. A rule that does not say may make and
    /// leave anything.
    open spec fn converts(&self, input: From, before: C, out: Self::Output, after: C) -> bool {
        true
    }

    /// Turns the value.
    fn convert(self, input: From, context: C) -> (r: (Self::Output, C))
        ensures
            self.converts(input, context, r.0, r.1),
    ;
}

/// The rule of no layer: the value as it is.
pub struct SelfConverterWithPersianRug;

impl<C, T> ConverterWithPersianRug<C, T> for SelfConverterWithPersianRug {
    type Output = T;

    open spec fn converts(&self, input: T, before: C, out: T, after: C) -> bool {
        out == input && after == before
    }

    fn convert(self, input: T, context: C) -> (r: (T, C)) {
        (input, context)
    }
}

/// The rule of the optional layer: the value, present.
pub struct OptionConverterWithPersianRug;

impl<C, T> ConverterWithPersianRug<C, T> for OptionConverterWithPersianRug {
    type Output = Option<T>;

    open spec fn converts(&self, input: T, before: C, out: Option<T>, after: C) -> bool {
        out == Some(input) && after == before
    }

    fn convert(self, input: T, context: C) -> (r: (Option<T>, C)) {
        (Some(input), context)
    }
}

/// The rule of shared ownership within one thread.
pub struct RcConverterWithPersianRug;

impl<C, T> ConverterWithPersianRug<C, T> for RcConverterWithPersianRug {
    type Output = Rc<T>;

    open spec fn converts(&self, input: T, before: C, out: Rc<T>, after: C) -> bool {
        *out == input && after == before
    }

    fn convert(self, input: T, context: C) -> (r: (Rc<T>, C)) {
        (Rc::new(input), context)
    }
}

/// The rule of shared ownership across threads.
pub struct ArcConverterWithPersianRug;

impl<C, T> ConverterWithPersianRug<C, T> for ArcConverterWithPersianRug {
    type Output = Arc<T>;

    open spec fn converts(&self, input: T, before: C, out: Arc<T>, after: C) -> bool {
        *out == input && after == before
    }

    fn convert(self, input: T, context: C) -> (r: (Arc<T>, C)) {
        (Arc::new(input), context)
    }
}

/// The rule of exclusive ownership on the heap.
pub struct BoxConverterWithPersianRug;

impl<C, T> ConverterWithPersianRug<C, T> for BoxConverterWithPersianRug {
    type Output = Box<T>;

    open spec fn converts(&self, input: T, before: C, out: Box<T>, after: C) -> bool {
        *out == input && after == before
    }

    fn convert(self, input: T, context: C) -> (r: (Box<T>, C)) {
        (Box::new(input), context)
    }
}

/// The rule of the handle: the value is added to the context, and its handle
/// is what is made.
pub struct ProxyConverterWithPersianRug;

impl<C: Owner<T>, T> ConverterWithPersianRug<C, T> for ProxyConverterWithPersianRug {
    type Output = Proxy<T>;

    open spec fn converts(&self, input: T, before: C, out: Proxy<T>, after: C) -> bool {
        before.faithful() ==> {
            &&& after.faithful()
            &&& after.records() == before.records().push(input)
            &&& out.position() == before.records().len()
        }
    }

    fn convert(self, input: T, context: C) -> (r: (Proxy<T>, C)) {
        let mut context = context;
        let p = context.add(input);
        (p, context)
    }
}

/// The rule of an optional handle: the value is added to the context, and its
/// handle, present, is what is made.
pub struct OptionProxyConverterWithPersianRug;

impl<C: Owner<T>, T> ConverterWithPersianRug<C, T> for OptionProxyConverterWithPersianRug {
    type Output = Option<Proxy<T>>;

    open spec fn converts(&self, input: T, before: C, out: Option<Proxy<T>>, after: C) -> bool {
        out is Some && (before.faithful() ==> {
            &&& after.faithful()
            &&& after.records() == before.records().push(input)
            &&& out->0.position() == before.records().len()
        })
    }

    fn convert(self, input: T, context: C) -> (r: (Option<Proxy<T>>, C)) {
        let mut context = context;
        let p = context.add(input);
        (Some(p), context)
    }
}

/// Two rules as one: the inner rule first, then the outer rule on what the
/// inner one made.
pub struct Stacked<Inner, Outer> {
    pub inner: Inner,
    pub outer: Outer,
}

impl<C, T, Inner, Outer> ConverterWithPersianRug<C, T> for Stacked<Inner, Outer> where
    Inner: ConverterWithPersianRug<C, T>,
    Outer: ConverterWithPersianRug<C, Inner::Output>,
 {
    type Output = Outer::Output;

    open spec fn converts(&self, input: T, before: C, out: Outer::Output, after: C) -> bool {
        exists|middle: Inner::Output, between: C| #[trigger]
            self.inner.converts(input, before, middle, between) && self.outer.converts(
                middle,
                between,
                out,
                after,
            )
    }

    fn convert(self, input: T, context: C) -> (r: (Outer::Output, C)) {
        let (middle, between) = self.inner.convert(input, context);
        self.outer.convert(middle, between)
    }
}

/// What is in a built option is the value that went in, and the context is
/// as it was.
pub proof fn lemma_option_round_trip<C, T>(input: T, before: C, out: Option<T>, after: C)
    requires
        OptionConverterWithPersianRug.converts(input, before, out, after),
    ensures
        out is Some,
        out->0 == input,
        after == before,
{
}

/// What a built shared pointer points to is the value that went in, and the
/// context is as it was.
pub proof fn lemma_rc_round_trip<C, T>(input: T, before: C, out: Rc<T>, after: C)
    requires
        RcConverterWithPersianRug.converts(input, before, out, after),
    ensures
        *out == input,
        after == before,
{
}

/// What a built shared pointer points to is the value that went in, and the
/// context is as it was.
pub proof fn lemma_arc_round_trip<C, T>(input: T, before: C, out: Arc<T>, after: C)
    requires
        ArcConverterWithPersianRug.converts(input, before, out, after),
    ensures
        *out == input,
        after == before,
{
}

/// What is in a built box is the value that went in, and the context is as it
/// was.
pub proof fn lemma_box_round_trip<C, T>(input: T, before: C, out: Box<T>, after: C)
    requires
        BoxConverterWithPersianRug.converts(input, before, out, after),
    ensures
        *out == input,
        after == before,
{
}

/// The record that a built handle designates is the value that went in: the
/// context holds one record more, the one made, at the handle's position.
pub proof fn lemma_handle_designates<C: Owner<T>, T>(input: T, before: C, out: Proxy<T>, after: C)
    requires
        before.faithful(),
        ProxyConverterWithPersianRug.converts(input, before, out, after),
    ensures
        after.faithful(),
        after.records().len() == before.records().len() + 1,
        out.position() < after.records().len(),
        after.records()[out.position() as int] == input,
        forall|i: int|
            0 <= i < before.records().len() ==> after.records()[i] == before.records()[i],
{
}

/// Two layers stacked: what a built shared pointer to an option points to is
/// the value that went in, present, and the context is as it was.
pub proof fn lemma_stacked_round_trip<C, T>(input: T, before: C, out: Rc<Option<T>>, after: C)
    requires
        (Stacked { inner: OptionConverterWithPersianRug, outer: RcConverterWithPersianRug }).converts(
            input,
            before,
            out,
            after,
        ),
    ensures
        *out == Some(input),
        after == before,
{
}

/// Stacking the rule of the option on the rule of the handle is the rule of
/// the optional handle.
pub proof fn lemma_optional_handle_is_stacked<C: Owner<T>, T>(
    input: T,
    before: C,
    out: Option<Proxy<T>>,
    after: C,
)
    requires
        (Stacked {
            inner: ProxyConverterWithPersianRug,
            outer: OptionConverterWithPersianRug,
        }).converts(input, before, out, after),
    ensures
        OptionProxyConverterWithPersianRug.converts(input, before, out, after),
{
}

} // verus!
