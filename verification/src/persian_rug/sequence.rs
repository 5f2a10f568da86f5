//! Collections drawn from a context-aware generator, and plain generators
//! made context-aware.

use crate::generator::Generator;
use crate::persian_rug::generator::draw_in_context;
use crate::persian_rug::generator::runs;
use crate::persian_rug::generator::steps;
use crate::persian_rug::generator::GeneratorWithPersianRug;
use std::marker::PhantomData;
use vstd::prelude::*;
use vstd::std_specs::convert::FromSpec;

verus! {

/// Collections of values drawn from one generator; how many, another
/// generator says at every step. `V` is the type of the collections.
pub struct SequenceGeneratorWithPersianRug<S, T, V> {
    pub marker: PhantomData<V>,
    pub seq: S,
    pub elt: T,
}

impl<S, T, V> SequenceGeneratorWithPersianRug<S, T, V> {
    /// Collections of the values of `elt`, of the sizes that `seq` makes.
    pub fn new(seq: S, elt: T) -> (s: Self)
        ensures
            s.seq == seq,
            s.elt == elt,
    {
        Self { marker: PhantomData, seq, elt }
    }
}

impl<S, T, V> SequenceGeneratorWithPersianRug<S, T, V> {
    /// Whether making the next collection in `context` may give `items`, and
    /// leave the generator as `next` and the context as `after`: the size is
    /// made first, then the elements one after the other, each in the
    /// context that the one before left.
    pub open spec fn items_step<C>(
        &self,
        context: C,
        items: Seq<T::Output>,
        next: Self,
        after: C,
    ) -> bool where S: GeneratorWithPersianRug<C, Output = usize>, T: GeneratorWithPersianRug<C> {
        exists|between: C| #[trigger]
            self.seq.step(context, items.len() as usize, next.seq, between) && items.len()
                <= usize::MAX && steps(self.elt, between, items, next.elt, after)
    }

    /// Makes the elements of the next collection.
    pub fn generate_items<C>(&mut self, context: C) -> (r: (Vec<T::Output>, C)) where
        S: GeneratorWithPersianRug<C, Output = usize>,
        T: GeneratorWithPersianRug<C>,

        requires
            old(self).seq.ready(context),
            forall|count: usize, next: S, between: C| #[trigger]
                old(self).seq.step(context, count, next, between) ==> runs(
                    old(self).elt,
                    between,
                    count as nat,
                ),
        ensures
            old(self).items_step(context, r.0@, *final(self), r.1),
    {
        let (count, between) = self.seq.generate(context);
        let (items, after) = draw_in_context(&mut self.elt, between, count);
        assert(old(self).seq.step(context, items@.len() as usize, self.seq, between));
        (items, after)
    }
}

impl<S, T, V, C> GeneratorWithPersianRug<C> for SequenceGeneratorWithPersianRug<S, T, V> where
    S: GeneratorWithPersianRug<C, Output = usize>,
    T: GeneratorWithPersianRug<C>,
    V: From<Vec<T::Output>>,
 {
    type Output = V;

    /// The next collection can be made where the next size can be, and as
    /// many elements as any size that it may be.
    open spec fn ready(&self, context: C) -> bool {
        self.seq.ready(context) && forall|count: usize, next: S, between: C| #[trigger]
            self.seq.step(context, count, next, between) ==> runs(self.elt, between, count as nat)
    }

    /// The collection is made of the elements drawn.
    open spec fn step(&self, context: C, out: V, next: Self, after: C) -> bool {
        exists|items: Vec<T::Output>| #[trigger]
            self.items_step(context, items@, next, after) && (V::obeys_from_spec() ==> out
                == V::from_spec(items))
    }

    fn generate(&mut self, context: C) -> (r: (V, C)) {
        let (items, after) = self.generate_items(context);
        assert(old(self).items_step(context, items@, *self, after));
        (V::from(items), after)
    }
}

/// A generator of values of type `T` with its own type forgotten.
pub trait AnyGenerator<T> {
    /// Whether `n` more values can be made.
    spec fn lasts(&self, n: nat) -> bool;

    /// Whether `out` may be the value made `k` steps from now.
    spec fn gives(&self, k: nat, out: T) -> bool;

    /// Makes the next value.
    fn produce(&mut self) -> (out: T)
        requires
            old(self).lasts(1),
        ensures
            old(self).gives(0, out),
            forall|k: nat, o: T| #[trigger] final(self).gives(k, o) ==> old(self).gives(k + 1, o),
            forall|n: nat| old(self).lasts(n + 1) ==> #[trigger] final(self).lasts(n),
    ;
}

impl<G: Generator> AnyGenerator<G::Output> for G {
    open spec fn lasts(&self, n: nat) -> bool {
        self.can_yield(n)
    }

    open spec fn gives(&self, k: nat, out: G::Output) -> bool {
        self.yields_at(k, out)
    }

    fn produce(&mut self) -> (out: G::Output) {
        self.generate()
    }
}

/// A plain generator made context-aware: it passes the context through.
#[verifier::reject_recursive_types(T)]
pub struct GeneratorToGeneratorWithPersianRugWrapper<T> {
    pub gen: Box<dyn AnyGenerator<T>>,
}

impl<T> GeneratorToGeneratorWithPersianRugWrapper<T> {
    /// The generator `value`, passing any context through.
    pub fn new<U: Generator<Output = T> + 'static>(value: U) -> (w: Self)
        ensures
            forall|n: nat| #[trigger] w.gen.lasts(n) == value.can_yield(n),
            forall|k: nat, o: T| #[trigger] w.gen.gives(k, o) == value.yields_at(k, o),
    {
        Self { gen: Box::new(value) }
    }
}

impl<C, T> GeneratorWithPersianRug<C> for GeneratorToGeneratorWithPersianRugWrapper<T> {
    type Output = T;

    open spec fn ready(&self, context: C) -> bool {
        self.gen.lasts(1)
    }

    open spec fn step(&self, context: C, out: T, next: Self, after: C) -> bool {
        &&& after == context
        &&& self.gen.gives(0, out)
        &&& forall|k: nat, o: T| #[trigger] next.gen.gives(k, o) ==> self.gen.gives(k + 1, o)
        &&& forall|n: nat| self.gen.lasts(n + 1) ==> #[trigger] next.gen.lasts(n)
    }

    fn generate(&mut self, context: C) -> (r: (T, C)) {
        (self.gen.produce(), context)
    }
}

} // verus!
