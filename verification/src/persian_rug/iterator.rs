//! Endless runs of the values of a context-aware generator.

use crate::persian_rug::generator::GeneratorWithPersianRug;
use vstd::prelude::*;

verus! {

/// An endless run of values that owns its generator and its context.
pub struct GeneratorWithPersianRugIterator<T, B> {
    gen: T,
    mutator: Option<B>,
}

impl<T, B> GeneratorWithPersianRugIterator<T, B> {
    /// The generator inside.
    pub closed spec fn generator(&self) -> T {
        self.gen
    }

    /// Whether the run holds its context, as it does between any two steps.
    pub closed spec fn holds_context(&self) -> bool {
        self.mutator is Some
    }

    /// The context inside.
    pub closed spec fn context(&self) -> B {
        self.mutator->0
    }

    /// A run of the values that the generator is going to make in the
    /// context.
    pub fn new(generator: T, mutator: B) -> (iter: Self)
        ensures
            iter.holds_context(),
            iter.generator() == generator,
            iter.context() == mutator,
    {
        Self { gen: generator, mutator: Some(mutator) }
    }

    /// Gives the generator and the context back.
    pub fn into_inner(self) -> (r: (T, B))
        requires
            self.holds_context(),
        ensures
            r.0 == self.generator(),
            r.1 == self.context(),
    {
        (self.gen, self.mutator.unwrap())
    }
}

impl<T, B> GeneratorWithPersianRugIterator<T, B> {
    /// The next value, which is always there.
    pub fn next(&mut self) -> (out: Option<T::Output>) where T: GeneratorWithPersianRug<B>
        requires
            old(self).holds_context(),
            old(self).generator().ready(old(self).context()),
        ensures
            final(self).holds_context(),
            out is Some,
            old(self).generator().step(
                old(self).context(),
                out->0,
                final(self).generator(),
                final(self).context(),
            ),
    {
        let context = self.mutator.take().unwrap();
        let (result, context) = self.gen.generate(context);
        self.mutator = Some(context);
        Some(result)
    }
}

/// An endless run of values that owns its context and borrows its generator.
pub struct GeneratorWithPersianRugMutIterator<'a, B, T> {
    pub gen: &'a mut T,
    pub mutator: Option<B>,
}

impl<'a, B, T> GeneratorWithPersianRugMutIterator<'a, B, T> {
    /// Whether the run holds its context, as it does between any two steps.
    pub open spec fn holds_context(&self) -> bool {
        self.mutator is Some
    }

    /// The context inside.
    pub open spec fn context(&self) -> B {
        self.mutator->0
    }

    /// A run of the values that the generator is going to make in the
    /// context. The generator is left where the run ends.
    pub fn new(generator: &'a mut T, mutator: B) -> (iter: Self)
        ensures
            iter.holds_context(),
            *iter.gen == *old(generator),
            *final(iter.gen) == *final(generator),
            iter.context() == mutator,
    {
        Self { gen: generator, mutator: Some(mutator) }
    }

    /// Gives the context back.
    pub fn into_inner(self) -> (context: B)
        requires
            self.holds_context(),
        ensures
            context == self.context(),
            *final(self.gen) == *old(self.gen),
    {
        self.mutator.unwrap()
    }

    /// The next value, which is always there.
    pub fn next(&mut self) -> (out: Option<T::Output>) where T: GeneratorWithPersianRug<B>
        requires
            old(self).holds_context(),
            old(self).gen.ready(old(self).context()),
        ensures
            final(self).holds_context(),
            out is Some,
            old(self).gen.step(old(self).context(), out->0, *final(self).gen, final(self).context()),
            *final(final(self).gen) == *final(old(self).gen),
    {
        let context = self.mutator.take().unwrap();
        let (result, context) = self.gen.generate(context);
        self.mutator = Some(context);
        Some(result)
    }
}

} // verus!
