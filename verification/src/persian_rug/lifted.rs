//! The ready-made generators as context-aware generators.
//!
//! A generator that needs no context passes the context through. One that
//! is made of other generators hands the context from one to the next.

use crate::generator::Generator;
use crate::generators::Always;
use crate::generators::Const;
use crate::generators::Inc;
use crate::generators::Increment;
use crate::generators::Sample;
use crate::persian_rug::generator::draw_in_context;
use crate::persian_rug::generator::runs;
use crate::persian_rug::generator::steps;
use crate::persian_rug::generator::GeneratorWithPersianRug;
use crate::recycle::Repeat;
use crate::recycle::Subsets;
use vstd::prelude::*;

verus! {

/// Whether making the next value may give `out` and leave the generator as
/// `next`.
pub open spec fn advances<G: Generator>(generator: G, out: G::Output, next: G) -> bool {
    &&& generator.yields_at(0, out)
    &&& forall|k: nat, o: G::Output| #[trigger]
        next.yields_at(k, o) ==> generator.yields_at(k + 1, o)
    &&& forall|n: nat| generator.can_yield(n + 1) ==> #[trigger] next.can_yield(n)
}

impl<C, T: Clone> GeneratorWithPersianRug<C> for Const<T> {
    type Output = T;

    open spec fn ready(&self, context: C) -> bool {
        self.can_yield(1)
    }

    /// The value is a copy of the constant, and neither the generator nor
    /// the context changes.
    open spec fn step(&self, context: C, out: T, next: Self, after: C) -> bool {
        after == context && next == *self && advances(*self, out, next)
    }

    fn generate(&mut self, context: C) -> (r: (T, C)) {
        (Generator::generate(self), context)
    }
}

impl<C, T: Increment> GeneratorWithPersianRug<C> for Inc<T> {
    type Output = T;

    open spec fn ready(&self, context: C) -> bool {
        self.can_yield(1)
    }

    open spec fn step(&self, context: C, out: T, next: Self, after: C) -> bool {
        after == context && advances(*self, out, next)
    }

    fn generate(&mut self, context: C) -> (r: (T, C)) {
        (Generator::generate(self), context)
    }
}

impl<C, T: Clone> GeneratorWithPersianRug<C> for Repeat<T> {
    type Output = T;

    open spec fn ready(&self, context: C) -> bool {
        self.can_yield(1)
    }

    open spec fn step(&self, context: C, out: T, next: Self, after: C) -> bool {
        after == context && advances(*self, out, next)
    }

    fn generate(&mut self, context: C) -> (r: (T, C)) {
        (Generator::generate(self), context)
    }
}

impl<C, T: Clone> GeneratorWithPersianRug<C> for Subsets<T> {
    type Output = Vec<T>;

    open spec fn ready(&self, context: C) -> bool {
        self.can_yield(1)
    }

    open spec fn step(&self, context: C, out: Vec<T>, next: Self, after: C) -> bool {
        after == context && advances(*self, out, next)
    }

    fn generate(&mut self, context: C) -> (r: (Vec<T>, C)) {
        (Generator::generate(self), context)
    }
}

impl<C, F, T> GeneratorWithPersianRug<C> for F where F: FnMut() -> T {
    type Output = T;

    open spec fn ready(&self, context: C) -> bool {
        self.can_yield(1)
    }

    open spec fn step(&self, context: C, out: T, next: Self, after: C) -> bool {
        after == context && advances(*self, out, next)
    }

    fn generate(&mut self, context: C) -> (r: (T, C)) {
        (Generator::generate(self), context)
    }
}

impl<C, T: GeneratorWithPersianRug<C>> GeneratorWithPersianRug<C> for Always<T> {
    type Output = Option<T::Output>;

    open spec fn ready(&self, context: C) -> bool {
        self.0.ready(context)
    }

    open spec fn step(&self, context: C, out: Option<T::Output>, next: Self, after: C) -> bool {
        out is Some && self.0.step(context, out->0, next.0, after)
    }

    fn generate(&mut self, context: C) -> (r: (Option<T::Output>, C)) {
        let (value, context) = self.0.generate(context);
        (Some(value), context)
    }
}

impl<C, T, U> GeneratorWithPersianRug<C> for Sample<T, U> where
    T: GeneratorWithPersianRug<C>,
    U: GeneratorWithPersianRug<C, Output = usize>,
 {
    type Output = Vec<T::Output>;

    /// The next sample can be made where the next size can be, and as many
    /// values as any size that it may be.
    open spec fn ready(&self, context: C) -> bool {
        self.count.ready(context) && forall|count: usize, next: U, between: C| #[trigger]
            self.count.step(context, count, next, between) ==> runs(
                self.value,
                between,
                count as nat,
            )
    }

    /// The size is made first, then the values one after the other, each in
    /// the context that the one before left.
    open spec fn step(&self, context: C, out: Vec<T::Output>, next: Self, after: C) -> bool {
        exists|between: C| #[trigger]
            self.count.step(context, out@.len() as usize, next.count, between) && out@.len()
                <= usize::MAX && steps(self.value, between, out@, next.value, after)
    }

    fn generate(&mut self, context: C) -> (r: (Vec<T::Output>, C)) {
        let (count, between) = self.count.generate(context);
        let (items, after) = draw_in_context(&mut self.value, between, count);
        assert(old(self).count.step(context, items@.len() as usize, self.count, between));
        (items, after)
    }
}

} // verus!
