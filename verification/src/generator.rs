//! Generators: things that make one value of some type after the other.

use vstd::prelude::*;

verus! {

/// Something that makes a sequence of values of some type.
///
/// A generator stands for the sequence of values it is going to make.
/// `yields_at(k, v)` says that `v` may be the value made `k` steps from now,
/// and `can_yield(n)` that `n` more values can be made. Making a value shifts
/// both by one.
///
/// A derived generator has a method for each field of the record it makes,
/// which replaces that field's rule; a field whose rule was not replaced
/// follows its default.
pub trait Generator {
    /// The type of the values made.
    type Output;

    /// Whether `n` more values can be made. A generator that does not say
    /// can always make more.
    open spec fn can_yield(&self, n: nat) -> bool {
        true
    }

    /// Whether `out` may be the value made `k` steps from now. A generator
    /// that does not say may make any value.
    open spec fn yields_at(&self, k: nat, out: Self::Output) -> bool {
        true
    }

    /// Makes the next value.
    fn generate(&mut self) -> (out: Self::Output)
        requires
            old(self).can_yield(1),
        ensures
            old(self).yields_at(0, out),
            forall|k: nat, o: Self::Output| #[trigger]
                final(self).yields_at(k, o) ==> old(self).yields_at(k + 1, o),
            forall|n: nat| old(self).can_yield(n + 1) ==> #[trigger] final(self).can_yield(n),
    ;
}

/// A type that has a generator of its own.
///
/// Nothing implements it directly: a record that implements
/// [`MiniGeneratable`] for itself has it, and so has the record inside each
/// of the layers for which it implements [`MiniGeneratable`].
pub trait Generatable: Sized + BoulderBase {
    /// The generator of this type.
    type Generator: Generator<Output = Self>;

    /// Whether `generator` may be the new generator of this type. A type
    /// that does not say may hand out any.
    open spec fn is_new_generator(generator: Self::Generator) -> bool {
        true
    }

    /// A new generator, with every field's rule at its default.
    fn generator() -> (generator: Self::Generator)
        ensures
            Self::is_new_generator(generator),
    ;
}

/// A type that says which record is inside it.
pub trait BoulderBase {
    /// The record inside.
    type Base;
}

/// A type with a generator, given the record `T` that is inside it.
pub trait MiniGeneratable<T>: Sized {
    /// The generator of this type.
    type Generator: Generator<Output = Self>;

    /// Whether `generator` may be the new generator of this type. A type
    /// that does not say may hand out any.
    open spec fn is_new(generator: Self::Generator) -> bool {
        true
    }

    /// A new generator, with every field's rule at its default.
    fn mini_generator() -> (generator: Self::Generator)
        ensures
            Self::is_new(generator),
    ;
}

impl<T> Generatable for T where T: BoulderBase, T: MiniGeneratable<<T as BoulderBase>::Base> {
    type Generator = <T as MiniGeneratable<<T as BoulderBase>::Base>>::Generator;

    /// The new generator of a type is the one it has for the record inside
    /// it.
    open spec fn is_new_generator(generator: Self::Generator) -> bool {
        <T as MiniGeneratable<<T as BoulderBase>::Base>>::is_new(generator)
    }

    fn generator() -> (generator: Self::Generator) {
        <T as MiniGeneratable<<T as BoulderBase>::Base>>::mini_generator()
    }
}

/// The generator of records on the heap: it generates a record and boxes
/// it.
pub struct BoxedGenerator<G>(pub G);

impl<G: Generator> Generator for BoxedGenerator<G> {
    type Output = Box<G::Output>;

    open spec fn can_yield(&self, n: nat) -> bool {
        self.0.can_yield(n)
    }

    /// What is in the box is what the generator inside makes.
    open spec fn yields_at(&self, k: nat, out: Box<G::Output>) -> bool {
        self.0.yields_at(k, *out)
    }

    fn generate(&mut self) -> (out: Box<G::Output>) {
        Box::new(self.0.generate())
    }
}

impl<T, X: MiniGeneratable<T>> MiniGeneratable<T> for Box<X> {
    type Generator = BoxedGenerator<X::Generator>;

    /// The new generator of records on the heap holds a new generator of the
    /// record.
    open spec fn is_new(generator: Self::Generator) -> bool {
        X::is_new(generator.0)
    }

    fn mini_generator() -> (generator: Self::Generator) {
        BoxedGenerator(X::mini_generator())
    }
}

impl<T> BoulderBase for Option<T> where T: BoulderBase {
    type Base = <T as BoulderBase>::Base;
}

impl<T> BoulderBase for std::rc::Rc<T> where T: BoulderBase {
    type Base = <T as BoulderBase>::Base;
}

impl<T> BoulderBase for std::sync::Arc<T> where T: BoulderBase {
    type Base = <T as BoulderBase>::Base;
}

impl<T> BoulderBase for Box<T> where T: BoulderBase {
    type Base = <T as BoulderBase>::Base;
}

impl<T> BoulderBase for std::cell::Cell<T> where T: BoulderBase {
    type Base = <T as BoulderBase>::Base;
}

impl<T> BoulderBase for std::cell::RefCell<T> where T: BoulderBase {
    type Base = <T as BoulderBase>::Base;
}

impl<T> BoulderBase for std::sync::Mutex<T> where T: BoulderBase {
    type Base = <T as BoulderBase>::Base;
}

/// Whether every number of values from one to `n` can be made.
pub open spec fn can_yield_up_to<G: Generator>(generator: G, n: nat) -> bool {
    forall|m: nat| 1 <= m <= n ==> #[trigger] generator.can_yield(m)
}

/// Draws `n` values from a generator, in order.
pub fn draw<G: Generator>(generator: &mut G, n: usize) -> (out: Vec<G::Output>)
    requires
        can_yield_up_to(*old(generator), n as nat),
    ensures
        out@.len() == n,
        forall|i: int| 0 <= i < n ==> old(generator).yields_at(i as nat, #[trigger] out@[i]),
        forall|k: nat, o: G::Output| #[trigger]
            final(generator).yields_at(k, o) ==> old(generator).yields_at((k + n) as nat, o),
        forall|m: nat| old(generator).can_yield((m + n) as nat) ==> #[trigger] final(generator).can_yield(m),
{
    let ghost start = *generator;
    let mut out: Vec<G::Output> = Vec::new();
    let mut i: usize = 0;
    while i < n
        invariant
            i <= n,
            out@.len() == i,
            can_yield_up_to(*generator, (n - i) as nat),
            forall|j: int| 0 <= j < i ==> start.yields_at(j as nat, #[trigger] out@[j]),
            forall|k: nat, o: G::Output| #[trigger]
                generator.yields_at(k, o) ==> start.yields_at((k + i) as nat, o),
            forall|m: nat| start.can_yield((m + i) as nat) ==> #[trigger] generator.can_yield(m),
        decreases n - i,
    {
        let ghost before = *generator;
        assert(before.can_yield(1));
        let value = generator.generate();
        assert(start.yields_at(i as nat, value));
        assert forall|m: nat| 1 <= m <= n - i - 1 implies #[trigger] generator.can_yield(m) by {
            assert(before.can_yield(m + 1));
        }
        assert forall|k: nat, o: G::Output| #[trigger] generator.yields_at(k, o) implies start.yields_at(
            (k + i + 1) as nat,
            o,
        ) by {
            assert(before.yields_at(k + 1, o));
        }
        assert forall|m: nat| start.can_yield((m + i + 1) as nat) implies #[trigger] generator.can_yield(
            m,
        ) by {
            assert(before.can_yield(m + 1));
        }
        out.push(value);
        i = i + 1;
    }
    out
}

/// An endless run of values that owns its generator.
pub struct GeneratorIterator<T> {
    gen: T,
}

impl<T> GeneratorIterator<T> {
    /// The generator inside.
    pub closed spec fn generator(&self) -> T {
        self.gen
    }

    /// A run of the values that the generator is going to make.
    pub fn new(generator: T) -> (iter: Self)
        ensures
            iter.generator() == generator,
    {
        Self { gen: generator }
    }

    /// Gives the generator back.
    pub fn into_inner(self) -> (generator: T)
        ensures
            generator == self.generator(),
    {
        self.gen
    }
}

impl<T: Generator> GeneratorIterator<T> {
    /// The next value, which is always there.
    pub fn next(&mut self) -> (out: Option<T::Output>)
        requires
            old(self).generator().can_yield(1),
        ensures
            out is Some,
            old(self).generator().yields_at(0, out->0),
            forall|k: nat, o: T::Output| #[trigger]
                final(self).generator().yields_at(k, o) ==> old(self).generator().yields_at(
                    k + 1,
                    o,
                ),
            forall|n: nat|
                old(self).generator().can_yield(n + 1) ==> #[trigger] final(self).generator().can_yield(n),
    {
        Some(self.gen.generate())
    }

    /// The next `n` values, in order.
    pub fn take(self, n: usize) -> (out: Vec<T::Output>)
        requires
            can_yield_up_to(self.generator(), n as nat),
        ensures
            out@.len() == n,
            forall|i: int| 0 <= i < n ==> self.generator().yields_at(i as nat, #[trigger] out@[i]),
    {
        let mut iter = self;
        draw(&mut iter.gen, n)
    }
}

/// An endless run of values that borrows its generator.
pub struct GeneratorMutIterator<'a, T> {
    pub gen: &'a mut T,
}

impl<'a, T> GeneratorMutIterator<'a, T> {
    /// A run of the values that the generator is going to make. The
    /// generator is left where the run ends.
    pub fn new(generator: &'a mut T) -> (iter: Self)
        ensures
            *iter.gen == *old(generator),
            *final(iter.gen) == *final(generator),
    {
        Self { gen: generator }
    }
}

impl<'a, T: Generator> GeneratorMutIterator<'a, T> {
    /// The next value, which is always there.
    pub fn next(&mut self) -> (out: Option<T::Output>)
        requires
            old(self).gen.can_yield(1),
        ensures
            out is Some,
            old(self).gen.yields_at(0, out->0),
            forall|k: nat, o: T::Output| #[trigger]
                final(self).gen.yields_at(k, o) ==> old(self).gen.yields_at(k + 1, o),
            forall|n: nat| old(self).gen.can_yield(n + 1) ==> #[trigger] final(self).gen.can_yield(n),
            *final(final(self).gen) == *final(old(self).gen),
    {
        Some(self.gen.generate())
    }

    /// The next `n` values, in order.
    pub fn take(self, n: usize) -> (out: Vec<T::Output>)
        requires
            can_yield_up_to(*self.gen, n as nat),
        ensures
            out@.len() == n,
            forall|i: int| 0 <= i < n ==> old(self.gen).yields_at(i as nat, #[trigger] out@[i]),
            forall|k: nat, o: T::Output| #[trigger]
                final(self.gen).yields_at(k, o) ==> old(self.gen).yields_at((k + n) as nat, o),
            forall|m: nat|
                old(self.gen).can_yield((m + n) as nat) ==> #[trigger] final(self.gen).can_yield(m),
    {
        draw(self.gen, n)
    }
}

} // verus!
