//! Context-aware generators.

use crate::generator::BoxedGenerator;
use crate::persian_rug::table::Proxy;
use vstd::prelude::*;

verus! {

/// Something that makes a sequence of values of some type in a context. The
/// context is taken and handed back at every step.
///
/// `ready` says in which contexts the next value can be made, and `step`
/// which value may be made, with the generator and the context it leaves.
pub trait GeneratorWithPersianRug<C>: Sized {
    /// The type of the values made.
    type Output;

    /// Whether the next value can be made in `context`. A generator that
    /// does not say can make it in any.
    open spec fn ready(&self, context: C) -> bool {
        true
    }

    /// Whether making the next value in `context` may give `out`, and leave
    /// the generator as `next` and the context as `after`. A generator that
    /// does not say may give and leave anything.
    open spec fn step(&self, context: C, out: Self::Output, next: Self, after: C) -> bool {
        true
    }

    /// Makes the next value.
    fn generate(&mut self, context: C) -> (r: (Self::Output, C))
        requires
            old(self).ready(context),
        ensures
            old(self).step(context, r.0, *final(self), r.1),
    ;
}

/// A type that has a context-aware generator of its own.
///
/// Nothing implements it directly: a record that implements
/// [`MiniGeneratableWithPersianRug`] for itself has it, and so has the record
/// inside each of the layers for which it implements that trait.
pub trait GeneratableWithPersianRug<C>: Sized + BoulderBase {
    /// The generator of this type.
    type Generator: GeneratorWithPersianRug<C, Output = Self>;

    /// Whether `generator` may be the new generator of this type. A type
    /// that does not say may hand out any.
    open spec fn is_new_generator(generator: Self::Generator) -> bool {
        true
    }

    /// A new generator, with every field's rule at its default.
    fn generator() -> (generator: Self::Generator)
        ensures
            Self::is_new_generator(generator),
    ;
}

/// A type that says which record is inside it.
pub trait BoulderBase {
    /// The record inside.
    type Base;
}

/// A type with a context-aware generator, given the record `T` that is
/// inside it.
pub trait MiniGeneratableWithPersianRug<T, C>: Sized {
    /// The generator of this type.
    type Generator: GeneratorWithPersianRug<C, Output = Self>;

    /// Whether `generator` may be the new generator of this type. A type
    /// that does not say may hand out any.
    open spec fn is_new(generator: Self::Generator) -> bool {
        true
    }

    /// A new generator, with every field's rule at its default.
    fn mini_generator() -> (generator: Self::Generator)
        ensures
            Self::is_new(generator),
    ;
}

impl<T, C> GeneratableWithPersianRug<C> for T where
    T: BoulderBase,
    T: MiniGeneratableWithPersianRug<<T as BoulderBase>::Base, C>,
 {
    type Generator = <T as MiniGeneratableWithPersianRug<<T as BoulderBase>::Base, C>>::Generator;

    /// The new generator of a type is the one it has for the record inside
    /// it.
    open spec fn is_new_generator(generator: Self::Generator) -> bool {
        <T as MiniGeneratableWithPersianRug<<T as BoulderBase>::Base, C>>::is_new(generator)
    }

    fn generator() -> (generator: Self::Generator) {
        <T as MiniGeneratableWithPersianRug<<T as BoulderBase>::Base, C>>::mini_generator()
    }
}

impl<C, G: GeneratorWithPersianRug<C>> GeneratorWithPersianRug<C> for BoxedGenerator<G> {
    type Output = Box<G::Output>;

    open spec fn ready(&self, context: C) -> bool {
        self.0.ready(context)
    }

    /// What is in the box is what the generator inside makes.
    open spec fn step(&self, context: C, out: Box<G::Output>, next: Self, after: C) -> bool {
        self.0.step(context, *out, next.0, after)
    }

    fn generate(&mut self, context: C) -> (r: (Box<G::Output>, C)) {
        let (result, context) = self.0.generate(context);
        (Box::new(result), context)
    }
}

impl<T, C, X: MiniGeneratableWithPersianRug<T, C>> MiniGeneratableWithPersianRug<T, C> for Box<
    X,
> {
    type Generator = BoxedGenerator<X::Generator>;

    /// The new generator of records on the heap holds a new generator of the
    /// record.
    open spec fn is_new(generator: Self::Generator) -> bool {
        X::is_new(generator.0)
    }

    fn mini_generator() -> (generator: Self::Generator) {
        BoxedGenerator(X::mini_generator())
    }
}

impl<T> BoulderBase for Option<T> where T: BoulderBase {
    type Base = <T as BoulderBase>::Base;
}

impl<T> BoulderBase for std::rc::Rc<T> where T: BoulderBase {
    type Base = <T as BoulderBase>::Base;
}

impl<T> BoulderBase for std::sync::Arc<T> where T: BoulderBase {
    type Base = <T as BoulderBase>::Base;
}

impl<T> BoulderBase for Box<T> where T: BoulderBase {
    type Base = <T as BoulderBase>::Base;
}

impl<T> BoulderBase for std::cell::Cell<T> where T: BoulderBase {
    type Base = <T as BoulderBase>::Base;
}

impl<T> BoulderBase for std::cell::RefCell<T> where T: BoulderBase {
    type Base = <T as BoulderBase>::Base;
}

impl<T> BoulderBase for std::sync::Mutex<T> where T: BoulderBase {
    type Base = <T as BoulderBase>::Base;
}

impl<T> BoulderBase for Proxy<T> where T: BoulderBase {
    type Base = <T as BoulderBase>::Base;
}

/// Whether `n` values can be made one after the other, starting in
/// `context`, whatever the steps on the way give.
pub open spec fn runs<C, G: GeneratorWithPersianRug<C>>(generator: G, context: C, n: nat) -> bool
    decreases n,
{
    n == 0 || (generator.ready(context) && forall|out: G::Output, next: G, after: C| #[trigger]
        generator.step(context, out, next, after) ==> runs(next, after, (n - 1) as nat))
}

/// Whether making values one after the other, starting in `context`, may
/// give `outs` in this order, and leave the generator as `last` and the
/// context as `after`.
pub open spec fn steps<C, G: GeneratorWithPersianRug<C>>(
    generator: G,
    context: C,
    outs: Seq<G::Output>,
    last: G,
    after: C,
) -> bool
    decreases outs.len(),
{
    if outs.len() == 0 {
        last == generator && after == context
    } else {
        exists|middle: G, between: C|
            steps(generator, context, outs.drop_last(), middle, between) && #[trigger] middle.step(
                between,
                outs.last(),
                last,
                after,
            )
    }
}

/// Draws `n` values from a generator, in order, each in the context that the
/// one before left.
pub fn draw_in_context<C, G: GeneratorWithPersianRug<C>>(
    generator: &mut G,
    context: C,
    n: usize,
) -> (r: (Vec<G::Output>, C))
    requires
        runs(*old(generator), context, n as nat),
    ensures
        r.0@.len() == n,
        steps(*old(generator), context, r.0@, *final(generator), r.1),
{
    let ghost start = *generator;
    let ghost first = context;
    let mut context = context;
    let mut out: Vec<G::Output> = Vec::new();
    let mut i: usize = 0;
    while i < n
        invariant
            i <= n,
            out@.len() == i,
            runs(*generator, context, (n - i) as nat),
            steps(start, first, out@, *generator, context),
        decreases n - i,
    {
        let ghost before = *generator;
        let ghost between = context;
        let ghost so_far = out@;
        let (value, after) = generator.generate(context);
        context = after;
        out.push(value);
        assert(out@.drop_last() =~= so_far);
        assert(before.step(between, out@.last(), *generator, context));
        i = i + 1;
    }
    (out, context)
}

} // verus!
