//! Builders: things that make one value of some type.

use vstd::prelude::*;

verus! {

/// `std::cell::Cell`. Nothing is known of what is inside.
#[verifier::external_type_specification]
#[verifier::external_body]
#[verifier::reject_recursive_types(T)]
pub struct ExCell<T: ?Sized>(std::cell::Cell<T>);

/// `std::cell::RefCell`. Nothing is known of what is inside.
#[verifier::external_type_specification]
#[verifier::external_body]
#[verifier::reject_recursive_types(T)]
pub struct ExRefCell<T: ?Sized>(std::cell::RefCell<T>);

/// `std::sync::Mutex`. Nothing is known of what is inside.
#[verifier::external_type_specification]
#[verifier::external_body]
#[verifier::reject_recursive_types(T)]
pub struct ExMutex<T: ?Sized>(std::sync::Mutex<T>);

/// Something that makes a value of some type, and is used up by making it.
///
/// A derived builder has a method for each field of the record it makes,
/// which sets that field; a field that was not set gets its default.
pub trait Builder: Sized {
    /// The type of the value made.
    type Result;

    /// Whether `out` may be the value made. A builder that does not say may
    /// make any value.
    open spec fn builds(self, out: Self::Result) -> bool {
        true
    }

    /// Makes the value.
    fn build(self) -> (out: Self::Result)
        ensures
            self.builds(out),
    ;
}

/// A type that has a builder of its own.
///
/// Nothing implements it directly: a record that implements
/// [`MiniBuildable`] for itself has it, and so has the record inside each of
/// the layers for which it implements [`MiniBuildable`].
pub trait Buildable: Sized + BoulderBase {
    /// The builder of this type.
    type Builder: Builder<Result = Self>;

    /// Whether `builder` may be the new builder of this type. A type that
    /// does not say may hand out any.
    open spec fn is_new_builder(builder: Self::Builder) -> bool {
        true
    }

    /// A new builder, with every field at its default.
    fn builder() -> (builder: Self::Builder)
        ensures
            Self::is_new_builder(builder),
    ;
}

/// A type that says which record is inside it: the record itself for a
/// record, and what the type inside says for a layer around it.
pub trait BoulderBase {
    /// The record inside.
    type Base;
}

/// A type with a builder, given the record `T` that is inside it.
pub trait MiniBuildable<T>: Sized {
    /// The builder of this type.
    type Builder: Builder<Result = Self>;

    /// Whether `builder` may be the new builder of this type. A type that
    /// does not say may hand out any.
    open spec fn is_new(builder: Self::Builder) -> bool {
        true
    }

    /// A new builder, with every field at its default.
    fn mini_builder() -> (builder: Self::Builder)
        ensures
            Self::is_new(builder),
    ;
}

impl<T> Buildable for T where T: BoulderBase, T: MiniBuildable<<T as BoulderBase>::Base> {
    type Builder = <T as MiniBuildable<<T as BoulderBase>::Base>>::Builder;

    /// The new builder of a type is the one it has for the record inside it.
    open spec fn is_new_builder(builder: Self::Builder) -> bool {
        <T as MiniBuildable<<T as BoulderBase>::Base>>::is_new(builder)
    }

    fn builder() -> (builder: Self::Builder) {
        <T as MiniBuildable<<T as BoulderBase>::Base>>::mini_builder()
    }
}

/// The builder of a record on the heap: it builds the record and boxes it.
pub struct BoxedBuilder<B>(pub B);

impl<B> BoxedBuilder<B> {
    /// The builder with the builder inside changed by `change`: this is how
    /// the fields of a record on the heap are set.
    pub fn with<F: FnOnce(B) -> B>(self, change: F) -> (r: Self)
        requires
            call_requires(change, (self.0,)),
        ensures
            call_ensures(change, (self.0,), r.0),
    {
        BoxedBuilder(change(self.0))
    }
}

impl<B: Builder> Builder for BoxedBuilder<B> {
    type Result = Box<B::Result>;

    /// What is in the box is what the builder inside builds.
    open spec fn builds(self, out: Box<B::Result>) -> bool {
        self.0.builds(*out)
    }

    fn build(self) -> (out: Box<B::Result>) {
        Box::new(self.0.build())
    }
}

impl<T, X: MiniBuildable<T>> MiniBuildable<T> for Box<X> {
    type Builder = BoxedBuilder<X::Builder>;

    /// The new builder of a record on the heap holds a new builder of the
    /// record.
    open spec fn is_new(builder: Self::Builder) -> bool {
        X::is_new(builder.0)
    }

    fn mini_builder() -> (builder: Self::Builder) {
        BoxedBuilder(X::mini_builder())
    }
}

impl<T> BoulderBase for Option<T> where T: BoulderBase {
    type Base = <T as BoulderBase>::Base;
}

impl<T> BoulderBase for std::rc::Rc<T> where T: BoulderBase {
    type Base = <T as BoulderBase>::Base;
}

impl<T> BoulderBase for std::sync::Arc<T> where T: BoulderBase {
    type Base = <T as BoulderBase>::Base;
}

impl<T> BoulderBase for Box<T> where T: BoulderBase {
    type Base = <T as BoulderBase>::Base;
}

impl<T> BoulderBase for std::cell::Cell<T> where T: BoulderBase {
    type Base = <T as BoulderBase>::Base;
}

impl<T> BoulderBase for std::cell::RefCell<T> where T: BoulderBase {
    type Base = <T as BoulderBase>::Base;
}

impl<T> BoulderBase for std::sync::Mutex<T> where T: BoulderBase {
    type Base = <T as BoulderBase>::Base;
}

} // verus!
