//! Context-aware builders.

use crate::builder::BoxedBuilder;
use crate::persian_rug::table::Proxy;
use vstd::prelude::*;

verus! {

/// Something that makes a value of some type in a context, and is used up by
/// making it. The context is taken and handed back, so that no two parts of
/// a build hold it at once.
pub trait BuilderWithPersianRug<C>: Sized {
    /// The type of the value made.
    type Result;

    /// Whether building in the context `before` may make `out` and leave the
    /// context `after`. A builder that does not say may make and leave
    /// anything.
    open spec fn builds_in(self, before: C, out: Self::Result, after: C) -> bool {
        true
    }

    /// Makes the value.
    fn build(self, context: C) -> (r: (Self::Result, C))
        ensures
            self.builds_in(context, r.0, r.1),
    ;
}

/// A type that has a context-aware builder of its own.
///
/// Nothing implements it directly: a record that implements
/// [`MiniBuildableWithPersianRug`] for itself has it, and so has the record
/// inside each of the layers for which it implements that trait.
pub trait BuildableWithPersianRug<C>: Sized + BoulderBase {
    /// The builder of this type.
    type Builder: BuilderWithPersianRug<C, Result = Self>;

    /// Whether `builder` may be the new builder of this type. A type that
    /// does not say may hand out any.
    open spec fn is_new_builder(builder: Self::Builder) -> bool {
        true
    }

    /// A new builder, with every field unset.
    fn builder() -> (builder: Self::Builder)
        ensures
            Self::is_new_builder(builder),
    ;
}

/// A type that says which record is inside it.
pub trait BoulderBase {
    /// The record inside.
    type Base;
}

/// A type with a context-aware builder, given the record `T` that is inside
/// it.
pub trait MiniBuildableWithPersianRug<T, C>: Sized {
    /// The builder of this type.
    type Builder: BuilderWithPersianRug<C, Result = Self>;

    /// Whether `builder` may be the new builder of this type. A type that
    /// does not say may hand out any.
    open spec fn is_new(builder: Self::Builder) -> bool {
        true
    }

    /// A new builder, with every field unset.
    fn mini_builder() -> (builder: Self::Builder)
        ensures
            Self::is_new(builder),
    ;
}

impl<T, C> BuildableWithPersianRug<C> for T where
    T: BoulderBase,
    T: MiniBuildableWithPersianRug<<T as BoulderBase>::Base, C>,
 {
    type Builder = <T as MiniBuildableWithPersianRug<<T as BoulderBase>::Base, C>>::Builder;

    /// The new builder of a type is the one it has for the record inside it.
    open spec fn is_new_builder(builder: Self::Builder) -> bool {
        <T as MiniBuildableWithPersianRug<<T as BoulderBase>::Base, C>>::is_new(builder)
    }

    fn builder() -> (builder: Self::Builder) {
        <T as MiniBuildableWithPersianRug<<T as BoulderBase>::Base, C>>::mini_builder()
    }
}

/// A record to which a handle can be built.
///
/// Nothing implements it directly: a record has it where the handle to it
/// has a builder.
pub trait ProxyBuildableWithPersianRug<C>: Sized {
    /// The builder of handles to this record.
    type Builder: BuilderWithPersianRug<C, Result = Proxy<Self>>;

    /// Whether `builder` may be the new builder of handles to this record.
    open spec fn is_new_proxy_builder(builder: Self::Builder) -> bool {
        true
    }

    /// A new builder of handles to this record.
    fn proxy_builder() -> (builder: Self::Builder)
        ensures
            Self::is_new_proxy_builder(builder),
    ;
}

impl<C, T> ProxyBuildableWithPersianRug<C> for T where Proxy<T>: BuildableWithPersianRug<C> {
    type Builder = <Proxy<T> as BuildableWithPersianRug<C>>::Builder;

    /// The new builder of handles to a record is the new builder that the
    /// handle has.
    open spec fn is_new_proxy_builder(builder: Self::Builder) -> bool {
        <Proxy<T> as BuildableWithPersianRug<C>>::is_new_builder(builder)
    }

    fn proxy_builder() -> (builder: Self::Builder) {
        <Proxy<T> as BuildableWithPersianRug<C>>::builder()
    }
}

/// A record that can be built as an optional value.
///
/// Nothing implements it directly: a record has it where the optional
/// record has a builder.
pub trait OptionBuildableWithPersianRug<C>: Sized {
    /// The builder of optional records.
    type Builder: BuilderWithPersianRug<C, Result = Option<Self>>;

    /// Whether `builder` may be the new builder of optional records.
    open spec fn is_new_option_builder(builder: Self::Builder) -> bool {
        true
    }

    /// A new builder of optional records.
    fn option_builder() -> (builder: Self::Builder)
        ensures
            Self::is_new_option_builder(builder),
    ;
}

impl<C, T> OptionBuildableWithPersianRug<C> for T where Option<T>: BuildableWithPersianRug<C> {
    type Builder = <Option<T> as BuildableWithPersianRug<C>>::Builder;

    /// The new builder of optional records is the new builder that the
    /// optional record has.
    open spec fn is_new_option_builder(builder: Self::Builder) -> bool {
        <Option<T> as BuildableWithPersianRug<C>>::is_new_builder(builder)
    }

    fn option_builder() -> (builder: Self::Builder) {
        <Option<T> as BuildableWithPersianRug<C>>::builder()
    }
}

/// A record to which an optional handle can be built.
///
/// Nothing implements it directly: a record has it where the optional
/// handle to it has a builder.
pub trait OptionProxyBuildableWithPersianRug<C>: Sized {
    /// The builder of optional handles to this record.
    type Builder: BuilderWithPersianRug<C, Result = Option<Proxy<Self>>>;

    /// Whether `builder` may be the new builder of optional handles.
    open spec fn is_new_option_proxy_builder(builder: Self::Builder) -> bool {
        true
    }

    /// A new builder of optional handles to this record.
    fn option_proxy_builder() -> (builder: Self::Builder)
        ensures
            Self::is_new_option_proxy_builder(builder),
    ;
}

impl<C, T> OptionProxyBuildableWithPersianRug<C> for T where
    Option<Proxy<T>>: BuildableWithPersianRug<C>,
 {
    type Builder = <Option<Proxy<T>> as BuildableWithPersianRug<C>>::Builder;

    /// The new builder of optional handles to a record is the new builder
    /// that the optional handle has.
    open spec fn is_new_option_proxy_builder(builder: Self::Builder) -> bool {
        <Option<Proxy<T>> as BuildableWithPersianRug<C>>::is_new_builder(builder)
    }

    fn option_proxy_builder() -> (builder: Self::Builder) {
        <Option<Proxy<T>> as BuildableWithPersianRug<C>>::builder()
    }
}

impl<C, B: BuilderWithPersianRug<C>> BuilderWithPersianRug<C> for BoxedBuilder<B> {
    type Result = Box<B::Result>;

    /// What is in the box is what the builder inside builds, and the context
    /// is as the builder inside leaves it.
    open spec fn builds_in(self, before: C, out: Box<B::Result>, after: C) -> bool {
        self.0.builds_in(before, *out, after)
    }

    fn build(self, context: C) -> (r: (Box<B::Result>, C)) {
        let (result, context) = self.0.build(context);
        (Box::new(result), context)
    }
}

impl<T, C, X: MiniBuildableWithPersianRug<T, C>> MiniBuildableWithPersianRug<T, C> for Box<X> {
    type Builder = BoxedBuilder<X::Builder>;

    /// The new builder of a record on the heap holds a new builder of the
    /// record.
    open spec fn is_new(builder: Self::Builder) -> bool {
        X::is_new(builder.0)
    }

    fn mini_builder() -> (builder: Self::Builder) {
        BoxedBuilder(X::mini_builder())
    }
}

impl<T> BoulderBase for Option<T> where T: BoulderBase {
    type Base = <T as BoulderBase>::Base;
}

impl<T> BoulderBase for std::rc::Rc<T> where T: BoulderBase {
    type Base = <T as BoulderBase>::Base;
}

impl<T> BoulderBase for std::sync::Arc<T> where T: BoulderBase {
    type Base = <T as BoulderBase>::Base;
}

impl<T> BoulderBase for Box<T> where T: BoulderBase {
    type Base = <T as BoulderBase>::Base;
}

impl<T> BoulderBase for std::cell::Cell<T> where T: BoulderBase {
    type Base = <T as BoulderBase>::Base;
}

impl<T> BoulderBase for std::cell::RefCell<T> where T: BoulderBase {
    type Base = <T as BoulderBase>::Base;
}

impl<T> BoulderBase for std::sync::Mutex<T> where T: BoulderBase {
    type Base = <T as BoulderBase>::Base;
}

impl<T> BoulderBase for Proxy<T> where T: BoulderBase {
    type Base = <T as BoulderBase>::Base;
}

} // verus!
