//! The layers that can stand around a record, and how each is put back on.
//!
//! A builder or generator for a wrapped record makes the record inside and
//! then puts the layer around it. One rule per layer is enough: a record
//! inside several layers is made by peeling the outermost layer, making what
//! is inside, and putting that layer back.
//!
//! The heap box is not among the layers here: its rule cannot be written
//! where the record is declared, so the library has it once for all records.

use crate::derive::element::fill1;
use crate::derive::element::fill2;
use crate::derive::persian_rug::element::ACCESS;
use crate::derive::template::filled;
use crate::derive::text::owned;
use vstd::prelude::*;

verus! {

/// One layer around a record.
#[derive(Clone, Copy, PartialEq, Eq, Structural)]
pub enum Wrapper {
    /// A value that may be absent; a built one is always present.
    Option,
    /// Shared ownership within one thread.
    Rc,
    /// Shared ownership across threads.
    Arc,
    /// Interior mutability without borrow checks.
    Cell,
    /// Interior mutability with borrow checks at run time.
    RefCell,
    /// A lock.
    Mutex,
    /// A handle into the context that holds the record.
    Proxy,
}

impl Wrapper {
    /// The path of the layer's type.
    pub open spec fn type_path(self) -> Seq<char> {
        match self {
            Wrapper::Option => "Option"@,
            Wrapper::Rc => "::std::rc::Rc"@,
            Wrapper::Arc => "::std::sync::Arc"@,
            Wrapper::Cell => "::std::cell::Cell"@,
            Wrapper::RefCell => "::std::cell::RefCell"@,
            Wrapper::Mutex => "::std::sync::Mutex"@,
            Wrapper::Proxy => "::boulder::persian_rug::Proxy"@,
        }
    }

    /// The function that puts the layer around a value. The handle's takes
    /// the context besides, and stands in the context-aware templates.
    pub open spec fn constructor(self) -> Seq<char> {
        match self {
            Wrapper::Option => "Some"@,
            Wrapper::Rc => "::std::rc::Rc::new"@,
            Wrapper::Arc => "::std::sync::Arc::new"@,
            Wrapper::Cell => "::std::cell::Cell::new"@,
            Wrapper::RefCell => "::std::cell::RefCell::new"@,
            Wrapper::Mutex => "::std::sync::Mutex::new"@,
            Wrapper::Proxy => "::boulder::persian_rug::Owner::add"@,
        }
    }

    /// The path of the layer's type.
    pub fn path(self) -> (s: String)
        ensures
            s@ == self.type_path(),
    {
        match self {
            Wrapper::Option => owned("Option"),
            Wrapper::Rc => owned("::std::rc::Rc"),
            Wrapper::Arc => owned("::std::sync::Arc"),
            Wrapper::Cell => owned("::std::cell::Cell"),
            Wrapper::RefCell => owned("::std::cell::RefCell"),
            Wrapper::Mutex => owned("::std::sync::Mutex"),
            Wrapper::Proxy => owned("::boulder::persian_rug::Proxy"),
        }
    }

    /// The function that puts the layer around a value.
    pub fn wrap(self) -> (s: String)
        ensures
            s@ == self.constructor(),
    {
        match self {
            Wrapper::Option => owned("Some"),
            Wrapper::Rc => owned("::std::rc::Rc::new"),
            Wrapper::Arc => owned("::std::sync::Arc::new"),
            Wrapper::Cell => owned("::std::cell::Cell::new"),
            Wrapper::RefCell => owned("::std::cell::RefCell::new"),
            Wrapper::Mutex => owned("::std::sync::Mutex::new"),
            Wrapper::Proxy => owned("::boulder::persian_rug::Owner::add"),
        }
    }
}

/// The layers that need no context, in the order in which their rules are
/// written out.
pub open spec fn plain_layers() -> Seq<Wrapper> {
    seq![
        Wrapper::Option,
        Wrapper::Rc,
        Wrapper::Arc,
        Wrapper::Cell,
        Wrapper::RefCell,
        Wrapper::Mutex,
    ]
}

/// The layers that need no context.
pub fn layers() -> (v: Vec<Wrapper>)
    ensures
        v@ == plain_layers(),
{
    let mut v: Vec<Wrapper> = Vec::new();
    v.push(Wrapper::Option);
    v.push(Wrapper::Rc);
    v.push(Wrapper::Arc);
    v.push(Wrapper::Cell);
    v.push(Wrapper::RefCell);
    v.push(Wrapper::Mutex);
    assert(v@ =~= plain_layers());
    v
}

/// A layer put on by `$a` around `result`, with the context untouched.
pub const REWRAP: &'static str = "($a(result), context)";

/// The handle of `result`, which is put into the context.
pub const REWRAP_HANDLE: &'static str =
    "(::boulder::persian_rug::Owner::add(&mut context, result), context)";

impl Wrapper {
    /// The expression that puts the layer around `result` where a context is
    /// at hand, and is worth the wrapped value and the context. The handle
    /// is the one layer that changes the context: it adds the record to it.
    pub open spec fn rewrap_text(self) -> Seq<char> {
        if self == Wrapper::Proxy {
            REWRAP_HANDLE@
        } else {
            filled(REWRAP@, seq![self.constructor()])
        }
    }

    /// What the layer needs of the context: the handle needs it to hold
    /// records of the type `held`, the others need nothing.
    pub open spec fn needs_text(self, context: Seq<char>, held: Seq<char>) -> Seq<char> {
        if self == Wrapper::Proxy {
            filled(ACCESS@, seq![context, held])
        } else {
            Seq::empty()
        }
    }

    /// The expression that puts the layer around `result` where a context is
    /// at hand.
    pub fn rewrap(self) -> (s: String)
        ensures
            s@ == self.rewrap_text(),
    {
        if self == Wrapper::Proxy {
            owned(REWRAP_HANDLE)
        } else {
            let made = self.wrap();
            fill1(REWRAP, made.as_str())
        }
    }

    /// What the layer needs of the context.
    pub fn needs(self, context: &str, held: &str) -> (s: String)
        ensures
            s@ == self.needs_text(context@, held@),
    {
        if self == Wrapper::Proxy {
            fill2(ACCESS, context, held)
        } else {
            String::new()
        }
    }
}

/// The layers where a context is at hand, in the order in which their rules
/// are written out.
pub open spec fn contextual_layers() -> Seq<Wrapper> {
    seq![
        Wrapper::Option,
        Wrapper::Proxy,
        Wrapper::Rc,
        Wrapper::Arc,
        Wrapper::Cell,
        Wrapper::RefCell,
        Wrapper::Mutex,
    ]
}

/// The layers where a context is at hand.
pub fn layers_in_context() -> (v: Vec<Wrapper>)
    ensures
        v@ == contextual_layers(),
{
    let mut v: Vec<Wrapper> = Vec::new();
    v.push(Wrapper::Option);
    v.push(Wrapper::Proxy);
    v.push(Wrapper::Rc);
    v.push(Wrapper::Arc);
    v.push(Wrapper::Cell);
    v.push(Wrapper::RefCell);
    v.push(Wrapper::Mutex);
    assert(v@ =~= contextual_layers());
    v
}

} // verus!
