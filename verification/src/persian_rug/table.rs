//! Handles, and the capability of a context to hold records of one type.

use std::marker::PhantomData;
use vstd::prelude::*;
use vstd::std_specs::cmp::PartialEqSpecImpl;

verus! {

/// A handle to a record of type `T` in a context: the position at which the
/// record was added.
pub struct Proxy<T> {
    index: usize,
    marker: PhantomData<T>,
}

impl<T> Proxy<T> {
    /// The position that the handle designates.
    pub closed spec fn position(&self) -> nat {
        self.index as nat
    }

    /// The position that the handle designates.
    pub fn index(&self) -> (i: usize)
        ensures
            i == self.position(),
    {
        self.index
    }

    /// The handle that designates a position. A context makes its handles
    /// with it.
    pub fn at(position: usize) -> (p: Self)
        ensures
            p.position() == position,
    {
        Proxy { index: position, marker: PhantomData }
    }
}

impl<T> Clone for Proxy<T> {
    fn clone(&self) -> (p: Self)
        ensures
            p == *self,
    {
        Proxy { index: self.index, marker: PhantomData }
    }
}

/// `std::fmt::Formatter`. Nothing is known of what is inside.
#[verifier::external_type_specification]
#[verifier::external_body]
pub struct ExFormatter<'a>(std::fmt::Formatter<'a>);

/// `std::fmt::Error`. Nothing is known of what is inside.
#[verifier::external_type_specification]
#[verifier::external_body]
pub struct ExFmtError(std::fmt::Error);

impl<T> std::fmt::Debug for Proxy<T> {
    /// Calls `write!` on the formatter with the handle's position. Nothing is
    /// claimed of what is written.
    #[verifier::external_body]
    fn fmt(&self, f: &mut std::fmt::Formatter<'_>) -> Result<(), std::fmt::Error> {
        write!(f, "Proxy {{ handle: {} }}", self.index)
    }
}

impl<T> Copy for Proxy<T> {

}

impl<T> PartialEq for Proxy<T> {
    fn eq(&self, other: &Self) -> (r: bool) {
        self.index == other.index
    }
}

impl<T> Eq for Proxy<T> {

}

impl<T> PartialEqSpecImpl for Proxy<T> {
    open spec fn obeys_eq_spec() -> bool {
        true
    }

    open spec fn eq_spec(&self, other: &Self) -> bool {
        self.position() == other.position()
    }
}

/// A context that holds records of type `T`.
///
/// The records are kept in the order in which they were added, and a record's
/// handle designates its position in that order. A record once added stays.
///
/// `records` is the context's account of what it holds, and `faithful` says
/// whether it gives one. A context that gives no account promises nothing.
pub trait Owner<T> {
    /// Whether `records` is what the context holds.
    open spec fn faithful(&self) -> bool {
        false
    }

    /// The records of type `T` that the context holds, in the order in which
    /// they were added.
    open spec fn records(&self) -> Seq<T> {
        Seq::empty()
    }

    /// Adds a record and gives its handle.
    fn add(&mut self, value: T) -> (p: Proxy<T>)
        ensures
            old(self).faithful() ==> final(self).faithful(),
            old(self).faithful() ==> final(self).records() == old(self).records().push(value),
            old(self).faithful() ==> p.position() == old(self).records().len(),
    ;

    /// The record that a handle designates.
    fn get(&self, p: &Proxy<T>) -> (r: &T)
        requires
            self.faithful(),
            p.position() < self.records().len(),
        ensures
            *r == self.records()[p.position() as int],
    ;

    /// The handles of all records of type `T`, in the order in which the
    /// records were added.
    fn get_proxies(&self) -> (v: Vec<Proxy<T>>)
        ensures
            self.faithful() ==> v@.len() == self.records().len(),
            self.faithful() ==> forall|i: int|
                0 <= i < v@.len() ==> (#[trigger] v@[i]).position() == i,
    ;
}

/// A store of records of one type.
pub struct Table<T> {
    members: Vec<T>,
}

impl<T> View for Table<T> {
    type V = Seq<T>;

    closed spec fn view(&self) -> Seq<T> {
        self.members@
    }
}

impl<T> Table<T> {
    /// An empty store.
    pub fn new() -> (t: Self)
        ensures
            t@ == Seq::<T>::empty(),
    {
        Table { members: Vec::new() }
    }

    /// The number of records in the store.
    pub fn len(&self) -> (n: usize)
        ensures
            n == self@.len(),
    {
        self.members.len()
    }
}

impl<T> Default for Table<T> {
    fn default() -> (t: Self)
        ensures
            t@ == Seq::<T>::empty(),
    {
        Table { members: Vec::new() }
    }
}

impl<T> Owner<T> for Table<T> {
    open spec fn faithful(&self) -> bool {
        true
    }

    open spec fn records(&self) -> Seq<T> {
        self@
    }

    fn add(&mut self, value: T) -> (p: Proxy<T>) {
        let index = self.members.len();
        self.members.push(value);
        Proxy { index, marker: PhantomData }
    }

    fn get(&self, p: &Proxy<T>) -> (r: &T) {
        &self.members[p.index]
    }

    fn get_proxies(&self) -> (v: Vec<Proxy<T>>) {
        let mut v: Vec<Proxy<T>> = Vec::new();
        let n = self.members.len();
        let mut i: usize = 0;
        while i < n
            invariant
                i <= n,
                n == self.members@.len(),
                v@.len() == i,
                forall|j: int| 0 <= j < i ==> (#[trigger] v@[j]).position() == j,
            decreases n - i,
        {
            v.push(Proxy { index: i, marker: PhantomData });
            i = i + 1;
        }
        v
    }
}

} // verus!
