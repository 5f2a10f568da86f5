//! Generators of handles to the records that a context already holds.

use crate::persian_rug::generator::GeneratorWithPersianRug;
use crate::persian_rug::table::Owner;
use crate::persian_rug::table::Proxy;
use crate::recycle::chosen_positions;
use crate::recycle::halved;
use std::marker::PhantomData;
use vstd::arithmetic::div_mod::lemma_add_mod_noop;
use vstd::arithmetic::div_mod::lemma_mod_twice;
use vstd::arithmetic::div_mod::lemma_small_mod;
use vstd::prelude::*;
use vstd::std_specs::convert::FromSpec;

verus! {

/// The positions that handles designate, handle by handle.
pub open spec fn positions<T>(handles: Seq<Proxy<T>>) -> Seq<nat> {
    Seq::new(handles.len(), |i: int| handles[i].position())
}

/// The handles of the records of type `T` in turn, in the order in which the
/// records were added, and from the first again after the last. Records
/// added on the way get their turn. The context must hold a record.
pub struct RepeatFromPersianRug<T> {
    pub marker: PhantomData<T>,
    pub index: usize,
}

impl<T> Default for RepeatFromPersianRug<T> {
    fn default() -> (r: Self)
        ensures
            r.index == 0,
    {
        Self { marker: PhantomData, index: 0 }
    }
}

impl<T> RepeatFromPersianRug<T> {
    /// A generator that starts with the first record.
    pub fn new() -> (r: Self)
        ensures
            r.index == 0,
    {
        Self { marker: PhantomData, index: 0 }
    }
}

impl<C: Owner<T>, T> GeneratorWithPersianRug<C> for RepeatFromPersianRug<T> {
    type Output = Proxy<T>;

    /// The record whose turn it is must be there.
    open spec fn ready(&self, context: C) -> bool {
        context.faithful() && self.index < context.records().len()
    }

    open spec fn step(&self, context: C, out: Proxy<T>, next: Self, after: C) -> bool {
        &&& after == context
        &&& out.position() == self.index
        &&& next.index == (self.index + 1) % (context.records().len() as int)
    }

    fn generate(&mut self, context: C) -> (r: (Proxy<T>, C)) {
        let proxies = context.get_proxies();
        let len = proxies.len();
        let res = proxies[self.index];
        self.index = (self.index + 1) % len;
        (res, context)
    }
}

/// As [`RepeatFromPersianRug`], but where the context holds no record the
/// value made is `None`.
pub struct TryRepeatFromPersianRug<T> {
    pub marker: PhantomData<T>,
    pub index: usize,
}

impl<T> Default for TryRepeatFromPersianRug<T> {
    fn default() -> (r: Self)
        ensures
            r.index == 0,
    {
        Self { marker: PhantomData, index: 0 }
    }
}

impl<T> TryRepeatFromPersianRug<T> {
    /// A generator that starts with the first record.
    pub fn new() -> (r: Self)
        ensures
            r.index == 0,
    {
        Self { marker: PhantomData, index: 0 }
    }
}

impl<C: Owner<T>, T> GeneratorWithPersianRug<C> for TryRepeatFromPersianRug<T> {
    type Output = Option<Proxy<T>>;

    /// The record whose turn it is must be there, unless there is none at
    /// all.
    open spec fn ready(&self, context: C) -> bool {
        context.faithful() && (context.records().len() == 0 || self.index
            < context.records().len())
    }

    open spec fn step(&self, context: C, out: Option<Proxy<T>>, next: Self, after: C) -> bool {
        &&& after == context
        &&& if context.records().len() == 0 {
            out is None && next.index == self.index
        } else {
            &&& out is Some
            &&& out->0.position() == self.index
            &&& next.index == (self.index + 1) % (context.records().len() as int)
        }
    }

    fn generate(&mut self, context: C) -> (r: (Option<Proxy<T>>, C)) {
        let proxies = context.get_proxies();
        if proxies.len() == 0 {
            (None, context)
        } else {
            let res = proxies[self.index];
            self.index = (self.index + 1) % proxies.len();
            (Some(res), context)
        }
    }
}

/// The subsets of the records of type `T`, as handles, one after the other:
/// the empty one first, then in the order of the numbers whose binary
/// digits say which records are in. Records added on the way take part from
/// then on.
pub struct SubsetsFromPersianRug<T> {
    pub marker: PhantomData<T>,
    pub index: usize,
}

impl<T> Default for SubsetsFromPersianRug<T> {
    fn default() -> (r: Self)
        ensures
            r.index == 0,
    {
        Self { marker: PhantomData, index: 0 }
    }
}

impl<T> SubsetsFromPersianRug<T> {
    /// A generator that starts with the empty subset.
    pub fn new() -> (r: Self)
        ensures
            r.index == 0,
    {
        Self { marker: PhantomData, index: 0 }
    }
}

impl<C: Owner<T>, T> GeneratorWithPersianRug<C> for SubsetsFromPersianRug<T> {
    type Output = Vec<Proxy<T>>;

    /// The subsets' numbers end at the largest number of their type.
    open spec fn ready(&self, context: C) -> bool {
        context.faithful() && self.index < usize::MAX
    }

    open spec fn step(&self, context: C, out: Vec<Proxy<T>>, next: Self, after: C) -> bool {
        &&& after == context
        &&& next.index == self.index + 1
        &&& positions(out@) == chosen_positions(self.index as nat, context.records().len())
    }

    fn generate(&mut self, context: C) -> (r: (Vec<Proxy<T>>, C)) {
        let mut res: Vec<Proxy<T>> = Vec::new();
        let proxies = context.get_proxies();
        let mut rest = self.index;
        let n = proxies.len();
        let mut i: usize = 0;
        assert(positions(res@) =~= Seq::empty());
        while i < n
            invariant
                i <= n,
                n == proxies@.len(),
                forall|j: int| 0 <= j < n ==> (#[trigger] proxies@[j]).position() == j,
                rest == halved(self.index as nat, i as nat),
                positions(res@) == chosen_positions(self.index as nat, i as nat),
            decreases n - i,
        {
            if rest % 2 == 1 {
                let ghost before = positions(res@);
                res.push(proxies[i]);
                assert(positions(res@) =~= before.push(i as nat));
            }
            rest = rest / 2;
            i = i + 1;
        }
        self.index = self.index + 1;
        (res, context)
    }
}

/// The positions of a sample of `m` records, taken in turn from `start` on
/// among `len` records.
pub open spec fn sample_positions(start: nat, len: nat, m: nat) -> Seq<nat> {
    Seq::new(m, |j: int| ((start + j) % (len as int)) as nat)
}

/// The smaller of two numbers.
pub open spec fn smaller(a: nat, b: nat) -> nat {
    if a <= b {
        a
    } else {
        b
    }
}

/// Collections of handles to the records of type `T`, taken in turn; how
/// many at most, another generator says at every step. No record is taken
/// twice into one collection. `V` is the type of the collections.
pub struct SampleFromPersianRug<T, U, V> {
    pub index: usize,
    pub count: U,
    pub type_marker: PhantomData<T>,
    pub result_marker: PhantomData<V>,
}

impl<T, U, V> SampleFromPersianRug<T, U, V> {
    /// Samples of the sizes that `count` makes, starting with the first
    /// record.
    pub fn new(count: U) -> (s: Self)
        ensures
            s.index == 0,
            s.count == count,
    {
        Self { index: 0, count, type_marker: PhantomData, result_marker: PhantomData }
    }

    /// Whether making the next sample in `context` may give `items`, and
    /// leave the generator as `next` and the context as `after`: the size
    /// asked for is made first, in a step that leaves the context `after`;
    /// then that many records are taken in turn, or all of them where there
    /// are fewer.
    pub open spec fn items_step<C>(
        &self,
        context: C,
        items: Seq<Proxy<T>>,
        next: Self,
        after: C,
    ) -> bool where C: Owner<T>, U: GeneratorWithPersianRug<C, Output = usize> {
        exists|count: usize| #[trigger]
            self.count.step(context, count, next.count, after) && {
                let len = after.records().len();
                let m = smaller(len, count as nat);
                &&& positions(items) == sample_positions(self.index as nat, len, m)
                &&& next.index == if m == 0 {
                    self.index as int
                } else {
                    (self.index + m) % (len as int)
                }
            }
    }

    /// Takes the handles of the next sample.
    pub fn generate_items<C>(&mut self, context: C) -> (r: (Vec<Proxy<T>>, C)) where
        C: Owner<T>,
        U: GeneratorWithPersianRug<C, Output = usize>,

        requires
            old(self).count.ready(context),
            forall|count: usize, next: U, after: C| #[trigger]
                old(self).count.step(context, count, next, after) ==> after.faithful() && (count
                    == 0 || after.records().len() == 0 || old(self).index
                    < after.records().len()),
        ensures
            old(self).items_step(context, r.0@, *final(self), r.1),
    {
        let ghost first = context;
        let (count, context) = self.count.generate(context);
        let mut res: Vec<Proxy<T>> = Vec::new();
        let proxies = context.get_proxies();
        let len = proxies.len();
        let m = if len <= count {
            len
        } else {
            count
        };
        let ghost start = self.index as nat;
        let mut j: usize = 0;
        assert(positions(res@) =~= sample_positions(start, len as nat, 0));
        while j < m
            invariant
                j <= m,
                m <= len,
                len == proxies@.len(),
                forall|i: int| 0 <= i < len ==> (#[trigger] proxies@[i]).position() == i,
                m > 0 ==> start < len,
                len == context.records().len(),
                m == smaller(len as nat, count as nat),
                old(self).count.step(first, count, self.count, context),
                start == old(self).index,
                positions(res@) == sample_positions(start, len as nat, j as nat),
                self.index == if j == 0 {
                    start as int
                } else {
                    (start + j) % (len as int)
                },
            decreases m - j,
        {
            let ghost before = positions(res@);
            let ghost at = self.index as int;
            assert(at == (start + j) % (len as int)) by {
                if j == 0 {
                    lemma_small_mod(start, len as nat);
                }
            }
            res.push(proxies[self.index]);
            self.index = (self.index + 1) % len;
            assert((at + 1) % (len as int) == (start + j + 1) % (len as int)) by {
                lemma_add_mod_noop(start + j, 1, len as int);
                lemma_mod_twice(start + j, len as int);
                lemma_add_mod_noop(at, 1, len as int);
            }
            assert(positions(res@) =~= before.push(at as nat));
            assert(before.push(at as nat) =~= sample_positions(start, len as nat, (j + 1) as nat));
            j = j + 1;
        }
        (res, context)
    }
}

impl<C, T, U, V> GeneratorWithPersianRug<C> for SampleFromPersianRug<T, U, V> where
    C: Owner<T>,
    U: GeneratorWithPersianRug<C, Output = usize>,
    V: From<Vec<Proxy<T>>>,
 {
    type Output = V;

    /// The size must be ready to be made, and the record whose turn it is
    /// must be there whenever a record is taken.
    open spec fn ready(&self, context: C) -> bool {
        self.count.ready(context) && forall|count: usize, next: U, after: C| #[trigger]
            self.count.step(context, count, next, after) ==> after.faithful() && (count == 0
                || after.records().len() == 0 || self.index < after.records().len())
    }

    /// The collection is made of the handles taken.
    open spec fn step(&self, context: C, out: V, next: Self, after: C) -> bool {
        exists|items: Vec<Proxy<T>>| #[trigger]
            self.items_step(context, items@, next, after) && (V::obeys_from_spec() ==> out
                == V::from_spec(items))
    }

    fn generate(&mut self, context: C) -> (r: (V, C)) {
        let (items, after) = self.generate_items(context);
        assert(old(self).items_step(context, items@, *self, after));
        (V::from(items), after)
    }
}

} // verus!
