//! Generators over a fixed list: its members in turn, over and over, and its
//! subsets one after the other.

use crate::generator::Generator;
use vstd::arithmetic::div_mod::lemma_add_mod_noop;
use vstd::arithmetic::div_mod::lemma_mod_twice;
use vstd::prelude::*;

verus! {

/// The members of a list in turn, and from the first again after the last.
pub struct Repeat<T> {
    base: Vec<T>,
    index: usize,
}

impl<T> Repeat<T> {
    /// The list.
    pub closed spec fn base(&self) -> Seq<T> {
        self.base@
    }

    /// The position of the member that comes next, before it is brought
    /// into the list's range.
    pub closed spec fn position(&self) -> nat {
        self.index as nat
    }

    /// The members of `base` in turn, starting from the first.
    pub fn new(base: Vec<T>) -> (r: Self)
        ensures
            r.base() == base@,
            r.position() == 0,
    {
        Repeat { base, index: 0 }
    }
}

impl<T: Clone> Generator for Repeat<T> {
    type Output = T;

    /// An empty list has no member to give.
    open spec fn can_yield(&self, n: nat) -> bool {
        n == 0 || self.base().len() > 0
    }

    open spec fn yields_at(&self, k: nat, out: T) -> bool {
        self.base().len() > 0 && cloned(
            self.base()[((self.position() + k) % self.base().len()) as int],
            out,
        )
    }

    fn generate(&mut self) -> (out: T)
        ensures
            final(self).base() == old(self).base(),
            final(self).position() == (old(self).position() + 1) % old(self).base().len(),
    {
        let len = self.base.len();
        let at = self.index % len;
        let res = self.base[at].clone();
        self.index = (at + 1) % len;
        proof {
            let p = old(self).position() as int;
            let l = len as int;
            lemma_add_mod_noop(p, 1, l);
            assert((at + 1) % l == (p + 1) % l) by {
                lemma_mod_twice(p, l);
                lemma_add_mod_noop(p % l, 1, l);
            }
            assert forall|k: nat, o: T| #[trigger] self.yields_at(k, o) implies old(
                self,
            ).yields_at(k + 1, o) by {
                lemma_add_mod_noop(p + 1, k as int, l);
                assert(((p + 1) % l + k) % l == (p + 1 + k) % l) by {
                    lemma_mod_twice(p + 1, l);
                    lemma_add_mod_noop((p + 1) % l, k as int, l);
                }
            }
        }
        res
    }
}

/// `x` halved `i` times.
pub open spec fn halved(x: nat, i: nat) -> nat
    decreases i,
{
    if i == 0 {
        x
    } else {
        halved(x, (i - 1) as nat) / 2
    }
}

/// Whether the binary digit of `x` at position `i` is one.
pub open spec fn binary_digit(x: nat, i: nat) -> bool {
    halved(x, i) % 2 == 1
}

/// The positions below `n` at which the binary digit of `number` is one, in
/// rising order.
pub open spec fn chosen_positions(number: nat, n: nat) -> Seq<nat>
    decreases n,
{
    if n == 0 {
        Seq::empty()
    } else if binary_digit(number, (n - 1) as nat) {
        chosen_positions(number, (n - 1) as nat).push((n - 1) as nat)
    } else {
        chosen_positions(number, (n - 1) as nat)
    }
}

/// Whether `out` is the subset numbered `number` of the first `n` members of
/// `base`: it holds a copy of the member at each position where the binary
/// digit of `number` is one, in the list's order, and nothing else.
pub open spec fn is_subset<T: Clone>(base: Seq<T>, number: nat, n: nat, out: Seq<T>) -> bool
    decreases n,
{
    if n == 0 {
        out.len() == 0
    } else if binary_digit(number, (n - 1) as nat) {
        out.len() > 0 && cloned(base[n - 1], out.last()) && is_subset(
            base,
            number,
            (n - 1) as nat,
            out.drop_last(),
        )
    } else {
        is_subset(base, number, (n - 1) as nat, out)
    }
}

/// The subsets of a list, one after the other: the empty one first, then in
/// the order of the numbers whose binary digits say which members are in.
pub struct Subsets<T> {
    base: Vec<T>,
    index: usize,
}

impl<T> Subsets<T> {
    /// The list.
    pub closed spec fn base(&self) -> Seq<T> {
        self.base@
    }

    /// The number of the subset that comes next.
    pub closed spec fn number(&self) -> nat {
        self.index as nat
    }

    /// The subsets of `base`, starting from the empty one.
    pub fn new(base: Vec<T>) -> (s: Self)
        ensures
            s.base() == base@,
            s.number() == 0,
    {
        Subsets { base, index: 0 }
    }
}

impl<T: Clone> Generator for Subsets<T> {
    type Output = Vec<T>;

    /// The subsets' numbers end at the largest number of their type.
    open spec fn can_yield(&self, n: nat) -> bool {
        self.number() + n <= usize::MAX
    }

    open spec fn yields_at(&self, k: nat, out: Vec<T>) -> bool {
        is_subset(self.base(), self.number() + k, self.base().len(), out@)
    }

    fn generate(&mut self) -> (out: Vec<T>)
        ensures
            final(self).base() == old(self).base(),
            final(self).number() == old(self).number() + 1,
    {
        let mut v: Vec<T> = Vec::new();
        let mut rest = self.index;
        let n = self.base.len();
        let mut i: usize = 0;
        while i < n
            invariant
                i <= n,
                n == self.base@.len(),
                rest == halved(self.index as nat, i as nat),
                is_subset(self.base@, self.index as nat, i as nat, v@),
            decreases n - i,
        {
            if rest % 2 == 1 {
                let member = self.base[i].clone();
                let ghost before = v@;
                v.push(member);
                assert(v@.drop_last() =~= before);
            }
            rest = rest / 2;
            i = i + 1;
        }
        self.index = self.index + 1;
        v
    }
}

} // verus!
