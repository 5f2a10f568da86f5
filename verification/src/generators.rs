//! Ready-made generators: a constant, a count, a list recycled, the subsets
//! of a list, a present option, samples of another generator, and any
//! function of no arguments.

use crate::generator::can_yield_up_to;
use crate::generator::draw;
use crate::generator::Generator;
use vstd::prelude::*;

verus! {

/// The same value at every step.
pub struct Const<T>(pub T);

impl<T: Clone> Generator for Const<T> {
    type Output = T;

    open spec fn can_yield(&self, n: nat) -> bool {
        true
    }

    open spec fn yields_at(&self, k: nat, out: T) -> bool {
        cloned(self.0, out)
    }

    fn generate(&mut self) -> (out: T)
        ensures
            *final(self) == *old(self),
    {
        self.0.clone()
    }
}

/// A number that has a next one.
pub trait Increment: Copy {
    /// The number.
    spec fn number(self) -> int;

    /// The largest number of the type.
    spec fn largest() -> int;

    /// Two values of the same number are the same value.
    proof fn lemma_number_is_value(self, other: Self)
        requires
            self.number() == other.number(),
        ensures
            self == other,
    ;

    /// The next number.
    fn successor(self) -> (next: Self)
        requires
            self.number() < Self::largest(),
        ensures
            next.number() == self.number() + 1,
    ;
}

impl Increment for u8 {
    open spec fn number(self) -> int {
        self as int
    }

    open spec fn largest() -> int {
        u8::MAX as int
    }

    proof fn lemma_number_is_value(self, other: Self) {
    }

    fn successor(self) -> (next: Self) {
        self + 1
    }
}

impl Increment for u16 {
    open spec fn number(self) -> int {
        self as int
    }

    open spec fn largest() -> int {
        u16::MAX as int
    }

    proof fn lemma_number_is_value(self, other: Self) {
    }

    fn successor(self) -> (next: Self) {
        self + 1
    }
}

impl Increment for u32 {
    open spec fn number(self) -> int {
        self as int
    }

    open spec fn largest() -> int {
        u32::MAX as int
    }

    proof fn lemma_number_is_value(self, other: Self) {
    }

    fn successor(self) -> (next: Self) {
        self + 1
    }
}

impl Increment for u64 {
    open spec fn number(self) -> int {
        self as int
    }

    open spec fn largest() -> int {
        u64::MAX as int
    }

    proof fn lemma_number_is_value(self, other: Self) {
    }

    fn successor(self) -> (next: Self) {
        self + 1
    }
}

impl Increment for u128 {
    open spec fn number(self) -> int {
        self as int
    }

    open spec fn largest() -> int {
        u128::MAX as int
    }

    proof fn lemma_number_is_value(self, other: Self) {
    }

    fn successor(self) -> (next: Self) {
        self + 1
    }
}

impl Increment for usize {
    open spec fn number(self) -> int {
        self as int
    }

    open spec fn largest() -> int {
        usize::MAX as int
    }

    proof fn lemma_number_is_value(self, other: Self) {
    }

    fn successor(self) -> (next: Self) {
        self + 1
    }
}

impl Increment for i8 {
    open spec fn number(self) -> int {
        self as int
    }

    open spec fn largest() -> int {
        i8::MAX as int
    }

    proof fn lemma_number_is_value(self, other: Self) {
    }

    fn successor(self) -> (next: Self) {
        self + 1
    }
}

impl Increment for i16 {
    open spec fn number(self) -> int {
        self as int
    }

    open spec fn largest() -> int {
        i16::MAX as int
    }

    proof fn lemma_number_is_value(self, other: Self) {
    }

    fn successor(self) -> (next: Self) {
        self + 1
    }
}

impl Increment for i32 {
    open spec fn number(self) -> int {
        self as int
    }

    open spec fn largest() -> int {
        i32::MAX as int
    }

    proof fn lemma_number_is_value(self, other: Self) {
    }

    fn successor(self) -> (next: Self) {
        self + 1
    }
}

impl Increment for i64 {
    open spec fn number(self) -> int {
        self as int
    }

    open spec fn largest() -> int {
        i64::MAX as int
    }

    proof fn lemma_number_is_value(self, other: Self) {
    }

    fn successor(self) -> (next: Self) {
        self + 1
    }
}

impl Increment for i128 {
    open spec fn number(self) -> int {
        self as int
    }

    open spec fn largest() -> int {
        i128::MAX as int
    }

    proof fn lemma_number_is_value(self, other: Self) {
    }

    fn successor(self) -> (next: Self) {
        self + 1
    }
}

impl Increment for isize {
    open spec fn number(self) -> int {
        self as int
    }

    open spec fn largest() -> int {
        isize::MAX as int
    }

    proof fn lemma_number_is_value(self, other: Self) {
    }

    fn successor(self) -> (next: Self) {
        self + 1
    }
}

/// A number that grows by one at every step, starting from the number given.
pub struct Inc<T>(pub T);

impl<T: Increment> Generator for Inc<T> {
    type Output = T;

    open spec fn can_yield(&self, n: nat) -> bool {
        self.0.number() + n <= T::largest()
    }

    open spec fn yields_at(&self, k: nat, out: T) -> bool {
        out.number() == self.0.number() + k
    }

    fn generate(&mut self) -> (out: T)
        ensures
            out == old(self).0,
            final(self).0.number() == old(self).0.number() + 1,
    {
        let res = self.0;
        self.0 = self.0.successor();
        res
    }
}

/// The value that another generator makes, present.
pub struct Always<T>(pub T);

impl<T: Generator> Generator for Always<T> {
    type Output = Option<T::Output>;

    open spec fn can_yield(&self, n: nat) -> bool {
        self.0.can_yield(n)
    }

    open spec fn yields_at(&self, k: nat, out: Option<T::Output>) -> bool {
        out is Some && self.0.yields_at(k, out->0)
    }

    fn generate(&mut self) -> (out: Option<T::Output>) {
        Some(self.0.generate())
    }
}

impl<F, T> Generator for F where F: FnMut() -> T {
    type Output = T;

    open spec fn can_yield(&self, n: nat) -> bool {
        n == 0 || (n == 1 && call_requires(*self, ()))
    }

    open spec fn yields_at(&self, k: nat, out: T) -> bool {
        k == 0 ==> call_ensures(*self, (), out)
    }

    fn generate(&mut self) -> (out: T) {
        self()
    }
}

/// Collections of values drawn from a generator; how many, another generator
/// says at every step.
pub struct Sample<T, U> {
    pub value: T,
    pub count: U,
}

impl<T, U> Sample<T, U> {
    /// Samples of `value`, of the sizes that `count` makes.
    pub fn new(value: T, count: U) -> (s: Self)
        ensures
            s.value == value,
            s.count == count,
    {
        Sample { value, count }
    }
}

/// The sum of sizes.
pub open spec fn total(sizes: Seq<usize>) -> nat
    decreases sizes.len(),
{
    if sizes.len() == 0 {
        0
    } else {
        sizes[0] as nat + total(sizes.skip(1))
    }
}

/// Whether `sizes` may be the sizes that the count makes at the next steps,
/// in order.
pub open spec fn sizes_made<U: Generator<Output = usize>>(count: U, sizes: Seq<usize>) -> bool {
    forall|j: int| 0 <= j < sizes.len() ==> count.yields_at(j as nat, #[trigger] sizes[j])
}

/// After the count has made `first`, the sizes it makes are `first` and those
/// it makes from then on.
pub proof fn lemma_sizes_follow<U: Generator<Output = usize>>(
    old_count: U,
    new_count: U,
    first: usize,
    sizes: Seq<usize>,
)
    requires
        old_count.yields_at(0, first),
        forall|j: nat, c: usize| #[trigger]
            new_count.yields_at(j, c) ==> old_count.yields_at(j + 1, c),
        sizes_made(new_count, sizes),
    ensures
        sizes_made(old_count, seq![first] + sizes),
        total(seq![first] + sizes) == first + total(sizes),
        forall|k: int|
            0 <= k <= sizes.len() ==> total((seq![first] + sizes).take(k + 1)) == first + total(
                #[trigger] sizes.take(k),
            ),
{
    let all = seq![first] + sizes;
    assert forall|j: int| 0 <= j < all.len() implies old_count.yields_at(
        j as nat,
        #[trigger] all[j],
    ) by {
        if j > 0 {
            assert(all[j] == sizes[j - 1]);
            assert(new_count.yields_at((j - 1) as nat, sizes[j - 1]));
        }
    }
    assert(all.skip(1) =~= sizes);
    assert forall|k: int| 0 <= k <= sizes.len() implies total(all.take(k + 1)) == first + total(
        #[trigger] sizes.take(k),
    ) by {
        assert(all.take(k + 1).skip(1) =~= sizes.take(k));
    }
}

impl<T: Generator, U: Generator<Output = usize>> Generator for Sample<T, U> {
    type Output = Vec<T::Output>;

    /// The next `n` samples can be made where the next `n` sizes can be, and
    /// as many values as the samples may hold together, whatever sizes the
    /// count makes.
    open spec fn can_yield(&self, n: nat) -> bool {
        n == 0 || (self.count.can_yield(n) && forall|sizes: Seq<usize>| #[trigger]
            sizes_made(self.count, sizes) && 1 <= sizes.len() <= n ==> can_yield_up_to(
                self.value,
                total(sizes),
            ))
    }

    /// The sample made `k` steps from now has the size made `k` steps from
    /// now, and holds the values that follow those of the samples before it,
    /// in order.
    open spec fn yields_at(&self, k: nat, out: Vec<T::Output>) -> bool {
        exists|sizes: Seq<usize>| #[trigger]
            sizes_made(self.count, sizes) && sizes.len() == k + 1 && sizes[k as int]
                == out@.len() && forall|i: int|
                0 <= i < out@.len() ==> self.value.yields_at(
                    (total(sizes.take(k as int)) + i) as nat,
                    #[trigger] out@[i],
                )
    }

    fn generate(&mut self) -> (out: Vec<T::Output>) {
        let ghost before = *self;
        let count = self.count.generate();
        assert(can_yield_up_to(self.value, count as nat)) by {
            let sizes = seq![count];
            assert(sizes_made(before.count, sizes));
            assert(sizes.skip(1) =~= Seq::<usize>::empty());
            assert(total(sizes.skip(1)) == 0);
            assert(total(sizes) == count);
        }
        let out = draw(&mut self.value, count);
        proof {
            assert(before.yields_at(0, out)) by {
                let sizes = seq![count];
                assert(sizes_made(before.count, sizes));
                assert(sizes.take(0) =~= Seq::<usize>::empty());
            }
            assert forall|k: nat, o: Vec<T::Output>| #[trigger] self.yields_at(k, o) implies before.yields_at(
                k + 1,
                o,
            ) by {
                let sizes = choose|sizes: Seq<usize>| #[trigger]
                    sizes_made(self.count, sizes) && sizes.len() == k + 1 && sizes[k as int]
                        == o@.len() && forall|i: int|
                        0 <= i < o@.len() ==> self.value.yields_at(
                            (total(sizes.take(k as int)) + i) as nat,
                            #[trigger] o@[i],
                        );
                lemma_sizes_follow(before.count, self.count, count, sizes);
                let all = seq![count] + sizes;
                assert(sizes_made(before.count, all));
                assert(all[(k + 1) as int] == sizes[k as int]);
                assert(total(all.take((k + 1) as int)) == count + total(sizes.take(k as int)));
                assert forall|i: int| 0 <= i < o@.len() implies before.value.yields_at(
                    (total(all.take((k + 1) as int)) + i) as nat,
                    #[trigger] o@[i],
                ) by {
                    assert(self.value.yields_at((total(sizes.take(k as int)) + i) as nat, o@[i]));
                }
            }
            assert forall|n: nat| before.can_yield(n + 1) implies #[trigger] self.can_yield(n) by {
                if n > 0 {
                    assert(self.count.can_yield(n));
                    assert forall|sizes: Seq<usize>| #[trigger]
                        sizes_made(self.count, sizes) && 1 <= sizes.len() <= n implies can_yield_up_to(
                        self.value,
                        total(sizes),
                    ) by {
                        lemma_sizes_follow(before.count, self.count, count, sizes);
                        let all = seq![count] + sizes;
                        assert(sizes_made(before.count, all));
                        assert(can_yield_up_to(before.value, total(all)));
                        assert forall|m: nat| 1 <= m <= total(sizes) implies #[trigger] self.value.can_yield(
                            m,
                        ) by {
                            assert(before.value.can_yield((m + count) as nat));
                        }
                    }
                }
            }
        }
        out
    }
}

/// Of two values that a count makes one after the other, the second is the
/// first and one.
pub proof fn lemma_inc_advances_by_one<T: Increment>(generator: Inc<T>, k: nat, first: T, second: T)
    requires
        generator.yields_at(k, first),
        generator.yields_at(k + 1, second),
    ensures
        second.number() == first.number() + 1,
{
}

/// What a count makes at a step is one value and no other.
pub proof fn lemma_inc_is_determined<T: Increment>(generator: Inc<T>, k: nat, a: T, b: T)
    requires
        generator.yields_at(k, a),
        generator.yields_at(k, b),
    ensures
        a == b,
{
    a.lemma_number_is_value(b);
}

/// What a constant makes at one step it makes at every step: the values are
/// copies of the same value.
pub proof fn lemma_const_stays<T: Clone>(generator: Const<T>, j: nat, k: nat, out: T)
    requires
        generator.yields_at(j, out),
    ensures
        generator.yields_at(k, out),
{
}

/// Asks a count and a constant in turn, twice. The count's second value is
/// its first and one, and the constant's rule is where it was: the one rule
/// advancing does not move the other.
pub fn ask_twice<T: Increment, U: Clone>(count: &mut Inc<T>, constant: &mut Const<U>) -> (r: (
    T,
    U,
    T,
    U,
))
    requires
        old(count).can_yield(2),
    ensures
        r.0 == old(count).0,
        r.2.number() == r.0.number() + 1,
        cloned(old(constant).0, r.1),
        cloned(old(constant).0, r.3),
        *final(constant) == *old(constant),
        final(count).0.number() == old(count).0.number() + 2,
{
    let a = count.generate();
    let x = constant.generate();
    let b = count.generate();
    let y = constant.generate();
    (a, x, b, y)
}

} // verus!
