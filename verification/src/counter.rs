//! A shared counter aggregating increments from many workers, in two
//! interchangeable variants: one serializing every read-modify-write under an
//! exclusive lock, one using lock-free atomic fetch-and-add with sequentially
//! consistent ordering.
//!
//! What a concurrent `load` returns depends on what other threads have done,
//! so the executable operations carry no value contract; the arithmetic law
//! they are trusted to realize — the final value is the initial value plus
//! the exact sum of all increments, independent of interleaving — is stated
//! and proved here over sequences of increments
//! ([`lemma_counter_totals_sum`], [`lemma_sum_independent_of_order`]).

use vstd::prelude::*;
use vstd::seq_lib::group_to_multiset_ensures;

verus! {

/// The exact arithmetic sum of a sequence of increments.
pub open spec fn sum_of(increments: Seq<int>) -> int
    decreases increments.len(),
{
    if increments.len() == 0 {
        0
    } else {
        sum_of(increments.drop_last()) + increments.last()
    }
}

/// A counter value after absorbing a sequence of increments one at a time,
/// each a single read-modify-write.
pub open spec fn apply_increments(initial: int, increments: Seq<int>) -> int
    decreases increments.len(),
{
    if increments.len() == 0 {
        initial
    } else {
        apply_increments(initial, increments.drop_last()) + increments.last()
    }
}

/// Law: a counter that absorbs every increment of a round, in whatever
/// serial order the synchronization discipline produces, ends at the initial
/// value plus the exact sum — no increment lost, none double-counted.
pub proof fn lemma_counter_totals_sum(initial: int, increments: Seq<int>)
    ensures
        apply_increments(initial, increments) == initial + sum_of(increments),
    decreases increments.len(),
{
    if increments.len() > 0 {
        lemma_counter_totals_sum(initial, increments.drop_last());
    }
}

/// Removing one increment takes exactly its value out of the sum.
pub proof fn lemma_sum_remove(increments: Seq<int>, i: int)
    requires
        0 <= i < increments.len(),
    ensures
        sum_of(increments) == sum_of(increments.remove(i)) + increments[i],
    decreases increments.len(),
{
    if i == increments.len() - 1 {
        assert(increments.remove(i) =~= increments.drop_last());
    } else {
        let shorter = increments.drop_last();
        lemma_sum_remove(shorter, i);
        assert(increments.remove(i).drop_last() =~= shorter.remove(i));
        assert(increments.remove(i).last() == increments.last());
    }
}

/// Law: the sum of a round of increments does not depend on the order the
/// scheduler serialized them in — any two interleavings of the same multiset
/// of increments total the same.
pub proof fn lemma_sum_independent_of_order(first: Seq<int>, second: Seq<int>)
    requires
        first.to_multiset() == second.to_multiset(),
    ensures
        sum_of(first) == sum_of(second),
    decreases first.len(),
{
    broadcast use group_to_multiset_ensures;

    if first.len() == 0 {
        assert(first.to_multiset().len() == first.len());
        assert(second.to_multiset().len() == second.len());
    } else {
        let x = first.last();
        let i = first.len() - 1;
        assert(first.contains(x));
        assert(first.to_multiset().count(x) > 0);
        assert(second.contains(x));
        let j = choose|j: int| 0 <= j < second.len() && second[j] == x;
        lemma_sum_remove(second, j);
        assert(first.remove(i) =~= first.drop_last());
        assert(first.drop_last().to_multiset() =~= second.remove(j).to_multiset());
        lemma_sum_independent_of_order(first.drop_last(), second.remove(j));
    }
}

/// The lock-free shared counter: a 64-bit signed integer mutated by atomic
/// fetch-and-add with total (sequentially consistent) ordering, so increments
/// never block and none is lost. Overflow wraps around, as the underlying
/// fetch-and-add does.
pub struct AtomicCounter {
    inner: core::sync::atomic::AtomicI64,
}

impl AtomicCounter {
    /// A counter starting at `initial`.
    pub fn new(initial: i64) -> AtomicCounter {
        AtomicCounter { inner: core::sync::atomic::AtomicI64::new(initial) }
    }

    /// Atomically adds `amount` to the counter.
    pub fn increment_by(&self, amount: i64) {
        let _previous: i64 = self.inner.fetch_add(
            amount,
            core::sync::atomic::Ordering::SeqCst,
        );
    }

    /// The value the counter holds at some moment of the call: the exact sum
    /// of the increments that completed before it, per
    /// [`lemma_counter_totals_sum`].
    pub fn load(&self) -> i64 {
        self.inner.load(core::sync::atomic::Ordering::SeqCst)
    }
}

/// The lock's predicate: a counter may hold any 64-bit value, so acquiring
/// and releasing carry no proof burden beyond the lock discipline itself.
pub struct AnyValue;

impl vstd::rwlock::RwLockPredicate<i64> for AnyValue {
    open spec fn inv(self, v: i64) -> bool {
        true
    }
}

/// The lock-based shared counter: each read-modify-write holds an exclusive
/// write lock for its whole duration, so concurrent increments serialize and
/// none is lost; the lock's contract checks that every acquisition is
/// released on every path. Overflow wraps around, matching the lock-free
/// variant.
pub struct LockCounter {
    inner: vstd::rwlock::RwLock<i64, AnyValue>,
}

/// The value the counter holds after one increment: two's-complement
/// wrap-around addition, the same operation the lock-free variant's
/// fetch-and-add performs.
pub fn wrapped_increment(value: i64, amount: i64) -> (r: i64)
    ensures
        r == value.wrapping_add(amount),
{
    value.wrapping_add(amount)
}

impl LockCounter {
    /// A counter starting at `initial`.
    pub fn new(initial: i64) -> LockCounter {
        LockCounter { inner: vstd::rwlock::RwLock::new(initial, Ghost(AnyValue)) }
    }

    /// Adds `amount` to the counter while holding the write lock exclusively
    /// for the whole read-modify-write, releasing it on the way out.
    pub fn increment_by(&self, amount: i64) {
        let (value, handle) = self.inner.acquire_write();
        handle.release_write(wrapped_increment(value, amount));
    }

    /// The value the counter holds at some moment of the call, read under
    /// the lock: the exact sum of the increments that completed before it,
    /// per [`lemma_counter_totals_sum`].
    pub fn load(&self) -> i64 {
        let handle = self.inner.acquire_read();
        let value = *handle.borrow();
        handle.release_read();
        value
    }
}

} // verus!
