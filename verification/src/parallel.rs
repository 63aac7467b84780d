//! Bounded data-parallel map-over-collection: applies a side-effecting
//! operation to every element of a fixed collection using a pool of
//! concurrent workers, with a single join barrier and no ordering guarantee.

use vstd::multiset::Multiset;
use vstd::prelude::*;
use vstd::seq_lib::group_to_multiset_ensures;

verus! {

/// The work-queue model of a for-each round: the workers draw items off the
/// front of the queue one at a time, and every drawn item lands in the bag
/// of completed invocations — which worker drew it does not matter, so the
/// completions form a multiset, not a sequence.
pub open spec fn completed<A>(pending: Seq<A>, done: Multiset<A>) -> Multiset<A>
    decreases pending.len(),
{
    if pending.len() == 0 {
        done
    } else {
        completed(pending.skip(1), done.insert(pending[0]))
    }
}

/// Law: a for-each round over a collection of size k performs exactly k
/// invocations — one per item, none repeated, none dropped — whatever order
/// the workers drew them in: the completed bag is exactly the collection's
/// multiset of items.
pub proof fn lemma_for_each_processes_each_item_once<A>(items: Seq<A>)
    ensures
        completed(items, Multiset::empty()) == items.to_multiset(),
        completed(items, Multiset::empty()).len() == items.len(),
    decreases items.len(),
{
    broadcast use group_to_multiset_ensures;

    lemma_completed_adds_the_pending_items(items, Multiset::empty());
    assert(Multiset::empty().add(items.to_multiset()) =~= items.to_multiset());
}

/// Drawing the whole queue adds exactly its items to the completed bag.
pub proof fn lemma_completed_adds_the_pending_items<A>(pending: Seq<A>, done: Multiset<A>)
    ensures
        completed(pending, done) == done.add(pending.to_multiset()),
    decreases pending.len(),
{
    broadcast use group_to_multiset_ensures;

    if pending.len() == 0 {
        assert(pending.to_multiset().len() == pending.len());
        assert(completed(pending, done) =~= done.add(pending.to_multiset()));
    } else {
        let head = pending[0];
        lemma_completed_adds_the_pending_items(pending.skip(1), done.insert(head));
        assert(pending.remove(0) =~= pending.skip(1));
        assert(pending.remove(0).to_multiset() =~= pending.to_multiset().remove(head));
        assert(pending.contains(head));
        assert(pending.to_multiset().count(head) > 0);
        assert(done.insert(head).add(pending.to_multiset().remove(head)) =~= done.add(
            pending.to_multiset(),
        ));
    }
}

/// Applies `op` to every element of `items` exactly once, using the worker
/// pool's threads, and returns only after every invocation has completed (a
/// join barrier). Invocation and completion order are unspecified; `op` must
/// not rely on shared mutable state unless that state is synchronized
/// independently, as [`crate::counter`]'s counters are. Once started, every
/// item is processed: there is no cancellation or early abort.
///
/// Relies on `rayon::iter::ParallelIterator::for_each` over the slice's
/// parallel iterator: it executes `op` on every item, possibly in parallel
/// on the pool installed by the caller, and returns when all are done — so
/// `op`'s own precondition must hold on every item, and its postcondition
/// then holds of every item.
#[verifier::external_body]
pub fn parallel_for_each<T: Sync, F: Fn(&T) + Sync + Send>(items: &Vec<T>, op: F) -> (r: ())
    requires
        forall|i: int| 0 <= i < items@.len() ==> #[trigger] call_requires(op, (&items@[i],)),
    ensures
        forall|i: int| 0 <= i < items@.len() ==> #[trigger] call_ensures(op, (&items@[i],), r),
{
    rayon::iter::ParallelIterator::for_each(
        rayon::iter::IntoParallelRefIterator::par_iter(items),
        |item| op(item),
    );
}

} // verus!
