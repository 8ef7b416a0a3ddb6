//! Batched receive from queues.
//!
//! A queue that can block for one item and then hand out, without
//! blocking, whatever else is already buffered implements [`TryIterRecv`].
//! Every such queue then has [`BatchRecv::batch_recv`], which blocks at most
//! once and returns between one and `n` items in the queue's own order.
use vstd::prelude::*;

pub mod crossbeam;
pub mod std_channel;

verus! {

/// Taking `taken` from a queue that held `before` left it holding `after`.
///
/// Items only ever leave a queue from its front, and other producers may
/// append at its back at any moment, so what was buffered before the call is
/// a prefix of what was taken followed by what is left.
pub open spec fn delivers<T>(before: Seq<T>, taken: Seq<T>, after: Seq<T>) -> bool {
    before.is_prefix_of(taken + after)
}

/// The outcome of a successful batch of at most `n` items from a queue that
/// held `before` and is left holding `after`.
///
/// The batch holds at least one item and at most `n`, takes items from the
/// front in order, and stops short of `n` only once everything that was
/// buffered at the start has been taken.
pub open spec fn batch_outcome<T>(before: Seq<T>, n: nat, batch: Seq<T>, after: Seq<T>) -> bool {
    &&& 1 <= batch.len() <= n
    &&& delivers(before, batch, after)
    &&& (batch.len() == n || before.len() <= batch.len())
}

/// Taking from a queue composes: taking `x` and then `y` is taking `x + y`.
///
/// So the items handed out by successive calls, batched or single, joined in
/// the order of the calls, are taken from the queue front first, with none
/// repeated and none skipped.
pub proof fn lemma_delivers_compose<T>(
    a: Seq<T>,
    x: Seq<T>,
    b: Seq<T>,
    y: Seq<T>,
    c: Seq<T>,
)
    requires
        delivers(a, x, b),
        delivers(b, y, c),
    ensures
        delivers(a, x + y, c),
{
    assert(x + (y + c) =~= (x + y) + c);
    assert forall|i: int| 0 <= i < a.len() implies a[i] == ((x + y) + c)[i] by {
        assert(a[i] == (x + b)[i]);
        if i >= x.len() {
            assert(b[i - x.len()] == (y + c)[i - x.len()]);
        }
    }
    assert(a =~= ((x + y) + c).subrange(0, a.len() as int));
}

/// Whatever was buffered comes out first and in order: the `i`-th item
/// taken is the `i`-th item that was buffered, as far as both go.
///
/// Two ways of consuming the same queue, say one batch and a series of
/// plain receives, therefore hand out the buffered items identically.
pub proof fn lemma_delivers_in_queue_order<T>(before: Seq<T>, taken: Seq<T>, after: Seq<T>)
    requires
        delivers(before, taken, after),
    ensures
        forall|i: int| 0 <= i < before.len() && 0 <= i < taken.len() ==> taken[i] == before[i],
{
    assert forall|i: int| 0 <= i < before.len() && 0 <= i < taken.len() implies taken[i]
        == before[i] by {
        assert(before[i] == (taken + after)[i]);
    }
}

/// A batch of `n` from a queue holding at least `n` items is exactly its
/// first `n` items, and the rest stay, in order, for later calls.
pub proof fn lemma_full_batch<T>(before: Seq<T>, n: nat, batch: Seq<T>, after: Seq<T>)
    requires
        1 <= n <= before.len(),
        batch_outcome(before, n, batch, after),
    ensures
        batch == before.take(n as int),
        before.skip(n as int).is_prefix_of(after),
{
    lemma_delivers_in_queue_order(before, batch, after);
    assert(batch =~= before.take(n as int));
    assert forall|i: int| 0 <= i < before.len() - n implies before.skip(n as int)[i] == after[i] by {
        assert(before[i + n] == (batch + after)[i + n]);
    }
    assert(before.skip(n as int) =~= after.subrange(0, before.len() - n));
}

/// A batch of `n` from a queue holding fewer than `n` items, but some,
/// starts with all of them in order. When no item arrives during the call,
/// it is exactly those items and the queue is left empty.
pub proof fn lemma_short_batch<T>(before: Seq<T>, n: nat, batch: Seq<T>, after: Seq<T>)
    requires
        0 < before.len() < n,
        batch_outcome(before, n, batch, after),
    ensures
        before.len() <= batch.len() <= n,
        batch.take(before.len() as int) == before,
        batch + after == before ==> batch == before && after.len() == 0,
{
    lemma_delivers_in_queue_order(before, batch, after);
    assert(batch.take(before.len() as int) =~= before);
    if batch + after == before {
        assert((batch + after).len() == batch.len() + after.len());
        assert(batch =~= before);
    }
}

/// A batch from a queue that was empty when the call began, while exactly
/// one item `x` arrives, is that item alone.
pub proof fn lemma_batch_after_wait<T>(before: Seq<T>, n: nat, batch: Seq<T>, after: Seq<T>, x: T)
    requires
        before.len() == 0,
        batch_outcome(before, n, batch, after),
        batch + after == seq![x],
    ensures
        batch == seq![x],
        after.len() == 0,
{
    assert((batch + after).len() == batch.len() + after.len());
    assert(batch =~= (batch + after).subrange(0, batch.len() as int));
}

/// Successive batches hand out the queue's items as successive plain
/// receives would: joined, they are taken front first, in order.
pub proof fn lemma_batches_in_order<T>(
    q0: Seq<T>,
    n1: nat,
    b1: Seq<T>,
    q1: Seq<T>,
    n2: nat,
    b2: Seq<T>,
    q2: Seq<T>,
)
    requires
        batch_outcome(q0, n1, b1, q1),
        batch_outcome(q1, n2, b2, q2),
    ensures
        delivers(q0, b1 + b2, q2),
{
    lemma_delivers_compose(q0, b1, q1, b2, q2);
}

/// A queue with a blocking receive and a non-blocking one.
///
/// `pending` models the items known to be buffered in the queue, in the
/// order it delivers them. Producers on other threads may append items at
/// any time, so the contracts below allow items that were not pending to
/// show up after those that were.
pub trait TryIterRecv {
    type Item;

    type Error;

    /// The items known to be buffered, front first.
    spec fn pending(&self) -> Seq<Self::Item>;

    /// Blocks until an item is available and takes it, or fails once the
    /// queue can never deliver again.
    fn recv(&mut self) -> (r: Result<Self::Item, Self::Error>)
        ensures
            old(self).pending().len() > 0 ==> r is Ok,
            r is Err ==> old(self).pending().len() == 0,
            r matches Ok(x) ==> delivers(old(self).pending(), seq![x], final(self).pending()),
    ;

    /// Takes the front item if one is available now, without blocking.
    fn try_recv(&mut self) -> (r: Option<Self::Item>)
        ensures
            old(self).pending().len() > 0 ==> r is Some,
            r is None ==> old(self).pending().len() == 0,
            r matches Some(x) ==> delivers(old(self).pending(), seq![x], final(self).pending()),
    ;
}

/// Batched receiving, available on every [`TryIterRecv`] queue.
pub trait BatchRecv: TryIterRecv {
    /// Blocks until the first item comes if the queue is empty, then takes
    /// up to `n - 1` more of those already buffered, without blocking again.
    ///
    /// Fails only when the blocking receive of the first item fails, and then
    /// with its error.
    fn batch_recv(&mut self, n: usize) -> (r: Result<Vec<Self::Item>, Self::Error>)
        requires
            n >= 1,
        ensures
            old(self).pending().len() > 0 ==> r is Ok,
            r is Err ==> old(self).pending().len() == 0,
            r matches Ok(v) ==> batch_outcome(old(self).pending(), n as nat, v@, final(self).pending()),
    {
        let ghost before = self.pending();
        let first = match self.recv() {
            Ok(x) => x,
            Err(e) => {
                return Err(e);
            },
        };
        let mut items: Vec<Self::Item> = vec![first];
        while items.len() < n
            invariant
                1 <= items.len() <= n,
                delivers(before, items@, self.pending()),
            ensures
                1 <= items.len() <= n,
                delivers(before, items@, self.pending()),
                items.len() == n || before.len() <= items.len(),
            decreases n - items.len(),
        {
            match self.try_recv() {
                Some(x) => {
                    items.push(x);
                },
                None => {
                    break;
                },
            }
        }
        Ok(items)
    }
}

impl<Q: TryIterRecv> BatchRecv for Q {

}

} // verus!
