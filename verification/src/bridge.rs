//! The runtime half of the callback bridge: an ordered buffer of events plus
//! an optional waiting-consumer handle. The native callback thread appends one
//! event and wakes the consumer; the consumer drains in FIFO order. The lock
//! that serializes the two sides lives with the caller (the bridge wrapper
//! holds this queue behind a mutex); under that total order of operations the
//! contracts here give exact FIFO delivery.

use std::collections::VecDeque;
use std::task::Waker;
use vstd::prelude::*;

verus! {

#[verifier::external_type_specification]
#[verifier::external_body]
pub struct ExWaker(Waker);

/// Relies on `std::task::Waker::clone`: duplicates the consumer's handle.
#[verifier::external_body]
fn clone_waker(w: &Waker) -> Waker {
    w.clone()
}

/// Relies on `std::task::Waker::wake`: signals the registered consumer.
#[verifier::external_body]
fn wake_waker(w: Waker) {
    w.wake()
}

/// The ordered event buffer of one bridge, with the waiting consumer's wake
/// handle when the consumer last found the buffer empty.
pub struct EventQueue<E> {
    buf: VecDeque<E>,
    waker: Option<Waker>,
}

impl<E> View for EventQueue<E> {
    type V = Seq<E>;

    closed spec fn view(&self) -> Seq<E> {
        self.buf@
    }
}

impl<E> EventQueue<E> {
    /// Whether a consumer is currently registered for waking.
    pub closed spec fn has_waker(&self) -> bool {
        self.waker is Some
    }

    /// An empty queue with no consumer registered.
    pub fn new() -> (r: Self)
        ensures
            r@ == Seq::<E>::empty(),
            !r.has_waker(),
    {
        EventQueue { buf: VecDeque::new(), waker: None }
    }

    /// Appends one event at the back and wakes the waiting consumer, if any.
    /// Called from the native thread; never blocks and never drops an event.
    pub fn push(&mut self, e: E)
        ensures
            final(self)@ == old(self)@.push(e),
            final(self).has_waker() == old(self).has_waker(),
    {
        self.buf.push_back(e);
        if let Some(w) = &self.waker {
            wake_waker(clone_waker(w));
        }
    }

    /// Removes and returns the oldest event, or nothing when the buffer is
    /// empty. Called by the consumer under the same lock as `push`.
    pub fn pop_front(&mut self) -> (r: Option<E>)
        ensures
            old(self)@.len() == 0 ==> r is None && final(self)@ == old(self)@,
            old(self)@.len() > 0 ==> r == Some(old(self)@[0]) && final(self)@ == old(
                self,
            )@.drop_first(),
            final(self).has_waker() == old(self).has_waker(),
    {
        let r = self.buf.pop_front();
        proof {
            if old(self)@.len() > 0 {
                assert(final(self)@ =~= old(self)@.drop_first());
            }
        }
        r
    }

    /// Records the consumer's wake handle, to be signalled by the next push.
    pub fn register_waker(&mut self, w: Waker)
        ensures
            final(self)@ == old(self)@,
            final(self).has_waker(),
    {
        self.waker = Some(w);
    }

    /// How many events are buffered.
    pub fn len(&self) -> (r: usize)
        ensures
            r == self@.len(),
    {
        self.buf.len()
    }
}

/// The events returned by `k` successive pops of a queue holding `q`.
pub open spec fn drained<E>(q: Seq<E>, k: int) -> Seq<E>
    decreases k,
{
    if k <= 0 {
        Seq::empty()
    } else if q.len() == 0 {
        Seq::empty()
    } else {
        seq![q[0]] + drained(q.drop_first(), k - 1)
    }
}

/// FIFO delivery: when a producer has pushed events so that the buffer holds
/// `q` (pushes append, so `q` lists them in push order), `k` successive pops
/// hand the consumer exactly the first `k` of them, in that same order. The
/// caller's lock totally orders pushes and pops, so this is the order the
/// consumer observes.
pub proof fn lemma_fifo_order<E>(q: Seq<E>, k: int)
    requires
        0 <= k <= q.len(),
    ensures
        drained(q, k) == q.take(k),
    decreases k,
{
    if k == 0 {
        assert(drained(q, 0) =~= q.take(0));
    } else {
        lemma_fifo_order(q.drop_first(), k - 1);
        assert(drained(q, k) =~= q.take(k)) by {
            assert(q.drop_first().take(k - 1) =~= q.take(k).drop_first());
        }
    }
}

/// Draining everything a producer pushed yields exactly the pushed sequence.
pub proof fn lemma_drain_all<E>(q: Seq<E>)
    ensures
        drained(q, q.len() as int) == q,
{
    lemma_fifo_order(q, q.len() as int);
    assert(q.take(q.len() as int) =~= q);
}

} // verus!
