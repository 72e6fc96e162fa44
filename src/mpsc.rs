use std::collections::VecDeque;
use vstd::prelude::*;

verus! {

/// Sender count after one more sender is counted: saturates at `usize::MAX`,
/// a count that the senders' own memory never lets it reach.
pub open spec fn added(n: nat) -> nat {
    if n < usize::MAX {
        n + 1
    } else {
        n
    }
}

/// Sender count after one sender is counted out.
pub open spec fn released(n: nat) -> nat {
    if n > 0 {
        (n - 1) as nat
    } else {
        0
    }
}

/// What one receive decides, given what the receiver still has to deliver
/// (`pending`: its private buffer, then the shared queue) and the live senders.
#[derive(PartialEq, Eq, Debug)]
pub enum Step<T> {
    /// The oldest pending value.
    Item(T),
    /// Nothing pending and no sender left: no value will ever come.
    Closed,
    /// Nothing pending yet, but a sender is alive: park until woken.
    Wait,
}

/// The step that a receive takes on `pending` with `senders` alive.
pub open spec fn recv_step<T>(pending: Seq<T>, senders: nat) -> Step<T> {
    if pending.len() > 0 {
        Step::Item(pending[0])
    } else if senders == 0 {
        Step::Closed
    } else {
        Step::Wait
    }
}

/// What is still pending after that step.
pub open spec fn recv_rest<T>(pending: Seq<T>) -> Seq<T> {
    if pending.len() > 0 {
        pending.drop_first()
    } else {
        pending
    }
}

/// The state that the senders and the receiver share, behind one lock:
/// the queue of values sent and not yet moved to the receiver, and the
/// number of live senders.
pub struct Inner<T> {
    queue: VecDeque<T>,
    senders: usize,
}

impl<T> Inner<T> {
    /// Values sent and not yet moved to the receiver, oldest first.
    pub closed spec fn queue(&self) -> Seq<T> {
        self.queue@
    }

    /// Number of live senders.
    pub closed spec fn senders(&self) -> nat {
        self.senders as nat
    }

    /// The state of a fresh channel: nothing queued, one sender.
    pub fn new() -> (r: Inner<T>)
        ensures
            r.queue() == Seq::<T>::empty(),
            r.senders() == 1,
    {
        Inner { queue: VecDeque::new(), senders: 1 }
    }

    /// Appends `v` at the tail; true when the queue was empty before,
    /// the one case in which a parked receiver needs a wakeup.
    pub fn push(&mut self, v: T) -> (was_empty: bool)
        ensures
            final(self).queue() == old(self).queue().push(v),
            final(self).senders() == old(self).senders(),
            was_empty == (old(self).queue().len() == 0),
    {
        let was_empty = self.queue.len() == 0;
        self.queue.push_back(v);
        was_empty
    }

    /// Counts one more sender (a clone).
    pub fn add_sender(&mut self)
        ensures
            final(self).queue() == old(self).queue(),
            final(self).senders() == added(old(self).senders()),
    {
        if self.senders < usize::MAX {
            self.senders = self.senders + 1;
        }
    }

    /// Counts one sender out (a drop); true when none is left, the one case
    /// in which a parked receiver must wake to see the channel closed.
    pub fn release_sender(&mut self) -> (is_last: bool)
        ensures
            final(self).queue() == old(self).queue(),
            final(self).senders() == released(old(self).senders()),
            is_last == (final(self).senders() == 0),
    {
        if self.senders > 0 {
            self.senders = self.senders - 1;
        }
        self.senders == 0
    }

    /// Number of live senders.
    pub fn sender_count(&self) -> (r: usize)
        ensures
            r == self.senders(),
    {
        self.senders
    }

    /// Number of values queued.
    pub fn queued(&self) -> (r: usize)
        ensures
            r == self.queue().len(),
    {
        self.queue.len()
    }
}

/// The receiver's private buffer: values already moved out of the shared
/// queue, in order, handed out without taking the lock.
pub struct RecvBuffer<T> {
    buffer: VecDeque<T>,
}

impl<T> RecvBuffer<T> {
    /// Values held, oldest first.
    pub closed spec fn buffered(&self) -> Seq<T> {
        self.buffer@
    }

    /// Everything this receiver has still to deliver, oldest first.
    pub open spec fn pending(&self, inner: &Inner<T>) -> Seq<T> {
        self.buffered() + inner.queue()
    }

    pub fn new() -> (r: RecvBuffer<T>)
        ensures
            r.buffered() == Seq::<T>::empty(),
    {
        RecvBuffer { buffer: VecDeque::new() }
    }

    /// Number of values held.
    pub fn len(&self) -> (r: usize)
        ensures
            r == self.buffered().len(),
    {
        self.buffer.len()
    }

    /// The lock-free path: the oldest buffered value, if any.
    pub fn pop_local(&mut self) -> (r: Option<T>)
        ensures
            old(self).buffered().len() > 0 ==> r == Some(old(self).buffered()[0])
                && final(self).buffered() == old(self).buffered().drop_first(),
            old(self).buffered().len() == 0 ==> r == None::<T> && final(self).buffered()
                == old(self).buffered(),
    {
        self.buffer.pop_front()
    }

    /// One receive, with the lock on `inner` held: the buffer first; else the
    /// head of the shared queue, whose rest moves into the buffer in one go;
    /// else closure when no sender is left; else wait.
    pub fn recv_from(&mut self, inner: &mut Inner<T>) -> (r: Step<T>)
        ensures
            r == recv_step(old(self).pending(old(inner)), old(inner).senders()),
            final(self).pending(final(inner)) == recv_rest(old(self).pending(old(inner))),
            final(inner).senders() == old(inner).senders(),
            old(self).buffered().len() > 0 ==> *final(inner) == *old(inner),
            old(self).buffered().len() == 0 ==> final(inner).queue() == Seq::<T>::empty(),
    {
        let ghost before = self.buffered() + inner.queue();
        match self.buffer.pop_front() {
            Some(v) => {
                proof {
                    assert(before =~= seq![v] + self.pending(inner));
                }
                Step::Item(v)
            },
            None => {
                match inner.queue.pop_front() {
                    Some(v) => {
                        if inner.queue.len() > 0 {
                            std::mem::swap(&mut inner.queue, &mut self.buffer);
                        }
                        proof {
                            assert(self.pending(inner) =~= before.drop_first());
                        }
                        Step::Item(v)
                    },
                    None => {
                        if inner.senders == 0 {
                            Step::Closed
                        } else {
                            Step::Wait
                        }
                    },
                }
            },
        }
    }
}

/// What is pending after each value of `vs`, in order, is sent onto `pending`.
pub open spec fn sent<T>(pending: Seq<T>, vs: Seq<T>) -> Seq<T>
    decreases vs.len(),
{
    if vs.len() == 0 {
        pending
    } else {
        sent(pending, vs.drop_last()).push(vs.last())
    }
}

/// What is pending after `n` receives.
pub open spec fn rest_after<T>(pending: Seq<T>, n: nat) -> Seq<T>
    decreases n,
{
    if n == 0 {
        pending
    } else {
        recv_rest(rest_after(pending, (n - 1) as nat))
    }
}

proof fn lemma_sent<T>(pending: Seq<T>, vs: Seq<T>)
    ensures
        sent(pending, vs) == pending + vs,
    decreases vs.len(),
{
    if vs.len() > 0 {
        lemma_sent(pending, vs.drop_last());
        assert(pending + vs =~= (pending + vs.drop_last()).push(vs.last()));
    }
}

proof fn lemma_rest_after<T>(pending: Seq<T>, n: nat)
    ensures
        n <= pending.len() ==> rest_after(pending, n) == pending.skip(n as int),
        n >= pending.len() ==> rest_after(pending, n).len() == 0,
    decreases n,
{
    if n > 0 {
        lemma_rest_after(pending, (n - 1) as nat);
        if n <= pending.len() {
            assert(pending.skip((n - 1) as int).drop_first() =~= pending.skip(n as int));
        }
    } else {
        assert(pending.skip(0) =~= pending);
    }
}

/// Values sent one after another onto an empty channel are received in
/// the order in which they were sent, whatever the number of live senders.
pub proof fn fifo_order<T>(vs: Seq<T>, senders: nat)
    ensures
        sent(Seq::<T>::empty(), vs) == vs,
        forall|i: int|
            0 <= i < vs.len() ==> #[trigger] recv_step(rest_after(vs, i as nat), senders)
                == Step::Item(vs[i]),
{
    lemma_sent(Seq::<T>::empty(), vs);
    assert(Seq::<T>::empty() + vs =~= vs);
    assert forall|i: int| 0 <= i < vs.len() implies #[trigger] recv_step(
        rest_after(vs, i as nat),
        senders,
    ) == Step::Item(vs[i]) by {
        lemma_rest_after(vs, i as nat);
    }
}

/// With no sender left, the receives deliver what is pending, in order,
/// and every receive after that reports closure without waiting; with
/// nothing pending the first receive already does.
pub proof fn closure_after_senders_drop<T>(pending: Seq<T>)
    ensures
        forall|i: int|
            0 <= i < pending.len() ==> #[trigger] recv_step(rest_after(pending, i as nat), 0)
                == Step::Item(pending[i]),
        forall|n: nat|
            n >= pending.len() ==> #[trigger] recv_step(rest_after(pending, n), 0)
                == Step::<T>::Closed,
        pending.len() == 0 ==> recv_step(pending, 0) == Step::<T>::Closed,
{
    assert forall|i: int| 0 <= i < pending.len() implies #[trigger] recv_step(
        rest_after(pending, i as nat),
        0,
    ) == Step::Item(pending[i]) by {
        lemma_rest_after(pending, i as nat);
    }
    assert forall|n: nat| n >= pending.len() implies #[trigger] recv_step(
        rest_after(pending, n),
        0,
    ) == Step::<T>::Closed by {
        lemma_rest_after(pending, n);
    }
}

/// Cloning a live sender and dropping the clone leaves the count where it
/// was: above zero, so the channel does not close.
pub proof fn clone_then_drop_keeps_open(senders: nat)
    requires
        1 <= senders < usize::MAX,
    ensures
        released(added(senders)) == senders,
        released(added(senders)) > 0,
{
}

/// A send that finds the receiver waiting finds the queue empty, so it asks
/// for a wakeup, and the next receive then yields the value sent.
pub proof fn send_wakes_waiting_receiver<T>(buffered: Seq<T>, queue: Seq<T>, senders: nat, v: T)
    requires
        recv_step(buffered + queue, senders) == Step::<T>::Wait,
    ensures
        queue.len() == 0,
        recv_step(buffered + queue.push(v), senders) == Step::Item(v),
{
    assert(buffered + queue.push(v) =~= seq![v]);
}

} // verus!
