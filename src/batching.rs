//! The buffer of the batching publisher.
//!
//! Messages are held in the order they were sent. A send that brings the
//! buffer to the size threshold hands the whole buffer back for delivery; a
//! periodic tick hands back whatever is buffered, which may be nothing. The
//! caller delivers what it is handed, in order, to the wrapped publisher.
use vstd::prelude::*;
use crate::message::KafkaMessage;

verus! {

/// A send: the message is appended; when the buffer reaches `max` messages the
/// whole buffer is delivered and the buffer left empty. Gives the new buffer and
/// what is delivered.
pub open spec fn send_step<M>(items: Seq<M>, max: nat, m: M) -> (Seq<M>, Seq<M>) {
    let b = items.push(m);
    if b.len() >= max {
        (Seq::empty(), b)
    } else {
        (b, Seq::empty())
    }
}

/// A tick: everything buffered is delivered and the buffer left empty.
pub open spec fn tick_step<M>(items: Seq<M>) -> (Seq<M>, Seq<M>) {
    (Seq::empty(), items)
}

/// Sends the messages `ms` in turn; gives the final buffer and the batches
/// delivered, in order, leaving out sends that delivered nothing.
pub open spec fn send_all<M>(items: Seq<M>, max: nat, ms: Seq<M>) -> (Seq<M>, Seq<Seq<M>>)
    decreases ms.len(),
{
    if ms.len() == 0 {
        (items, Seq::empty())
    } else {
        let (b1, d) = send_step(items, max, ms[0]);
        let (b2, rest) = send_all(b1, max, ms.drop_first());
        (b2, if d.len() == 0 { rest } else { seq![d] + rest })
    }
}

/// The contents of each batch.
pub open spec fn batches_view<M>(bs: Seq<Vec<M>>) -> Seq<Seq<M>> {
    bs.map_values(|b: Vec<M>| b@)
}

/// Ordered buffer of messages waiting for delivery.
pub struct BatchBuffer<T> {
    buffer: Vec<KafkaMessage<T>>,
    max_batch_size: usize,
}

impl<T> View for BatchBuffer<T> {
    type V = Seq<KafkaMessage<T>>;

    closed spec fn view(&self) -> Seq<KafkaMessage<T>> {
        self.buffer@
    }
}

impl<T> BatchBuffer<T> {
    /// The size threshold.
    pub closed spec fn max_size(&self) -> nat {
        self.max_batch_size as nat
    }

    /// An empty buffer that flushes on reaching `max_batch_size` messages.
    pub fn new(max_batch_size: usize) -> (r: Self)
        ensures
            r@ == Seq::<KafkaMessage<T>>::empty(),
            r.max_size() == max_batch_size,
    {
        BatchBuffer { buffer: Vec::new(), max_batch_size }
    }

    /// The size threshold.
    pub fn max_batch_size(&self) -> (r: usize)
        ensures
            r == self.max_size(),
    {
        self.max_batch_size
    }

    /// The number of buffered messages.
    pub fn len(&self) -> (r: usize)
        ensures
            r == self@.len(),
    {
        self.buffer.len()
    }

    /// Whether no message is buffered.
    pub fn is_empty(&self) -> (r: bool)
        ensures
            r == (self@.len() == 0),
    {
        self.buffer.len() == 0
    }

    /// Appends `message`; says whether the buffer has reached the threshold.
    pub fn push(&mut self, message: KafkaMessage<T>) -> (flush_due: bool)
        ensures
            final(self)@ == old(self)@.push(message),
            final(self).max_size() == old(self).max_size(),
            flush_due == (final(self)@.len() >= final(self).max_size()),
    {
        self.buffer.push(message);
        self.buffer.len() >= self.max_batch_size
    }

    /// Hands back every buffered message, in order, and leaves the buffer empty.
    pub fn take(&mut self) -> (r: Vec<KafkaMessage<T>>)
        ensures
            r@ == old(self)@,
            final(self)@ == Seq::<KafkaMessage<T>>::empty(),
            final(self).max_size() == old(self).max_size(),
    {
        let mut out: Vec<KafkaMessage<T>> = Vec::new();
        std::mem::swap(&mut out, &mut self.buffer);
        out
    }

    /// A send through the batching publisher: gives what is to be delivered now.
    pub fn send(&mut self, message: KafkaMessage<T>) -> (r: Vec<KafkaMessage<T>>)
        ensures
            (final(self)@, r@) == send_step(old(self)@, old(self).max_size(), message),
            final(self).max_size() == old(self).max_size(),
    {
        let due = self.push(message);
        if due {
            self.take()
        } else {
            Vec::new()
        }
    }

    /// Sends `messages` one after another, as `send` does; gives the batches
    /// to deliver, in order, leaving out sends that delivered nothing.
    pub fn send_batch(&mut self, messages: Vec<KafkaMessage<T>>) -> (r: Vec<Vec<KafkaMessage<T>>>)
        ensures
            final(self).max_size() == old(self).max_size(),
            (final(self)@, batches_view(r@)) == send_all(
                old(self)@,
                old(self).max_size(),
                messages@,
            ),
    {
        let ghost all = messages@;
        let ghost start = self@;
        let ghost max = self.max_size();
        let mut pending = messages;
        let mut batches: Vec<Vec<KafkaMessage<T>>> = Vec::new();
        let ghost mut sent: nat = 0;
        assert(all.subrange(0, all.len() as int) =~= all);
        assert(batches_view(batches@) =~= Seq::<Seq<KafkaMessage<T>>>::empty());
        assert(Seq::<Seq<KafkaMessage<T>>>::empty() + send_all(self@, max, all).1 =~= send_all(
            self@,
            max,
            all,
        ).1);
        while pending.len() > 0
            invariant
                self.max_size() == max,
                sent <= all.len(),
                pending@ == all.subrange(sent as int, all.len() as int),
                send_all(start, max, all) == ({
                    let (b, rest) = send_all(self@, max, pending@);
                    (b, batches_view(batches@) + rest)
                }),
            decreases pending.len(),
        {
            let ghost before = self@;
            let ghost rest_before = pending@;
            let ghost done = batches_view(batches@);
            let m = pending.remove(0);
            assert(m == rest_before[0]);
            assert(pending@ =~= rest_before.drop_first());
            let out = self.send(m);
            let ghost (b2, rest) = send_all(self@, max, pending@);
            if out.len() > 0 {
                batches.push(out);
                assert(batches_view(batches@) =~= done.push(out@));
                assert(done + (seq![out@] + rest) =~= done.push(out@) + rest);
            } else {
                assert(batches_view(batches@) =~= done);
            }
            proof {
                sent = sent + 1;
            }
            assert(pending@ =~= all.subrange(sent as int, all.len() as int));
        }
        assert(send_all(self@, max, pending@) == (self@, Seq::<Seq<KafkaMessage<T>>>::empty()));
        assert(batches_view(batches@) + Seq::<Seq<KafkaMessage<T>>>::empty() =~= batches_view(batches@));
        batches
    }

    /// A periodic tick: gives what is to be delivered now.
    pub fn tick(&mut self) -> (r: Vec<KafkaMessage<T>>)
        ensures
            (final(self)@, r@) == tick_step(old(self)@),
            final(self).max_size() == old(self).max_size(),
    {
        self.take()
    }
}

proof fn lemma_fill_to_threshold<M>(items: Seq<M>, max: nat, ms: Seq<M>)
    requires
        ms.len() > 0,
        items.len() + ms.len() == max,
    ensures
        send_all(items, max, ms) == (Seq::<M>::empty(), seq![items + ms]),
    decreases ms.len(),
{
    let (b1, d) = send_step(items, max, ms[0]);
    let tail = ms.drop_first();
    if ms.len() == 1 {
        assert(items.push(ms[0]) =~= items + ms);
        assert(d == items + ms);
        assert(tail.len() == 0);
        assert(send_all(b1, max, tail) == (b1, Seq::<Seq<M>>::empty()));
        assert(seq![d] + Seq::<Seq<M>>::empty() =~= seq![items + ms]);
    } else {
        assert(d.len() == 0);
        lemma_fill_to_threshold(b1, max, tail);
        assert(b1 + tail =~= items + ms);
        assert(seq![b1 + tail] == seq![items + ms]);
    }
}

/// With a threshold of `n >= 1` and an empty buffer, sending `n` messages
/// (by `n` calls of `send`, or one `send_batch`, whose contracts are the steps
/// of `send_all`) triggers exactly one flush, which delivers all `n` messages
/// in the order they were sent and leaves the buffer empty.
pub proof fn lemma_threshold_flush<M>(n: nat, ms: Seq<M>)
    requires
        n >= 1,
        ms.len() == n,
    ensures
        send_all(Seq::<M>::empty(), n, ms) == (Seq::<M>::empty(), seq![ms]),
{
    lemma_fill_to_threshold(Seq::<M>::empty(), n, ms);
    assert(Seq::<M>::empty() + ms =~= ms);
}

/// A tick with an empty buffer delivers nothing and leaves the buffer empty.
pub proof fn lemma_empty_tick_sends_nothing<M>(items: Seq<M>)
    requires
        items.len() == 0,
    ensures
        tick_step(items).0.len() == 0,
        tick_step(items).1.len() == 0,
{
}

/// Order is kept: the batches delivered, one after another, followed by what
/// stays buffered, are the messages buffered before followed by those sent.
pub proof fn lemma_send_order_kept<M>(items: Seq<M>, max: nat, ms: Seq<M>)
    ensures
        ({
            let (b, batches) = send_all(items, max, ms);
            batches.flatten() + b == items + ms
        }),
    decreases ms.len(),
{
    if ms.len() == 0 {
        assert(Seq::<Seq<M>>::empty().flatten() =~= Seq::<M>::empty());
        assert(Seq::<M>::empty() + items =~= items + ms);
    } else {
        let (b1, d) = send_step(items, max, ms[0]);
        let tail = ms.drop_first();
        lemma_send_order_kept(b1, max, tail);
        let (b2, rest) = send_all(b1, max, tail);
        assert(d + b1 =~= items.push(ms[0]));
        if d.len() == 0 {
            assert(rest.flatten() + b2 =~= b1 + tail);
            assert(b1 =~= d + b1);
        } else {
            let all = seq![d] + rest;
            assert(all.first() == d);
            assert(all.drop_first() =~= rest);
        }
        assert(items.push(ms[0]) + tail =~= items + ms);
    }
}

} // verus!
