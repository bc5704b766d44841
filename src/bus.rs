use vstd::prelude::*;
use vstd::pervasive::VecAdditionalExecFns;
use crate::message::ChatMessage;

verus! {

/// The last `n` items of `s`, or all of `s` where it holds no more than `n`.
pub open spec fn last_n(s: Seq<ChatMessage>, n: nat) -> Seq<ChatMessage> {
    if s.len() <= n {
        s
    } else {
        s.subrange(s.len() - n, s.len() as int)
    }
}

/// One subscriber's buffer after `m` is published to it: `m` goes at the end
/// and, where the buffer would exceed `cap`, the oldest message is dropped.
pub open spec fn bounded_push(b: Seq<ChatMessage>, m: ChatMessage, cap: nat) -> Seq<ChatMessage> {
    last_n(b.push(m), cap)
}

/// The state of one subscription slot after `m` is published: a live
/// buffer takes `m`, a released slot stays released.
pub open spec fn publish_slot(
    o: Option<Seq<ChatMessage>>,
    m: ChatMessage,
    cap: nat,
) -> Option<Seq<ChatMessage>> {
    match o {
        Some(b) => Some(bounded_push(b, m, cap)),
        None => None,
    }
}

/// Every slot after `m` is published to the bus whose slots are `bufs`.
pub open spec fn publish_model(
    bufs: Seq<Option<Seq<ChatMessage>>>,
    m: ChatMessage,
    cap: nat,
) -> Seq<Option<Seq<ChatMessage>>> {
    Seq::new(bufs.len(), |i: int| publish_slot(bufs[i], m, cap))
}

/// Every slot after the messages `ms` are published, one at a time, in order.
pub open spec fn publish_all(
    bufs: Seq<Option<Seq<ChatMessage>>>,
    ms: Seq<ChatMessage>,
    cap: nat,
) -> Seq<Option<Seq<ChatMessage>>>
    decreases ms.len(),
{
    if ms.len() == 0 {
        bufs
    } else {
        publish_model(publish_all(bufs, ms.drop_last(), cap), ms.last(), cap)
    }
}

/// The slots after subscriber `id` takes the oldest message of its buffer,
/// and that message; nothing where the slot is released, unknown or empty.
pub open spec fn recv_model(
    bufs: Seq<Option<Seq<ChatMessage>>>,
    id: int,
) -> (Seq<Option<Seq<ChatMessage>>>, Option<ChatMessage>) {
    if 0 <= id < bufs.len() && bufs[id] is Some && bufs[id]->0.len() > 0 {
        (bufs.update(id, Some(bufs[id]->0.drop_first())), Some(bufs[id]->0[0]))
    } else {
        (bufs, None)
    }
}

/// `r` is the first released slot of `bufs`, or the end where none is.
pub open spec fn first_free(bufs: Seq<Option<Seq<ChatMessage>>>, r: int) -> bool {
    &&& 0 <= r <= bufs.len()
    &&& forall|i: int| 0 <= i < r ==> #[trigger] bufs[i] is Some
    &&& r < bufs.len() ==> bufs[r] is None
}

/// The slots after a new subscriber with an empty buffer takes slot `r`.
pub open spec fn with_subscriber(bufs: Seq<Option<Seq<ChatMessage>>>, r: int) -> Seq<Option<Seq<ChatMessage>>> {
    if r < bufs.len() {
        bufs.update(r, Some(Seq::<ChatMessage>::empty()))
    } else {
        bufs.push(Some(Seq::<ChatMessage>::empty()))
    }
}

/// What a subscription slot holds, as a sequence.
pub open spec fn slot_view(o: Option<Vec<ChatMessage>>) -> Option<Seq<ChatMessage>> {
    match o {
        Some(b) => Some(b@),
        None => None,
    }
}

/// A one-to-many, lossy distribution bus. Each subscription owns a private
/// buffer of at most `capacity` messages; a publish never waits for a
/// subscriber, and a full buffer loses its oldest message instead.
/// A subscription id is a slot position; once released, the slot may be
/// given to a later subscriber, so an id is valid only until it is released.
pub struct FanoutBus {
    capacity: usize,
    buffers: Vec<Option<Vec<ChatMessage>>>,
}

impl View for FanoutBus {
    type V = Seq<Option<Seq<ChatMessage>>>;

    /// One entry per slot: the pending messages of the subscription that
    /// holds it, oldest first, or nothing where the slot is free.
    closed spec fn view(&self) -> Seq<Option<Seq<ChatMessage>>> {
        Seq::new(self.buffers@.len(), |i: int| slot_view(self.buffers@[i]))
    }
}

impl FanoutBus {
    /// The size of each subscriber's buffer.
    pub closed spec fn capacity(&self) -> nat {
        self.capacity as nat
    }

    /// The capacity is positive and no buffer holds more than it.
    pub open spec fn wf(&self) -> bool {
        &&& self.capacity() > 0
        &&& forall|i: int|
            0 <= i < self@.len() && #[trigger] self@[i] is Some ==> self@[i]->0.len() <= self.capacity()
    }

    /// A bus without subscribers whose buffers hold `capacity` messages each.
    pub fn new(capacity: usize) -> (r: FanoutBus)
        requires
            capacity > 0,
        ensures
            r.wf(),
            r@ == Seq::<Option<Seq<ChatMessage>>>::empty(),
            r.capacity() == capacity,
    {
        let r = FanoutBus { capacity, buffers: Vec::new() };
        assert(r@ =~= Seq::<Option<Seq<ChatMessage>>>::empty());
        r
    }

    /// The size of each subscriber's buffer.
    pub fn buffer_capacity(&self) -> (r: usize)
        ensures
            r == self.capacity(),
    {
        self.capacity
    }

    /// Registers a listener with an empty buffer and returns its id: the
    /// first released slot, or a new one at the end where none is free.
    pub fn subscribe(&mut self) -> (r: usize)
        requires
            old(self).wf(),
        ensures
            final(self).wf(),
            final(self).capacity() == old(self).capacity(),
            first_free(old(self)@, r as int),
            final(self)@ == with_subscriber(old(self)@, r as int),
    {
        let n = self.buffers.len();
        let mut i: usize = 0;
        while i < n
            invariant
                n == self.buffers@.len(),
                n == old(self)@.len(),
                self@ == old(self)@,
                self.capacity == old(self).capacity,
                self.wf(),
                i <= n,
                forall|j: int| 0 <= j < i ==> #[trigger] old(self)@[j] is Some,
            decreases n - i,
        {
            if self.buffers[i].is_none() {
                assert(old(self)@[i as int] is None);
                self.buffers.set(i, Some(Vec::new()));
                assert(self@ =~= with_subscriber(old(self)@, i as int));
                return i;
            }
            assert(old(self)@[i as int] is Some);
            i += 1;
        }
        self.buffers.push(Some(Vec::new()));
        assert(self@ =~= with_subscriber(old(self)@, n as int));
        n
    }

    /// Releases subscription `id`: its buffer is dropped and it receives
    /// nothing more. An unknown id changes nothing.
    pub fn unsubscribe(&mut self, id: usize)
        requires
            old(self).wf(),
        ensures
            final(self).wf(),
            final(self).capacity() == old(self).capacity(),
            final(self)@ == if id < old(self)@.len() {
                old(self)@.update(id as int, None)
            } else {
                old(self)@
            },
    {
        if id < self.buffers.len() {
            self.buffers.set(id, None);
            assert(self@ =~= old(self)@.update(id as int, None));
        }
    }

    /// Takes the oldest pending message of subscription `id`, if there is one.
    pub fn try_recv(&mut self, id: usize) -> (r: Option<ChatMessage>)
        requires
            old(self).wf(),
        ensures
            final(self).wf(),
            final(self).capacity() == old(self).capacity(),
            (final(self)@, r) == recv_model(old(self)@, id as int),
    {
        if id >= self.buffers.len() {
            return None;
        }
        let mut slot: Option<Vec<ChatMessage>> = None;
        self.buffers.set_and_swap(id, &mut slot);
        match slot {
            Some(mut b) => {
                if b.len() == 0 {
                    self.buffers.set(id, Some(b));
                    assert(self@ =~= old(self)@);
                    None
                } else {
                    let m = b.remove(0);
                    self.buffers.set(id, Some(b));
                    assert(self@ =~= recv_model(old(self)@, id as int).0);
                    Some(m)
                }
            },
            None => {
                self.buffers.set(id, None);
                assert(self@ =~= old(self)@);
                None
            },
        }
    }

    /// Delivers `m` to every live subscription. Each buffer is handled on
    /// its own and none is waited for: a full one drops its oldest message.
    pub fn publish(&mut self, m: &ChatMessage)
        requires
            old(self).wf(),
        ensures
            final(self).wf(),
            final(self).capacity() == old(self).capacity(),
            final(self)@ == publish_model(old(self)@, *m, old(self).capacity()),
    {
        let ghost cap = self.capacity();
        let ghost target = publish_model(old(self)@, *m, cap);
        let n = self.buffers.len();
        let mut i: usize = 0;
        while i < n
            invariant
                n == self.buffers@.len(),
                n == old(self)@.len(),
                i <= n,
                cap == self.capacity(),
                self.wf(),
                target == publish_model(old(self)@, *m, cap),
                forall|j: int| 0 <= j < i ==> #[trigger] self@[j] == target[j],
                forall|j: int| i <= j < n ==> #[trigger] self@[j] == old(self)@[j],
            decreases n - i,
        {
            let ghost before = self@;
            let mut slot: Option<Vec<ChatMessage>> = None;
            self.buffers.set_and_swap(i, &mut slot);
            assert(before[i as int] == slot_view(slot));
            match slot {
                Some(mut b) => {
                    let ghost ob = b@;
                    assert(ob.len() <= cap);
                    if b.len() >= self.capacity {
                        b.remove(0);
                    }
                    b.push(m.copied());
                    assert(b@ =~= bounded_push(ob, *m, cap));
                    self.buffers.set(i, Some(b));
                },
                None => {
                    self.buffers.set(i, None);
                },
            }
            assert(self@ =~= before.update(i as int, target[i as int]));
            i += 1;
        }
        assert(self@ =~= target);
    }
}

/// The slots after the messages `ms` are published in turn, subscriber
/// `reader` draining its buffer after each publish, and what `reader`
/// received, in order.
pub open spec fn publish_and_drain(
    bufs: Seq<Option<Seq<ChatMessage>>>,
    ms: Seq<ChatMessage>,
    cap: nat,
    reader: int,
) -> (Seq<Option<Seq<ChatMessage>>>, Seq<ChatMessage>)
    decreases ms.len(),
{
    if ms.len() == 0 {
        (bufs, Seq::empty())
    } else {
        let (before, got) = publish_and_drain(bufs, ms.drop_last(), cap, reader);
        let (after, m) = recv_model(publish_model(before, ms.last(), cap), reader);
        match m {
            Some(x) => (after, got.push(x)),
            None => (after, got),
        }
    }
}

proof fn lemma_last_n_push(s: Seq<ChatMessage>, x: ChatMessage, n: nat)
    requires
        n > 0,
    ensures
        last_n(last_n(s, n).push(x), n) == last_n(s.push(x), n),
{
    if s.len() > n {
        assert(last_n(last_n(s, n).push(x), n) =~= last_n(s.push(x), n));
    }
}

/// After any run of publishes, a live buffer holds the last `cap` messages
/// of what it held followed by what was published; a released slot stays
/// released.
pub proof fn lemma_publish_all_slot(
    bufs: Seq<Option<Seq<ChatMessage>>>,
    ms: Seq<ChatMessage>,
    cap: nat,
    i: int,
)
    requires
        cap > 0,
        0 <= i < bufs.len(),
        bufs[i] is Some ==> bufs[i]->0.len() <= cap,
    ensures
        publish_all(bufs, ms, cap).len() == bufs.len(),
        publish_all(bufs, ms, cap)[i] == match bufs[i] {
            Some(b) => Some(last_n(b + ms, cap)),
            None => None::<Seq<ChatMessage>>,
        },
    decreases ms.len(),
{
    if ms.len() == 0 {
        if bufs[i] is Some {
            assert(bufs[i]->0 + ms =~= bufs[i]->0);
        }
    } else {
        lemma_publish_all_slot(bufs, ms.drop_last(), cap, i);
        if bufs[i] is Some {
            let b = bufs[i]->0;
            lemma_last_n_push(b + ms.drop_last(), ms.last(), cap);
            assert((b + ms.drop_last()).push(ms.last()) =~= b + ms);
        }
    }
}

/// Publishing at most `cap` messages to subscribers whose buffers are empty
/// delivers all of them, in order, to every subscriber.
pub proof fn lemma_fanout_complete(bufs: Seq<Option<Seq<ChatMessage>>>, ms: Seq<ChatMessage>, cap: nat)
    requires
        cap > 0,
        ms.len() <= cap,
        forall|i: int| 0 <= i < bufs.len() && #[trigger] bufs[i] is Some ==> bufs[i]->0.len() == 0,
    ensures
        publish_all(bufs, ms, cap).len() == bufs.len(),
        forall|i: int|
            0 <= i < bufs.len() ==> #[trigger] publish_all(bufs, ms, cap)[i] == if bufs[i] is Some {
                Some(ms)
            } else {
                None
            },
{
    assert forall|i: int|
        0 <= i < bufs.len() implies #[trigger] publish_all(bufs, ms, cap)[i] == if bufs[i] is Some {
            Some(ms)
        } else {
            None
        } by {
        lemma_publish_all_slot(bufs, ms, cap, i);
        if bufs[i] is Some {
            assert(bufs[i]->0 + ms =~= ms);
        }
    }
    if bufs.len() > 0 {
        lemma_publish_all_slot(bufs, ms, cap, 0);
    } else {
        lemma_publish_all_len(bufs, ms, cap);
    }
}

proof fn lemma_publish_all_len(bufs: Seq<Option<Seq<ChatMessage>>>, ms: Seq<ChatMessage>, cap: nat)
    ensures
        publish_all(bufs, ms, cap).len() == bufs.len(),
    decreases ms.len(),
{
    if ms.len() > 0 {
        lemma_publish_all_len(bufs, ms.drop_last(), cap);
    }
}

proof fn lemma_drain_step(
    bufs: Seq<Option<Seq<ChatMessage>>>,
    ms: Seq<ChatMessage>,
    cap: nat,
    reader: int,
)
    requires
        cap > 0,
        0 <= reader < bufs.len(),
        bufs[reader] == Some(Seq::<ChatMessage>::empty()),
    ensures
        publish_and_drain(bufs, ms, cap, reader).0.len() == bufs.len(),
        publish_and_drain(bufs, ms, cap, reader).0[reader] == Some(Seq::<ChatMessage>::empty()),
        publish_and_drain(bufs, ms, cap, reader).1 == ms,
        forall|j: int|
            0 <= j < bufs.len() && j != reader ==> #[trigger] publish_and_drain(bufs, ms, cap, reader).0[j]
                == publish_all(bufs, ms, cap)[j],
    decreases ms.len(),
{
    if ms.len() > 0 {
        let prev = ms.drop_last();
        lemma_drain_step(bufs, prev, cap, reader);
        lemma_publish_all_len(bufs, prev, cap);
        let before = publish_and_drain(bufs, prev, cap, reader).0;
        let published = publish_model(before, ms.last(), cap);
        assert(published[reader] == Some(seq![ms.last()]));
        assert(seq![ms.last()].drop_first() =~= Seq::<ChatMessage>::empty());
        assert(recv_model(published, reader).0 =~= published.update(
            reader,
            Some(Seq::<ChatMessage>::empty()),
        ));
        assert(publish_and_drain(bufs, prev, cap, reader).1.push(ms.last()) =~= ms);
    }
}

/// Overload: a subscriber that never reads ends up holding only the last
/// `cap` of more than `cap` published messages, the oldest dropped, while a
/// subscriber that drains its buffer after each publish receives all of
/// them, in order. Neither affects what the other gets.
pub proof fn lemma_fanout_overload(
    bufs: Seq<Option<Seq<ChatMessage>>>,
    ms: Seq<ChatMessage>,
    cap: nat,
    stalled: int,
    reader: int,
)
    requires
        cap > 0,
        ms.len() > cap,
        0 <= stalled < bufs.len(),
        0 <= reader < bufs.len(),
        stalled != reader,
        bufs[stalled] == Some(Seq::<ChatMessage>::empty()),
        bufs[reader] == Some(Seq::<ChatMessage>::empty()),
    ensures
        publish_and_drain(bufs, ms, cap, reader).0[stalled] == Some(
            ms.subrange(ms.len() - cap, ms.len() as int),
        ),
        publish_and_drain(bufs, ms, cap, reader).1 == ms,
{
    lemma_drain_step(bufs, ms, cap, reader);
    lemma_publish_all_slot(bufs, ms, cap, stalled);
    assert(Seq::<ChatMessage>::empty() + ms =~= ms);
}

/// A publish treats each subscription on its own: what a subscriber's
/// buffer becomes depends on that buffer alone, never on how full or how
/// stalled any other subscriber is.
pub proof fn lemma_publish_isolated(
    a: Seq<Option<Seq<ChatMessage>>>,
    b: Seq<Option<Seq<ChatMessage>>>,
    m: ChatMessage,
    cap: nat,
    i: int,
)
    requires
        0 <= i < a.len(),
        0 <= i < b.len(),
        a[i] == b[i],
    ensures
        publish_model(a, m, cap)[i] == publish_model(b, m, cap)[i],
{
}

} // verus!
