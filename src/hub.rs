use vstd::prelude::*;
use crate::message::{ChatMessage, ai_message};
use crate::history::HistoryStore;
use crate::bus::{FanoutBus, publish_model, recv_model, first_free, with_subscriber};
use crate::augment::{augmentation_prompt, augmentation_reply, reply_of};

verus! {

/// The history and the subscription slots after the optional AI reply to a
/// message is stored and published.
pub open spec fn finish_model(
    h: Seq<ChatMessage>,
    bufs: Seq<Option<Seq<ChatMessage>>>,
    cap: nat,
    reply: Option<ChatMessage>,
) -> (Seq<ChatMessage>, Seq<Option<Seq<ChatMessage>>>) {
    match reply {
        Some(a) => (h.push(a), publish_model(bufs, a, cap)),
        None => (h, bufs),
    }
}

/// The history and the subscription slots after message `m` is taken in and
/// the outcome `reply` of its augmentation is stored and published.
pub open spec fn ingress_model(
    h: Seq<ChatMessage>,
    bufs: Seq<Option<Seq<ChatMessage>>>,
    cap: nat,
    m: ChatMessage,
    reply: Option<ChatMessage>,
) -> (Seq<ChatMessage>, Seq<Option<Seq<ChatMessage>>>) {
    finish_model(h.push(m), publish_model(bufs, m, cap), cap, reply)
}

/// The message hub: the shared history, the live-update bus, and the fixed
/// identity under which AI replies are posted. Every message is appended
/// before it is published, so subscribers see messages in history order.
pub struct ChatHub {
    history: HistoryStore,
    bus: FanoutBus,
    ai_author: String,
}

impl ChatHub {
    /// Every message accepted so far, in order.
    pub closed spec fn history(&self) -> Seq<ChatMessage> {
        self.history@
    }

    /// The subscription slots of the live-update bus.
    pub closed spec fn buffers(&self) -> Seq<Option<Seq<ChatMessage>>> {
        self.bus@
    }

    /// The size of each subscriber's buffer.
    pub closed spec fn capacity(&self) -> nat {
        self.bus.capacity()
    }

    /// The identity under which AI replies are posted.
    pub closed spec fn ai_author(&self) -> String {
        self.ai_author
    }

    /// The bus is well formed.
    pub closed spec fn wf(&self) -> bool {
        self.bus.wf()
    }

    /// An empty hub whose subscribers each buffer `capacity` messages and
    /// whose AI replies are posted as `ai_author`.
    pub fn new(capacity: usize, ai_author: String) -> (r: ChatHub)
        requires
            capacity > 0,
        ensures
            r.wf(),
            r.history() == Seq::<ChatMessage>::empty(),
            r.buffers() == Seq::<Option<Seq<ChatMessage>>>::empty(),
            r.capacity() == capacity,
            r.ai_author() == ai_author,
    {
        ChatHub { history: HistoryStore::new(), bus: FanoutBus::new(capacity), ai_author }
    }

    /// Takes in message `m`: appends it, publishes it, and returns the
    /// prompt for its AI reply where `m` is human-authored. The completion
    /// is asked for outside the hub; its outcome goes to `finish`.
    pub fn accept(&mut self, m: ChatMessage) -> (r: Option<String>)
        requires
            old(self).wf(),
        ensures
            final(self).wf(),
            final(self).capacity() == old(self).capacity(),
            final(self).ai_author() == old(self).ai_author(),
            final(self).history() == old(self).history().push(m),
            final(self).buffers() == publish_model(old(self).buffers(), m, old(self).capacity()),
            r is Some <==> m.spec_is_human(),
            r is Some ==> r->0 == m.content,
    {
        let prompt = augmentation_prompt(&m);
        self.history.append(m.copied());
        self.bus.publish(&m);
        prompt
    }

    /// Stores and publishes the AI reply that the outcome `completion`
    /// yields, where there is one, and returns a snapshot of the history.
    pub fn finish(&mut self, completion: Option<String>) -> (r: Vec<ChatMessage>)
        requires
            old(self).wf(),
        ensures
            final(self).wf(),
            final(self).capacity() == old(self).capacity(),
            final(self).ai_author() == old(self).ai_author(),
            (final(self).history(), final(self).buffers()) == finish_model(
                old(self).history(),
                old(self).buffers(),
                old(self).capacity(),
                reply_of(old(self).ai_author(), completion),
            ),
            r@ == final(self).history(),
    {
        match augmentation_reply(&self.ai_author, completion) {
            Some(a) => {
                self.history.append(a.copied());
                self.bus.publish(&a);
            },
            None => {},
        }
        self.history.snapshot()
    }

    /// A snapshot of the whole history, in order.
    pub fn messages(&self) -> (r: Vec<ChatMessage>)
        ensures
            r@ == self.history(),
    {
        self.history.snapshot()
    }

    /// Attaches a live-update session: subscribes it, then takes the
    /// snapshot that it delivers first. Both happen under one exclusive
    /// borrow, so no publish falls between them: each message reaches the
    /// session once, in the snapshot or through its buffer.
    pub fn attach(&mut self) -> (r: (usize, Vec<ChatMessage>))
        requires
            old(self).wf(),
        ensures
            final(self).wf(),
            final(self).capacity() == old(self).capacity(),
            final(self).ai_author() == old(self).ai_author(),
            final(self).history() == old(self).history(),
            first_free(old(self).buffers(), r.0 as int),
            final(self).buffers() == with_subscriber(old(self).buffers(), r.0 as int),
            r.1@ == old(self).history(),
    {
        let id = self.bus.subscribe();
        (id, self.history.snapshot())
    }

    /// The next live event for session `id`, if one is pending.
    pub fn next_event(&mut self, id: usize) -> (r: Option<ChatMessage>)
        requires
            old(self).wf(),
        ensures
            final(self).wf(),
            final(self).capacity() == old(self).capacity(),
            final(self).ai_author() == old(self).ai_author(),
            final(self).history() == old(self).history(),
            (final(self).buffers(), r) == recv_model(old(self).buffers(), id as int),
    {
        self.bus.try_recv(id)
    }

    /// Detaches session `id`: its subscription is released and its slot
    /// becomes free for a later session.
    pub fn detach(&mut self, id: usize)
        requires
            old(self).wf(),
        ensures
            final(self).wf(),
            final(self).capacity() == old(self).capacity(),
            final(self).ai_author() == old(self).ai_author(),
            final(self).history() == old(self).history(),
            final(self).buffers() == if id < old(self).buffers().len() {
                old(self).buffers().update(id as int, None)
            } else {
                old(self).buffers()
            },
    {
        self.bus.unsubscribe(id)
    }
}

/// Best effort: where the completion fails, a human message is still
/// appended once and published once, and no AI message is added.
pub proof fn lemma_failed_augmentation(
    h: Seq<ChatMessage>,
    bufs: Seq<Option<Seq<ChatMessage>>>,
    cap: nat,
    m: ChatMessage,
    author: String,
)
    requires
        m.spec_is_human(),
    ensures
        ingress_model(h, bufs, cap, m, reply_of(author, None)) == (h.push(m), publish_model(bufs, m, cap)),
{
}

/// Where the completion succeeds with `text`, the history gains exactly two
/// entries, in order: the human message, then the reply carrying `text`
/// under the AI's identity; both are published, in that order.
pub proof fn lemma_augmented_ingress(
    h: Seq<ChatMessage>,
    bufs: Seq<Option<Seq<ChatMessage>>>,
    cap: nat,
    m: ChatMessage,
    author: String,
    text: String,
)
    requires
        m.spec_is_human(),
    ensures
        ingress_model(h, bufs, cap, m, reply_of(author, Some(text))).0 == h + seq![m, ai_message(author, text)],
        ingress_model(h, bufs, cap, m, reply_of(author, Some(text))).1 == publish_model(
            publish_model(bufs, m, cap),
            ai_message(author, text),
            cap,
        ),
{
    assert(h.push(m).push(ai_message(author, text)) =~= h + seq![m, ai_message(author, text)]);
}

} // verus!
