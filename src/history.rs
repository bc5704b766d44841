use vstd::prelude::*;
use crate::message::ChatMessage;

verus! {

/// The history after the messages `ms` are appended to `h`, one at a time,
/// in order.
pub open spec fn append_all(h: Seq<ChatMessage>, ms: Seq<ChatMessage>) -> Seq<ChatMessage>
    decreases ms.len(),
{
    if ms.len() == 0 {
        h
    } else {
        append_all(h, ms.drop_last()).push(ms.last())
    }
}

/// The append-only, ordered record of every accepted message.
pub struct HistoryStore {
    messages: Vec<ChatMessage>,
}

impl View for HistoryStore {
    type V = Seq<ChatMessage>;

    closed spec fn view(&self) -> Seq<ChatMessage> {
        self.messages@
    }
}

impl HistoryStore {
    /// An empty history.
    pub fn new() -> (r: HistoryStore)
        ensures
            r@ == Seq::<ChatMessage>::empty(),
    {
        HistoryStore { messages: Vec::new() }
    }

    /// Adds `m` at the end and returns its position.
    pub fn append(&mut self, m: ChatMessage) -> (r: usize)
        ensures
            final(self)@ == old(self)@.push(m),
            r == old(self)@.len(),
    {
        let r = self.messages.len();
        self.messages.push(m);
        r
    }

    /// The number of messages appended so far.
    pub fn len(&self) -> (r: usize)
        ensures
            r == self@.len(),
    {
        self.messages.len()
    }

    /// A copy of every message appended so far, in order. The copy is owned
    /// by the caller: later appends leave it as it is.
    pub fn snapshot(&self) -> (r: Vec<ChatMessage>)
        ensures
            r@ == self@,
    {
        let mut r: Vec<ChatMessage> = Vec::new();
        let mut i: usize = 0;
        while i < self.messages.len()
            invariant
                i <= self.messages@.len(),
                r@ == self.messages@.subrange(0, i as int),
            decreases self.messages@.len() - i,
        {
            r.push(self.messages[i].copied());
            i += 1;
            assert(r@ =~= self.messages@.subrange(0, i as int));
        }
        assert(r@ =~= self.messages@);
        r
    }
}

/// Appending messages one by one leaves each of them in the history exactly
/// once, after what was there, in the order in which the appends completed.
pub proof fn lemma_append_all(h: Seq<ChatMessage>, ms: Seq<ChatMessage>)
    ensures
        append_all(h, ms) == h + ms,
    decreases ms.len(),
{
    if ms.len() > 0 {
        lemma_append_all(h, ms.drop_last());
        assert(h + ms =~= (h + ms.drop_last()).push(ms.last()));
    }
}

/// A snapshot taken before further appends stays a prefix of every later
/// history: what it holds is neither changed nor reordered by them.
pub proof fn lemma_snapshot_prefix(h: Seq<ChatMessage>, ms: Seq<ChatMessage>)
    ensures
        append_all(h, ms).len() == h.len() + ms.len(),
        append_all(h, ms).subrange(0, h.len() as int) == h,
{
    lemma_append_all(h, ms);
    assert((h + ms).subrange(0, h.len() as int) =~= h);
}

} // verus!
