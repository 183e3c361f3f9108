//! The correlation table: which requests wait for a response, which have
//! received one, and which inbound messages wait to be handed out.

use vstd::prelude::*;
use crate::message::{messages_view, pairs_view, CorrelationId, Content, Message, Response};
use crate::model::{
    age, lemma_after_retry_wf, lemma_record_received_wf, lemma_record_sent_wf, other_than,
    request_of, restarted_at, stale_at, Arrival, PendingView, TableView,
};

verus! {

/// Time, in milliseconds, that a request waits before it is sent again when
/// the table is made by [`ComsManager::default`].
pub const DEFAULT_RETRY_AFTER: u64 = 5000;

/// A request that waits for its response.
#[derive(Debug)]
struct PendingEntry {
    message: Message,
    since: u64,
}

impl View for PendingEntry {
    type V = PendingView;

    closed spec fn view(&self) -> PendingView {
        PendingView { message: self.message@, since: self.since }
    }
}

spec fn pending_view(entries: Seq<PendingEntry>) -> Seq<PendingView> {
    entries.map_values(|entry: PendingEntry| entry@)
}

/// The correlation table.
#[derive(Debug)]
pub struct ComsManager {
    pending: Vec<PendingEntry>,
    responded: Vec<(Message, Response)>,
    received: Vec<Message>,
    now: u64,
    retry_after: u64,
}

impl View for ComsManager {
    type V = TableView;

    closed spec fn view(&self) -> TableView {
        TableView {
            pending: pending_view(self.pending@),
            responded: pairs_view(self.responded@),
            received: messages_view(self.received@),
            now: self.now,
            retry_after: self.retry_after,
        }
    }
}

impl ComsManager {
    /// An empty table whose requests are sent again after `retry_after`
    /// units of its clock without a response.
    pub fn new(retry_after: u64) -> (table: ComsManager)
        ensures
            table@ == TableView::empty(retry_after),
            table@.wf(),
    {
        let table = ComsManager {
            pending: Vec::new(),
            responded: Vec::new(),
            received: Vec::new(),
            now: 0,
            retry_after,
        };
        assert(table@.pending =~= Seq::empty());
        assert(table@.responded =~= Seq::empty());
        assert(table@.received =~= Seq::empty());
        table
    }

    /// The place of the first pending request with the identifier `id`.
    fn find(&self, id: CorrelationId) -> (found: Option<usize>)
        ensures
            match found {
                Some(i) => self@.position(id) == Some(i as int) && i < self.pending.len(),
                None => self@.position(id).is_none(),
            },
            found.is_some() == self@.is_pending(id),
    {
        let ghost ids = self@.pending_ids();
        let mut i: usize = 0;
        while i < self.pending.len()
            invariant
                i <= self.pending.len(),
                ids == self@.pending_ids(),
                ids.len() == self.pending.len(),
                forall|j: int| 0 <= j < i ==> ids[j] != id,
            decreases self.pending.len() - i,
        {
            if self.pending[i].message.id == id {
                proof {
                    assert(ids[i as int] == id);
                    ids.index_of_first_ensures(id);
                }
                return Some(i);
            }
            i += 1;
        }
        proof {
            ids.index_of_first_ensures(id);
        }
        None
    }

    /// Records that `message` was sent.
    pub fn record_sent(&mut self, message: Message)
        ensures
            final(self)@ == old(self)@.record_sent(message@),
            old(self)@.wf() ==> final(self)@.wf(),
    {
        proof {
            if old(self)@.wf() {
                lemma_record_sent_wf(old(self)@, message@);
            }
        }
        if message.expects_reply() {
            let found = self.find(message.id);
            let entry = PendingEntry { message, since: self.now };
            match found {
                Some(i) => {
                    self.pending.set(i, entry);
                    assert(self@.pending =~= old(self)@.pending.update(i as int, entry@));
                },
                None => {
                    self.pending.push(entry);
                    assert(self@.pending =~= old(self)@.pending.push(entry@));
                },
            }
        }
    }

    /// Records that a response was sent back under `id`: the inbound
    /// messages of that identifier that have not been handed out yet are
    /// forgotten.
    pub fn acknowledge(&mut self, id: CorrelationId)
        ensures
            final(self)@ == old(self)@.acknowledge(id),
            old(self)@.wf() ==> final(self)@.wf(),
    {
        let mut inbound: Vec<Message> = Vec::new();
        std::mem::swap(&mut self.received, &mut inbound);
        self.received = without_id(inbound, id);
    }

    /// Records that `message` arrived, and says what became of it.
    pub fn record_received(&mut self, message: Message) -> (arrival: Arrival)
        ensures
            arrival == old(self)@.arrival(message@),
            final(self)@ == old(self)@.record_received(message@),
            old(self)@.wf() ==> final(self)@.wf(),
    {
        proof {
            if old(self)@.wf() {
                lemma_record_received_wf(old(self)@, message@);
            }
        }
        match message.content {
            Content::Response(response) => {
                match self.find(message.id) {
                    Some(i) => {
                        let entry = self.pending.remove(i);
                        self.responded.push((entry.message, response));
                        assert(self@.pending =~= old(self)@.pending.remove(i as int));
                        assert(self@.responded =~= old(self)@.responded.push(
                            (old(self)@.pending[i as int].message, response@),
                        ));
                        Arrival::Responded
                    },
                    None => Arrival::Unexpected,
                }
            },
            _ => {
                self.received.push(message);
                assert(self@.received =~= old(self)@.received.push(message@));
                Arrival::Inbound
            },
        }
    }

    /// Sets the table's clock to `now`.
    pub fn tick(&mut self, now: u64)
        ensures
            final(self)@ == old(self)@.tick(now),
            old(self)@.wf() ==> final(self)@.wf(),
    {
        self.now = now;
    }

    /// Hands out, to be sent again, a copy of every request that has waited
    /// longer than the threshold, and starts the wait of each of them anew.
    pub fn to_retry(&mut self) -> (retries: Vec<Message>)
        ensures
            messages_view(retries@) == old(self)@.retries(),
            final(self)@ == old(self)@.after_retry(),
            old(self)@.wf() ==> final(self)@.wf(),
    {
        proof {
            lemma_after_retry_wf(old(self)@);
        }
        let ghost before = old(self)@;
        let ghost stale = stale_at(before.now, before.retry_after);
        let ghost restart = restarted_at(before.now, before.retry_after);
        let mut retries: Vec<Message> = Vec::new();
        let mut i: usize = 0;
        assert(messages_view(retries@) =~= before.pending.take(0).filter(stale).map_values(
            request_of(),
        ));
        while i < self.pending.len()
            invariant
                i <= self.pending.len(),
                self.pending.len() == before.pending.len(),
                self.now == before.now,
                self.retry_after == before.retry_after,
                self@.responded == before.responded,
                self@.received == before.received,
                stale == stale_at(before.now, before.retry_after),
                restart == restarted_at(before.now, before.retry_after),
                forall|j: int| 0 <= j < i ==> self@.pending[j] == restart(before.pending[j]),
                forall|j: int| i <= j < self.pending.len() ==> self@.pending[j] == before.pending[j],
                messages_view(retries@) == before.pending.take(i as int).filter(stale).map_values(
                    request_of(),
                ),
            decreases self.pending.len() - i,
        {
            let ghost sent = messages_view(retries@);
            let ghost entry = before.pending[i as int];
            let ghost entries = self@.pending;
            assert(entries[i as int] == entry);
            proof {
                reveal(Seq::filter);
                assert(before.pending.take(i + 1).drop_last() =~= before.pending.take(i as int));
                assert(before.pending.take(i + 1).last() == entry);
            }
            if is_stale(self.pending[i].since, self.now, self.retry_after) {
                retries.push(self.pending[i].message.clone());
                self.pending[i].since = self.now;
                assert(messages_view(retries@) =~= sent.push(entry.message));
                assert(sent.push(entry.message) =~= before.pending.take(i + 1).filter(
                    stale,
                ).map_values(request_of()));
            }
            assert forall|j: int| 0 <= j <= i implies self@.pending[j] == restart(
                before.pending[j],
            ) by {
                if j < i {
                    assert(self@.pending[j] == entries[j]);
                }
            }
            i += 1;
        }
        assert(before.pending.take(before.pending.len() as int) =~= before.pending);
        assert(self@.pending =~= before.pending.map_values(restart));
        retries
    }

    /// Hands out the requests that have received their response, each with
    /// that response, in the order in which the responses arrived, and
    /// forgets them.
    pub fn drain_responded(&mut self) -> (responded: Vec<(Message, Response)>)
        ensures
            pairs_view(responded@) == old(self)@.responded,
            final(self)@ == old(self)@.after_drain_responded(),
            old(self)@.wf() ==> final(self)@.wf(),
    {
        let mut responded: Vec<(Message, Response)> = Vec::new();
        std::mem::swap(&mut self.responded, &mut responded);
        assert(self@.responded =~= Seq::empty());
        responded
    }

    /// Hands out the inbound messages that arrived since the last call, in
    /// the order of arrival, and forgets them.
    pub fn drain_received(&mut self) -> (received: Vec<Message>)
        ensures
            messages_view(received@) == old(self)@.received,
            final(self)@ == old(self)@.after_drain_received(),
            old(self)@.wf() ==> final(self)@.wf(),
    {
        let mut received: Vec<Message> = Vec::new();
        std::mem::swap(&mut self.received, &mut received);
        assert(self@.received =~= Seq::empty());
        received
    }

    /// Whether a request with the identifier `id` waits for its response.
    pub fn is_pending(&self, id: CorrelationId) -> (pending: bool)
        ensures
            pending == self@.is_pending(id),
    {
        self.find(id).is_some()
    }

    /// Whether the response to a request with the identifier `id` has
    /// arrived and has not been handed out yet.
    pub fn was_responded(&self, id: CorrelationId) -> (responded: bool)
        ensures
            responded == self@.was_responded(id),
    {
        let mut k: usize = 0;
        while k < self.responded.len()
            invariant
                k <= self.responded.len(),
                self@.responded.len() == self.responded.len(),
                forall|j: int| 0 <= j < k ==> (#[trigger] self@.responded[j]).0.id != id,
            decreases self.responded.len() - k,
        {
            if self.responded[k].0.id == id {
                assert(self@.responded[k as int].0.id == id);
                return true;
            }
            k += 1;
        }
        false
    }

    /// The number of requests that wait for a response.
    pub fn pending_count(&self) -> (count: usize)
        ensures
            count == self@.pending.len(),
    {
        self.pending.len()
    }

    /// The time of the last tick.
    pub fn now(&self) -> (now: u64)
        ensures
            now == self@.now,
    {
        self.now
    }

    /// How long a request waits before it is sent again.
    pub fn retry_after(&self) -> (retry_after: u64)
        ensures
            retry_after == self@.retry_after,
    {
        self.retry_after
    }
}

impl Default for ComsManager {
    fn default() -> (table: ComsManager)
        ensures
            table@ == TableView::empty(DEFAULT_RETRY_AFTER),
            table@.wf(),
    {
        ComsManager::new(DEFAULT_RETRY_AFTER)
    }
}

/// Whether a wait that began at `since` has lasted longer than `retry_after`
/// at `now`.
fn is_stale(since: u64, now: u64, retry_after: u64) -> (stale: bool)
    ensures
        stale == (age(since, now) > retry_after),
{
    if now >= since {
        now - since > retry_after
    } else {
        false
    }
}

/// The messages of `messages` that carry another identifier than `id`, in
/// their order.
fn without_id(messages: Vec<Message>, id: CorrelationId) -> (kept: Vec<Message>)
    ensures
        messages_view(kept@) == messages_view(messages@).filter(other_than(id)),
{
    let ghost all = messages_view(messages@);
    let mut kept: Vec<Message> = Vec::new();
    assert(messages_view(kept@) =~= Seq::<crate::message::MessageView>::empty());
    assert(all.take(0) =~= Seq::empty());
    for message in it: messages
        invariant
            all == messages_view(it.seq()),
            messages_view(kept@) == all.take(it.index() as int).filter(other_than(id)),
    {
        proof {
            let i = it.index() as int;
            reveal(Seq::filter);
            assert(all.take(i + 1).drop_last() =~= all.take(i));
            assert(all.take(i + 1).last() == message@);
        }
        let ghost before = messages_view(kept@);
        if message.id != id {
            kept.push(message);
            assert(messages_view(kept@) =~= before.push(message@));
        }
    }
    assert(all.take(all.len() as int) =~= all);
    kept
}

} // verus!
