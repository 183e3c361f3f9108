//! Mathematical model of the correlation table.
//!
//! The table is described as a value, [`TableView`], with one function for
//! each operation. The executable table is held to these functions
//! by its contracts, and the laws of the protocol are proved about them.
//!
//! Two choices the protocol leaves to its implementation are made here. An
//! inbound message is handed out exactly once, by the first drain after it
//! arrived, whether or not it has been acknowledged by then; an
//! acknowledgement sent before that drain takes it out of the collection.
//! And a request stays in the table until its response arrives: a caller that
//! waits for a response with a deadline of its own does not enter the request
//! here, so that it is never sent a second time on the table's account.
//!
//! Time is what the caller says it is. The table's clock is the `now` of the
//! last tick, in any unit; a request is stamped with it when it is recorded,
//! and a clock that is set back makes no request older.

use vstd::prelude::*;
use crate::message::{CorrelationId, ContentView, MessageView, ResponseView};

verus! {

/// A request that waits for its response.
pub struct PendingView {
    /// The request as it was sent.
    pub message: MessageView,
    /// The table's clock when the request was sent, or sent again.
    pub since: u64,
}

/// What became of a message handed to [`TableView::record_received`].
#[derive(Clone, Copy, Debug, PartialEq, Eq, Structural)]
pub enum Arrival {
    /// A response that met its request: the pair has joined the responded
    /// collection.
    Responded,
    /// A fresh inbound message: it waits to be drained and acknowledged.
    Inbound,
    /// A response that no pending request asked for: dropped.
    Unexpected,
}

/// Time that has passed at `now` since `since`; none if the clock stands
/// before `since`.
pub open spec fn age(since: u64, now: u64) -> int {
    if now >= since {
        now - since
    } else {
        0
    }
}

/// The test "waits longer than `retry_after` at `now`".
pub open spec fn stale_at(now: u64, retry_after: u64) -> spec_fn(PendingView) -> bool {
    |entry: PendingView| age(entry.since, now) > retry_after
}

/// The test "carries another identifier than `id`".
pub open spec fn other_than(id: CorrelationId) -> spec_fn(MessageView) -> bool {
    |message: MessageView| message.id != id
}

/// The request held by a pending entry.
pub open spec fn request_of() -> spec_fn(PendingView) -> MessageView {
    |entry: PendingView| entry.message
}

/// The identifier of the request held by a pending entry.
pub open spec fn id_of() -> spec_fn(PendingView) -> CorrelationId {
    |entry: PendingView| entry.message.id
}

/// Restarts the wait of an entry that is stale at `now` and leaves the others.
pub open spec fn restarted_at(now: u64, retry_after: u64) -> spec_fn(PendingView) -> PendingView {
    |entry: PendingView|
        if stale_at(now, retry_after)(entry) {
            PendingView { message: entry.message, since: now }
        } else {
            entry
        }
}

/// The state of the correlation table.
pub struct TableView {
    /// Requests without a response yet, in the order in which their
    /// identifiers were first sent.
    pub pending: Seq<PendingView>,
    /// Requests with their responses, in the order in which the responses
    /// arrived.
    pub responded: Seq<(MessageView, ResponseView)>,
    /// Inbound messages not yet handed out, in the order of arrival.
    pub received: Seq<MessageView>,
    /// The time of the last tick.
    pub now: u64,
    /// How long a request waits before it is sent again.
    pub retry_after: u64,
}

impl TableView {
    /// The table before anything was sent or received.
    pub open spec fn empty(retry_after: u64) -> TableView {
        TableView {
            pending: Seq::empty(),
            responded: Seq::empty(),
            received: Seq::empty(),
            now: 0,
            retry_after,
        }
    }

    /// No two pending requests share an identifier.
    pub open spec fn wf(self) -> bool {
        self.pending_ids().no_duplicates()
    }

    /// The identifiers of the pending requests, in the table's order.
    pub open spec fn pending_ids(self) -> Seq<CorrelationId> {
        self.pending.map_values(id_of())
    }

    /// Whether a request with the identifier `id` waits for its response.
    pub open spec fn is_pending(self, id: CorrelationId) -> bool {
        self.pending_ids().contains(id)
    }

    /// The place of the first pending request with the identifier `id`.
    pub open spec fn position(self, id: CorrelationId) -> Option<int> {
        self.pending_ids().index_of_first(id)
    }

    /// The table after `message` was sent. A message that expects a reply is
    /// entered under its identifier, in place of a request that already waits
    /// under it, with the wait starting at the table's clock. Any other
    /// message passes the table by.
    pub open spec fn record_sent(self, message: MessageView) -> TableView {
        if message.content.expects_reply() {
            let entry = PendingView { message, since: self.now };
            match self.position(message.id) {
                Some(i) => TableView { pending: self.pending.update(i, entry), ..self },
                None => TableView { pending: self.pending.push(entry), ..self },
            }
        } else {
            self
        }
    }

    /// The table after a response was sent back under `id`: the inbound
    /// messages of that identifier are settled, and none of them is handed
    /// out afterwards.
    pub open spec fn acknowledge(self, id: CorrelationId) -> TableView {
        TableView { received: self.received.filter(other_than(id)), ..self }
    }

    /// Whether the responded collection holds the response to a request
    /// with the identifier `id`.
    pub open spec fn was_responded(self, id: CorrelationId) -> bool {
        exists|k: int| 0 <= k < self.responded.len() && (#[trigger] self.responded[k]).0.id == id
    }

    /// What [`Self::record_received`] does with `message`.
    pub open spec fn arrival(self, message: MessageView) -> Arrival {
        if message.content is Response {
            if self.is_pending(message.id) {
                Arrival::Responded
            } else {
                Arrival::Unexpected
            }
        } else {
            Arrival::Inbound
        }
    }

    /// The table after `message` arrived. A response leaves the table with
    /// the request it answers, as a pair at the end of the responded
    /// collection; one that answers no pending request changes nothing. Any
    /// other message joins the end of the received collection.
    pub open spec fn record_received(self, message: MessageView) -> TableView {
        match message.content {
            ContentView::Response(response) => match self.position(message.id) {
                Some(i) => TableView {
                    pending: self.pending.remove(i),
                    responded: self.responded.push((self.pending[i].message, response)),
                    ..self
                },
                None => self,
            },
            _ => TableView { received: self.received.push(message), ..self },
        }
    }

    /// The table after `messages` arrived one after the other.
    pub open spec fn receive_all(self, messages: Seq<MessageView>) -> TableView
        decreases messages.len(),
    {
        if messages.len() == 0 {
            self
        } else {
            self.receive_all(messages.drop_last()).record_received(messages.last())
        }
    }

    /// The table after its clock was set to `now`.
    pub open spec fn tick(self, now: u64) -> TableView {
        TableView { now, ..self }
    }

    /// The requests that have waited longer than the threshold at the
    /// table's clock, in the table's order.
    pub open spec fn retries(self) -> Seq<MessageView> {
        self.pending.filter(stale_at(self.now, self.retry_after)).map_values(request_of())
    }

    /// The table after the stale requests were handed out to be sent again:
    /// the wait of each of them starts anew at the table's clock.
    pub open spec fn after_retry(self) -> TableView {
        TableView {
            pending: self.pending.map_values(restarted_at(self.now, self.retry_after)),
            ..self
        }
    }

    /// The table after the responded collection was handed out.
    pub open spec fn after_drain_responded(self) -> TableView {
        TableView { responded: Seq::empty(), ..self }
    }

    /// The table after the received collection was handed out.
    pub open spec fn after_drain_received(self) -> TableView {
        TableView { received: Seq::empty(), ..self }
    }
}

/// In a table whose pending identifiers are distinct, a pending request
/// stands at the place that the table finds for its identifier.
pub proof fn lemma_position_of_pending(table: TableView, i: int)
    requires
        table.wf(),
        0 <= i < table.pending.len(),
    ensures
        table.position(table.pending[i].message.id) == Some(i),
        table.is_pending(table.pending[i].message.id),
{
    let ids = table.pending_ids();
    let id = table.pending[i].message.id;
    assert(ids[i] == id);
    ids.index_of_first_ensures(id);
}

/// Sending keeps the identifiers of the pending requests distinct.
pub proof fn lemma_record_sent_wf(table: TableView, message: MessageView)
    requires
        table.wf(),
    ensures
        table.record_sent(message).wf(),
{
    let ids = table.pending_ids();
    let after = table.record_sent(message);
    ids.index_of_first_ensures(message.id);
    if message.content.expects_reply() {
        match table.position(message.id) {
            Some(i) => {
                assert(after.pending_ids() =~= ids);
            },
            None => {
                assert(after.pending_ids() =~= ids.push(message.id));
            },
        }
    }
}

/// Receiving keeps the identifiers of the pending requests distinct.
pub proof fn lemma_record_received_wf(table: TableView, message: MessageView)
    requires
        table.wf(),
    ensures
        table.record_received(message).wf(),
{
    let ids = table.pending_ids();
    let after = table.record_received(message);
    ids.index_of_first_ensures(message.id);
    match message.content {
        ContentView::Response(_) => match table.position(message.id) {
            Some(i) => {
                assert(after.pending_ids() =~= ids.remove(i));
            },
            None => {},
        },
        _ => {
            assert(after.pending_ids() =~= ids);
        },
    }
}

/// Handing out the stale requests keeps the identifiers of the pending
/// requests, and with them their distinctness.
pub proof fn lemma_after_retry_wf(table: TableView)
    ensures
        table.after_retry().pending_ids() == table.pending_ids(),
        table.wf() ==> table.after_retry().wf(),
{
    assert(table.after_retry().pending_ids() =~= table.pending_ids());
}

} // verus!
