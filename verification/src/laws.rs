//! What holds of the correlation table and of a wait, whatever the caller
//! does: each law is proved about the model that the contracts speak of.

use vstd::prelude::*;
use crate::message::{ContentView, CorrelationId, MessageView};
use crate::model::{
    age, id_of, lemma_after_retry_wf, lemma_position_of_pending, lemma_record_received_wf,
    lemma_record_sent_wf, other_than, stale_at, Arrival, PendingView, TableView,
};
use crate::server_coms::{ComsView, Wait, WaitStepView};
use crate::transport::WriteOutcome;

verus! {

/// Whether an inbound message with the identifier `id` waits to be handed
/// out.
pub open spec fn holds_inbound(table: TableView, id: CorrelationId) -> bool {
    exists|k: int| 0 <= k < table.received.len() && #[trigger] table.received[k].id == id
}

/// Whether `request` waits in the table for its response.
pub open spec fn holds_request(table: TableView, request: MessageView) -> bool {
    exists|i: int| 0 <= i < table.pending.len() && #[trigger] table.pending[i].message == request
}

/// A response that arrives for a pending request takes that request out of
/// the table and appends exactly one pair, the request as it was sent and
/// the response, to the responded collection.
pub proof fn law_response_meets_request(
    table: TableView,
    request: MessageView,
    response: MessageView,
)
    requires
        table.wf(),
        holds_request(table, request),
        response.id == request.id,
        response.content is Response,
    ensures
        table.arrival(response) == Arrival::Responded,
        table.record_received(response).responded == table.responded.push(
            (request, response.content->Response_0),
        ),
        !table.record_received(response).is_pending(request.id),
        table.record_received(response).pending.len() == table.pending.len() - 1,
        table.record_received(response).received == table.received,
{
    let i = choose|i: int| 0 <= i < table.pending.len() && #[trigger] table.pending[i].message
        == request;
    lemma_position_of_pending(table, i);
    let after = table.record_received(response);
    let ids = table.pending_ids();
    let rest = ids.remove(i);
    assert(after.pending_ids() =~= rest);
    assert forall|k: int| 0 <= k < rest.len() implies rest[k] != request.id by {
        assert(ids[i] == request.id);
        if k < i {
            assert(rest[k] == ids[k]);
        } else {
            assert(rest[k] == ids[k + 1]);
        }
    }
}

/// A request that is sent and then answered comes out of the table exactly
/// once: the pair of the request and the response is appended to the
/// responded collection, no request waits under the identifier any more, and
/// once the collection has been handed out it is empty.
pub proof fn law_sent_then_answered(table: TableView, request: MessageView, response: MessageView)
    requires
        table.wf(),
        request.content.expects_reply(),
        response.id == request.id,
        response.content is Response,
    ensures
        table.record_sent(request).is_pending(request.id),
        table.record_sent(request).arrival(response) == Arrival::Responded,
        table.record_sent(request).record_received(response).responded == table.responded.push(
            (request, response.content->Response_0),
        ),
        !table.record_sent(request).record_received(response).is_pending(request.id),
        table.record_sent(request).record_received(response).wf(),
        table.record_sent(request).record_received(
            response,
        ).after_drain_responded().responded.len() == 0,
{
    let sent = table.record_sent(request);
    lemma_record_sent_wf(table, request);
    lemma_record_received_wf(sent, response);
    table.pending_ids().index_of_first_ensures(request.id);
    match table.position(request.id) {
        Some(i) => {
            assert(sent.pending[i].message == request);
        },
        None => {
            assert(sent.pending[table.pending.len() as int].message == request);
        },
    }
    law_response_meets_request(sent, request, response);
}

/// A request waits in the table, as it was sent, until its response arrives
/// or another request is sent under its identifier: nothing else that is
/// done to the table takes it out or changes it.
pub proof fn law_request_waits_until_answered(
    table: TableView,
    request: MessageView,
    message: MessageView,
    id: CorrelationId,
    now: u64,
)
    requires
        holds_request(table, request),
    ensures
        message.id != request.id ==> holds_request(table.record_sent(message), request),
        message.id != request.id || !(message.content is Response) ==> holds_request(
            table.record_received(message),
            request,
        ),
        holds_request(table.acknowledge(id), request),
        holds_request(table.tick(now), request),
        holds_request(table.after_retry(), request),
        holds_request(table.after_drain_responded(), request),
        holds_request(table.after_drain_received(), request),
{
    let i = choose|i: int| 0 <= i < table.pending.len() && #[trigger] table.pending[i].message
        == request;
    let ids = table.pending_ids();
    assert(ids[i] == request.id);
    if message.id != request.id {
        let sent = table.record_sent(message);
        ids.index_of_first_ensures(message.id);
        assert(sent.pending[i].message == request);
    }
    if message.id != request.id || !(message.content is Response) {
        let arrived = table.record_received(message);
        if message.content is Response {
            law_arrival_spares_others(table, message);
            assert(arrived.pending.contains(table.pending[i]));
            let k = choose|k: int| 0 <= k < arrived.pending.len() && arrived.pending[k]
                == table.pending[i];
            assert(arrived.pending[k].message == request);
        } else {
            assert(arrived.pending[i].message == request);
        }
    }
    assert(table.acknowledge(id).pending[i].message == request);
    assert(table.tick(now).pending[i].message == request);
    assert(table.after_retry().pending[i].message == request);
    assert(table.after_drain_responded().pending[i].message == request);
    assert(table.after_drain_received().pending[i].message == request);
}

/// A message whose identifier no pending request carries never joins the
/// responded collection and leaves every pending request as it is; if it is
/// a response, it changes nothing at all.
pub proof fn law_unmatched_is_inert(table: TableView, message: MessageView)
    requires
        !table.is_pending(message.id),
    ensures
        table.record_received(message).responded == table.responded,
        table.record_received(message).pending == table.pending,
        table.arrival(message) != Arrival::Responded,
        message.content is Response ==> table.record_received(message) == table
            && table.arrival(message) == Arrival::Unexpected,
{
    table.pending_ids().index_of_first_ensures(message.id);
}

/// Whatever arrives, the pending requests of other identifiers stay in the
/// table as they are, and no request is added.
pub proof fn law_arrival_spares_others(table: TableView, message: MessageView)
    ensures
        forall|i: int|
            0 <= i < table.pending.len() && table.pending[i].message.id != message.id
                ==> table.record_received(message).pending.contains(#[trigger] table.pending[i]),
        forall|k: int|
            0 <= k < table.record_received(message).pending.len() ==> table.pending.contains(
                #[trigger] table.record_received(message).pending[k],
            ),
{
    let ids = table.pending_ids();
    let after = table.record_received(message);
    ids.index_of_first_ensures(message.id);
    match message.content {
        ContentView::Response(_) => match table.position(message.id) {
            Some(p) => {
                assert forall|i: int|
                    0 <= i < table.pending.len() && table.pending[i].message.id
                        != message.id implies after.pending.contains(
                    #[trigger] table.pending[i],
                ) by {
                    assert(ids[p] == message.id);
                    if i < p {
                        assert(after.pending[i] == table.pending[i]);
                    } else {
                        assert(after.pending[i - 1] == table.pending[i]);
                    }
                }
                assert forall|k: int| 0 <= k < after.pending.len() implies table.pending.contains(
                    #[trigger] after.pending[k],
                ) by {
                    if k < p {
                        assert(table.pending[k] == after.pending[k]);
                    } else {
                        assert(table.pending[k + 1] == after.pending[k]);
                    }
                }
            },
            None => {
                assert forall|i: int| 0 <= i < table.pending.len() implies table.pending.contains(
                    #[trigger] table.pending[i],
                ) by {}
            },
        },
        _ => {
            assert forall|i: int| 0 <= i < table.pending.len() implies table.pending.contains(
                #[trigger] table.pending[i],
            ) by {}
        },
    }
}

/// A filter that nothing passes leaves nothing.
proof fn lemma_filter_none<A>(s: Seq<A>, pred: spec_fn(A) -> bool)
    requires
        forall|i: int| 0 <= i < s.len() ==> !pred(#[trigger] s[i]),
    ensures
        s.filter(pred) == Seq::<A>::empty(),
{
    let kept = s.filter(pred);
    if kept.len() > 0 {
        s.lemma_filter_pred(pred, 0);
        assert(kept.contains(kept[0]));
        s.lemma_filter_contains_rev(pred, kept[0]);
    }
    assert(kept =~= Seq::<A>::empty());
}

/// Among the entries that pass a filter no identifier occurs twice, where
/// none did before.
proof fn lemma_filter_keeps_ids_distinct(s: Seq<PendingView>, pred: spec_fn(PendingView) -> bool)
    requires
        s.map_values(id_of()).no_duplicates(),
    ensures
        s.filter(pred).map_values(id_of()).no_duplicates(),
    decreases s.len(),
{
    reveal(Seq::filter);
    if s.len() > 0 {
        let front = s.drop_last();
        assert(front.map_values(id_of()) =~= s.map_values(id_of()).drop_last());
        lemma_filter_keeps_ids_distinct(front, pred);
        if pred(s.last()) {
            let kept = front.filter(pred);
            let ids = kept.push(s.last()).map_values(id_of());
            assert forall|a: int, b: int| 0 <= a < ids.len() && 0 <= b < ids.len() && a
                != b implies ids[a] != ids[b] by {
                if a < kept.len() && b < kept.len() {
                    assert(kept.map_values(id_of())[a] != kept.map_values(id_of())[b]);
                } else {
                    let c = if a < kept.len() {
                        a
                    } else {
                        b
                    };
                    assert(kept.contains(kept[c]));
                    front.lemma_filter_contains_rev(pred, kept[c]);
                    let j = choose|j: int| 0 <= j < front.len() && front[j] == kept[c];
                    assert(s.map_values(id_of())[j] != s.map_values(id_of())[s.len() - 1]);
                }
            }
        }
    }
}

/// What is handed out to be sent again is made of pending requests, each as
/// it was sent and each stale; every stale request is among them; and no
/// identifier is handed out twice.
pub proof fn law_retries_are_the_stale_requests(table: TableView)
    requires
        table.wf(),
    ensures
        forall|k: int|
            0 <= k < table.retries().len() ==> exists|i: int|
                0 <= i < table.pending.len() && table.pending[i].message
                    == #[trigger] table.retries()[k] && age(table.pending[i].since, table.now)
                    > table.retry_after,
        forall|i: int|
            0 <= i < table.pending.len() && age(table.pending[i].since, table.now)
                > table.retry_after ==> table.retries().contains(
                #[trigger] table.pending[i].message,
            ),
        forall|a: int, b: int|
            0 <= a < table.retries().len() && 0 <= b < table.retries().len() && a != b
                ==> table.retries()[a].id != table.retries()[b].id,
{
    let stale = stale_at(table.now, table.retry_after);
    let kept = table.pending.filter(stale);
    let retries = table.retries();
    assert forall|k: int| 0 <= k < retries.len() implies exists|i: int|
        0 <= i < table.pending.len() && table.pending[i].message == #[trigger] retries[k] && age(
            table.pending[i].since,
            table.now,
        ) > table.retry_after by {
        table.pending.lemma_filter_pred(stale, k);
        assert(kept.contains(kept[k]));
        table.pending.lemma_filter_contains_rev(stale, kept[k]);
        let i = choose|i: int| 0 <= i < table.pending.len() && table.pending[i] == kept[k];
        assert(table.pending[i].message == retries[k]);
    }
    assert forall|i: int|
        0 <= i < table.pending.len() && age(table.pending[i].since, table.now)
            > table.retry_after implies retries.contains(#[trigger] table.pending[i].message) by {
        table.pending.lemma_filter_contains(stale, i);
        let k = choose|k: int| 0 <= k < kept.len() && kept[k] == table.pending[i];
        assert(retries[k] == table.pending[i].message);
    }
    lemma_filter_keeps_ids_distinct(table.pending, stale);
    assert forall|a: int, b: int|
        0 <= a < retries.len() && 0 <= b < retries.len() && a != b implies retries[a].id
        != retries[b].id by {
        assert(kept.map_values(id_of())[a] != kept.map_values(id_of())[b]);
    }
}

/// A request that has waited longer than the threshold when the clock is set
/// to `now` is handed out once, as it was sent; its wait then starts anew at
/// `now`, so that it is not handed out again by a second call, nor after any
/// later tick that is no further than the threshold from `now`.
pub proof fn law_retry_once_per_crossing(table: TableView, i: int, now: u64, later: u64)
    requires
        table.wf(),
        0 <= i < table.pending.len(),
        age(table.pending[i].since, now) > table.retry_after,
        age(now, later) <= table.retry_after,
    ensures
        table.tick(now).retries().contains(table.pending[i].message),
        forall|a: int, b: int|
            0 <= a < table.tick(now).retries().len() && 0 <= b < table.tick(now).retries().len()
                && a != b ==> table.tick(now).retries()[a].id != table.tick(now).retries()[b].id,
        table.tick(now).after_retry().pending[i] == (PendingView {
            message: table.pending[i].message,
            since: now,
        }),
        table.tick(now).after_retry().retries() == Seq::<MessageView>::empty(),
        forall|k: int|
            0 <= k < table.tick(now).after_retry().tick(later).retries().len()
                ==> #[trigger] table.tick(now).after_retry().tick(later).retries()[k].id
                != table.pending[i].message.id,
{
    let ticked = table.tick(now);
    let request = table.pending[i].message;
    law_retries_are_the_stale_requests(ticked);
    assert(ticked.pending[i].message == request);
    let after = ticked.after_retry();
    lemma_after_retry_wf(ticked);
    assert forall|j: int| 0 <= j < after.pending.len() implies !stale_at(
        after.now,
        after.retry_after,
    )(#[trigger] after.pending[j]) by {}
    lemma_filter_none(after.pending, stale_at(after.now, after.retry_after));
    assert(after.retries() =~= Seq::<MessageView>::empty());
    let much_later = after.tick(later);
    law_retries_are_the_stale_requests(much_later);
    assert forall|k: int| 0 <= k < much_later.retries().len() implies
        #[trigger] much_later.retries()[k].id != request.id by {
        let j = choose|j: int|
            0 <= j < much_later.pending.len() && much_later.pending[j].message
                == much_later.retries()[k] && age(much_later.pending[j].since, much_later.now)
                > much_later.retry_after;
        if much_later.retries()[k].id == request.id {
            assert(much_later.pending_ids()[j] == much_later.pending_ids()[i]);
        }
    }
}

/// An inbound message that is no response joins the end of the received
/// collection, where it waits to be handed out.
pub proof fn law_inbound_waits(table: TableView, message: MessageView)
    requires
        !(message.content is Response),
    ensures
        table.arrival(message) == Arrival::Inbound,
        table.record_received(message).received == table.received.push(message),
        table.record_received(message).pending == table.pending,
        table.record_received(message).responded == table.responded,
        holds_inbound(table.record_received(message), message.id),
{
    let after = table.record_received(message);
    assert(after.received[table.received.len() as int].id == message.id);
}

/// Once a response has been sent back under an identifier, no inbound
/// message of that identifier waits to be handed out; the inbound messages
/// of other identifiers wait as before, and nothing else in the table has
/// changed.
pub proof fn law_acknowledged_is_forgotten(table: TableView, id: CorrelationId)
    ensures
        !holds_inbound(table.acknowledge(id), id),
        forall|k: int|
            0 <= k < table.received.len() && table.received[k].id != id ==> table.acknowledge(
                id,
            ).received.contains(#[trigger] table.received[k]),
        forall|k: int|
            0 <= k < table.acknowledge(id).received.len() ==> table.received.contains(
                #[trigger] table.acknowledge(id).received[k],
            ),
        table.acknowledge(id).pending == table.pending,
        table.acknowledge(id).responded == table.responded,
{
    let keep = other_than(id);
    let after = table.acknowledge(id);
    assert forall|k: int| 0 <= k < after.received.len() implies #[trigger] after.received[k].id
        != id by {
        table.received.lemma_filter_pred(keep, k);
    }
    assert forall|k: int|
        0 <= k < table.received.len() && table.received[k].id != id implies after.received.contains(
        #[trigger] table.received[k],
    ) by {
        table.received.lemma_filter_contains(keep, k);
    }
    assert forall|k: int| 0 <= k < after.received.len() implies table.received.contains(
        #[trigger] after.received[k],
    ) by {
        assert(after.received.contains(after.received[k]));
        table.received.lemma_filter_contains_rev(keep, after.received[k]);
    }
}

/// An inbound message that was recorded and then acknowledged is not handed
/// out by any later drain: no message of its identifier waits in the table.
pub proof fn law_ack_then_forget(table: TableView, inbound: MessageView)
    requires
        !(inbound.content is Response),
    ensures
        holds_inbound(table.record_received(inbound), inbound.id),
        !holds_inbound(table.record_received(inbound).acknowledge(inbound.id), inbound.id),
{
    law_inbound_waits(table, inbound);
    law_acknowledged_is_forgotten(table.record_received(inbound), inbound.id);
}

/// A drain hands the received collection out once: after it nothing waits,
/// acknowledged or not.
pub proof fn law_drained_once(table: TableView, id: CorrelationId)
    ensures
        table.after_drain_received().received.len() == 0,
        !holds_inbound(table.after_drain_received(), id),
        table.after_drain_responded().responded.len() == 0,
{
}

/// An identifier of which no inbound message waits stays so, whatever is
/// done to the table, until a message that is no response arrives under it.
pub proof fn law_forgotten_stays_forgotten(
    table: TableView,
    id: CorrelationId,
    message: MessageView,
    other: CorrelationId,
    now: u64,
)
    requires
        !holds_inbound(table, id),
    ensures
        !holds_inbound(table.record_sent(message), id),
        !holds_inbound(table.acknowledge(other), id),
        message.id != id || message.content is Response ==> !holds_inbound(
            table.record_received(message),
            id,
        ),
        !holds_inbound(table.tick(now), id),
        !holds_inbound(table.after_retry(), id),
        !holds_inbound(table.after_drain_responded(), id),
        !holds_inbound(table.after_drain_received(), id),
{
    let settled = table.acknowledge(other);
    assert forall|k: int| 0 <= k < settled.received.len() implies
        #[trigger] settled.received[k].id != id by {
        assert(settled.received.contains(settled.received[k]));
        table.received.lemma_filter_contains_rev(other_than(other), settled.received[k]);
        let j = choose|j: int|
            0 <= j < table.received.len() && table.received[j] == settled.received[k];
        assert(table.received[j].id != id);
    }
    let arrived = table.record_received(message);
    if message.id != id || message.content is Response {
        assert forall|k: int| 0 <= k < arrived.received.len() implies
            #[trigger] arrived.received[k].id != id by {
            if k < table.received.len() {
                assert(table.received[k].id != id);
            }
        }
    }
}

/// A wait whose response does not come ends with a timeout no sooner than
/// the time allowed has passed since it began, and at the first step taken
/// once it has: until then every step says to wait on.
pub proof fn law_wait_ends_at_deadline(wait: Wait, now: u64, polled: Option<MessageView>)
    requires
        wait.started <= now,
        polled matches Some(frame) ==> frame.id != wait.id,
    ensures
        ComsView::wait_step(wait, now, polled) == WaitStepView::TimedOut <==> now - wait.started
            >= wait.timeout,
        ComsView::wait_step(wait, now, polled) == WaitStepView::Waiting <==> now - wait.started
            < wait.timeout,
{
}

/// The awaited response ends a wait whenever it comes, with its content,
/// and is not entered in the table; any other frame met while waiting is
/// recorded there as if it had come off the queue in a tick.
pub proof fn law_wait_loses_no_frame(state: ComsView, wait: Wait, now: u64, frame: MessageView)
    ensures
        frame.id == wait.id ==> ComsView::wait_step(wait, now, Some(frame))
            == WaitStepView::Matched(frame.content) && state.after_wait_step(wait, Some(frame))
            == state,
        frame.id != wait.id ==> state.after_wait_step(wait, Some(frame)).table
            == state.table.record_received(frame),
{
}

/// A request that reached the wire and whose response comes off the inbound
/// queue in a later tick is handed out by the facade exactly as the table
/// pairs them: the request as sent and the response, appended to what was
/// responded before, and the request no longer waits.
pub proof fn law_answer_in_next_tick(
    state: ComsView,
    request: MessageView,
    response: MessageView,
    now: u64,
)
    requires
        state.table.wf(),
        request.content.expects_reply(),
        response.id == request.id,
        response.content is Response,
    ensures
        state.after_send(request, WriteOutcome::Written).after_update(
            now,
            seq![response],
        ).table.responded == state.table.responded.push(
            (request, response.content->Response_0),
        ),
        !state.after_send(request, WriteOutcome::Written).after_update(
            now,
            seq![response],
        ).table.is_pending(request.id),
{
    let sent = state.table.record_sent(request);
    let written = state.after_send(request, WriteOutcome::Written);
    let frames = seq![response];
    assert(frames.drop_last() =~= Seq::<MessageView>::empty());
    assert(written.receive_all(frames.drop_last()) == written);
    assert(written.receive_all(frames).table == sent.record_received(response));
    law_sent_then_answered(state.table, request, response);
    let answered = sent.record_received(response);
    lemma_after_retry_wf(answered.tick(now));
    assert(answered.tick(now).after_retry().pending_ids() == answered.pending_ids());
}

/// Frames that come off the inbound queue reach the table one after the
/// other, and nothing else of the table changes; of the facade's state only
/// the count of dropped responses moves, and it never falls.
pub proof fn law_frames_reach_the_table(state: ComsView, frames: Seq<MessageView>)
    ensures
        state.receive_all(frames).table == state.table.receive_all(frames),
        state.receive_all(frames).sender == state.sender,
        state.receive_all(frames).server_ip == state.server_ip,
        state.receive_all(frames).unexpected >= state.unexpected,
    decreases frames.len(),
{
    if frames.len() > 0 {
        law_frames_reach_the_table(state, frames.drop_last());
    }
}

/// A response that no request waited for is dropped and counted: the table
/// stays as it is and the count of dropped responses rises by one, until it
/// has reached the largest value it can hold.
pub proof fn law_dropped_response_is_counted(state: ComsView, response: MessageView)
    requires
        response.content is Response,
        !state.table.is_pending(response.id),
    ensures
        state.receive(response).table == state.table,
        state.unexpected < u64::MAX ==> state.receive(response).unexpected == state.unexpected
            + 1,
        state.unexpected == u64::MAX ==> state.receive(response).unexpected == u64::MAX,
{
    law_unmatched_is_inert(state.table, response);
}

} // verus!
