//! The client's single entry point to the server: the connection's state,
//! the address to connect to, and the correlation table behind one value.
//!
//! Nothing here touches the stream. The caller writes, reads, probes and
//! connects, and tells this value how each of these ended; what is decided
//! here is what that means for the connection and the table, and what the
//! caller is to do next.

use vstd::prelude::*;
use crate::coms_manager::{ComsManager, DEFAULT_RETRY_AFTER};
use crate::message::{
    frame_view, messages_view, pairs_view, Content, ContentView, CorrelationId, Message,
    MessageView, Response, ResponseView,
};
use crate::model::{age, Arrival, TableView};
use crate::error::{write_error, ComsError, ComsErrorView};
use crate::sender::{SenderView, ServerSender};
use crate::transport::WriteOutcome;

verus! {

/// The encoded result carried by a reply to a session action: the payload of
/// a successful session response. A failure carries the server's reason; any
/// other content is not what was asked for.
pub open spec fn spec_expect_session(reply: ContentView) -> Result<Seq<u8>, ComsErrorView> {
    match reply {
        ContentView::Response(ResponseView::OkSession(payload)) => Ok(payload),
        ContentView::Response(ResponseView::Failed(reason)) => Err(ComsErrorView::Rejected(reason)),
        _ => Err(ComsErrorView::UnexpectedMessage),
    }
}

/// The encoded result carried by a reply to a query: the payload of a
/// successful query response. A failure carries the server's reason; any
/// other content is not what was asked for.
pub open spec fn spec_expect_query(reply: ContentView) -> Result<Seq<u8>, ComsErrorView> {
    match reply {
        ContentView::Response(ResponseView::OkQuery(payload)) => Ok(payload),
        ContentView::Response(ResponseView::Failed(reason)) => Err(ComsErrorView::Rejected(reason)),
        _ => Err(ComsErrorView::UnexpectedMessage),
    }
}

/// The mathematical value of the outcome of [`expect_session`] and
/// [`expect_query`].
pub open spec fn payload_result_view(result: Result<Vec<u8>, ComsError>) -> Result<
    Seq<u8>,
    ComsErrorView,
> {
    match result {
        Ok(payload) => Ok(payload@),
        Err(error) => Err(error@),
    }
}

/// Reads the reply to a session action.
pub fn expect_session(reply: Content) -> (result: Result<Vec<u8>, ComsError>)
    ensures
        payload_result_view(result) == spec_expect_session(reply@),
{
    match reply {
        Content::Response(Response::OkSession(payload)) => Ok(payload),
        Content::Response(Response::Failed(reason)) => Err(ComsError::Rejected(reason)),
        _ => Err(ComsError::UnexpectedMessage),
    }
}

/// Reads the reply to a query.
pub fn expect_query(reply: Content) -> (result: Result<Vec<u8>, ComsError>)
    ensures
        payload_result_view(result) == spec_expect_query(reply@),
{
    match reply {
        Content::Response(Response::OkQuery(payload)) => Ok(payload),
        Content::Response(Response::Failed(reason)) => Err(ComsError::Rejected(reason)),
        _ => Err(ComsError::UnexpectedMessage),
    }
}

/// A request whose sender waits for the response, with a deadline of its
/// own. Such a request is not entered in the correlation table.
#[derive(Clone, Copy, Debug, PartialEq, Eq, Structural)]
pub struct Wait {
    /// The identifier of the request.
    pub id: CorrelationId,
    /// When the wait began.
    pub started: u64,
    /// How long the sender waits.
    pub timeout: u64,
}

impl Wait {
    /// Whether the wait is over at `now`: the time allowed has passed in
    /// full.
    pub open spec fn expired(self, now: u64) -> bool {
        age(self.started, now) >= self.timeout
    }
}

/// Where a wait stands after a step.
#[derive(Debug, PartialEq, Eq)]
pub enum WaitStep {
    /// The response has arrived; its content is attached.
    Matched(Content),
    /// The time allowed has passed without the response.
    TimedOut,
    /// Neither: poll again.
    Waiting,
}

impl WaitStep {
    /// What the step means for the one who waits: the content of the
    /// response, the timeout, or nothing yet.
    pub fn outcome(self) -> (outcome: Option<Result<Content, ComsError>>)
        ensures
            match self@ {
                WaitStepView::Matched(content) => outcome matches Some(Ok(answer)) && answer@
                    == content,
                WaitStepView::TimedOut => outcome matches Some(Err(error)) && error@
                    == ComsErrorView::Timeout,
                WaitStepView::Waiting => outcome is None,
            },
    {
        match self {
            WaitStep::Matched(content) => Some(Ok(content)),
            WaitStep::TimedOut => Some(Err(ComsError::Timeout)),
            WaitStep::Waiting => None,
        }
    }
}

/// Mathematical value of a [`WaitStep`].
pub enum WaitStepView {
    Matched(ContentView),
    TimedOut,
    Waiting,
}

impl View for WaitStep {
    type V = WaitStepView;

    open spec fn view(&self) -> WaitStepView {
        match self {
            WaitStep::Matched(content) => WaitStepView::Matched(content@),
            WaitStep::TimedOut => WaitStepView::TimedOut,
            WaitStep::Waiting => WaitStepView::Waiting,
        }
    }
}

/// The count of dropped responses after a message met `arrival`: one more
/// for a response that nothing waited for, up to the largest count.
pub open spec fn counted(count: u64, arrival: Arrival) -> u64 {
    if arrival == Arrival::Unexpected && count < u64::MAX {
        (count + 1) as u64
    } else {
        count
    }
}

/// Mathematical value of a [`ServerCommunication`].
pub struct ComsView {
    /// The state of the connection.
    pub sender: SenderView,
    /// The address of the last connection attempt, successful or not.
    pub server_ip: Seq<char>,
    /// How many responses were dropped because no request waited for them.
    pub unexpected: u64,
    /// The correlation table.
    pub table: TableView,
}

impl ComsView {
    /// The state after an attempt to send `message` ended with `outcome`: a
    /// failed write loses the connection, and only a message that reached
    /// the wire is made known to the table, a request as sent, a response as
    /// the acknowledgement of the inbound messages of its identifier.
    pub open spec fn after_send(self, message: MessageView, outcome: WriteOutcome) -> ComsView {
        ComsView {
            sender: self.sender.after_write(outcome),
            table: if outcome != WriteOutcome::Written {
                self.table
            } else if message.content.expects_reply() {
                self.table.record_sent(message)
            } else {
                self.table.acknowledge(message.id)
            },
            ..self
        }
    }

    /// The state after an attempt to connect to `ip`: the address is
    /// remembered whether or not the attempt succeeded, so that a later
    /// attempt can be made at it.
    pub open spec fn after_connect(self, ip: Seq<char>, established: bool) -> ComsView {
        ComsView { sender: self.sender.after_connect(ip, established), server_ip: ip, ..self }
    }

    /// The state after `frame` came off the inbound queue: the table
    /// records it, and a response that nothing waited for is counted.
    pub open spec fn receive(self, frame: MessageView) -> ComsView {
        ComsView {
            unexpected: counted(self.unexpected, self.table.arrival(frame)),
            table: self.table.record_received(frame),
            ..self
        }
    }

    /// The state after `frames` came off the inbound queue one after the
    /// other.
    pub open spec fn receive_all(self, frames: Seq<MessageView>) -> ComsView
        decreases frames.len(),
    {
        if frames.len() == 0 {
            self
        } else {
            self.receive_all(frames.drop_last()).receive(frames.last())
        }
    }

    /// The state after one step of `wait`, in which the frame `polled`, if
    /// any, came off the inbound queue: a frame that is not the awaited
    /// response goes to the table, so that it is not lost.
    pub open spec fn after_wait_step(self, wait: Wait, polled: Option<MessageView>) -> ComsView {
        match polled {
            Some(frame) if frame.id != wait.id => self.receive(frame),
            _ => self,
        }
    }

    /// Where `wait` stands after a step at `now` with the frame `polled`.
    /// The awaited response ends the wait whenever it comes; without it the
    /// wait ends exactly when the time allowed has passed.
    pub open spec fn wait_step(wait: Wait, now: u64, polled: Option<MessageView>) -> WaitStepView {
        match polled {
            Some(frame) if frame.id == wait.id => WaitStepView::Matched(frame.content),
            _ => if wait.expired(now) {
                WaitStepView::TimedOut
            } else {
                WaitStepView::Waiting
            },
        }
    }

    /// The state after a tick at `now` in which `inbound` came off the
    /// inbound queue: the frames are recorded in their order, the clock is
    /// set, and the stale requests are handed out.
    pub open spec fn after_update(self, now: u64, inbound: Seq<MessageView>) -> ComsView {
        let arrived = self.receive_all(inbound);
        ComsView { table: arrived.table.tick(now).after_retry(), ..arrived }
    }

    /// The requests to send again after a tick at `now` in which `inbound`
    /// came off the inbound queue.
    pub open spec fn update_retries(self, now: u64, inbound: Seq<MessageView>) -> Seq<
        MessageView,
    > {
        self.receive_all(inbound).table.tick(now).retries()
    }
}

/// The client's side of the conversation with the server.
#[derive(Debug)]
pub struct ServerCommunication {
    sender: ServerSender,
    server_ip: String,
    unexpected: u64,
    manager: ComsManager,
}

impl View for ServerCommunication {
    type V = ComsView;

    closed spec fn view(&self) -> ComsView {
        ComsView {
            sender: self.sender@,
            server_ip: self.server_ip@,
            unexpected: self.unexpected,
            table: self.manager@,
        }
    }
}

impl ServerCommunication {
    /// A client that has not connected yet, with an empty table.
    pub fn new() -> (coms: ServerCommunication)
        ensures
            coms@ == (ComsView {
                sender: SenderView::initial(),
                server_ip: Seq::empty(),
                unexpected: 0,
                table: TableView::empty(DEFAULT_RETRY_AFTER),
            }),
            coms@.table.wf(),
    {
        ServerCommunication {
            sender: ServerSender::new(),
            server_ip: String::new(),
            unexpected: 0,
            manager: ComsManager::default(),
        }
    }

    /// Whether the connection was usable when last looked at.
    pub fn connected(&self) -> (connected: bool)
        ensures
            connected == self@.sender.connected,
    {
        self.sender.connected()
    }

    /// The address of the last connection attempt, successful or not.
    pub fn server_ip(&self) -> (address: &String)
        ensures
            address@ == self@.server_ip,
    {
        &self.server_ip
    }

    /// How many responses have been dropped because no request waited for
    /// them. The count stops at the largest value it can hold.
    pub fn unexpected_responses(&self) -> (count: u64)
        ensures
            count == self@.unexpected,
    {
        self.unexpected
    }

    /// Whether the response to the request `msg_uuid` has arrived and waits
    /// to be handed out: one look of the one who waits for it.
    pub fn wait_for_response(&self, msg_uuid: CorrelationId) -> (responded: bool)
        ensures
            responded == self@.table.was_responded(msg_uuid),
    {
        self.manager.was_responded(msg_uuid)
    }

    /// Records that `frame` came off the inbound queue.
    fn receive(&mut self, frame: Message)
        ensures
            final(self)@ == old(self)@.receive(frame@),
            old(self)@.table.wf() ==> final(self)@.table.wf(),
    {
        match self.manager.record_received(frame) {
            Arrival::Unexpected => {
                if self.unexpected < u64::MAX {
                    self.unexpected = self.unexpected + 1;
                }
            },
            _ => {},
        }
    }

    /// Hands out the requests that have received their response since the
    /// last call, each with that response.
    pub fn sent_responded(&mut self) -> (responded: Vec<(Message, Response)>)
        ensures
            pairs_view(responded@) == old(self)@.table.responded,
            final(self)@ == (ComsView {
                table: old(self)@.table.after_drain_responded(),
                ..old(self)@
            }),
            old(self)@.table.wf() ==> final(self)@.table.wf(),
    {
        self.manager.drain_responded()
    }

    /// Hands out the inbound messages that arrived since the last call.
    /// Each of them is to be acknowledged.
    pub fn received(&mut self) -> (received: Vec<Message>)
        ensures
            messages_view(received@) == old(self)@.table.received,
            final(self)@ == (ComsView {
                table: old(self)@.table.after_drain_received(),
                ..old(self)@
            }),
            old(self)@.table.wf() ==> final(self)@.table.wf(),
    {
        self.manager.drain_received()
    }

    /// Whether the connection is to be probed at `now`.
    pub fn probe_due(&self, now: u64) -> (due: bool)
        ensures
            due == self@.sender.probe_due(now),
    {
        self.sender.probe_due(now)
    }

    /// The heartbeat at `now`, with the answer of the probe where there is a
    /// stream to probe. Says whether a new connection is to be attempted.
    pub fn heartbeat(&mut self, now: u64, reachable: Option<bool>) -> (reconnect: bool)
        ensures
            final(self)@ == (ComsView {
                sender: old(self)@.sender.after_heartbeat(now, reachable),
                ..old(self)@
            }),
            reconnect == old(self)@.sender.wants_reconnect(now, reachable),
    {
        self.sender.heartbeat(now, reachable)
    }

    /// Records an attempt to connect to `ip`; fails if the attempt did. The
    /// address is remembered either way.
    pub fn try_connect(&mut self, ip: String, established: bool) -> (result: Result<
        (),
        ComsError,
    >)
        ensures
            final(self)@ == old(self)@.after_connect(ip@, established),
            match result {
                Ok(_) => established,
                Err(error) => !established && error@ == ComsErrorView::Connection,
            },
    {
        self.server_ip = ip.clone();
        self.sender.try_connect(ip, established)
    }

    /// Records the attempt to send `message`, which ended with `outcome`.
    /// Succeeds if the message reached the wire.
    pub fn send(&mut self, message: Message, outcome: WriteOutcome) -> (result: Result<
        (),
        ComsError,
    >)
        ensures
            final(self)@ == old(self)@.after_send(message@, outcome),
            match result {
                Ok(_) => write_error(outcome).is_none(),
                Err(error) => write_error(outcome) == Some(error@),
            },
            old(self)@.table.wf() ==> final(self)@.table.wf(),
    {
        let result = self.sender.send(outcome);
        if result.is_ok() {
            if message.expects_reply() {
                self.manager.record_sent(message);
            } else {
                self.manager.acknowledge(message.id);
            }
        }
        result
    }

    /// Begins the wait for the response to a request that was sent at `now`
    /// with `outcome`, for at most `timeout`. The request is not entered in
    /// the table: the sender alone waits for its response, and it is never
    /// sent a second time.
    pub fn send_and_wait(
        &mut self,
        timeout: u64,
        message: &Message,
        now: u64,
        outcome: WriteOutcome,
    ) -> (result: Result<Wait, ComsError>)
        ensures
            final(self)@ == (ComsView {
                sender: old(self)@.sender.after_write(outcome),
                ..old(self)@
            }),
            match result {
                Ok(wait) => write_error(outcome).is_none() && wait == (Wait {
                    id: message.id,
                    started: now,
                    timeout,
                }),
                Err(error) => write_error(outcome) == Some(error@),
            },
    {
        match self.sender.send(outcome) {
            Ok(_) => Ok(Wait { id: message.id, started: now, timeout }),
            Err(error) => Err(error),
        }
    }

    /// One step of `wait` at `now`, with the frame that came off the inbound
    /// queue, if one did.
    pub fn wait_step(&mut self, wait: &Wait, now: u64, polled: Option<Message>) -> (step: WaitStep)
        ensures
            step@ == ComsView::wait_step(*wait, now, frame_view(polled)),
            final(self)@ == old(self)@.after_wait_step(*wait, frame_view(polled)),
            old(self)@.table.wf() ==> final(self)@.table.wf(),
    {
        match polled {
            Some(frame) => {
                if frame.id == wait.id {
                    return WaitStep::Matched(frame.content);
                }
                self.receive(frame);
            },
            None => {},
        }
        if wait_expired(wait, now) {
            WaitStep::TimedOut
        } else {
            WaitStep::Waiting
        }
    }

    /// The work of one tick at `now`: records the frames that came off the
    /// inbound queue, in their order, sets the clock, and hands out the
    /// requests to send again.
    pub fn on_update(&mut self, now: u64, inbound: Vec<Message>) -> (retries: Vec<Message>)
        ensures
            final(self)@ == old(self)@.after_update(now, messages_view(inbound@)),
            messages_view(retries@) == old(self)@.update_retries(now, messages_view(inbound@)),
            old(self)@.table.wf() ==> final(self)@.table.wf(),
    {
        let ghost frames = messages_view(inbound@);
        let ghost before = old(self)@;
        assert(frames.take(0) =~= Seq::empty());
        for frame in it: inbound
            invariant
                frames == messages_view(it.seq()),
                before == old(self)@,
                self@ == before.receive_all(frames.take(it.index() as int)),
                before.table.wf() ==> self@.table.wf(),
        {
            proof {
                let i = it.index() as int;
                assert(frames.take(i + 1).drop_last() =~= frames.take(i));
                assert(frames.take(i + 1).last() == frame@);
            }
            self.receive(frame);
        }
        assert(frames.take(frames.len() as int) =~= frames);
        self.manager.tick(now);
        self.manager.to_retry()
    }
}

/// Whether `wait` is over at `now`.
pub fn wait_expired(wait: &Wait, now: u64) -> (expired: bool)
    ensures
        expired == wait.expired(now),
{
    if now >= wait.started {
        now - wait.started >= wait.timeout
    } else {
        0 >= wait.timeout
    }
}

} // verus!
