//! The request multiplexer: a FIFO queue of pending requests over one
//! strictly ordered stream. Requests are written in submission order, and each
//! server message goes to the oldest pending request.
use vstd::prelude::*;
use crate::error::{DbError, Error};
use crate::naming::{next_statement, statement_name};
use crate::message::{BackendMessage, CancelData, FrontendMessage, Notification};
use crate::request::{advance, initial_phase, next_step, start_phase, Output, Phase, RequestKind, Response, Step};

verus! {

/// Parse, describe and sync a statement; the connection names it.
pub struct Prepare {
    pub query: String,
    pub param_types: Vec<u32>,
}

/// Run a prepared statement with encoded parameters and count its rows.
pub struct Execute {
    pub statement: String,
    pub params: Vec<Option<Vec<u8>>>,
}

/// Run a prepared statement with encoded parameters and hand out its rows.
pub struct Query {
    pub statement: String,
    pub params: Vec<Option<Vec<u8>>>,
}

/// Run a prepared `COPY ... TO STDOUT` and hand out its data.
pub struct CopyOut {
    pub statement: String,
    pub params: Vec<Option<Vec<u8>>>,
}

/// Run one or more statements through the simple protocol.
pub struct BatchExecute {
    pub query: String,
}

/// A request to submit to a connection.
pub enum Request {
    Execute(Execute),
    Query(Query),
    CopyOut(CopyOut),
    Batch(BatchExecute),
}

/// A message of the server that belongs to no request.
#[derive(Debug)]
pub enum AsyncMessage {
    Notice(DbError),
    Notification(Notification),
    /// The connection failed with this error; nothing follows.
    ConnectionError(Error),
}

/// What the connection reports after a message or a failure.
#[derive(Debug)]
pub enum Event {
    /// A row or a chunk of copy data for request `id`.
    Progress { id: u64, output: Output },
    /// Request `id` is resolved.
    Completed { id: u64, result: Result<Response, Error> },
}

/// A request that has been written and awaits its responses.
pub struct Pending {
    pub id: u64,
    pub kind: RequestKind,
    pub phase: Phase,
}

pub open spec fn request_kind(req: Request) -> RequestKind {
    match req {
        Request::Execute(_) => RequestKind::Execute,
        Request::Query(_) => RequestKind::Query,
        Request::CopyOut(_) => RequestKind::CopyOut,
        Request::Batch(_) => RequestKind::Batch,
    }
}

/// The messages that a request writes, in order.
pub open spec fn request_frames(req: Request) -> Seq<FrontendMessage> {
    match req {
        Request::Execute(e) => seq![
            FrontendMessage::Bind { statement: e.statement, params: e.params },
            FrontendMessage::Execute,
            FrontendMessage::Sync,
        ],
        Request::Query(e) => seq![
            FrontendMessage::Bind { statement: e.statement, params: e.params },
            FrontendMessage::Execute,
            FrontendMessage::Sync,
        ],
        Request::CopyOut(e) => seq![
            FrontendMessage::Bind { statement: e.statement, params: e.params },
            FrontendMessage::Execute,
            FrontendMessage::Sync,
        ],
        Request::Batch(b) => seq![FrontendMessage::Query { query: b.query }],
    }
}

/// Each pending request resolved with `err`, in queue order.
pub open spec fn fail_events(pending: Seq<Pending>, err: Error) -> Seq<Event> {
    pending.map_values(|p: Pending| Event::Completed { id: p.id, result: Err(err) })
}

/// The events that a step of the head request `head` gives.
pub open spec fn step_events(head_id: u64, step: Step) -> Seq<Event> {
    match step {
        Step::Continue(_, Output::Nothing) => Seq::empty(),
        Step::Continue(_, o) => seq![Event::Progress { id: head_id, output: o }],
        Step::Finished(res) => seq![Event::Completed { id: head_id, result: res }],
        Step::Violation => Seq::empty(),
    }
}

/// The value that the last setting of `name` in `ps` gave it.
pub open spec fn param_lookup(ps: Seq<(String, String)>, name: Seq<char>) -> Option<Seq<char>>
    decreases ps.len(),
{
    if ps.len() == 0 {
        None
    } else if ps.last().0@ == name {
        Some(ps.last().1@)
    } else {
        param_lookup(ps.drop_last(), name)
    }
}

/// Completions come in queue order: the ids of completed requests increase,
/// and each is below the id of every request still pending.
pub open spec fn completes_in_order(events: Seq<Event>, rest: Seq<Pending>) -> bool {
    &&& forall|i: int, j: int| 0 <= i < j < events.len()
        && (#[trigger] events[i]) is Completed && (#[trigger] events[j]) is Completed
        ==> events[i]->Completed_id < events[j]->Completed_id
    &&& forall|i: int, k: int| 0 <= i < events.len() && 0 <= k < rest.len()
        && (#[trigger] events[i]) is Completed
        ==> events[i]->Completed_id < (#[trigger] rest[k]).id
}

pub open spec fn ids_increasing(pending: Seq<Pending>) -> bool {
    forall|i: int, j: int| 0 <= i < j < pending.len() ==> (#[trigger] pending[i]).id < (#[trigger] pending[j]).id
}

/// Whether a message belongs to no request.
pub open spec fn is_async(msg: BackendMessage) -> bool {
    msg is NoticeResponse || msg is NotificationResponse || msg is ParameterStatus
}

/// What one server message does to the queue of pending requests, and the
/// events it gives.
pub open spec fn queue_step(pending: Seq<Pending>, msg: BackendMessage) -> (Seq<Pending>, Seq<Event>) {
    if is_async(msg) {
        (pending, Seq::empty())
    } else if pending.len() == 0 {
        (Seq::empty(), Seq::empty())
    } else {
        let head = pending[0];
        let step = next_step(head.kind, head.phase, msg);
        match step {
            Step::Continue(p, _) => (pending.update(0, Pending { id: head.id, kind: head.kind, phase: p }), step_events(head.id, step)),
            Step::Finished(_) => (pending.drop_first(), step_events(head.id, step)),
            Step::Violation => (Seq::empty(), fail_events(pending, Error::UnexpectedMessage)),
        }
    }
}

/// What a sequence of server messages does to the queue, and all the events
/// it gives, in order.
pub open spec fn queue_run(pending: Seq<Pending>, msgs: Seq<BackendMessage>) -> (Seq<Pending>, Seq<Event>)
    decreases msgs.len(),
{
    if msgs.len() == 0 {
        (pending, Seq::empty())
    } else {
        let first = queue_step(pending, msgs[0]);
        let rest = queue_run(first.0, msgs.drop_first());
        (rest.0, first.1 + rest.1)
    }
}

/// Every completion is of a request at or after the head of `pending`, and
/// every request left is too; an empty queue stays empty and completes nothing.
pub open spec fn stays_behind(pending: Seq<Pending>, rest: Seq<Pending>, events: Seq<Event>) -> bool {
    if pending.len() == 0 {
        rest.len() == 0 && forall|i: int| 0 <= i < events.len() ==> !((#[trigger] events[i]) is Completed)
    } else {
        &&& forall|i: int| 0 <= i < events.len() && (#[trigger] events[i]) is Completed
            ==> events[i]->Completed_id >= pending[0].id
        &&& forall|k: int| 0 <= k < rest.len() ==> (#[trigger] rest[k]).id >= pending[0].id
    }
}

proof fn lemma_queue_step(pending: Seq<Pending>, msg: BackendMessage)
    requires
        ids_increasing(pending),
    ensures
        ids_increasing(queue_step(pending, msg).0),
        completes_in_order(queue_step(pending, msg).1, queue_step(pending, msg).0),
        stays_behind(pending, queue_step(pending, msg).0, queue_step(pending, msg).1),
{
    let (queue1, e1) = queue_step(pending, msg);
    if !is_async(msg) && pending.len() > 0 {
        let head = pending[0];
        match next_step(head.kind, head.phase, msg) {
            Step::Violation => {
                lemma_fail_events_in_order(pending, Error::UnexpectedMessage);
                let ev = fail_events(pending, Error::UnexpectedMessage);
                assert forall|i: int| 0 <= i < ev.len() && (#[trigger] ev[i]) is Completed
                    implies ev[i]->Completed_id >= pending[0].id by {
                    if i > 0 {
                        assert(pending[0].id < pending[i].id);
                    }
                }
            },
            Step::Finished(_) => {
                assert forall|k: int| 0 <= k < queue1.len() implies head.id < (#[trigger] queue1[k]).id by {
                    assert(queue1[k] == pending[k + 1]);
                }
                assert forall|i: int, j: int| 0 <= i < j < queue1.len() implies (#[trigger] queue1[i]).id < (#[trigger] queue1[j]).id by {
                    assert(queue1[i] == pending[i + 1]);
                    assert(queue1[j] == pending[j + 1]);
                }
            },
            Step::Continue(p, _) => {
                assert forall|i: int, j: int| 0 <= i < j < queue1.len() implies (#[trigger] queue1[i]).id < (#[trigger] queue1[j]).id by {
                    assert(queue1[i].id == pending[i].id);
                    assert(queue1[j].id == pending[j].id);
                }
                assert forall|k: int| 0 <= k < queue1.len() implies (#[trigger] queue1[k]).id >= pending[0].id by {
                    assert(queue1[k].id == pending[k].id);
                    if k > 0 {
                        assert(pending[0].id < pending[k].id);
                    }
                }
            },
        }
    } else if is_async(msg) && pending.len() > 0 {
        assert forall|k: int| 0 <= k < queue1.len() implies (#[trigger] queue1[k]).id >= pending[0].id by {
            if k > 0 {
                assert(pending[0].id < pending[k].id);
            }
        }
    }
}

proof fn lemma_queue_run(pending: Seq<Pending>, msgs: Seq<BackendMessage>)
    requires
        ids_increasing(pending),
    ensures
        ids_increasing(queue_run(pending, msgs).0),
        completes_in_order(queue_run(pending, msgs).1, queue_run(pending, msgs).0),
        stays_behind(pending, queue_run(pending, msgs).0, queue_run(pending, msgs).1),
    decreases msgs.len(),
{
    if msgs.len() > 0 {
        let (queue1, e1) = queue_step(pending, msgs[0]);
        lemma_queue_step(pending, msgs[0]);
        lemma_queue_run(queue1, msgs.drop_first());
        let (queue2, e2) = queue_run(queue1, msgs.drop_first());
        let e = e1 + e2;
        assert(queue_run(pending, msgs).1 == e);
        assert(queue_run(pending, msgs).0 == queue2);
        if queue1.len() == 0 {
            assert forall|i: int| 0 <= i < e.len() && (#[trigger] e[i]) is Completed implies i < e1.len() by {
                if i >= e1.len() {
                    assert(e[i] == e2[i - e1.len()]);
                }
            }
        }
        assert forall|i: int, j: int| 0 <= i < j < e.len()
            && (#[trigger] e[i]) is Completed && (#[trigger] e[j]) is Completed
            implies e[i]->Completed_id < e[j]->Completed_id by {
            if j < e1.len() {
                assert(e[i] == e1[i] && e[j] == e1[j]);
            } else if i >= e1.len() {
                assert(e[i] == e2[i - e1.len()] && e[j] == e2[j - e1.len()]);
            } else {
                assert(e[i] == e1[i] && e[j] == e2[j - e1.len()]);
                assert(e1[i]->Completed_id < queue1[0].id);
            }
        }
        assert forall|i: int, k: int| 0 <= i < e.len() && 0 <= k < queue2.len()
            && (#[trigger] e[i]) is Completed
            implies e[i]->Completed_id < (#[trigger] queue2[k]).id by {
            if i < e1.len() {
                assert(e[i] == e1[i]);
                assert(e1[i]->Completed_id < queue1[0].id);
            } else {
                assert(e[i] == e2[i - e1.len()]);
            }
        }
        if pending.len() > 0 {
            assert forall|i: int| 0 <= i < e.len() && (#[trigger] e[i]) is Completed
                implies e[i]->Completed_id >= pending[0].id by {
                if i < e1.len() {
                    assert(e[i] == e1[i]);
                } else {
                    assert(e[i] == e2[i - e1.len()]);
                }
            }
        } else {
            assert forall|i: int| 0 <= i < e.len() implies !((#[trigger] e[i]) is Completed) by {
                if i < e1.len() {
                    assert(e[i] == e1[i]);
                } else {
                    assert(e[i] == e2[i - e1.len()]);
                }
            }
        }
    }
}

/// Responses are handed to callers in the order in which their requests
/// were queued: whatever messages the server sends, the requests that
/// complete do so in increasing id order (ids are handed out in submission
/// order), and each before every request still pending.
pub proof fn lemma_responses_in_queue_order(pending: Seq<Pending>, msgs: Seq<BackendMessage>)
    requires
        ids_increasing(pending),
    ensures
        completes_in_order(queue_run(pending, msgs).1, queue_run(pending, msgs).0),
{
    lemma_queue_run(pending, msgs);
}

/// One physical connection: session data, the queue of pending requests and
/// the messages waiting to be written.
pub struct Connection {
    parameters: Vec<(String, String)>,
    cancel_data: CancelData,
    pending: Vec<Pending>,
    outbox: Vec<FrontendMessage>,
    messages: Vec<AsyncMessage>,
    next_id: u64,
    statements: u64,
    closed: bool,
}

impl Connection {
    pub closed spec fn parameters_view(&self) -> Seq<(String, String)> {
        self.parameters@
    }

    pub closed spec fn pending_view(&self) -> Seq<Pending> {
        self.pending@
    }

    pub closed spec fn outbox_view(&self) -> Seq<FrontendMessage> {
        self.outbox@
    }

    /// Notices and notifications not yet polled, oldest first.
    pub closed spec fn messages_view(&self) -> Seq<AsyncMessage> {
        self.messages@
    }

    /// How many statements this connection has named.
    pub closed spec fn statements_view(&self) -> u64 {
        self.statements
    }

    pub closed spec fn next_id_view(&self) -> u64 {
        self.next_id
    }

    pub closed spec fn is_closed(&self) -> bool {
        self.closed
    }

    pub closed spec fn cancel_data_view(&self) -> CancelData {
        self.cancel_data
    }

    /// Pending ids increase along the queue and lie below the next id; a
    /// failed connection has nothing pending.
    pub closed spec fn wf(&self) -> bool {
        &&& forall|i: int, j: int| 0 <= i < j < self.pending@.len()
            ==> (#[trigger] self.pending@[i]).id < (#[trigger] self.pending@[j]).id
        &&& forall|i: int| 0 <= i < self.pending@.len() ==> (#[trigger] self.pending@[i]).id < self.next_id
        &&& self.closed ==> self.pending@.len() == 0
    }

    /// A connection that the handshake left ready, with the server's
    /// parameters and the key for cancellation.
    pub fn new(parameters: Vec<(String, String)>, cancel_data: CancelData) -> (r: Connection)
        ensures
            r.wf(),
            r.parameters_view() == parameters@,
            r.cancel_data_view() == cancel_data,
            r.pending_view().len() == 0,
            r.outbox_view().len() == 0,
            r.messages_view().len() == 0,
            r.next_id_view() == 0,
            r.statements_view() == 0,
            !r.is_closed(),
    {
        Connection { parameters, cancel_data, pending: Vec::new(), outbox: Vec::new(), messages: Vec::new(), next_id: 0, statements: 0, closed: false }
    }

    /// The key that a cancellation of this session's requests must carry.
    pub fn cancel_data(&self) -> (r: CancelData)
        ensures
            r == self.cancel_data_view(),
    {
        self.cancel_data
    }

    /// The value that the server last reported for the parameter `name`.
    pub fn parameter(&self, name: &str) -> (r: Option<&str>)
        ensures
            match r {
                Some(v) => param_lookup(self.parameters_view(), name@) == Some(v@),
                None => param_lookup(self.parameters_view(), name@) is None,
            },
    {
        let mut i: usize = self.parameters.len();
        proof {
            assert(self.parameters@.take(i as int) =~= self.parameters@);
        }
        while i > 0
            invariant
                i <= self.parameters@.len(),
                param_lookup(self.parameters@, name@) == param_lookup(self.parameters@.take(i as int), name@),
            decreases i,
        {
            let ps = Ghost(self.parameters@.take(i as int));
            proof {
                assert(ps@.drop_last() =~= self.parameters@.take(i - 1));
            }
            if str_eq(self.parameters[i - 1].0.as_str(), name) {
                return Some(self.parameters[i - 1].1.as_str());
            }
            i = i - 1;
        }
        None
    }

    /// How many requests this connection has taken; ids are handed out in
    /// this order.
    pub fn submitted(&self) -> (r: u64)
        ensures
            r == self.next_id_view(),
    {
        self.next_id
    }

    /// Whether the connection has failed and takes no more requests.
    pub fn is_closed_exec(&self) -> (r: bool)
        ensures
            r == self.is_closed(),
    {
        self.closed
    }

    /// Hands out the messages waiting to be written, in order.
    pub fn take_outbox(&mut self) -> (r: Vec<FrontendMessage>)
        ensures
            r@ == old(self).outbox_view(),
            final(self).outbox_view().len() == 0,
            final(self).pending_view() == old(self).pending_view(),
            final(self).parameters_view() == old(self).parameters_view(),
            final(self).next_id_view() == old(self).next_id_view(),
            final(self).is_closed() == old(self).is_closed(),
            final(self).cancel_data_view() == old(self).cancel_data_view(),
            final(self).wf() == old(self).wf(),
            final(self).messages_view() == old(self).messages_view(),
            final(self).statements_view() == old(self).statements_view(),
    {
        let mut out: Vec<FrontendMessage> = Vec::new();
        std::mem::swap(&mut out, &mut self.outbox);
        out
    }

    /// Names a statement after this connection's own counter, which only
    /// grows, queues its preparation behind what is pending and writes its
    /// parse, describe and sync messages. A failed connection refuses it.
    pub fn prepare(&mut self, p: Prepare) -> (r: Result<(u64, String), Error>)
        requires
            old(self).wf(),
            old(self).next_id_view() < u64::MAX,
            old(self).statements_view() < u64::MAX,
        ensures
            final(self).wf(),
            old(self).is_closed() ==> (r matches Err(Error::Closed)) && *final(self) == *old(self),
            !old(self).is_closed() ==> {
                &&& r matches Ok((id, name)) && id == old(self).next_id_view()
                    && name@ == statement_name(old(self).statements_view() as nat)
                &&& final(self).statements_view() == old(self).statements_view() + 1
                &&& final(self).pending_view() == old(self).pending_view().push(Pending {
                    id: old(self).next_id_view(),
                    kind: RequestKind::Prepare,
                    phase: initial_phase(RequestKind::Prepare),
                })
                &&& final(self).outbox_view().len() == old(self).outbox_view().len() + 3
                &&& final(self).outbox_view().take(old(self).outbox_view().len() as int) == old(self).outbox_view()
                &&& final(self).outbox_view()[old(self).outbox_view().len() as int] matches
                    FrontendMessage::Parse { name, query, param_types }
                    && name@ == statement_name(old(self).statements_view() as nat)
                    && query == p.query && param_types == p.param_types
                &&& final(self).outbox_view()[old(self).outbox_view().len() as int + 1] matches
                    FrontendMessage::DescribeStatement { name }
                    && name@ == statement_name(old(self).statements_view() as nat)
                &&& final(self).outbox_view()[old(self).outbox_view().len() as int + 2] is Sync
                &&& final(self).next_id_view() == old(self).next_id_view() + 1
                &&& final(self).parameters_view() == old(self).parameters_view()
                &&& final(self).cancel_data_view() == old(self).cancel_data_view()
                &&& final(self).messages_view() == old(self).messages_view()
                &&& !final(self).is_closed()
            },
    {
        if self.closed {
            return Err(Error::Closed);
        }
        let id = self.next_id;
        let name = next_statement(&mut self.statements);
        let Prepare { query, param_types } = p;
        self.outbox.push(FrontendMessage::Parse { name: copy_string(&name), query, param_types });
        self.outbox.push(FrontendMessage::DescribeStatement { name: copy_string(&name) });
        self.outbox.push(FrontendMessage::Sync);
        self.pending.push(Pending { id, kind: RequestKind::Prepare, phase: start_phase(RequestKind::Prepare) });
        self.next_id = id + 1;
        Ok((id, name))
    }

    /// How many statements this connection has named.
    pub fn statements(&self) -> (r: u64)
        ensures
            r == self.statements_view(),
    {
        self.statements
    }

    /// On a well-formed connection the pending ids increase along the queue,
    /// so `lemma_responses_in_queue_order` applies to it.
    pub proof fn lemma_wf_ids_increasing(&self)
        requires
            self.wf(),
        ensures
            ids_increasing(self.pending_view()),
    {
    }

    /// Queues a request behind those already pending and writes its
    /// messages after theirs. A failed connection refuses it.
    pub fn submit(&mut self, req: Request) -> (r: Result<u64, Error>)
        requires
            old(self).wf(),
            old(self).next_id_view() < u64::MAX,
        ensures
            final(self).wf(),
            old(self).is_closed() ==> (r matches Err(Error::Closed)) && *final(self) == *old(self),
            !old(self).is_closed() ==> {
                &&& r == Ok::<u64, Error>(old(self).next_id_view())
                &&& final(self).pending_view() == old(self).pending_view().push(Pending {
                    id: old(self).next_id_view(),
                    kind: request_kind(req),
                    phase: initial_phase(request_kind(req)),
                })
                &&& final(self).outbox_view() == old(self).outbox_view() + request_frames(req)
                &&& final(self).next_id_view() == old(self).next_id_view() + 1
                &&& final(self).parameters_view() == old(self).parameters_view()
                &&& final(self).cancel_data_view() == old(self).cancel_data_view()
                &&& final(self).messages_view() == old(self).messages_view()
                &&& final(self).statements_view() == old(self).statements_view()
                &&& !final(self).is_closed()
            },
    {
        if self.closed {
            return Err(Error::Closed);
        }
        let id = self.next_id;
        let kind = match req {
            Request::Execute(e) => {
                self.push_bind(e.statement, e.params);
                RequestKind::Execute
            },
            Request::Query(e) => {
                self.push_bind(e.statement, e.params);
                RequestKind::Query
            },
            Request::CopyOut(e) => {
                self.push_bind(e.statement, e.params);
                RequestKind::CopyOut
            },
            Request::Batch(b) => {
                self.outbox.push(FrontendMessage::Query { query: b.query });
                RequestKind::Batch
            },
        };
        self.pending.push(Pending { id, kind, phase: start_phase(kind) });
        self.next_id = id + 1;
        Ok(id)
    }

    /// Routes one server message. Notices and notifications go to the queue
    /// that `poll_message` reads, and parameter reports update the session; every
    /// other message goes to the oldest pending request, which may go on,
    /// hand out a row or copy chunk, or complete and leave the queue. A
    /// message that the oldest request does not allow, or one with nothing
    /// pending, breaks the connection: every pending request fails with a
    /// protocol error, in queue order. A failed connection ignores messages.
    pub fn handle_message(&mut self, msg: BackendMessage) -> (r: Vec<Event>)
        requires
            old(self).wf(),
        ensures
            final(self).wf(),
            completes_in_order(r@, final(self).pending_view()),
            (final(self).pending_view(), r@) == queue_step(old(self).pending_view(), msg),
            final(self).next_id_view() == old(self).next_id_view(),
            final(self).cancel_data_view() == old(self).cancel_data_view(),
            final(self).outbox_view() == old(self).outbox_view(),
            final(self).statements_view() == old(self).statements_view(),
            !(msg is NoticeResponse || msg is NotificationResponse) ==> final(self).messages_view() ==
                if !old(self).is_closed() && final(self).is_closed() {
                    old(self).messages_view().push(AsyncMessage::ConnectionError(Error::UnexpectedMessage))
                } else {
                    old(self).messages_view()
                },
            old(self).is_closed() ==> r@.len() == 0 && *final(self) == *old(self),
            !old(self).is_closed() ==> match msg {
                BackendMessage::NoticeResponse(e) => {
                    &&& r@.len() == 0
                    &&& final(self).messages_view() == old(self).messages_view().push(AsyncMessage::Notice(e))
                    &&& final(self).pending_view() == old(self).pending_view()
                    &&& final(self).parameters_view() == old(self).parameters_view()
                    &&& !final(self).is_closed()
                },
                BackendMessage::NotificationResponse(n) => {
                    &&& r@.len() == 0
                    &&& final(self).messages_view() == old(self).messages_view().push(AsyncMessage::Notification(n))
                    &&& final(self).pending_view() == old(self).pending_view()
                    &&& final(self).parameters_view() == old(self).parameters_view()
                    &&& !final(self).is_closed()
                },
                BackendMessage::ParameterStatus { name, value } => {
                    &&& r@.len() == 0
                    &&& final(self).pending_view() == old(self).pending_view()
                    &&& final(self).parameters_view() == old(self).parameters_view().push((name, value))
                    &&& !final(self).is_closed()
                },
                _ => {
                    &&& final(self).parameters_view() == old(self).parameters_view()
                    &&& if old(self).pending_view().len() == 0 {
                        r@.len() == 0 && final(self).is_closed() && final(self).pending_view().len() == 0
                    } else {
                        let head = old(self).pending_view()[0];
                        let step = next_step(head.kind, head.phase, msg);
                        match step {
                            Step::Continue(p, _) => {
                                &&& r@ == step_events(head.id, step)
                                &&& final(self).pending_view() == old(self).pending_view().update(
                                    0, Pending { id: head.id, kind: head.kind, phase: p })
                                &&& !final(self).is_closed()
                            },
                            Step::Finished(_) => {
                                &&& r@ == step_events(head.id, step)
                                &&& final(self).pending_view() == old(self).pending_view().drop_first()
                                &&& !final(self).is_closed()
                            },
                            Step::Violation => {
                                &&& r@ == fail_events(old(self).pending_view(), Error::UnexpectedMessage)
                                &&& final(self).pending_view().len() == 0
                                &&& final(self).is_closed()
                            },
                        }
                    }
                },
            },
    {
        if self.closed {
            return Vec::new();
        }
        match msg {
            BackendMessage::NoticeResponse(e) => {
                self.messages.push(AsyncMessage::Notice(e));
                Vec::new()
            },
            BackendMessage::NotificationResponse(n) => {
                self.messages.push(AsyncMessage::Notification(n));
                Vec::new()
            },
            BackendMessage::ParameterStatus { name, value } => {
                self.parameters.push((name, value));
                Vec::new()
            },
            other => self.route(other),
        }
    }

    fn route(&mut self, msg: BackendMessage) -> (r: Vec<Event>)
        requires
            old(self).wf(),
            !old(self).closed,
        ensures
            final(self).wf(),
            completes_in_order(r@, final(self).pending@),
            final(self).next_id == old(self).next_id,
            final(self).cancel_data == old(self).cancel_data,
            final(self).outbox == old(self).outbox,
            final(self).parameters == old(self).parameters,
            final(self).statements == old(self).statements,
            final(self).messages@ == if final(self).closed {
                old(self).messages@.push(AsyncMessage::ConnectionError(Error::UnexpectedMessage))
            } else {
                old(self).messages@
            },
            if old(self).pending@.len() == 0 {
                r@.len() == 0 && final(self).closed && final(self).pending@.len() == 0
            } else {
                let head = old(self).pending@[0];
                let step = next_step(head.kind, head.phase, msg);
                match step {
                    Step::Continue(p, _) => {
                        &&& r@ == step_events(head.id, step)
                        &&& final(self).pending@ == old(self).pending@.update(
                            0, Pending { id: head.id, kind: head.kind, phase: p })
                        &&& !final(self).closed
                    },
                    Step::Finished(_) => {
                        &&& r@ == step_events(head.id, step)
                        &&& final(self).pending@ == old(self).pending@.drop_first()
                        &&& !final(self).closed
                    },
                    Step::Violation => {
                        &&& r@ == fail_events(old(self).pending@, Error::UnexpectedMessage)
                        &&& final(self).pending@.len() == 0
                        &&& final(self).closed
                    },
                }
            },
    {
        if self.pending.len() == 0 {
            let mut r = Vec::new();
            self.fail_pending(false, &mut r);
            proof {
                assert(r@ =~= Seq::<Event>::empty());
            }
            return r;
        }
        let ghost old_pending = self.pending@;
        let head = self.pending.remove(0);
        let Pending { id, kind, phase } = head;
        let step = advance(kind, phase, msg);
        match step {
            Step::Continue(p, o) => {
                self.pending.insert(0, Pending { id, kind, phase: p });
                proof {
                    assert(self.pending@ =~= old_pending.update(0, Pending { id, kind, phase: p }));
                    assert(self.pending@[0].id == old_pending[0].id);
                }
                let mut r = Vec::new();
                match o {
                    Output::Nothing => {},
                    other => r.push(Event::Progress { id, output: other }),
                }
                r
            },
            Step::Finished(res) => {
                let mut r = Vec::new();
                r.push(Event::Completed { id, result: res });
                proof {
                    assert(self.pending@ =~= old_pending.drop_first());
                    assert forall|k: int| 0 <= k < self.pending@.len() implies id < (#[trigger] self.pending@[k]).id by {
                        assert(self.pending@[k] == old_pending[k + 1]);
                    }
                }
                r
            },
            Step::Violation => {
                let mut r = Vec::new();
                r.push(Event::Completed { id, result: Err(Error::UnexpectedMessage) });
                self.fail_pending(false, &mut r);
                proof {
                    assert(r@ =~= fail_events(old_pending, Error::UnexpectedMessage));
                    lemma_fail_events_in_order(old_pending, Error::UnexpectedMessage);
                }
                r
            },
        }
    }

    /// Fails every pending request with a disconnection error, once each and
    /// in queue order, and closes the connection. This is what the driver does
    /// when the transport fails or closes, or the connection is dropped.
    pub fn disconnect(&mut self) -> (r: Vec<Event>)
        requires
            old(self).wf(),
        ensures
            final(self).wf(),
            r@ == fail_events(old(self).pending_view(), Error::Disconnected),
            r@.len() == old(self).pending_view().len(),
            completes_in_order(r@, final(self).pending_view()),
            final(self).pending_view().len() == 0,
            final(self).is_closed(),
            final(self).parameters_view() == old(self).parameters_view(),
            final(self).next_id_view() == old(self).next_id_view(),
            final(self).cancel_data_view() == old(self).cancel_data_view(),
            final(self).statements_view() == old(self).statements_view(),
            old(self).is_closed() ==> *final(self) == *old(self),
            !old(self).is_closed() ==> final(self).messages_view()
                == old(self).messages_view().push(AsyncMessage::ConnectionError(Error::Disconnected)),
    {
        if self.closed {
            proof {
                assert(fail_events(self.pending@, Error::Disconnected) =~= Seq::<Event>::empty());
            }
            return Vec::new();
        }
        let mut r = Vec::new();
        let ghost old_pending = self.pending@;
        self.fail_pending(true, &mut r);
        proof {
            assert(r@ =~= fail_events(old_pending, Error::Disconnected));
            lemma_fail_events_in_order(old_pending, Error::Disconnected);
        }
        r
    }

    fn fail_pending(&mut self, disconnected: bool, events: &mut Vec<Event>)
        ensures
            final(events)@ == old(events)@ + fail_events(old(self).pending@, fail_error(disconnected)),
            final(self).pending@.len() == 0,
            final(self).closed,
            final(self).next_id == old(self).next_id,
            final(self).cancel_data == old(self).cancel_data,
            final(self).outbox == old(self).outbox,
            final(self).parameters == old(self).parameters,
            final(self).statements == old(self).statements,
            final(self).messages@ == old(self).messages@.push(AsyncMessage::ConnectionError(fail_error(disconnected))),
    {
        let ghost start = events@;
        let ghost err = fail_error(disconnected);
        let mut i: usize = 0;
        while i < self.pending.len()
            invariant
                i <= self.pending@.len(),
                self.pending@ == old(self).pending@,
                events@ == start + fail_events(self.pending@.take(i as int), err),
                err == fail_error(disconnected),
            decreases self.pending@.len() - i,
        {
            let e = if disconnected { Error::Disconnected } else { Error::UnexpectedMessage };
            events.push(Event::Completed { id: self.pending[i].id, result: Err(e) });
            proof {
                assert(fail_events(self.pending@.take(i + 1), err)
                    =~= fail_events(self.pending@.take(i as int), err).push(
                        Event::Completed { id: self.pending@[i as int].id, result: Err(err) }));
            }
            i = i + 1;
        }
        proof {
            assert(self.pending@.take(i as int) =~= self.pending@);
        }
        self.pending = Vec::new();
        self.closed = true;
        let e = if disconnected { Error::Disconnected } else { Error::UnexpectedMessage };
        self.messages.push(AsyncMessage::ConnectionError(e));
    }

    /// The oldest notice or notification not yet polled, if any.
    pub fn poll_message(&mut self) -> (r: Option<AsyncMessage>)
        ensures
            old(self).messages_view().len() == 0 ==> r is None && *final(self) == *old(self),
            old(self).messages_view().len() > 0 ==> {
                &&& r == Some(old(self).messages_view()[0])
                &&& final(self).messages_view() == old(self).messages_view().drop_first()
                &&& final(self).pending_view() == old(self).pending_view()
                &&& final(self).outbox_view() == old(self).outbox_view()
                &&& final(self).parameters_view() == old(self).parameters_view()
                &&& final(self).next_id_view() == old(self).next_id_view()
                &&& final(self).cancel_data_view() == old(self).cancel_data_view()
                &&& final(self).statements_view() == old(self).statements_view()
                &&& final(self).is_closed() == old(self).is_closed()
            },
            final(self).wf() == old(self).wf(),
    {
        if self.messages.len() == 0 {
            return None;
        }
        Some(self.messages.remove(0))
    }

    fn push_bind(&mut self, statement: String, params: Vec<Option<Vec<u8>>>)
        ensures
            final(self).outbox@ == old(self).outbox@ + seq![
                FrontendMessage::Bind { statement, params },
                FrontendMessage::Execute,
                FrontendMessage::Sync,
            ],
            final(self).pending == old(self).pending,
            final(self).parameters == old(self).parameters,
            final(self).next_id == old(self).next_id,
            final(self).closed == old(self).closed,
            final(self).cancel_data == old(self).cancel_data,
            final(self).messages == old(self).messages,
            final(self).statements == old(self).statements,
    {
        self.outbox.push(FrontendMessage::Bind { statement, params });
        self.outbox.push(FrontendMessage::Execute);
        self.outbox.push(FrontendMessage::Sync);
    }
}

/// The error with which a failed connection resolves what is pending.
pub open spec fn fail_error(disconnected: bool) -> Error {
    if disconnected { Error::Disconnected } else { Error::UnexpectedMessage }
}

proof fn lemma_fail_events_in_order(pending: Seq<Pending>, err: Error)
    requires
        forall|i: int, j: int| 0 <= i < j < pending.len() ==> (#[trigger] pending[i]).id < (#[trigger] pending[j]).id,
    ensures
        completes_in_order(fail_events(pending, err), Seq::empty()),
        fail_events(pending, err).len() == pending.len(),
{
    let ev = fail_events(pending, err);
    assert forall|i: int, j: int| 0 <= i < j < ev.len()
        && (#[trigger] ev[i]) is Completed && (#[trigger] ev[j]) is Completed
        implies ev[i]->Completed_id < ev[j]->Completed_id by {
        assert(ev[i]->Completed_id == pending[i].id);
        assert(ev[j]->Completed_id == pending[j].id);
    }
}

fn copy_string(s: &String) -> (r: String)
    ensures
        r@ == s@,
{
    String::from_str(s.as_str())
}

/// Whether two strings hold the same characters.
pub fn str_eq(a: &str, b: &str) -> (r: bool)
    ensures
        r == (a@ == b@),
{
    let n = a.unicode_len();
    if n != b.unicode_len() {
        return false;
    }
    let mut i: usize = 0;
    while i < n
        invariant
            n == a@.len(),
            n == b@.len(),
            i <= n,
            a@.take(i as int) == b@.take(i as int),
        decreases n - i,
    {
        if a.get_char(i) != b.get_char(i) {
            proof {
                assert(a@[i as int] != b@[i as int]);
            }
            return false;
        }
        proof {
            assert(a@.take(i + 1) =~= a@.take(i as int).push(a@[i as int]));
            assert(b@.take(i + 1) =~= b@.take(i as int).push(b@[i as int]));
        }
        i = i + 1;
    }
    proof {
        assert(a@.take(n as int) =~= a@);
        assert(b@.take(n as int) =~= b@);
    }
    true
}

} // verus!
