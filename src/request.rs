//! The sub-protocol of each request kind, as an explicit transition table.
use vstd::prelude::*;
use crate::error::Error;
use crate::message::{BackendMessage, Column};
use crate::tag::{rows_affected, tag_rows};

verus! {

/// The kinds of request that the multiplexer carries.
#[derive(Clone, Copy, PartialEq, Eq, Structural, Debug)]
pub enum RequestKind {
    /// Parse, describe and sync a statement.
    Prepare,
    /// Bind and execute a statement, counting its rows.
    Execute,
    /// Bind and execute a statement, handing out its rows.
    Query,
    /// Bind and execute a `COPY ... TO STDOUT`, handing out its data.
    CopyOut,
    /// A simple-protocol query of one or more statements.
    Batch,
}

/// What a request resolves with when it succeeds.
#[derive(Debug)]
pub enum Response {
    /// A prepared statement's parameter types and, unless it returns no
    /// data, its result columns.
    Prepared { params: Vec<u32>, columns: Option<Vec<Column>> },
    /// The row count of the command tag.
    RowCount(u64),
    /// A batch ran to its end.
    Done,
}

/// Where a request stands in its sub-protocol.
#[derive(Debug)]
pub enum Phase {
    AwaitParseComplete,
    AwaitParameterDescription,
    AwaitRowDescription { params: Vec<u32> },
    AwaitBindComplete,
    /// Rows (or a copy-out response) until the command completes.
    Streaming,
    /// Copy data until copy-done.
    Copying,
    /// A simple query, until ready-for-query.
    Batch,
    /// The result is known; waiting for ready-for-query to hand it over.
    AwaitReady(Result<Response, Error>),
}

/// What a request hands to its owner before it completes.
#[derive(Debug)]
pub enum Output {
    Nothing,
    Row(Vec<Option<Vec<u8>>>),
    CopyChunk(Vec<u8>),
}

/// The outcome of one server message for the request it is routed to.
pub enum Step {
    /// The request goes on in a new phase, with an output.
    Continue(Phase, Output),
    /// The request is resolved.
    Finished(Result<Response, Error>),
    /// The message is not allowed here; the connection is broken.
    Violation,
}

/// The phase in which a request of kind `kind` starts.
pub open spec fn initial_phase(kind: RequestKind) -> Phase {
    match kind {
        RequestKind::Prepare => Phase::AwaitParseComplete,
        RequestKind::Execute | RequestKind::Query | RequestKind::CopyOut => Phase::AwaitBindComplete,
        RequestKind::Batch => Phase::Batch,
    }
}

pub fn start_phase(kind: RequestKind) -> (r: Phase)
    ensures
        r == initial_phase(kind),
{
    match kind {
        RequestKind::Prepare => Phase::AwaitParseComplete,
        RequestKind::Execute | RequestKind::Query | RequestKind::CopyOut => Phase::AwaitBindComplete,
        RequestKind::Batch => Phase::Batch,
    }
}

/// The transition table: what message `msg` does to a request of kind `kind`
/// in phase `phase`. A server error ends every phase but the last one with
/// that error, which is handed over at ready-for-query.
pub open spec fn next_step(kind: RequestKind, phase: Phase, msg: BackendMessage) -> Step {
    match phase {
        Phase::AwaitReady(res) => match msg {
            BackendMessage::ReadyForQuery => Step::Finished(res),
            _ => Step::Violation,
        },
        _ => match msg {
            BackendMessage::ErrorResponse(e) => Step::Continue(Phase::AwaitReady(Err(Error::Db(e))), Output::Nothing),
            _ => match kind {
                RequestKind::Prepare => prepare_step(phase, msg),
                RequestKind::Batch => batch_step(phase, msg),
                _ => bind_step(kind, phase, msg),
            },
        },
    }
}

/// Parse-complete, parameter-description, then row-description or no-data.
pub open spec fn prepare_step(phase: Phase, msg: BackendMessage) -> Step {
    match (phase, msg) {
        (Phase::AwaitParseComplete, BackendMessage::ParseComplete) =>
            Step::Continue(Phase::AwaitParameterDescription, Output::Nothing),
        (Phase::AwaitParameterDescription, BackendMessage::ParameterDescription { types }) =>
            Step::Continue(Phase::AwaitRowDescription { params: types }, Output::Nothing),
        (Phase::AwaitRowDescription { params }, BackendMessage::RowDescription { columns }) =>
            Step::Continue(Phase::AwaitReady(Ok(Response::Prepared { params, columns: Some(columns) })), Output::Nothing),
        (Phase::AwaitRowDescription { params }, BackendMessage::NoData) =>
            Step::Continue(Phase::AwaitReady(Ok(Response::Prepared { params, columns: None })), Output::Nothing),
        _ => Step::Violation,
    }
}

/// Bind-complete, then data rows (a query hands each out, an execute drops
/// them) or, for a copy, copy-out-response, copy data and copy-done; then
/// command-complete.
pub open spec fn bind_step(kind: RequestKind, phase: Phase, msg: BackendMessage) -> Step {
    match (phase, msg) {
        (Phase::AwaitBindComplete, BackendMessage::BindComplete) =>
            Step::Continue(Phase::Streaming, Output::Nothing),
        (Phase::Streaming, BackendMessage::DataRow { values }) =>
            if kind == RequestKind::Query {
                Step::Continue(Phase::Streaming, Output::Row(values))
            } else if kind == RequestKind::Execute {
                Step::Continue(Phase::Streaming, Output::Nothing)
            } else {
                Step::Violation
            },
        (Phase::Streaming, BackendMessage::CopyOutResponse) =>
            if kind == RequestKind::CopyOut {
                Step::Continue(Phase::Copying, Output::Nothing)
            } else {
                Step::Violation
            },
        (Phase::Copying, BackendMessage::CopyData { data }) =>
            Step::Continue(Phase::Copying, Output::CopyChunk(data)),
        (Phase::Copying, BackendMessage::CopyDone) =>
            Step::Continue(Phase::Streaming, Output::Nothing),
        (Phase::Streaming, BackendMessage::CommandComplete { tag }) =>
            Step::Continue(Phase::AwaitReady(Ok(Response::RowCount(tag_rows(tag@)))), Output::Nothing),
        (Phase::Streaming, BackendMessage::EmptyQueryResponse) =>
            Step::Continue(Phase::AwaitReady(Ok(Response::RowCount(0))), Output::Nothing),
        _ => Step::Violation,
    }
}

/// Result sets are passed over until ready-for-query ends the batch.
pub open spec fn batch_step(phase: Phase, msg: BackendMessage) -> Step {
    match phase {
        Phase::Batch => match msg {
            BackendMessage::RowDescription { .. } | BackendMessage::DataRow { .. }
            | BackendMessage::CommandComplete { .. } | BackendMessage::EmptyQueryResponse =>
                Step::Continue(Phase::Batch, Output::Nothing),
            BackendMessage::ReadyForQuery => Step::Finished(Ok(Response::Done)),
            _ => Step::Violation,
        },
        _ => Step::Violation,
    }
}

/// Feeds `msgs` in order to a request of kind `kind` in phase `phase`: the
/// outputs handed out, and the last step (a `Continue` with no output where
/// the messages ran out first).
pub open spec fn feed(kind: RequestKind, phase: Phase, msgs: Seq<BackendMessage>) -> (Seq<Output>, Step)
    decreases msgs.len(),
{
    if msgs.len() == 0 {
        (Seq::empty(), Step::Continue(phase, Output::Nothing))
    } else {
        match next_step(kind, phase, msgs[0]) {
            Step::Continue(p, o) => {
                let rest = feed(kind, p, msgs.drop_first());
                (seq![o] + rest.0, rest.1)
            },
            other => (Seq::empty(), other),
        }
    }
}

pub open spec fn data_row(values: Vec<Option<Vec<u8>>>) -> BackendMessage {
    BackendMessage::DataRow { values }
}

pub open spec fn row_output(values: Vec<Option<Vec<u8>>>) -> Output {
    Output::Row(values)
}

proof fn lemma_stream_rows(rows: Seq<Vec<Option<Vec<u8>>>>, tail: Seq<BackendMessage>)
    ensures
        feed(RequestKind::Query, Phase::Streaming, rows.map_values(|v| data_row(v)) + tail)
            == (rows.map_values(|v| row_output(v)) + feed(RequestKind::Query, Phase::Streaming, tail).0,
                feed(RequestKind::Query, Phase::Streaming, tail).1),
    decreases rows.len(),
{
    if rows.len() > 0 {
        let msgs = rows.map_values(|v| data_row(v)) + tail;
        lemma_stream_rows(rows.drop_first(), tail);
        assert(msgs.drop_first() =~= rows.drop_first().map_values(|v| data_row(v)) + tail);
        assert(msgs[0] == data_row(rows[0]));
        assert(rows.map_values(|v| row_output(v)) + feed(RequestKind::Query, Phase::Streaming, tail).0
            =~= seq![row_output(rows[0])] + (rows.drop_first().map_values(|v| row_output(v))
                + feed(RequestKind::Query, Phase::Streaming, tail).0));
    } else {
        assert(rows.map_values(|v| data_row(v)) + tail =~= tail);
        assert(rows.map_values(|v| row_output(v)) + feed(RequestKind::Query, Phase::Streaming, tail).0
            =~= feed(RequestKind::Query, Phase::Streaming, tail).0);
    }
}

/// A query whose server answer is bind-complete, K data rows, command-complete
/// and ready-for-query hands out exactly those K rows, in the server's order,
/// each once, and then resolves with the tag's row count; K may be 0.
pub proof fn lemma_query_yields_rows(rows: Seq<Vec<Option<Vec<u8>>>>, tag: String)
    ensures
        feed(
            RequestKind::Query,
            Phase::AwaitBindComplete,
            seq![BackendMessage::BindComplete] + rows.map_values(|v| data_row(v))
                + seq![BackendMessage::CommandComplete { tag }, BackendMessage::ReadyForQuery],
        ) == (seq![Output::Nothing] + rows.map_values(|v| row_output(v)) + seq![Output::Nothing],
              Step::Finished(Ok(Response::RowCount(tag_rows(tag@))))),
{
    let tail = seq![BackendMessage::CommandComplete { tag }, BackendMessage::ReadyForQuery];
    let msgs = seq![BackendMessage::BindComplete] + rows.map_values(|v| data_row(v)) + tail;
    lemma_stream_rows(rows, tail);
    assert(msgs.drop_first() =~= rows.map_values(|v| data_row(v)) + tail);
    assert(tail.drop_first() =~= seq![BackendMessage::ReadyForQuery]);
    assert(tail.drop_first().drop_first() =~= Seq::<BackendMessage>::empty());
    let ph = Phase::AwaitReady(Ok(Response::RowCount(tag_rows(tag@))));
    assert(next_step(RequestKind::Query, Phase::Streaming, tail[0]) == Step::Continue(ph, Output::Nothing));
    let f2 = feed(RequestKind::Query, ph, tail.drop_first());
    assert(tail.drop_first()[0] == BackendMessage::ReadyForQuery);
    assert(f2 == (Seq::<Output>::empty(), Step::Finished(Ok(Response::RowCount(tag_rows(tag@))))));
    let ft = feed(RequestKind::Query, Phase::Streaming, tail);
    assert(ft.0 =~= seq![Output::Nothing]);
    assert(msgs[0] == BackendMessage::BindComplete);
    assert(next_step(RequestKind::Query, Phase::AwaitBindComplete, msgs[0]) == Step::Continue(Phase::Streaming, Output::Nothing));
    assert(seq![Output::Nothing] + (rows.map_values(|v| row_output(v)) + ft.0)
        =~= seq![Output::Nothing] + rows.map_values(|v| row_output(v)) + seq![Output::Nothing]);
}

/// A message of a simple query's result sets.
pub open spec fn is_batch_result(msg: BackendMessage) -> bool {
    msg is RowDescription || msg is DataRow || msg is CommandComplete || msg is EmptyQueryResponse
}

/// A batch passes over any number of result-set messages without handing
/// out anything, and resolves with `Done` at ready-for-query.
pub proof fn lemma_batch_surfaces_nothing(results: Seq<BackendMessage>)
    requires
        forall|i: int| 0 <= i < results.len() ==> is_batch_result(#[trigger] results[i]),
    ensures
        feed(RequestKind::Batch, Phase::Batch, results.push(BackendMessage::ReadyForQuery))
            == (Seq::new(results.len(), |i: int| Output::Nothing), Step::Finished(Ok(Response::Done))),
    decreases results.len(),
{
    let msgs = results.push(BackendMessage::ReadyForQuery);
    if results.len() == 0 {
        assert(msgs[0] == BackendMessage::ReadyForQuery);
        assert(Seq::new(0, |i: int| Output::Nothing) =~= Seq::<Output>::empty());
    } else {
        let rest = results.drop_first();
        assert(is_batch_result(results[0]));
        assert(msgs[0] == results[0]);
        assert(msgs.drop_first() =~= rest.push(BackendMessage::ReadyForQuery));
        assert forall|i: int| 0 <= i < rest.len() implies is_batch_result(#[trigger] rest[i]) by {
            assert(rest[i] == results[i + 1]);
        }
        lemma_batch_surfaces_nothing(rest);
        assert(seq![Output::Nothing] + Seq::new(rest.len(), |i: int| Output::Nothing)
            =~= Seq::new(results.len(), |i: int| Output::Nothing));
    }
}

/// Advances a request of kind `kind` in phase `phase` by the message `msg`.
pub fn advance(kind: RequestKind, phase: Phase, msg: BackendMessage) -> (r: Step)
    ensures
        r == next_step(kind, phase, msg),
{
    match phase {
        Phase::AwaitReady(res) => match msg {
            BackendMessage::ReadyForQuery => Step::Finished(res),
            _ => Step::Violation,
        },
        _ => match msg {
            BackendMessage::ErrorResponse(e) => Step::Continue(Phase::AwaitReady(Err(Error::Db(e))), Output::Nothing),
            _ => match kind {
                RequestKind::Prepare => advance_prepare(phase, msg),
                RequestKind::Batch => advance_batch(phase, msg),
                _ => advance_bind(kind, phase, msg),
            },
        },
    }
}

fn advance_prepare(phase: Phase, msg: BackendMessage) -> (r: Step)
    ensures
        r == prepare_step(phase, msg),
{
    match (phase, msg) {
        (Phase::AwaitParseComplete, BackendMessage::ParseComplete) =>
            Step::Continue(Phase::AwaitParameterDescription, Output::Nothing),
        (Phase::AwaitParameterDescription, BackendMessage::ParameterDescription { types }) =>
            Step::Continue(Phase::AwaitRowDescription { params: types }, Output::Nothing),
        (Phase::AwaitRowDescription { params }, BackendMessage::RowDescription { columns }) =>
            Step::Continue(Phase::AwaitReady(Ok(Response::Prepared { params, columns: Some(columns) })), Output::Nothing),
        (Phase::AwaitRowDescription { params }, BackendMessage::NoData) =>
            Step::Continue(Phase::AwaitReady(Ok(Response::Prepared { params, columns: None })), Output::Nothing),
        _ => Step::Violation,
    }
}

fn advance_bind(kind: RequestKind, phase: Phase, msg: BackendMessage) -> (r: Step)
    ensures
        r == bind_step(kind, phase, msg),
{
    match (phase, msg) {
        (Phase::AwaitBindComplete, BackendMessage::BindComplete) =>
            Step::Continue(Phase::Streaming, Output::Nothing),
        (Phase::Streaming, BackendMessage::DataRow { values }) =>
            if kind == RequestKind::Query {
                Step::Continue(Phase::Streaming, Output::Row(values))
            } else if kind == RequestKind::Execute {
                Step::Continue(Phase::Streaming, Output::Nothing)
            } else {
                Step::Violation
            },
        (Phase::Streaming, BackendMessage::CopyOutResponse) =>
            if kind == RequestKind::CopyOut {
                Step::Continue(Phase::Copying, Output::Nothing)
            } else {
                Step::Violation
            },
        (Phase::Copying, BackendMessage::CopyData { data }) =>
            Step::Continue(Phase::Copying, Output::CopyChunk(data)),
        (Phase::Copying, BackendMessage::CopyDone) =>
            Step::Continue(Phase::Streaming, Output::Nothing),
        (Phase::Streaming, BackendMessage::CommandComplete { tag }) =>
            Step::Continue(Phase::AwaitReady(Ok(Response::RowCount(rows_affected(tag.as_str())))), Output::Nothing),
        (Phase::Streaming, BackendMessage::EmptyQueryResponse) =>
            Step::Continue(Phase::AwaitReady(Ok(Response::RowCount(0))), Output::Nothing),
        _ => Step::Violation,
    }
}

fn advance_batch(phase: Phase, msg: BackendMessage) -> (r: Step)
    ensures
        r == batch_step(phase, msg),
{
    match phase {
        Phase::Batch => match msg {
            BackendMessage::RowDescription { .. } | BackendMessage::DataRow { .. }
            | BackendMessage::CommandComplete { .. } | BackendMessage::EmptyQueryResponse =>
                Step::Continue(Phase::Batch, Output::Nothing),
            BackendMessage::ReadyForQuery => Step::Finished(Ok(Response::Done)),
            _ => Step::Violation,
        },
        _ => Step::Violation,
    }
}

} // verus!
