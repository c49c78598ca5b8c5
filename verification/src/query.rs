//! Query execution: the ad-hoc protocol state machine, the pull-based row
//! stream, and the encoders for the three execution entry points.
//!
//! Sending bytes and awaiting replies is the connection layer's business;
//! every function here is pure data-in/data-out. An execution is driven by
//! encoding its request batch, handing the bytes to the connection, and
//! feeding each reply into the matching decision function.

use vstd::prelude::*;
use crate::bind::{
    converts_up_to, encode_bind, encode_bind_with_statement_name_and_param_types, formats_of,
    values_of, BindValue,
};
use crate::error::{Error, ErrorV};
use crate::frontend::{
    bind_frame, bind_writes, describe_statement_frame, describe_statement_writes, execute_frame,
    execute_writes, parse_frame, parse_writes, sync_frame, write_describe_statement,
    write_execute, write_parse, write_sync,
};
use crate::message::{FieldDescription, FieldDescriptionV, Message, MessageV};
use crate::statement::{spec_column, Column, ColumnV, Portal, Statement, StatementV};
use crate::tag::{extract_row_affected, spec_extract_row_affected};
use crate::types::{PgType, PgTypeV};

verus! {

// ------------------------------------------------------------------
// The ad-hoc protocol state machine
// ------------------------------------------------------------------

/// Mathematical value of a [`QueryProcessingState`].
pub ghost enum QueryProcessingStateV {
    Empty,
    ParseCompleted,
    BindCompleted,
    ParameterDescribed,
    Final(Seq<ColumnV>),
}

/// The strictly linear reply sequence of the ad-hoc query path. Each reply
/// either advances the state or is a protocol violation; the terminal state
/// carries the resolved column list.
pub enum QueryProcessingState {
    Empty,
    ParseCompleted,
    BindCompleted,
    ParameterDescribed,
    Final(Vec<Column>),
}

impl View for QueryProcessingState {
    type V = QueryProcessingStateV;

    open spec fn view(&self) -> QueryProcessingStateV {
        match self {
            QueryProcessingState::Empty => QueryProcessingStateV::Empty,
            QueryProcessingState::ParseCompleted => QueryProcessingStateV::ParseCompleted,
            QueryProcessingState::BindCompleted => QueryProcessingStateV::BindCompleted,
            QueryProcessingState::ParameterDescribed => QueryProcessingStateV::ParameterDescribed,
            QueryProcessingState::Final(cols) => QueryProcessingStateV::Final(cols.deep_view()),
        }
    }
}

/// Mathematical value of a [`ProcessOutcome`].
pub ghost enum ProcessOutcomeV {
    Next(QueryProcessingStateV),
    Resolve(Seq<FieldDescriptionV>),
}

/// What one accepted reply asks of the driver: carry on in a new state, or
/// resolve the described fields' types (an awaiting step) and finish with
/// [`QueryProcessingState::form_final`].
pub enum ProcessOutcome {
    Next(QueryProcessingState),
    Resolve(Vec<FieldDescription>),
}

impl View for ProcessOutcome {
    type V = ProcessOutcomeV;

    open spec fn view(&self) -> ProcessOutcomeV {
        match self {
            ProcessOutcome::Next(s) => ProcessOutcomeV::Next(s@),
            ProcessOutcome::Resolve(fields) => ProcessOutcomeV::Resolve(fields.deep_view()),
        }
    }
}

/// The transition table of the ad-hoc state machine: exactly
/// ParseComplete, BindComplete, ParameterDescription, then RowDescription
/// (resolve the fields) or NoData (no columns) is accepted; an error
/// response fails with the server's error, anything else is a protocol
/// violation.
pub open spec fn spec_process_message(s: QueryProcessingStateV, m: MessageV) -> Result<
    ProcessOutcomeV,
    ErrorV,
> {
    match (s, m) {
        (QueryProcessingStateV::Empty, MessageV::ParseComplete) => Ok(
            ProcessOutcomeV::Next(QueryProcessingStateV::ParseCompleted),
        ),
        (QueryProcessingStateV::ParseCompleted, MessageV::BindComplete) => Ok(
            ProcessOutcomeV::Next(QueryProcessingStateV::BindCompleted),
        ),
        (QueryProcessingStateV::BindCompleted, MessageV::ParameterDescription(_)) => Ok(
            ProcessOutcomeV::Next(QueryProcessingStateV::ParameterDescribed),
        ),
        (QueryProcessingStateV::ParameterDescribed, MessageV::RowDescription(fields)) => Ok(
            ProcessOutcomeV::Resolve(fields),
        ),
        (QueryProcessingStateV::ParameterDescribed, MessageV::NoData) => Ok(
            ProcessOutcomeV::Next(QueryProcessingStateV::Final(Seq::empty())),
        ),
        (_, MessageV::ErrorResponse(e)) => Err(ErrorV::Server { error: e }),
        _ => Err(ErrorV::ProtocolViolation),
    }
}

/// The columns resolved from described fields and their types, in field
/// order; a reported id of 0 becomes `None`.
pub open spec fn spec_resolved_columns(fields: Seq<FieldDescriptionV>, tys: Seq<PgTypeV>) -> Seq<
    ColumnV,
> {
    Seq::new(
        fields.len(),
        |i: int| spec_column(fields[i].name, tys[i], fields[i].column_id, fields[i].table_oid),
    )
}

impl QueryProcessingState {
    /// Feed one reply into the state machine.
    pub fn process_message(self, message: Message) -> (r: Result<ProcessOutcome, Error>)
        ensures
            (r matches Ok(o) ==> (spec_process_message(self@, message@) matches Ok(ov) && o@
                == ov)),
            (r matches Err(e) ==> (spec_process_message(self@, message@) matches Err(ev) && e@
                == ev)),
    {
        match (self, message) {
            (QueryProcessingState::Empty, Message::ParseComplete) => Ok(
                ProcessOutcome::Next(QueryProcessingState::ParseCompleted),
            ),
            (QueryProcessingState::ParseCompleted, Message::BindComplete) => Ok(
                ProcessOutcome::Next(QueryProcessingState::BindCompleted),
            ),
            (QueryProcessingState::BindCompleted, Message::ParameterDescription(_)) => Ok(
                ProcessOutcome::Next(QueryProcessingState::ParameterDescribed),
            ),
            (QueryProcessingState::ParameterDescribed, Message::RowDescription(fields)) => Ok(
                ProcessOutcome::Resolve(fields),
            ),
            (QueryProcessingState::ParameterDescribed, Message::NoData) => {
                let cols: Vec<Column> = Vec::new();
                proof {
                    assert(cols.deep_view() =~= Seq::<ColumnV>::empty());
                }
                Ok(ProcessOutcome::Next(QueryProcessingState::Final(cols)))
            },
            (_, Message::ErrorResponse(body)) => Err(Error::Server { error: body }),
            _ => Err(Error::ProtocolViolation),
        }
    }

    /// Build the terminal state from the described fields and their types
    /// as the catalog service resolved them, in field order.
    pub fn form_final(fields: &Vec<FieldDescription>, types: &Vec<PgType>) -> (s:
        QueryProcessingState)
        requires
            fields@.len() == types@.len(),
        ensures
            (s matches QueryProcessingState::Final(cols) && cols.deep_view()
                == spec_resolved_columns(fields.deep_view(), types.deep_view())),
    {
        let mut cols: Vec<Column> = Vec::new();
        let mut i: usize = 0;
        while i < fields.len()
            invariant
                i <= fields.len(),
                fields@.len() == types@.len(),
                cols@.len() == i,
                forall|k: int|
                    0 <= k < i ==> #[trigger] cols@[k]@ == spec_resolved_columns(
                        fields.deep_view(),
                        types.deep_view(),
                    )[k],
            decreases fields.len() - i,
        {
            let f = &fields[i];
            cols.push(Column::new(f.name.clone(), types[i].clone(), f.column_id, f.table_oid));
            i = i + 1;
        }
        proof {
            assert forall|k: int| 0 <= k < cols@.len() implies #[trigger] cols.deep_view()[k]
                == spec_resolved_columns(fields.deep_view(), types.deep_view())[k] by {
                assert(cols.deep_view()[k] == cols@[k]@);
            }
            assert(cols.deep_view() =~= spec_resolved_columns(
                fields.deep_view(),
                types.deep_view(),
            ));
        }
        QueryProcessingState::Final(cols)
    }
}

/// Whether a reply sequence is accepted whole by the state machine: fed
/// from `s`, every reply advances, and the last one reaches the terminal
/// judgment (a resolve step or the final state) with nothing left over.
pub open spec fn spec_run_accepts(s: QueryProcessingStateV, msgs: Seq<MessageV>) -> bool
    decreases msgs.len(),
{
    if msgs.len() == 0 {
        false
    } else {
        match spec_process_message(s, msgs[0]) {
            Ok(o) => match o {
                ProcessOutcomeV::Resolve(_) => msgs.len() == 1,
                ProcessOutcomeV::Next(s2) => if s2 is Final {
                    msgs.len() == 1
                } else {
                    spec_run_accepts(s2, msgs.drop_first())
                },
            },
            Err(_) => false,
        }
    }
}

/// LAW: starting empty, the ad-hoc state machine accepts exactly the reply
/// sequence ParseComplete, BindComplete, ParameterDescription, then either
/// RowDescription or NoData — any other ordering, any extra or missing
/// reply, is rejected.
pub proof fn lemma_adhoc_accepts_exactly(msgs: Seq<MessageV>)
    ensures
        spec_run_accepts(QueryProcessingStateV::Empty, msgs) <==> (msgs.len() == 4
            && msgs[0] is ParseComplete && msgs[1] is BindComplete
            && msgs[2] is ParameterDescription && (msgs[3] is RowDescription
            || msgs[3] is NoData)),
{
    reveal_with_fuel(spec_run_accepts, 5);
    if spec_run_accepts(QueryProcessingStateV::Empty, msgs) {
        let t1 = msgs.drop_first();
        let t2 = t1.drop_first();
        let t3 = t2.drop_first();
        assert(msgs[0] is ParseComplete);
        assert(spec_run_accepts(QueryProcessingStateV::ParseCompleted, t1));
        assert(t1[0] is BindComplete && t1[0] == msgs[1]);
        assert(spec_run_accepts(QueryProcessingStateV::BindCompleted, t2));
        assert(t2[0] is ParameterDescription && t2[0] == msgs[2]);
        assert(spec_run_accepts(QueryProcessingStateV::ParameterDescribed, t3));
        assert(t3[0] == msgs[3]);
        assert(t3.len() == 1);
        assert(msgs.len() == 4);
    }
    if msgs.len() == 4 && msgs[0] is ParseComplete && msgs[1] is BindComplete
        && msgs[2] is ParameterDescription && (msgs[3] is RowDescription || msgs[3] is NoData) {
        let t1 = msgs.drop_first();
        let t2 = t1.drop_first();
        let t3 = t2.drop_first();
        assert(t1[0] == msgs[1] && t2[0] == msgs[2] && t3[0] == msgs[3]);
        assert(t3.len() == 1);
        assert(spec_run_accepts(QueryProcessingStateV::ParameterDescribed, t3));
        assert(spec_run_accepts(QueryProcessingStateV::BindCompleted, t2));
        assert(spec_run_accepts(QueryProcessingStateV::ParseCompleted, t1));
        assert(spec_run_accepts(QueryProcessingStateV::Empty, msgs));
    }
}

// ------------------------------------------------------------------
// The row stream
// ------------------------------------------------------------------

/// Mathematical value of a [`RowStream`].
pub ghost struct RowStreamV {
    pub statement: StatementV,
    pub rows_affected: Option<u64>,
    pub finished: bool,
}

/// What one pull of the stream produced.
pub enum StreamStep {
    /// The raw bytes of one row, to be decoded against the stream's
    /// statement.
    Row(Vec<u8>),
    /// A bookkeeping reply was consumed; pull again.
    Continue,
    /// The sequence ended; no further pulls produce items.
    Finished,
    /// The sequence failed and is terminated; the error is its last item.
    Failed(Error),
}

/// Mathematical value of a [`StreamStep`].
pub ghost enum StreamStepV {
    Row(Seq<u8>),
    Continue,
    Finished,
    Failed(ErrorV),
}

impl View for StreamStep {
    type V = StreamStepV;

    open spec fn view(&self) -> StreamStepV {
        match self {
            StreamStep::Row(body) => StreamStepV::Row(body@),
            StreamStep::Continue => StreamStepV::Continue,
            StreamStep::Finished => StreamStepV::Finished,
            StreamStep::Failed(e) => StreamStepV::Failed(e@),
        }
    }
}

/// What one reply does to a stream: the new stream state and the step the
/// caller sees. Row data is yielded as-is; CommandComplete records the
/// rows-affected count its tag carries; EmptyQueryResponse and
/// PortalSuspended are consumed silently; ReadyForQuery ends the sequence;
/// an error response — or any reply that does not belong in a row stream —
/// terminates it with an error.
pub open spec fn spec_stream_step(s: RowStreamV, m: MessageV) -> (RowStreamV, StreamStepV) {
    match m {
        MessageV::DataRow(body) => (s, StreamStepV::Row(body)),
        MessageV::CommandComplete(tag) => (
            RowStreamV { rows_affected: Some(spec_extract_row_affected(tag)), ..s },
            StreamStepV::Continue,
        ),
        MessageV::EmptyQueryResponse => (s, StreamStepV::Continue),
        MessageV::PortalSuspended => (s, StreamStepV::Continue),
        MessageV::ReadyForQuery => (RowStreamV { finished: true, ..s }, StreamStepV::Finished),
        MessageV::ErrorResponse(e) => (
            RowStreamV { finished: true, ..s },
            StreamStepV::Failed(ErrorV::Server { error: e }),
        ),
        _ => (RowStreamV { finished: true, ..s }, StreamStepV::Failed(ErrorV::ProtocolViolation)),
    }
}

/// A lazy, single-pass stream of table rows: the statement used to
/// interpret them and the rows-affected count reported on completion,
/// which is meaningful only once the stream has ended.
pub struct RowStream {
    statement: Statement,
    rows_affected: Option<u64>,
    finished: bool,
}

impl View for RowStream {
    type V = RowStreamV;

    closed spec fn view(&self) -> RowStreamV {
        RowStreamV {
            statement: self.statement@,
            rows_affected: self.rows_affected,
            finished: self.finished,
        }
    }
}

impl RowStream {
    /// A fresh stream over the replies of one execution, with no
    /// rows-affected count recorded yet.
    pub fn new(statement: Statement) -> (s: RowStream)
        ensures
            s@ == (RowStreamV { statement: statement@, rows_affected: None, finished: false }),
    {
        RowStream { statement, rows_affected: None, finished: false }
    }

    /// Feed the next reply into the stream. May only be called while the
    /// stream is not finished; a failing step finishes it.
    pub fn on_message(&mut self, message: Message) -> (step: StreamStep)
        requires
            !old(self)@.finished,
        ensures
            final(self)@ == spec_stream_step(old(self)@, message@).0,
            step@ == spec_stream_step(old(self)@, message@).1,
    {
        match message {
            Message::DataRow(body) => StreamStep::Row(body),
            Message::CommandComplete(tag) => {
                self.rows_affected = Some(extract_row_affected(tag.as_str()));
                StreamStep::Continue
            },
            Message::EmptyQueryResponse => StreamStep::Continue,
            Message::PortalSuspended => StreamStep::Continue,
            Message::ReadyForQuery => {
                self.finished = true;
                StreamStep::Finished
            },
            Message::ErrorResponse(e) => {
                self.finished = true;
                StreamStep::Failed(Error::Server { error: e })
            },
            _ => {
                self.finished = true;
                StreamStep::Failed(Error::ProtocolViolation)
            },
        }
    }

    /// Returns the number of rows affected by the query, `None` until the
    /// server has reported a completion — reading it before the stream has
    /// ended does not assert completion.
    pub fn rows_affected(&self) -> (r: Option<u64>)
        ensures
            r == self@.rows_affected,
    {
        self.rows_affected
    }

    /// Whether the sequence has ended; an ended stream yields nothing more.
    pub fn is_finished(&self) -> (r: bool)
        ensures
            r == self@.finished,
    {
        self.finished
    }

    /// The statement whose columns decode this stream's rows.
    pub fn statement(&self) -> (r: &Statement)
        ensures
            r@ == self@.statement,
    {
        &self.statement
    }
}

/// A step that terminates the sequence: nothing is produced after it.
pub open spec fn is_terminal_step(step: StreamStepV) -> bool {
    step is Finished || step is Failed
}

/// The step sequence a stream goes through over a reply sequence: each
/// reply is folded through [`spec_stream_step`] until the first terminal
/// step or the end of the replies.
pub open spec fn spec_stream_run(s: RowStreamV, msgs: Seq<MessageV>) -> Seq<StreamStepV>
    decreases msgs.len(),
{
    if msgs.len() == 0 {
        Seq::empty()
    } else {
        let (s2, step) = spec_stream_step(s, msgs[0]);
        if is_terminal_step(step) {
            seq![step]
        } else {
            seq![step] + spec_stream_run(s2, msgs.drop_first())
        }
    }
}

/// LAW: over a reply sequence whose first terminal reply is an error
/// response — every reply before it being row data or bookkeeping — the
/// stream ends with exactly that error as its last item and produces no
/// further items afterwards, whatever replies follow.
pub proof fn lemma_stream_ends_with_server_error(s: RowStreamV, msgs: Seq<MessageV>, i: int)
    requires
        0 <= i < msgs.len(),
        msgs[i] is ErrorResponse,
        forall|j: int|
            0 <= j < i ==> ((#[trigger] msgs[j]) is DataRow || msgs[j] is CommandComplete
                || msgs[j] is EmptyQueryResponse || msgs[j] is PortalSuspended),
    ensures
        spec_stream_run(s, msgs).len() == i + 1,
        (msgs[i] matches MessageV::ErrorResponse(e) ==> spec_stream_run(s, msgs)[i]
            == StreamStepV::Failed(ErrorV::Server { error: e })),
    decreases i,
{
    if i == 0 {
    } else {
        let (s2, step) = spec_stream_step(s, msgs[0]);
        assert(!is_terminal_step(step));
        lemma_stream_ends_with_server_error(s2, msgs.drop_first(), i - 1);
        assert(msgs.drop_first()[i - 1] == msgs[i]);
    }
}

/// LAW: over a reply sequence of row data and bookkeeping closed by
/// ReadyForQuery, the stream yields exactly one row per DataRow reply, in
/// order and with its bytes, consumes every other reply silently, and ends
/// with the closing reply.
pub proof fn lemma_stream_yields_each_data_row(s: RowStreamV, msgs: Seq<MessageV>)
    requires
        msgs.len() > 0,
        msgs.last() is ReadyForQuery,
        forall|j: int|
            0 <= j < msgs.len() - 1 ==> ((#[trigger] msgs[j]) is DataRow
                || msgs[j] is CommandComplete || msgs[j] is EmptyQueryResponse
                || msgs[j] is PortalSuspended),
    ensures
        spec_stream_run(s, msgs).len() == msgs.len(),
        forall|j: int|
            0 <= j < msgs.len() - 1 ==> ((#[trigger] msgs[j]) matches MessageV::DataRow(b)
                ==> spec_stream_run(s, msgs)[j] == StreamStepV::Row(b)),
        forall|j: int|
            0 <= j < msgs.len() - 1 && !((#[trigger] msgs[j]) is DataRow) ==> spec_stream_run(
                s,
                msgs,
            )[j] is Continue,
        spec_stream_run(s, msgs).last() is Finished,
    decreases msgs.len(),
{
    if msgs.len() == 1 {
    } else {
        let (s2, step) = spec_stream_step(s, msgs[0]);
        assert(!is_terminal_step(step));
        let tail = msgs.drop_first();
        lemma_stream_yields_each_data_row(s2, tail);
        assert(forall|k: int| 0 <= k < tail.len() ==> #[trigger] tail[k] == msgs[k + 1]);
        let run0 = spec_stream_run(s, msgs);
        let rest = spec_stream_run(s2, tail);
        assert(run0 == seq![step] + rest);
        assert(run0[0] == step);
        assert(forall|j: int| 1 <= j < run0.len() ==> #[trigger] run0[j] == rest[j - 1]);
        assert(run0.last() == rest.last());
        assert forall|j: int|
            0 <= j < msgs.len() - 1 && msgs[j] is DataRow implies run0[j] == StreamStepV::Row(
            msgs[j]->DataRow_0,
        ) by {
            if j > 0 {
                assert(tail[j - 1] == msgs[j]);
                assert(rest[j - 1] == StreamStepV::Row(msgs[j]->DataRow_0));
            }
        }
        assert forall|j: int|
            0 <= j < msgs.len() - 1 && !(msgs[j] is DataRow) implies run0[j] is Continue by {
            if j > 0 {
                assert(tail[j - 1] == msgs[j]);
                assert(rest[j - 1] is Continue);
            }
        }
    }
}

/// The stream state after a reply run: each reply folded through
/// [`spec_stream_step`] until the first terminal step or the end of the
/// replies.
pub open spec fn spec_stream_final(s: RowStreamV, msgs: Seq<MessageV>) -> RowStreamV
    decreases msgs.len(),
{
    if msgs.len() == 0 {
        s
    } else {
        let (s2, step) = spec_stream_step(s, msgs[0]);
        if is_terminal_step(step) {
            s2
        } else {
            spec_stream_final(s2, msgs.drop_first())
        }
    }
}

/// LAW: a re-fetch cut short by suspension — replies of row data,
/// EmptyQueryResponse and PortalSuspended, none a completion tag, closed
/// by ReadyForQuery — yields exactly one row per DataRow reply, in order,
/// skips the suspension without yielding, ends at the closing reply, and
/// leaves the rows-affected count exactly as it began: for a fresh
/// stream, unset even after exhaustion.
pub proof fn lemma_suspended_run_leaves_count_unset(s: RowStreamV, msgs: Seq<MessageV>)
    requires
        msgs.len() > 0,
        msgs.last() is ReadyForQuery,
        forall|j: int|
            0 <= j < msgs.len() - 1 ==> ((#[trigger] msgs[j]) is DataRow
                || msgs[j] is EmptyQueryResponse || msgs[j] is PortalSuspended),
    ensures
        spec_stream_run(s, msgs).len() == msgs.len(),
        forall|j: int|
            0 <= j < msgs.len() - 1 ==> ((#[trigger] msgs[j]) matches MessageV::DataRow(b)
                ==> spec_stream_run(s, msgs)[j] == StreamStepV::Row(b)),
        forall|j: int|
            0 <= j < msgs.len() - 1 && !((#[trigger] msgs[j]) is DataRow) ==> spec_stream_run(
                s,
                msgs,
            )[j] is Continue,
        spec_stream_run(s, msgs).last() is Finished,
        spec_stream_final(s, msgs).finished,
        spec_stream_final(s, msgs).rows_affected == s.rows_affected,
        spec_stream_final(s, msgs).statement == s.statement,
    decreases msgs.len(),
{
    lemma_stream_yields_each_data_row(s, msgs);
    if msgs.len() == 1 {
    } else {
        let (s2, step) = spec_stream_step(s, msgs[0]);
        assert(!is_terminal_step(step));
        assert(s2.rows_affected == s.rows_affected);
        assert(s2.statement == s.statement);
        let tail = msgs.drop_first();
        assert(forall|k: int| 0 <= k < tail.len() ==> #[trigger] tail[k] == msgs[k + 1]);
        lemma_suspended_run_leaves_count_unset(s2, tail);
    }
}

/// LAW: a pull never changes which statement interprets the stream's rows,
/// and a failing or finishing pull marks the stream finished — after a
/// failure or the end of the sequence no further items are produced (a
/// finished stream accepts no pull).
pub proof fn lemma_stream_step_terminal(s: RowStreamV, m: MessageV)
    ensures
        spec_stream_step(s, m).0.statement == s.statement,
        spec_stream_step(s, m).1 is Failed ==> spec_stream_step(s, m).0.finished,
        spec_stream_step(s, m).1 is Finished ==> spec_stream_step(s, m).0.finished,
        m matches MessageV::ErrorResponse(e) ==> spec_stream_step(s, m).1 == StreamStepV::Failed(
            ErrorV::Server { error: e },
        ),
{
}

/// LAW: one pull changes the recorded rows-affected count only on a
/// CommandComplete reply, and then to exactly the count its tag carries;
/// in particular row data, EmptyQueryResponse and PortalSuspended leave it
/// untouched, so a stream cut short (e.g. by PortalSuspended) ends with
/// the count still unset.
pub proof fn lemma_rows_affected_only_from_command_complete(s: RowStreamV, m: MessageV)
    ensures
        !(m is CommandComplete) ==> spec_stream_step(s, m).0.rows_affected == s.rows_affected,
        m matches MessageV::CommandComplete(tag) ==> spec_stream_step(s, m).0.rows_affected
            == Some(spec_extract_row_affected(tag)),
{
}

// ------------------------------------------------------------------
// Execution entry points
// ------------------------------------------------------------------

/// Check the first reply of a prepared-statement execution: exactly
/// BindComplete is accepted, so a binding failure is surfaced at call
/// time, not at first-row time.
pub fn start(message: Message) -> (r: Result<(), Error>)
    ensures
        message is BindComplete <==> r is Ok,
        (message matches Message::ErrorResponse(e) ==> (r matches Err(err) && err matches
            Error::Server { error } && error@ == e@)),
        (!(message is BindComplete) && !(message is ErrorResponse)) ==> (r matches Err(err)
            && err is ProtocolViolation),
{
    match message {
        Message::BindComplete => Ok(()),
        Message::ErrorResponse(e) => Err(Error::Server { error: e }),
        _ => Err(Error::ProtocolViolation),
    }
}

/// One step of draining an `execute` call's replies, carrying the running
/// rows-affected count: row data is discarded, CommandComplete re-reads
/// the count from its tag, EmptyQueryResponse resets it to 0, and
/// ReadyForQuery ends the call with the final count.
#[derive(PartialEq, Eq, Structural, Clone, Copy, Debug)]
pub enum ExecuteStep {
    Continue(u64),
    Done(u64),
}

/// The transition table of the `execute` drain loop.
pub open spec fn spec_execute_step(rows: u64, m: MessageV) -> Result<ExecuteStep, ErrorV> {
    match m {
        MessageV::DataRow(_) => Ok(ExecuteStep::Continue(rows)),
        MessageV::CommandComplete(tag) => Ok(
            ExecuteStep::Continue(spec_extract_row_affected(tag)),
        ),
        MessageV::EmptyQueryResponse => Ok(ExecuteStep::Continue(0)),
        MessageV::ReadyForQuery => Ok(ExecuteStep::Done(rows)),
        MessageV::ErrorResponse(e) => Err(ErrorV::Server { error: e }),
        _ => Err(ErrorV::ProtocolViolation),
    }
}

/// Feed one reply into the drain loop of an `execute` call.
pub fn execute_step(rows: u64, message: Message) -> (r: Result<ExecuteStep, Error>)
    ensures
        (r matches Ok(s) ==> spec_execute_step(rows, message@) == Ok::<ExecuteStep, ErrorV>(s)),
        (r matches Err(e) ==> (spec_execute_step(rows, message@) matches Err(ev) && e@ == ev)),
{
    match message {
        Message::DataRow(_) => Ok(ExecuteStep::Continue(rows)),
        Message::CommandComplete(tag) => Ok(
            ExecuteStep::Continue(extract_row_affected(tag.as_str())),
        ),
        Message::EmptyQueryResponse => Ok(ExecuteStep::Continue(0)),
        Message::ReadyForQuery => Ok(ExecuteStep::Done(rows)),
        Message::ErrorResponse(e) => Err(Error::Server { error: e }),
        _ => Err(Error::ProtocolViolation),
    }
}

/// Encode the whole prepared-statement execution batch — Bind (unnamed
/// portal) + Execute (no row limit) + Sync. On any failure nothing is
/// written; binder failures are exactly those of
/// [`encode_bind`](crate::bind::encode_bind).
pub fn encode<P: BindValue>(statement: &Statement, params: &Vec<P>, buf: &mut Vec<u8>) -> (r:
    Result<(), Error>)
    ensures
        r is Err ==> final(buf)@ == old(buf)@,
        params@.len() != statement@.params.len() ==> (r matches Err(e) && e matches
            Error::ParameterCountMismatch { expected, actual } && expected
            == statement@.params.len() && actual == params@.len()),
        forall|i: int|
            (0 <= i < params@.len() && params@.len() == statement@.params.len() && converts_up_to(
                params@,
                statement@.params,
                i,
            ) && !((#[trigger] params@[i].conversion_spec(statement@.params[i])) is Ok)) ==> (
            r matches Err(e) && e matches Error::ParameterConversion { index, message } && index
                == i && message@ == params@[i].conversion_spec(statement@.params[i])->Err_0),
        (params@.len() == statement@.params.len() && converts_up_to(
            params@,
            statement@.params,
            params@.len() as int,
        )) ==> (r is Ok <==> bind_writes(
            Seq::<char>::empty(),
            statement@.name,
            formats_of(params@, statement@.params),
            values_of(params@, statement@.params),
        ) && execute_writes(Seq::<char>::empty())),
        (params@.len() == statement@.params.len() && converts_up_to(
            params@,
            statement@.params,
            params@.len() as int,
        )) ==> (r matches Err(e) ==> e is Serialization),
        r is Ok ==> final(buf)@ == old(buf)@ + bind_frame(
            Seq::<char>::empty(),
            statement@.name,
            formats_of(params@, statement@.params),
            values_of(params@, statement@.params),
        ) + execute_frame(Seq::<char>::empty(), 0) + sync_frame(),
{
    proof {
        reveal_strlit("");
        assert(""@ =~= Seq::<char>::empty());
    }
    let mut tmp: Vec<u8> = Vec::new();
    match encode_bind(statement, params, "", &mut tmp) {
        Ok(()) => {},
        Err(e) => {
            return Err(e);
        },
    }
    match write_execute("", 0, &mut tmp) {
        Ok(()) => {},
        Err(m) => {
            return Err(Error::Serialization { message: m });
        },
    }
    write_sync(&mut tmp);
    proof {
        assert(old(buf)@ + tmp@ =~= old(buf)@ + bind_frame(
            Seq::<char>::empty(),
            statement@.name,
            formats_of(params@, statement@.params),
            values_of(params@, statement@.params),
        ) + execute_frame(Seq::<char>::empty(), 0) + sync_frame());
    }
    buf.append(&mut tmp);
    Ok(())
}

/// Encode the whole prepared-statement execution batch (see [`encode`])
/// and hand back the stream that will interpret its replies. The caller
/// sends the bytes, confirms the first reply with [`start`], then pulls
/// rows.
pub fn query<P: BindValue>(statement: Statement, params: &Vec<P>, buf: &mut Vec<u8>) -> (r: Result<
    RowStream,
    Error,
>)
    ensures
        r is Err ==> final(buf)@ == old(buf)@,
        params@.len() != statement@.params.len() ==> (r matches Err(e) && e matches
            Error::ParameterCountMismatch { expected, actual } && expected
            == statement@.params.len() && actual == params@.len()),
        forall|i: int|
            (0 <= i < params@.len() && params@.len() == statement@.params.len() && converts_up_to(
                params@,
                statement@.params,
                i,
            ) && !((#[trigger] params@[i].conversion_spec(statement@.params[i])) is Ok)) ==> (
            r matches Err(e) && e matches Error::ParameterConversion { index, message } && index
                == i && message@ == params@[i].conversion_spec(statement@.params[i])->Err_0),
        (params@.len() == statement@.params.len() && converts_up_to(
            params@,
            statement@.params,
            params@.len() as int,
        )) ==> (r is Ok <==> bind_writes(
            Seq::<char>::empty(),
            statement@.name,
            formats_of(params@, statement@.params),
            values_of(params@, statement@.params),
        ) && execute_writes(Seq::<char>::empty())),
        (params@.len() == statement@.params.len() && converts_up_to(
            params@,
            statement@.params,
            params@.len() as int,
        )) ==> (r matches Err(e) ==> e is Serialization),
        (r matches Ok(s) ==> final(buf)@ == old(buf)@ + bind_frame(
            Seq::<char>::empty(),
            statement@.name,
            formats_of(params@, statement@.params),
            values_of(params@, statement@.params),
        ) + execute_frame(Seq::<char>::empty(), 0) + sync_frame() && s@ == (RowStreamV {
            statement: statement@,
            rows_affected: None,
            finished: false,
        })),
{
    match encode(&statement, params, buf) {
        Ok(()) => Ok(RowStream::new(statement)),
        Err(e) => Err(e),
    }
}

/// The wire identifiers of a declared parameter-type list, in order.
pub open spec fn oids_of(tys: Seq<PgTypeV>) -> Seq<u32> {
    Seq::new(tys.len(), |i: int| tys[i].oid)
}

/// Encode the whole ad-hoc execution batch — Parse (unnamed statement,
/// declared parameter-type identifiers) + Bind (unnamed statement and
/// portal) + Describe (statement) + Execute (no row limit) + Sync — for
/// raw query text and caller-supplied parameters with their declared
/// types, given in parallel, in parameter order. The replies are then fed
/// through [`QueryProcessingState`] to discover the column shape. On any
/// failure nothing is written.
pub fn query_with_param_types<P: BindValue>(
    query_text: &str,
    params: &Vec<P>,
    param_types: &Vec<PgType>,
    buf: &mut Vec<u8>,
) -> (r: Result<(), Error>)
    ensures
        r is Err ==> final(buf)@ == old(buf)@,
        params@.len() != param_types@.len() ==> (r matches Err(e) && e matches
            Error::ParameterCountMismatch { expected, actual } && expected == param_types@.len()
            && actual == params@.len()),
        (params@.len() == param_types@.len() && !parse_writes(
            Seq::<char>::empty(),
            query_text@,
            oids_of(param_types.deep_view()),
        )) ==> (r matches Err(e) && e is Serialization),
        forall|i: int|
            (0 <= i < params@.len() && params@.len() == param_types@.len() && parse_writes(
                Seq::<char>::empty(),
                query_text@,
                oids_of(param_types.deep_view()),
            ) && converts_up_to(
                params@,
                param_types.deep_view(),
                i,
            ) && !((#[trigger] params@[i].conversion_spec(param_types.deep_view()[i])) is Ok)) ==> (
            r matches Err(e) && e matches Error::ParameterConversion { index, message } && index
                == i && message@ == params@[i].conversion_spec(param_types.deep_view()[i])->Err_0),
        (params@.len() == param_types@.len() && converts_up_to(
            params@,
            param_types.deep_view(),
            params@.len() as int,
        )) ==> (r is Ok <==> parse_writes(
            Seq::<char>::empty(),
            query_text@,
            oids_of(param_types.deep_view()),
        ) && bind_writes(
            Seq::<char>::empty(),
            Seq::<char>::empty(),
            formats_of(params@, param_types.deep_view()),
            values_of(params@, param_types.deep_view()),
        ) && describe_statement_writes(Seq::<char>::empty()) && execute_writes(
            Seq::<char>::empty(),
        )),
        (params@.len() == param_types@.len() && converts_up_to(
            params@,
            param_types.deep_view(),
            params@.len() as int,
        )) ==> (r matches Err(e) ==> e is Serialization),
        r is Ok ==> final(buf)@ == old(buf)@ + parse_frame(
            Seq::<char>::empty(),
            query_text@,
            oids_of(param_types.deep_view()),
        ) + bind_frame(
            Seq::<char>::empty(),
            Seq::<char>::empty(),
            formats_of(params@, param_types.deep_view()),
            values_of(params@, param_types.deep_view()),
        ) + describe_statement_frame(Seq::<char>::empty()) + execute_frame(Seq::<char>::empty(), 0)
            + sync_frame(),
{
    proof {
        reveal_strlit("");
        assert(""@ =~= Seq::<char>::empty());
    }
    if params.len() != param_types.len() {
        return Err(
            Error::ParameterCountMismatch { expected: param_types.len(), actual: params.len() },
        );
    }
    let mut oids: Vec<u32> = Vec::new();
    let mut i: usize = 0;
    while i < param_types.len()
        invariant
            i <= param_types@.len(),
            oids@.len() == i,
            forall|k: int| 0 <= k < i ==> oids@[k] == param_types.deep_view()[k].oid,
        decreases param_types@.len() - i,
    {
        oids.push(param_types[i].oid());
        i = i + 1;
    }
    proof {
        assert(oids@ =~= oids_of(param_types.deep_view()));
    }
    let mut tmp: Vec<u8> = Vec::new();
    match write_parse("", query_text, &oids, &mut tmp) {
        Ok(()) => {},
        Err(m) => {
            return Err(Error::Serialization { message: m });
        },
    }
    match encode_bind_with_statement_name_and_param_types("", param_types, params, "", &mut tmp) {
        Ok(()) => {},
        Err(e) => {
            return Err(e);
        },
    }
    match write_describe_statement("", &mut tmp) {
        Ok(()) => {},
        Err(m) => {
            return Err(Error::Serialization { message: m });
        },
    }
    match write_execute("", 0, &mut tmp) {
        Ok(()) => {},
        Err(m) => {
            return Err(Error::Serialization { message: m });
        },
    }
    write_sync(&mut tmp);
    proof {
        assert(old(buf)@ + tmp@ =~= old(buf)@ + parse_frame(
            Seq::<char>::empty(),
            query_text@,
            oids_of(param_types.deep_view()),
        ) + bind_frame(
            Seq::<char>::empty(),
            Seq::<char>::empty(),
            formats_of(params@, param_types.deep_view()),
            values_of(params@, param_types.deep_view()),
        ) + describe_statement_frame(Seq::<char>::empty()) + execute_frame(Seq::<char>::empty(), 0)
            + sync_frame());
    }
    buf.append(&mut tmp);
    Ok(())
}

/// Encode a re-fetch of an already-open portal — Execute with the given
/// maximum row count + Sync — and hand back the stream; no BindComplete is
/// expected, since Bind happened when the portal was created. The portal's
/// originating statement interprets the rows.
pub fn query_portal(portal: &Portal, max_rows: i32, buf: &mut Vec<u8>) -> (r: Result<
    RowStream,
    Error,
>)
    ensures
        (r matches Ok(s) ==> final(buf)@ == old(buf)@ + execute_frame(portal@.name, max_rows)
            + sync_frame() && s@ == (RowStreamV {
            statement: portal@.statement,
            rows_affected: None,
            finished: false,
        })),
        (r matches Err(e) ==> final(buf)@ == old(buf)@ && e is Serialization),
        r is Ok <==> execute_writes(portal@.name),
{
    let mut tmp: Vec<u8> = Vec::new();
    match write_execute(portal.name(), max_rows, &mut tmp) {
        Ok(()) => {},
        Err(m) => {
            return Err(Error::Serialization { message: m });
        },
    }
    write_sync(&mut tmp);
    proof {
        assert(old(buf)@ + tmp@ =~= old(buf)@ + execute_frame(portal@.name, max_rows)
            + sync_frame());
    }
    buf.append(&mut tmp);
    Ok(RowStream::new(portal.statement().clone()))
}

} // verus!
