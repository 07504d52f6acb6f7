//! The course of a copy: what is done next, given what happened last.
//!
//! A copy fetches a batch, opens a row group for it, writes every column in the order of
//! the schema, closes the row group and fetches again. When the source has no more rows
//! the output is closed. Any failure ends the copy at once.

use crate::error::fetch_error;
use crate::error::give_hint_about_flag_for_oracle_users;
use crate::error::CopyError;
use crate::error::CopyErrorView;
use vstd::prelude::*;

verus! {

/// Where a copy stands.
#[derive(Clone, Copy, Debug, PartialEq, Eq, Structural)]
pub enum Phase {
    /// Nothing has been done yet.
    Idle,
    /// The next batch is being fetched.
    Fetching,
    /// A batch has been fetched and its row group is being opened.
    BatchReady,
    /// A column of the batch is being written.
    WritingColumns,
    /// The row group of the batch is being closed.
    ClosingRowGroup,
    /// The source has no more rows and the output is being closed.
    ClosingOutput,
    /// The copy is complete.
    Done,
    /// The copy has failed.
    Failed,
}

/// Where a copy stands, with its counters.
#[derive(Clone, Copy, Debug, PartialEq, Eq, Structural)]
pub struct CopyState {
    pub phase: Phase,
    /// Batches fetched so far.
    pub batches: usize,
    /// Rows of the batch at hand.
    pub rows_in_batch: usize,
    /// Index of the column that is being written.
    pub column: usize,
    /// Row groups closed so far.
    pub row_groups: usize,
    /// Rows fetched so far. Stops counting at the largest number.
    pub rows_fetched: usize,
    /// Compressed size of all row groups closed so far. Stops counting at the largest
    /// number.
    pub bytes_written: i64,
}

/// What happened last.
#[derive(Debug)]
pub enum CopyEvent {
    /// The copy is to begin.
    Start,
    /// The source has filled the fetch buffer with `num_rows` rows.
    Batch { num_rows: usize },
    /// The source has no more rows.
    EndOfData,
    /// The source failed to fetch.
    FetchFailed(odbc_api::Error),
    /// The row group is open.
    RowGroupOpened,
    /// The column has been converted and written, and its writer closed.
    ColumnWritten,
    /// The column could not be converted.
    ColumnFailed(CopyError),
    /// The row group is closed and takes `compressed_size` bytes in the output.
    RowGroupClosed { compressed_size: i64 },
    /// The output is closed.
    OutputClosed,
    /// The output failed to open, to write or to close something.
    WriteFailed { cause: String },
}

/// What is to be done next.
#[derive(Debug)]
pub enum CopyAction {
    /// Fetch the next batch into the fetch buffer.
    Fetch,
    /// Open the row group with this ordinal.
    OpenRowGroup { ordinal: usize },
    /// Open the writer of the next column, convert the column with this index, write it and
    /// close the writer.
    WriteColumn { index: usize },
    /// Close the row group.
    CloseRowGroup,
    /// Tell the output how many bytes all row groups take by now, then fetch the next batch.
    ReportSizeAndFetch { bytes: i64 },
    /// Close the output.
    CloseOutput,
    /// Nothing: the copy is complete.
    Finish,
    /// Nothing: the copy has failed with this error.
    Abort(CopyError),
}

/// A [`CopyAction`] with the texts of its error as sequences.
pub enum CopyActionView {
    Fetch,
    OpenRowGroup { ordinal: usize },
    WriteColumn { index: usize },
    CloseRowGroup,
    ReportSizeAndFetch { bytes: i64 },
    CloseOutput,
    Finish,
    Abort(CopyErrorView),
}

impl View for CopyAction {
    type V = CopyActionView;

    open spec fn view(&self) -> CopyActionView {
        match *self {
            CopyAction::Fetch => CopyActionView::Fetch,
            CopyAction::OpenRowGroup { ordinal } => CopyActionView::OpenRowGroup { ordinal },
            CopyAction::WriteColumn { index } => CopyActionView::WriteColumn { index },
            CopyAction::CloseRowGroup => CopyActionView::CloseRowGroup,
            CopyAction::ReportSizeAndFetch { bytes } => CopyActionView::ReportSizeAndFetch {
                bytes,
            },
            CopyAction::CloseOutput => CopyActionView::CloseOutput,
            CopyAction::Finish => CopyActionView::Finish,
            CopyAction::Abort(error) => CopyActionView::Abort(error@),
        }
    }
}

/// The sum of two counts, or the largest count if the sum is larger.
pub open spec fn add_rows(total: usize, rows: usize) -> usize {
    if total + rows > usize::MAX {
        usize::MAX
    } else {
        (total + rows) as usize
    }
}

/// The sum of two sizes, or the nearest size if the sum is out of range.
pub open spec fn add_bytes(total: i64, bytes: i64) -> i64 {
    if total + bytes > i64::MAX {
        i64::MAX
    } else if total + bytes < i64::MIN {
        i64::MIN
    } else {
        (total + bytes) as i64
    }
}

impl CopyState {
    /// The state of a copy that has not begun.
    pub open spec fn initial() -> CopyState {
        CopyState {
            phase: Phase::Idle,
            batches: 0,
            rows_in_batch: 0,
            column: 0,
            row_groups: 0,
            rows_fetched: 0,
            bytes_written: 0,
        }
    }

    /// Whether the counters agree with the phase, for a table of `columns` columns. Between
    /// two fetches every batch has become a row group. While a batch is written, all
    /// batches but that one have, and the column at hand is one of the table.
    pub open spec fn wf(self, columns: nat) -> bool {
        match self.phase {
            Phase::Idle => self == CopyState::initial(),
            Phase::Fetching | Phase::ClosingOutput | Phase::Done => self.row_groups
                == self.batches,
            Phase::BatchReady | Phase::ClosingRowGroup => self.row_groups + 1 == self.batches,
            Phase::WritingColumns => self.row_groups + 1 == self.batches && self.column
                < columns,
            Phase::Failed => self.row_groups <= self.batches,
        }
    }

    /// Whether `event` can follow in this state.
    pub open spec fn accepts(self, event: CopyEvent) -> bool {
        match (self.phase, event) {
            (Phase::Idle, CopyEvent::Start) => true,
            (Phase::Fetching, CopyEvent::Batch { .. }) => self.batches < usize::MAX,
            (Phase::Fetching, CopyEvent::EndOfData) => true,
            (Phase::Fetching, CopyEvent::FetchFailed(_)) => true,
            (Phase::BatchReady, CopyEvent::RowGroupOpened) => true,
            (Phase::WritingColumns, CopyEvent::ColumnWritten) => true,
            (Phase::WritingColumns, CopyEvent::ColumnFailed(_)) => true,
            (Phase::ClosingRowGroup, CopyEvent::RowGroupClosed { .. }) => true,
            (Phase::ClosingOutput, CopyEvent::OutputClosed) => true,
            (
                Phase::BatchReady
                | Phase::WritingColumns
                | Phase::ClosingRowGroup
                | Phase::ClosingOutput,
                CopyEvent::WriteFailed { .. },
            ) => true,
            _ => false,
        }
    }

    /// The state after `event`, for a table of `columns` columns.
    pub open spec fn after(self, columns: nat, event: CopyEvent) -> CopyState {
        match event {
            CopyEvent::Start => CopyState { phase: Phase::Fetching, ..self },
            CopyEvent::Batch { num_rows } => CopyState {
                phase: Phase::BatchReady,
                batches: (self.batches + 1) as usize,
                rows_in_batch: num_rows,
                rows_fetched: add_rows(self.rows_fetched, num_rows),
                ..self
            },
            CopyEvent::EndOfData => CopyState { phase: Phase::ClosingOutput, ..self },
            CopyEvent::RowGroupOpened => CopyState {
                phase: Phase::WritingColumns,
                column: 0,
                ..self
            },
            CopyEvent::ColumnWritten => if self.column + 1 < columns {
                CopyState { column: (self.column + 1) as usize, ..self }
            } else {
                CopyState { phase: Phase::ClosingRowGroup, ..self }
            },
            CopyEvent::RowGroupClosed { compressed_size } => CopyState {
                phase: Phase::Fetching,
                row_groups: (self.row_groups + 1) as usize,
                bytes_written: add_bytes(self.bytes_written, compressed_size),
                ..self
            },
            CopyEvent::OutputClosed => CopyState { phase: Phase::Done, ..self },
            CopyEvent::FetchFailed(_)
            | CopyEvent::ColumnFailed(_)
            | CopyEvent::WriteFailed { .. } => CopyState { phase: Phase::Failed, ..self },
        }
    }

    /// What is to be done after `event`, for a table of `columns` columns.
    pub open spec fn action_after(self, columns: nat, event: CopyEvent) -> CopyActionView {
        match event {
            CopyEvent::Start => CopyActionView::Fetch,
            CopyEvent::Batch { .. } => CopyActionView::OpenRowGroup { ordinal: self.batches },
            CopyEvent::EndOfData => CopyActionView::CloseOutput,
            CopyEvent::RowGroupOpened => CopyActionView::WriteColumn { index: 0 },
            CopyEvent::ColumnWritten => if self.column + 1 < columns {
                CopyActionView::WriteColumn { index: (self.column + 1) as usize }
            } else {
                CopyActionView::CloseRowGroup
            },
            CopyEvent::RowGroupClosed { compressed_size } => CopyActionView::ReportSizeAndFetch {
                bytes: add_bytes(self.bytes_written, compressed_size),
            },
            CopyEvent::OutputClosed => CopyActionView::Finish,
            CopyEvent::FetchFailed(error) => CopyActionView::Abort(fetch_error(error)),
            CopyEvent::ColumnFailed(error) => CopyActionView::Abort(error@),
            CopyEvent::WriteFailed { cause } => CopyActionView::Abort(
                CopyErrorView::Write { cause: cause@ },
            ),
        }
    }

    /// The state of a copy that has not begun.
    pub fn new() -> (state: CopyState)
        ensures
            state == CopyState::initial(),
    {
        CopyState {
            phase: Phase::Idle,
            batches: 0,
            rows_in_batch: 0,
            column: 0,
            row_groups: 0,
            rows_fetched: 0,
            bytes_written: 0,
        }
    }

    /// Tells whether the counters agree with the phase, for a table of `columns` columns.
    /// Every state that a copy comes to from [`CopyState::new`] does.
    pub fn is_consistent(&self, columns: usize) -> (consistent: bool)
        ensures
            consistent == self.wf(columns as nat),
    {
        match self.phase {
            Phase::Idle => self.batches == 0 && self.rows_in_batch == 0 && self.column == 0
                && self.row_groups == 0 && self.rows_fetched == 0 && self.bytes_written == 0,
            Phase::Fetching | Phase::ClosingOutput | Phase::Done => self.row_groups
                == self.batches,
            Phase::BatchReady | Phase::ClosingRowGroup => self.row_groups < self.batches
                && self.row_groups + 1 == self.batches,
            Phase::WritingColumns => self.row_groups < self.batches && self.row_groups + 1
                == self.batches && self.column < columns,
            Phase::Failed => self.row_groups <= self.batches,
        }
    }

    /// Whether the copy has come to its end, complete or failed.
    pub fn is_over(&self) -> (over: bool)
        ensures
            over == (self.phase is Done || self.phase is Failed),
    {
        match self.phase {
            Phase::Done => true,
            Phase::Failed => true,
            _ => false,
        }
    }

    /// Tells whether `event` can follow in this state.
    pub fn can_accept(&self, event: &CopyEvent) -> (accepted: bool)
        ensures
            accepted == self.accepts(*event),
    {
        match self.phase {
            Phase::Idle => match event {
                CopyEvent::Start => true,
                _ => false,
            },
            Phase::Fetching => match event {
                CopyEvent::Batch { .. } => self.batches < usize::MAX,
                CopyEvent::EndOfData => true,
                CopyEvent::FetchFailed(_) => true,
                _ => false,
            },
            Phase::BatchReady => match event {
                CopyEvent::RowGroupOpened => true,
                CopyEvent::WriteFailed { .. } => true,
                _ => false,
            },
            Phase::WritingColumns => match event {
                CopyEvent::ColumnWritten => true,
                CopyEvent::ColumnFailed(_) => true,
                CopyEvent::WriteFailed { .. } => true,
                _ => false,
            },
            Phase::ClosingRowGroup => match event {
                CopyEvent::RowGroupClosed { .. } => true,
                CopyEvent::WriteFailed { .. } => true,
                _ => false,
            },
            Phase::ClosingOutput => match event {
                CopyEvent::OutputClosed => true,
                CopyEvent::WriteFailed { .. } => true,
                _ => false,
            },
            Phase::Done => false,
            Phase::Failed => false,
        }
    }
}

fn sum_of_bytes(total: i64, bytes: i64) -> (sum: i64)
    ensures
        sum == add_bytes(total, bytes),
{
    match total.checked_add(bytes) {
        Some(sum) => sum,
        None => if bytes > 0 {
            i64::MAX
        } else {
            i64::MIN
        },
    }
}

fn sum_of_rows(total: usize, rows: usize) -> (sum: usize)
    ensures
        sum == add_rows(total, rows),
{
    match total.checked_add(rows) {
        Some(sum) => sum,
        None => usize::MAX,
    }
}

/// Takes a copy of a table of `columns` columns one step further: from the state it is in
/// and what happened last to the state it is in now and what is to be done next.
pub fn advance(columns: usize, state: CopyState, event: CopyEvent) -> (next: (
    CopyState,
    CopyAction,
))
    requires
        columns >= 1,
        state.wf(columns as nat),
        state.accepts(event),
    ensures
        next.0 == state.after(columns as nat, event),
        next.1@ == state.action_after(columns as nat, event),
        next.0.wf(columns as nat),
{
    let mut next = state;
    match event {
        CopyEvent::Start => {
            next.phase = Phase::Fetching;
            (next, CopyAction::Fetch)
        },
        CopyEvent::Batch { num_rows } => {
            next.phase = Phase::BatchReady;
            next.batches = state.batches + 1;
            next.rows_in_batch = num_rows;
            next.rows_fetched = sum_of_rows(state.rows_fetched, num_rows);
            (next, CopyAction::OpenRowGroup { ordinal: state.batches })
        },
        CopyEvent::EndOfData => {
            next.phase = Phase::ClosingOutput;
            (next, CopyAction::CloseOutput)
        },
        CopyEvent::RowGroupOpened => {
            next.phase = Phase::WritingColumns;
            next.column = 0;
            (next, CopyAction::WriteColumn { index: 0 })
        },
        CopyEvent::ColumnWritten => {
            if state.column + 1 < columns {
                next.column = state.column + 1;
                (next, CopyAction::WriteColumn { index: state.column + 1 })
            } else {
                next.phase = Phase::ClosingRowGroup;
                (next, CopyAction::CloseRowGroup)
            }
        },
        CopyEvent::RowGroupClosed { compressed_size } => {
            let bytes = sum_of_bytes(state.bytes_written, compressed_size);
            next.phase = Phase::Fetching;
            next.row_groups = state.row_groups + 1;
            next.bytes_written = bytes;
            (next, CopyAction::ReportSizeAndFetch { bytes })
        },
        CopyEvent::OutputClosed => {
            next.phase = Phase::Done;
            (next, CopyAction::Finish)
        },
        CopyEvent::FetchFailed(error) => {
            next.phase = Phase::Failed;
            (next, CopyAction::Abort(give_hint_about_flag_for_oracle_users(error)))
        },
        CopyEvent::ColumnFailed(error) => {
            next.phase = Phase::Failed;
            (next, CopyAction::Abort(error))
        },
        CopyEvent::WriteFailed { cause } => {
            next.phase = Phase::Failed;
            (next, CopyAction::Abort(CopyError::Write { cause }))
        },
    }
}

/// A copy that is complete or has failed goes no further.
pub proof fn lemma_the_end_is_final(state: CopyState, event: CopyEvent)
    requires
        state.phase is Done || state.phase is Failed,
    ensures
        !state.accepts(event),
{
}

/// A failure ends the copy at once: nothing more is to be done, and no row group is added
/// to those that were closed before.
pub proof fn lemma_failure_ends_the_copy(columns: nat, state: CopyState, event: CopyEvent)
    requires
        state.accepts(event),
        event is FetchFailed || event is ColumnFailed || event is WriteFailed,
    ensures
        state.after(columns, event).phase is Failed,
        state.after(columns, event).row_groups == state.row_groups,
        state.action_after(columns, event) is Abort,
{
}

/// The output is closed only after the source has run out of rows, and by then every batch
/// that was fetched is a closed row group.
pub proof fn lemma_output_closes_after_the_last_batch(
    columns: nat,
    state: CopyState,
    event: CopyEvent,
)
    requires
        state.wf(columns),
        state.accepts(event),
    ensures
        state.action_after(columns, event) is CloseOutput <==> state.phase is Fetching
            && event is EndOfData,
        state.action_after(columns, event) is CloseOutput ==> state.row_groups == state.batches,
        state.after(columns, event).phase is Done ==> state.phase is ClosingOutput
            && state.after(columns, event).row_groups == state.after(columns, event).batches,
{
}

/// The columns of a batch are written one after the other, in the order of the schema, and
/// the row group is closed after the last of them.
pub proof fn lemma_columns_are_written_in_order(columns: nat, state: CopyState, event: CopyEvent)
    requires
        1 <= columns <= usize::MAX,
        state.wf(columns),
        state.accepts(event),
    ensures
        state.action_after(columns, event) matches CopyActionView::WriteColumn { index } ==> {
            &&& index < columns
            &&& index == state.after(columns, event).column
            &&& (if event is RowGroupOpened {
                index == 0
            } else {
                state.phase is WritingColumns && index == state.column + 1
            })
        },
        state.action_after(columns, event) is CloseRowGroup ==> state.phase is WritingColumns
            && state.column + 1 == columns,
{
}

/// How many batches the source handed over in the course of `events`.
pub open spec fn batches_fetched(events: Seq<CopyEvent>) -> nat
    decreases events.len(),
{
    if events.len() == 0 {
        0
    } else if events.last() is Batch {
        batches_fetched(events.drop_last()) + 1
    } else {
        batches_fetched(events.drop_last())
    }
}

/// How many row groups the output closed in the course of `events`.
pub open spec fn row_groups_closed(events: Seq<CopyEvent>) -> nat
    decreases events.len(),
{
    if events.len() == 0 {
        0
    } else if events.last() is RowGroupClosed {
        row_groups_closed(events.drop_last()) + 1
    } else {
        row_groups_closed(events.drop_last())
    }
}

impl CopyState {
    /// The state after all of `events`, one after the other.
    pub open spec fn after_all(self, columns: nat, events: Seq<CopyEvent>) -> CopyState
        decreases events.len(),
    {
        if events.len() == 0 {
            self
        } else {
            self.after_all(columns, events.drop_last()).after(columns, events.last())
        }
    }

    /// Whether every one of `events` can follow on those before it.
    pub open spec fn accepts_all(self, columns: nat, events: Seq<CopyEvent>) -> bool
        decreases events.len(),
    {
        events.len() == 0 || (self.accepts_all(columns, events.drop_last()) && self.after_all(
            columns,
            events.drop_last(),
        ).accepts(events.last()))
    }
}

/// A step leaves the counters in agreement with the phase.
pub proof fn lemma_a_step_keeps_the_state_consistent(
    columns: nat,
    state: CopyState,
    event: CopyEvent,
)
    requires
        1 <= columns <= usize::MAX,
        state.wf(columns),
        state.accepts(event),
    ensures
        state.after(columns, event).wf(columns),
{
}

/// However a copy runs, its state counts the batches that were fetched and the row groups
/// that were closed, and stays consistent. A copy that is complete has closed one row group
/// for every batch it fetched, and a copy that has failed has closed no more than that.
pub proof fn lemma_every_batch_becomes_a_row_group(columns: nat, events: Seq<CopyEvent>)
    requires
        1 <= columns <= usize::MAX,
        CopyState::initial().accepts_all(columns, events),
    ensures
        CopyState::initial().after_all(columns, events).wf(columns),
        CopyState::initial().after_all(columns, events).batches == batches_fetched(events),
        CopyState::initial().after_all(columns, events).row_groups == row_groups_closed(events),
        CopyState::initial().after_all(columns, events).phase is Done ==> row_groups_closed(events)
            == batches_fetched(events),
        row_groups_closed(events) <= batches_fetched(events),
    decreases events.len(),
{
    if events.len() > 0 {
        let before = CopyState::initial().after_all(columns, events.drop_last());
        lemma_every_batch_becomes_a_row_group(columns, events.drop_last());
        lemma_a_step_keeps_the_state_consistent(columns, before, events.last());
    }
}

} // verus!
