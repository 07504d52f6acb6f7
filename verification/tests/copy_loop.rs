use odbc2parquet::batch_size_limit::BatchSizeLimit;
use odbc2parquet::copy::{advance, CopyAction, CopyEvent, CopyState, Phase};
use odbc2parquet::error::{
    give_hint_about_flag_for_oracle_users, ConversionFailure, CopyError, FailureKind,
};
use odbc2parquet::parquet_buffer::ParquetBuffer;
use odbc2parquet::source::{ColumnDescriptor, MappingOptions, Nullability, SourceType};
use odbc2parquet::table_strategy::TableStrategy;
use odbc2parquet::values::{EncodedValue, NativeValue};

type Column = Vec<Option<NativeValue>>;

/// What a source answers to one fetch.
enum Fetched {
    Rows(usize),
    Failure(odbc_api::Error),
}

/// A sink that records what it is told.
#[derive(Default)]
struct Sink {
    /// Ordinal of the row group that is open.
    open: Option<usize>,
    /// Values and levels of the columns written to the open row group.
    written: Vec<(usize, usize)>,
    /// Ordinal and number of rows of every row group that was closed.
    row_groups: Vec<(usize, usize)>,
    /// Sizes the sink was told.
    sizes: Vec<i64>,
    /// Columns in the order they were written, over all row groups.
    columns: Vec<usize>,
    closed: bool,
    /// Fails to open the row group with this ordinal.
    fail_to_open: Option<usize>,
}

fn options() -> MappingOptions {
    MappingOptions {
        use_utf16: false,
        prefer_varbinary: false,
        avoid_decimal: false,
        driver_does_support_i64: true,
        column_length_limit: 4096,
        fallback_to_text: false,
    }
}

fn orders() -> TableStrategy {
    let column = |name: &str, source_type, nullability| {
        Ok(ColumnDescriptor { name: name.to_string(), nullability, source_type })
    };
    TableStrategy::new(
        vec![
            column("id", SourceType::BigInt, Nullability::NoNulls),
            column("amount", SourceType::Decimal { precision: 9, scale: 2 }, Nullability::Nullable),
            column("note", SourceType::Text { length: Some(20) }, Nullability::Nullable),
        ],
        options(),
    )
    .unwrap()
}

/// The fetch buffer after a fetch of `rows` rows: the rows of this batch first, then
/// whatever an earlier, longer batch has left behind.
fn fill(buffer: &mut Vec<Column>, batch: usize, rows: usize, bad_amount: Option<usize>) {
    for row in 0..rows {
        let number = (batch * 10_000 + row) as i64;
        buffer[0][row] = Some(NativeValue::I64(number));
        buffer[1][row] = if bad_amount == Some(row) {
            Some(NativeValue::Text(b"12,50".to_vec()))
        } else if row % 5 == 0 {
            None
        } else {
            Some(NativeValue::Text(format!("{}.5", row).into_bytes()))
        };
        buffer[2][row] = Some(NativeValue::Text(format!("row {}", number).into_bytes()));
    }
}

/// Copies a table as the program around the library does: it carries out what the table
/// strategy asks for and tells it what came of it.
fn copy(
    table: &TableStrategy,
    capacity: usize,
    fetches: Vec<Fetched>,
    bad_amount: Option<(usize, usize)>,
    sink: &mut Sink,
) -> Result<CopyState, (CopyState, CopyError)> {
    let mut buffer: Vec<Column> = vec![vec![None; capacity]; table.num_columns()];
    let mut scratch = ParquetBuffer::new(capacity);
    let mut fetches = fetches.into_iter();
    let mut batch = 0;
    let (mut state, mut action) = table.block_cursor_to_parquet(CopyState::new(), CopyEvent::Start);
    loop {
        let event = match action {
            CopyAction::Fetch | CopyAction::ReportSizeAndFetch { .. } => {
                if let CopyAction::ReportSizeAndFetch { bytes } = action {
                    sink.sizes.push(bytes);
                }
                match fetches.next() {
                    None => CopyEvent::EndOfData,
                    Some(Fetched::Failure(error)) => CopyEvent::FetchFailed(error),
                    Some(Fetched::Rows(rows)) => {
                        let bad = match bad_amount {
                            Some((bad_batch, row)) if bad_batch == batch => Some(row),
                            _ => None,
                        };
                        fill(&mut buffer, batch, rows, bad);
                        batch += 1;
                        CopyEvent::Batch { num_rows: rows }
                    }
                }
            }
            CopyAction::OpenRowGroup { ordinal } => {
                assert!(sink.open.is_none());
                if sink.fail_to_open == Some(ordinal) {
                    CopyEvent::WriteFailed { cause: "disk full".to_string() }
                } else {
                    sink.open = Some(ordinal);
                    sink.written.clear();
                    CopyEvent::RowGroupOpened
                }
            }
            CopyAction::WriteColumn { index } => {
                assert_eq!(index, sink.written.len());
                match table.convert_column(&state, &mut scratch, &buffer[index]) {
                    Ok(()) => {
                        assert_eq!(scratch.num_rows_fetched(), state.rows_in_batch);
                        sink.written.push((scratch.values().len(), scratch.def_levels().len()));
                        sink.columns.push(index);
                        CopyEvent::ColumnWritten
                    }
                    Err(error) => CopyEvent::ColumnFailed(error),
                }
            }
            CopyAction::CloseRowGroup => {
                assert_eq!(sink.written.len(), table.num_columns());
                let ordinal = sink.open.take().unwrap();
                sink.row_groups.push((ordinal, state.rows_in_batch));
                CopyEvent::RowGroupClosed { compressed_size: 8 * state.rows_in_batch as i64 }
            }
            CopyAction::CloseOutput => {
                sink.closed = true;
                CopyEvent::OutputClosed
            }
            CopyAction::Finish => return Ok(state),
            CopyAction::Abort(error) => return Err((state, error)),
        };
        assert!(state.can_accept(&event));
        (state, action) = table.block_cursor_to_parquet(state, event);
    }
}

#[test]
fn three_batches_become_three_row_groups() {
    let table = orders();
    let mut sink = Sink::default();
    let fetches = vec![Fetched::Rows(1000), Fetched::Rows(1000), Fetched::Rows(237)];
    let state = copy(&table, 1000, fetches, None, &mut sink).ok().unwrap();

    assert_eq!(sink.row_groups, vec![(0, 1000), (1, 1000), (2, 237)]);
    assert!(sink.closed);
    assert!(sink.open.is_none());
    assert_eq!(sink.sizes, vec![8000, 16000, 17896]);
    assert_eq!(sink.columns, vec![0, 1, 2, 0, 1, 2, 0, 1, 2]);

    assert_eq!(state.phase, Phase::Done);
    assert!(state.is_over());
    assert_eq!(state.batches, 3);
    assert_eq!(state.row_groups, 3);
    assert_eq!(state.rows_fetched, 2237);
    assert_eq!(state.bytes_written, 17896);
}

#[test]
fn the_last_batch_is_written_with_its_own_rows_only() {
    let table = orders();
    let mut sink = Sink::default();
    let fetches = vec![Fetched::Rows(1000), Fetched::Rows(237)];
    copy(&table, 1000, fetches, None, &mut sink).ok().unwrap();
    // The last row group was written from a buffer that still held 763 rows of the batch
    // before: 237 values of the required column, of the nullable ones 237 levels.
    assert_eq!(sink.written, vec![(237, 0), (189, 237), (237, 237)]);
}

#[test]
fn a_source_without_rows_gives_an_output_without_row_groups() {
    let table = orders();
    let mut sink = Sink::default();
    let state = copy(&table, 1000, Vec::new(), None, &mut sink).ok().unwrap();
    assert!(sink.row_groups.is_empty());
    assert!(sink.closed);
    assert_eq!(state.phase, Phase::Done);
    assert_eq!(state.rows_fetched, 0);
}

#[test]
fn a_value_that_cannot_be_encoded_fails_the_copy_with_the_name_of_its_column() {
    let table = orders();
    let mut sink = Sink::default();
    let fetches = vec![Fetched::Rows(1000), Fetched::Rows(1000), Fetched::Rows(237)];
    let (state, error) = copy(&table, 1000, fetches, Some((1, 17)), &mut sink).err().unwrap();

    match &error {
        CopyError::Conversion { column, failure } => {
            assert_eq!(column, "amount");
            assert_eq!(*failure, ConversionFailure { row: 17, kind: FailureKind::InvalidValue });
        }
        other => panic!("conversion error expected, got {:?}", other),
    }
    assert!(error.message().unwrap().contains("amount"));
    assert_eq!(
        error.message().as_deref(),
        Some("Failed to copy column 'amount' from ODBC representation into Parquet.")
    );
    assert_eq!(
        error.cause(),
        Some("Row 17: value that the output cannot represent".to_string())
    );

    assert_eq!(sink.row_groups, vec![(0, 1000)]);
    assert!(!sink.closed);
    assert_eq!(state.phase, Phase::Failed);
    assert!(state.is_over());
    assert_eq!(state.row_groups, 1);
    assert_eq!(state.batches, 2);
    // In the second batch the first column was written, the second failed, the third was
    // never asked for.
    assert_eq!(sink.columns, vec![0, 1, 2, 0]);
}

#[test]
fn a_fetch_that_fails_ends_the_copy() {
    let table = orders();
    let mut sink = Sink::default();
    let failure = odbc_api::Error::NoDiagnostics { function: "SQLFetch" };
    let text = failure.to_string();
    let fetches = vec![Fetched::Rows(10), Fetched::Failure(failure), Fetched::Rows(10)];
    let (state, error) = copy(&table, 10, fetches, None, &mut sink).err().unwrap();
    match &error {
        CopyError::Fetch { hinted, source } => {
            assert!(!hinted);
            assert!(matches!(source, odbc_api::Error::NoDiagnostics { function: "SQLFetch" }));
            assert_eq!(source.to_string(), text);
        }
        other => panic!("fetch error expected, got {:?}", other),
    }
    assert_eq!(error.message(), None);
    assert_eq!(error.cause(), None);
    assert_eq!(sink.row_groups, vec![(0, 10)]);
    assert!(!sink.closed);
    assert_eq!(state.phase, Phase::Failed);
}

#[test]
fn an_output_that_fails_ends_the_copy() {
    let table = orders();
    let mut sink = Sink { fail_to_open: Some(1), ..Sink::default() };
    let fetches = vec![Fetched::Rows(10), Fetched::Rows(10), Fetched::Rows(10)];
    let (state, error) = copy(&table, 10, fetches, None, &mut sink).err().unwrap();
    assert!(matches!(&error, CopyError::Write { cause } if cause == "disk full"));
    assert_eq!(error.message().as_deref(), Some("disk full"));
    assert_eq!(sink.row_groups, vec![(0, 10)]);
    assert!(!sink.closed);
    assert_eq!(state.phase, Phase::Failed);
    assert_eq!(state.batches, 2);
    assert_eq!(state.row_groups, 1);
}

#[test]
fn the_error_of_a_driver_without_big_integers_comes_with_advice() {
    let record = odbc_api::handles::Record::with_capacity(0);
    let oracle = odbc_api::Error::OracleOdbcDriverDoesNotSupport64Bit(record);
    let oracle_text = oracle.to_string();
    let generic = odbc_api::Error::NoDiagnostics { function: "SQLFetch" };
    let generic_text = generic.to_string();

    let hinted = give_hint_about_flag_for_oracle_users(oracle);
    let plain = give_hint_about_flag_for_oracle_users(generic);
    match &hinted {
        CopyError::Fetch { hinted, source } => {
            assert!(hinted);
            assert!(matches!(source, odbc_api::Error::OracleOdbcDriverDoesNotSupport64Bit(_)));
            assert_eq!(source.to_string(), oracle_text);
        }
        other => panic!("fetch error expected, got {:?}", other),
    }
    match &plain {
        CopyError::Fetch { hinted, source } => {
            assert!(!hinted);
            assert!(matches!(source, odbc_api::Error::NoDiagnostics { function: "SQLFetch" }));
            assert_eq!(source.to_string(), generic_text);
        }
        other => panic!("fetch error expected, got {:?}", other),
    }

    let flag = "--driver-does-not-support-64bit-integers";
    assert!(hinted.message().unwrap().contains(flag));
    assert_eq!(
        hinted.message().as_deref(),
        Some(
            "Looks like you are using an Oracle database. Try the \
             `--driver-does-not-support-64bit-integers` flag."
        )
    );
    assert_eq!(plain.message(), None);
    assert!(!generic_text.contains(flag));
    assert_ne!(hinted.message(), plain.message());
    assert_eq!(hinted.cause(), None);
    assert_eq!(plain.cause(), None);
}

#[test]
fn an_error_whose_state_is_no_text_is_told_apart_all_the_same() {
    let mut record = odbc_api::handles::Record::with_capacity(0);
    record.state = odbc_api::handles::State([0xff, 0, 0, 0, 0]);
    let hinted = give_hint_about_flag_for_oracle_users(
        odbc_api::Error::OracleOdbcDriverDoesNotSupport64Bit(record),
    );
    assert!(matches!(hinted, CopyError::Fetch { hinted: true, .. }));
    assert!(hinted.message().is_some());

    let mut record = odbc_api::handles::Record::with_capacity(0);
    record.state = odbc_api::handles::State([0xff, 0, 0, 0, 0]);
    let plain = give_hint_about_flag_for_oracle_users(odbc_api::Error::Diagnostics {
        record,
        function: "SQLFetch",
    });
    assert!(matches!(plain, CopyError::Fetch { hinted: false, .. }));
    assert_eq!(plain.message(), None);
}

#[test]
fn a_fetch_error_of_that_driver_is_rewritten_by_the_copy() {
    let table = orders();
    let mut sink = Sink::default();
    let record = odbc_api::handles::Record::with_capacity(0);
    let oracle = odbc_api::Error::OracleOdbcDriverDoesNotSupport64Bit(record);
    let (_, error) = copy(&table, 10, vec![Fetched::Failure(oracle)], None, &mut sink).err().unwrap();
    assert!(matches!(error, CopyError::Fetch { hinted: true, .. }));
    assert!(sink.row_groups.is_empty());
    assert!(!sink.closed);
}

#[test]
fn events_are_accepted_only_where_they_belong() {
    let idle = CopyState::new();
    assert_eq!(idle.phase, Phase::Idle);
    assert!(!idle.is_over());
    assert!(idle.can_accept(&CopyEvent::Start));
    assert!(!idle.can_accept(&CopyEvent::EndOfData));
    assert!(!idle.can_accept(&CopyEvent::Batch { num_rows: 1 }));

    let (fetching, action) = advance(2, idle, CopyEvent::Start);
    assert!(matches!(action, CopyAction::Fetch));
    assert_eq!(fetching.phase, Phase::Fetching);
    assert!(fetching.can_accept(&CopyEvent::Batch { num_rows: 1 }));
    assert!(fetching.can_accept(&CopyEvent::EndOfData));
    assert!(!fetching.can_accept(&CopyEvent::Start));
    assert!(!fetching.can_accept(&CopyEvent::ColumnWritten));
    assert!(!fetching.can_accept(&CopyEvent::WriteFailed { cause: String::new() }));

    let (ready, action) = advance(2, fetching, CopyEvent::Batch { num_rows: 5 });
    assert!(matches!(action, CopyAction::OpenRowGroup { ordinal: 0 }));
    assert_eq!(ready.phase, Phase::BatchReady);
    assert_eq!(ready.rows_in_batch, 5);
    assert!(!ready.can_accept(&CopyEvent::ColumnWritten));

    let (writing, action) = advance(2, ready, CopyEvent::RowGroupOpened);
    assert!(matches!(action, CopyAction::WriteColumn { index: 0 }));
    assert_eq!(writing.phase, Phase::WritingColumns);
    assert!(!writing.can_accept(&CopyEvent::RowGroupClosed { compressed_size: 1 }));

    let (writing, action) = advance(2, writing, CopyEvent::ColumnWritten);
    assert!(matches!(action, CopyAction::WriteColumn { index: 1 }));
    assert_eq!(writing.phase, Phase::WritingColumns);
    assert_eq!(writing.column, 1);

    let (closing, action) = advance(2, writing, CopyEvent::ColumnWritten);
    assert!(matches!(action, CopyAction::CloseRowGroup));
    assert_eq!(closing.phase, Phase::ClosingRowGroup);
    assert!(!closing.can_accept(&CopyEvent::ColumnWritten));

    let (fetching, action) = advance(2, closing, CopyEvent::RowGroupClosed { compressed_size: 40 });
    assert!(matches!(action, CopyAction::ReportSizeAndFetch { bytes: 40 }));
    assert_eq!(fetching.phase, Phase::Fetching);
    assert_eq!(fetching.row_groups, 1);

    let (ending, action) = advance(2, fetching, CopyEvent::EndOfData);
    assert!(matches!(action, CopyAction::CloseOutput));
    assert_eq!(ending.phase, Phase::ClosingOutput);
    assert!(!ending.can_accept(&CopyEvent::EndOfData));

    let (done, action) = advance(2, ending, CopyEvent::OutputClosed);
    assert!(matches!(action, CopyAction::Finish));
    assert_eq!(done.phase, Phase::Done);
    assert!(!done.can_accept(&CopyEvent::Start));
    assert!(!done.can_accept(&CopyEvent::EndOfData));
    assert!(!done.can_accept(&CopyEvent::OutputClosed));

    let (failed, action) = advance(2, ending, CopyEvent::WriteFailed { cause: "x".to_string() });
    assert!(matches!(action, CopyAction::Abort(CopyError::Write { .. })));
    assert_eq!(failed.phase, Phase::Failed);
    assert!(!failed.can_accept(&CopyEvent::Start));
    assert!(!failed.can_accept(&CopyEvent::WriteFailed { cause: String::new() }));
}

#[test]
fn the_totals_stop_at_the_largest_number() {
    let mut state = CopyState::new();
    state.phase = Phase::Fetching;
    state.rows_fetched = usize::MAX - 1;
    assert!(state.can_accept(&CopyEvent::Batch { num_rows: 5 }));
    let (state, _) = advance(1, state, CopyEvent::Batch { num_rows: 5 });
    assert_eq!(state.rows_fetched, usize::MAX);

    let mut state = CopyState::new();
    state.phase = Phase::ClosingRowGroup;
    state.batches = 1;
    state.bytes_written = i64::MAX - 1;
    let (state, action) = advance(1, state, CopyEvent::RowGroupClosed { compressed_size: 5 });
    assert_eq!(state.bytes_written, i64::MAX);
    assert!(matches!(action, CopyAction::ReportSizeAndFetch { bytes: i64::MAX }));

    let mut state = CopyState::new();
    state.phase = Phase::Fetching;
    state.batches = usize::MAX;
    state.row_groups = usize::MAX;
    assert!(!state.can_accept(&CopyEvent::Batch { num_rows: 5 }));
    assert!(state.can_accept(&CopyEvent::EndOfData));
}

#[test]
fn the_scratch_space_is_sized_for_the_fetch_buffer() {
    let table = orders();
    let buffer = table.allocate_fetch_buffer(BatchSizeLimit::Rows(16)).unwrap();
    let mut scratch = ParquetBuffer::new(buffer.row_capacity());
    assert_eq!(scratch.num_rows_fetched(), 0);
    assert!(scratch.values().is_empty());
    assert!(scratch.def_levels().is_empty());

    let mut state = CopyState::new();
    state.phase = Phase::WritingColumns;
    state.batches = 1;
    state.rows_in_batch = 2;
    state.column = 0;
    let view = vec![Some(NativeValue::I64(4)), Some(NativeValue::I64(5)), None];
    assert!(table.convert_column(&state, &mut scratch, &view).is_ok());
    assert_eq!(scratch.num_rows_fetched(), 2);
    assert!(matches!(scratch.values()[1], EncodedValue::Int64(5)));
}

#[test]
fn counters_that_contradict_the_phase_are_told() {
    let mut state = CopyState::new();
    assert!(state.is_consistent(3));
    state.batches = 1;
    assert!(!state.is_consistent(3));
    state.phase = Phase::WritingColumns;
    state.column = 2;
    assert!(state.is_consistent(3));
    assert!(!state.is_consistent(2));
    state.phase = Phase::Fetching;
    assert!(!state.is_consistent(3));
    state.row_groups = 1;
    assert!(state.is_consistent(3));
    state.phase = Phase::Failed;
    state.row_groups = 2;
    assert!(!state.is_consistent(3));
}
