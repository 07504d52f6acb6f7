use odbc2parquet::batch_size_limit::BatchSizeLimit;
use odbc2parquet::column_strategy::StrategyKind;
use odbc2parquet::error::{AllocationError, CopyError, SchemaErrorKind};
use odbc2parquet::parquet_buffer::ParquetBuffer;
use odbc2parquet::source::{ColumnDescriptor, MappingOptions, Nullability, SourceType};
use odbc2parquet::table_strategy::TableStrategy;
use odbc_api::buffers::BufferDesc;
use odbc_api::RowSetBuffer;
use parquet::basic::{ConvertedType, Repetition, Type as PhysicalType};

fn options() -> MappingOptions {
    MappingOptions {
        use_utf16: false,
        prefer_varbinary: false,
        avoid_decimal: false,
        driver_does_support_i64: true,
        column_length_limit: 4096,
        fallback_to_text: false,
    }
}

fn column(name: &str, source_type: SourceType, nullability: Nullability) -> Result<ColumnDescriptor, String> {
    Ok(ColumnDescriptor { name: name.to_string(), nullability, source_type })
}

fn three_columns() -> TableStrategy {
    TableStrategy::new(
        vec![
            column("id", SourceType::BigInt, Nullability::NoNulls),
            column("", SourceType::Text { length: Some(10) }, Nullability::Nullable),
            column("amount", SourceType::Decimal { precision: 10, scale: 2 }, Nullability::Unknown),
        ],
        options(),
    )
    .unwrap()
}

#[test]
fn the_schema_has_one_field_per_column_in_order() {
    let table = three_columns();
    assert_eq!(table.num_columns(), 3);
    let schema = table.parquet_schema();
    assert!(schema.is_group());
    assert_eq!(schema.name(), "schema");
    let fields = schema.get_fields();
    assert_eq!(fields.len(), 3);
    assert_eq!(fields[0].name(), "id");
    assert_eq!(fields[1].name(), "Column2");
    assert_eq!(fields[2].name(), "amount");

    assert_eq!(fields[0].get_physical_type(), PhysicalType::INT64);
    assert_eq!(fields[0].get_basic_info().repetition(), Repetition::REQUIRED);
    assert_eq!(fields[1].get_physical_type(), PhysicalType::BYTE_ARRAY);
    assert_eq!(fields[1].get_basic_info().converted_type(), ConvertedType::UTF8);
    assert_eq!(fields[1].get_basic_info().repetition(), Repetition::OPTIONAL);
    assert_eq!(fields[2].get_physical_type(), PhysicalType::INT64);
    assert_eq!(fields[2].get_basic_info().converted_type(), ConvertedType::DECIMAL);
    assert_eq!(fields[2].get_precision(), 10);
    assert_eq!(fields[2].get_scale(), 2);
    assert_eq!(fields[2].get_basic_info().repetition(), Repetition::OPTIONAL);
}

#[test]
fn the_columns_keep_the_order_of_the_source() {
    let table = three_columns();
    assert_eq!(table.column(0).name, "id");
    assert!(matches!(table.column(0).strategy.kind, StrategyKind::Int64));
    assert!(!table.column(0).strategy.nullable);
    assert_eq!(table.column(1).name, "Column2");
    assert!(matches!(
        table.column(1).strategy.kind,
        StrategyKind::Text { max_str_len: 40, wide: false }
    ));
    assert_eq!(table.column(2).name, "amount");
    assert!(matches!(
        table.column(2).strategy.kind,
        StrategyKind::Decimal { precision: 10, scale: 2 }
    ));
    assert!(table.column(2).strategy.nullable);
}

#[test]
fn columns_without_a_name_are_numbered_from_one() {
    let mut described = Vec::new();
    for _ in 0..12 {
        described.push(column("", SourceType::Integer, Nullability::Nullable));
    }
    let table = TableStrategy::new(described, options()).unwrap();
    let schema = table.parquet_schema();
    let names: Vec<&str> = schema.get_fields().iter().map(|f| f.name()).collect();
    assert_eq!(
        names,
        vec![
            "Column1", "Column2", "Column3", "Column4", "Column5", "Column6", "Column7",
            "Column8", "Column9", "Column10", "Column11", "Column12"
        ]
    );
}

#[test]
fn a_result_set_without_columns_has_no_schema() {
    let error = TableStrategy::new(Vec::new(), options()).err().unwrap();
    assert!(matches!(error, CopyError::Schema { index: 0, kind: SchemaErrorKind::NoColumns }));
    assert_eq!(error.message().as_deref(), Some("Resulting parquet file would not have any columns!"));
}

#[test]
fn a_column_without_a_strategy_fails_the_table() {
    let error = TableStrategy::new(
        vec![
            column("a", SourceType::Integer, Nullability::Nullable),
            column("b", SourceType::Other { display_size: None }, Nullability::Nullable),
            column("c", SourceType::Text { length: Some(0) }, Nullability::Nullable),
        ],
        options(),
    )
    .err()
    .unwrap();
    assert!(matches!(error, CopyError::Schema { index: 2, kind: SchemaErrorKind::UnsupportedType }));
    assert_eq!(error.message().as_deref(), Some("Column 2 is of a type that cannot be copied."));

    let error = TableStrategy::new(
        vec![column("c", SourceType::Text { length: Some(0) }, Nullability::Nullable)],
        options(),
    )
    .err()
    .unwrap();
    assert!(matches!(error, CopyError::Schema { index: 1, kind: SchemaErrorKind::ZeroLength }));
    assert_eq!(error.message().as_deref(), Some("Column 1 has no room for a single value."));
}

#[test]
fn a_column_the_source_cannot_describe_fails_the_table_with_its_index() {
    let error = TableStrategy::new(
        vec![
            column("a", SourceType::Integer, Nullability::Nullable),
            column("b", SourceType::Integer, Nullability::Nullable),
            Err("connection lost".to_string()),
            column("d", SourceType::Other { display_size: None }, Nullability::Nullable),
        ],
        options(),
    )
    .err()
    .unwrap();
    match &error {
        CopyError::Descriptor { index, cause } => {
            assert_eq!(*index, 3);
            assert_eq!(cause, "connection lost");
        }
        other => panic!("descriptor error expected, got {:?}", other),
    }
    assert_eq!(error.message().as_deref(), Some("Failed to describe column 3: connection lost"));
}

#[test]
fn the_first_failure_in_column_order_is_reported() {
    let error = TableStrategy::new(
        vec![
            column("a", SourceType::Other { display_size: None }, Nullability::Nullable),
            Err("connection lost".to_string()),
        ],
        options(),
    )
    .err()
    .unwrap();
    assert!(matches!(error, CopyError::Schema { index: 1, kind: SchemaErrorKind::UnsupportedType }));
}

fn bytes_per_row(table: &TableStrategy) -> usize {
    let mut sum = ParquetBuffer::MEMORY_USAGE_BYTES_PER_ROW;
    for index in 0..table.num_columns() {
        sum += table.column(index).strategy.buffer_desc().bytes_per_row();
    }
    sum
}

#[test]
fn a_row_costs_what_its_columns_and_the_scratch_space_take() {
    let table = three_columns();
    let indicator = std::mem::size_of::<isize>();
    let id = 8;
    let text = 40 + 1 + indicator;
    let amount = 12 + 1 + indicator;
    assert_eq!(ParquetBuffer::MEMORY_USAGE_BYTES_PER_ROW, 34);
    assert_eq!(bytes_per_row(&table), id + text + amount + 34);
}

#[test]
fn a_limit_in_rows_is_the_capacity_of_the_buffer() {
    let table = three_columns();
    for rows in [1, 7, 1000, 65536] {
        let buffer = table.allocate_fetch_buffer(BatchSizeLimit::Rows(rows)).unwrap();
        assert_eq!(buffer.row_capacity(), rows);
        assert_eq!(buffer.inner.row_array_size(), rows);
        assert_eq!(buffer.num_columns(), 3);
        assert_eq!(buffer.inner.num_cols(), 3);
        assert_eq!(buffer.inner.num_rows(), 0);
    }
    let wide = TableStrategy::new(
        vec![column("t", SourceType::Text { length: Some(1000) }, Nullability::Nullable)],
        options(),
    )
    .unwrap();
    let narrow = TableStrategy::new(
        vec![column("b", SourceType::Bit, Nullability::NoNulls)],
        options(),
    )
    .unwrap();
    assert_eq!(wide.allocate_fetch_buffer(BatchSizeLimit::Rows(500)).unwrap().row_capacity(), 500);
    assert_eq!(narrow.allocate_fetch_buffer(BatchSizeLimit::Rows(500)).unwrap().row_capacity(), 500);
}

#[test]
fn a_limit_in_bytes_is_divided_by_the_cost_of_a_row() {
    let table = three_columns();
    let cost = bytes_per_row(&table);
    for ceiling in [cost, cost + 1, 2 * cost - 1, 2 * cost, 1_000_000, 64 * 1024 * 1024] {
        let buffer = table.allocate_fetch_buffer(BatchSizeLimit::Bytes(ceiling)).unwrap();
        let rows = buffer.row_capacity();
        assert_eq!(rows, ceiling / cost);
        assert!(rows >= 1);
        assert!(rows * cost <= ceiling);
        assert!((rows + 1) * cost > ceiling);
    }
    let exact = table.allocate_fetch_buffer(BatchSizeLimit::Bytes(10 * cost)).unwrap();
    assert_eq!(exact.row_capacity(), 10);
}

#[test]
fn a_limit_in_bytes_below_one_row_gives_one_row() {
    let table = three_columns();
    let cost = bytes_per_row(&table);
    for ceiling in [0, 1, cost - 1] {
        let buffer = table.allocate_fetch_buffer(BatchSizeLimit::Bytes(ceiling)).unwrap();
        assert_eq!(buffer.row_capacity(), 1);
    }
}

#[test]
fn the_buffer_has_the_layout_of_the_columns() {
    let table = three_columns();
    assert_eq!(table.column(0).strategy.buffer_desc(), BufferDesc::I64 { nullable: false });
    assert_eq!(table.column(1).strategy.buffer_desc(), BufferDesc::Text { max_str_len: 40 });
    assert_eq!(table.column(2).strategy.buffer_desc(), BufferDesc::Text { max_str_len: 12 });
    let buffer = table.allocate_fetch_buffer(BatchSizeLimit::Rows(4)).unwrap();
    assert!(buffer.inner.column(0).as_slice::<i64>().is_some());
    assert!(buffer.inner.column(1).as_text().is_some());
    assert!(buffer.inner.column(2).as_text().is_some());
    assert!(buffer.inner.column(1).as_slice::<i64>().is_none());
}

#[test]
fn a_batch_that_cannot_be_addressed_is_refused() {
    let table = three_columns();
    let cost = bytes_per_row(&table);
    let error = table.allocate_fetch_buffer(BatchSizeLimit::Rows(usize::MAX)).err().unwrap();
    assert_eq!(error, AllocationError::BatchTooLarge { rows: usize::MAX, bytes_per_row: cost });
    let rows = isize::MAX as usize / cost + 1;
    let error = table.allocate_fetch_buffer(BatchSizeLimit::Rows(rows)).err().unwrap();
    assert_eq!(error, AllocationError::BatchTooLarge { rows, bytes_per_row: cost });
    let error = table.allocate_fetch_buffer(BatchSizeLimit::Bytes(usize::MAX)).err().unwrap();
    assert_eq!(
        error,
        AllocationError::BatchTooLarge { rows: usize::MAX / cost, bytes_per_row: cost }
    );
    assert!(table.allocate_fetch_buffer(BatchSizeLimit::Rows(0)).is_ok());
}

#[test]
fn the_cost_of_a_row_can_be_asked_for() {
    let table = three_columns();
    assert_eq!(table.memory_usage_per_row(), Some(bytes_per_row(&table)));
    assert_eq!(
        table.buffer_descs(),
        vec![
            BufferDesc::I64 { nullable: false },
            BufferDesc::Text { max_str_len: 40 },
            BufferDesc::Text { max_str_len: 12 },
        ]
    );
}

fn bits(columns: usize) -> TableStrategy {
    let described =
        (0..columns).map(|_| column("", SourceType::Bit, Nullability::NoNulls)).collect();
    TableStrategy::new(described, options()).unwrap()
}

#[test]
fn a_buffer_binds_as_many_columns_as_can_be_numbered() {
    let table = bits(65535);
    let buffer = table.allocate_fetch_buffer(BatchSizeLimit::Rows(2)).unwrap();
    assert_eq!(buffer.num_columns(), 65535);
    assert_eq!(buffer.row_capacity(), 2);
}

#[test]
fn a_table_with_more_columns_than_can_be_numbered_gets_no_buffer() {
    let table = bits(65536);
    assert_eq!(table.num_columns(), 65536);
    assert_eq!(table.parquet_schema().get_fields().len(), 65536);
    let error = table.allocate_fetch_buffer(BatchSizeLimit::Rows(2)).err().unwrap();
    assert_eq!(error, AllocationError::TooManyColumns { columns: 65536 });
    let error = table.allocate_fetch_buffer(BatchSizeLimit::Bytes(1)).err().unwrap();
    assert_eq!(error, AllocationError::TooManyColumns { columns: 65536 });
}
