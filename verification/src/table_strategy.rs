//! A whole table: one strategy per column, the schema of the output and the fetch buffer.

use crate::batch_size_limit::BatchSizeLimit;
use crate::column_strategy::strategy_for;
use crate::column_strategy::strategy_from_column_description;
use crate::column_strategy::ColumnStrategy;
use crate::convert::EncodedColumn;
use crate::copy::advance;
use crate::copy::CopyAction;
use crate::copy::CopyEvent;
use crate::copy::CopyState;
use crate::error::ConversionFailure;
use crate::parquet_buffer::ParquetBuffer;
use crate::values::NativeValue;
use crate::error::AllocationError;
use crate::error::CopyError;
use crate::error::CopyErrorView;
use crate::error::SchemaErrorKind;
use crate::fetch_buffer::buffer_layout;
use crate::fetch_buffer::buffer_row_capacity;
use crate::fetch_buffer::row_bytes;
use crate::fetch_buffer::desc_is_bounded;
use crate::fetch_buffer::from_descs;
use crate::fetch_buffer::FetchBuffer;
use crate::fetch_buffer::MAX_COLUMNS;
use crate::schema::group_fields;
use crate::schema::group_name;
use crate::schema::group_node;
use crate::schema::primitive_field;
use crate::schema::share;
use crate::schema::FieldModel;
use crate::source::ColumnDescriptor;
use crate::source::MappingOptions;
use crate::text::decimal_chars;
use crate::text::decimal_text;
use odbc_api::buffers::BufferDesc;
use parquet::schema::types::Type;
use std::sync::Arc;
use vstd::pervasive::unreached;
use vstd::prelude::*;

verus! {

/// A column of the table: its name in the output and the way it is copied.
#[derive(Debug)]
pub struct ColumnInfo {
    pub name: String,
    pub strategy: ColumnStrategy,
}

/// A [`ColumnInfo`] with its name as a sequence.
pub struct ColumnModel {
    pub name: Seq<char>,
    pub strategy: ColumnStrategy,
}

impl View for ColumnInfo {
    type V = ColumnModel;

    open spec fn view(&self) -> ColumnModel {
        ColumnModel { name: self.name@, strategy: self.strategy }
    }
}

/// The views of `columns`, element by element.
pub open spec fn column_models(columns: Seq<ColumnInfo>) -> Seq<ColumnModel> {
    Seq::new(columns.len(), |i: int| columns[i]@)
}

/// The name a column gets in the output: the name the source reports, or, where it reports
/// none, `Column` followed by the index of the column, counted from one.
pub open spec fn column_name(reported: Seq<char>, index: nat) -> Seq<char> {
    if reported.len() == 0 {
        "Column"@ + decimal_chars(index)
    } else {
        reported
    }
}

/// The columns of the first `count` descriptions, in their order. The first description
/// that is missing, or has a type without a strategy, fails the table with its index.
pub open spec fn plan_prefix(
    described: Seq<Result<ColumnDescriptor, String>>,
    options: MappingOptions,
    count: nat,
) -> Result<Seq<ColumnModel>, CopyErrorView>
    decreases count,
{
    if count == 0 {
        Ok(Seq::empty())
    } else {
        match plan_prefix(described, options, (count - 1) as nat) {
            Err(error) => Err(error),
            Ok(columns) => match described[count - 1] {
                Err(cause) => Err(
                    CopyErrorView::Descriptor { index: count as usize, cause: cause@ },
                ),
                Ok(descriptor) => match strategy_for(descriptor, options) {
                    Err(kind) => Err(CopyErrorView::Schema { index: count as usize, kind }),
                    Ok(strategy) => Ok(
                        columns.push(
                            ColumnModel { name: column_name(descriptor.name@, count), strategy },
                        ),
                    ),
                },
            },
        }
    }
}

/// The columns of a table with the given descriptions. A table without columns is an error.
pub open spec fn plan(described: Seq<Result<ColumnDescriptor, String>>, options: MappingOptions) -> Result<
    Seq<ColumnModel>,
    CopyErrorView,
> {
    match plan_prefix(described, options, described.len()) {
        Err(error) => Err(error),
        Ok(columns) => if columns.len() == 0 {
            Err(CopyErrorView::Schema { index: 0, kind: SchemaErrorKind::NoColumns })
        } else {
            Ok(columns)
        },
    }
}

/// The fields of the schema for `columns`: one per column, in the same order.
pub open spec fn fields_of(columns: Seq<ColumnModel>) -> Seq<FieldModel> {
    Seq::new(
        columns.len(),
        |i: int| FieldModel { name: columns[i].name, ty: columns[i].strategy.field_type() },
    )
}

/// The layouts of `columns` in the fetch buffer, in the same order.
pub open spec fn layouts_of(columns: Seq<ColumnModel>) -> Seq<BufferDesc> {
    Seq::new(columns.len(), |i: int| columns[i].strategy.layout())
}

/// Bytes the first `count` columns take per row in the fetch buffer.
pub open spec fn fetch_bytes(columns: Seq<ColumnModel>, count: nat) -> int
    decreases count,
{
    if count == 0 {
        0
    } else {
        fetch_bytes(columns, (count - 1) as nat) + row_bytes(
            columns[count - 1].strategy.layout(),
        )
    }
}

/// Bytes one row takes: in the fetch buffer, summed over the columns, and in the scratch
/// space.
pub open spec fn bytes_per_row(columns: Seq<ColumnModel>) -> int {
    fetch_bytes(columns, columns.len()) + ParquetBuffer::MEMORY_USAGE_BYTES_PER_ROW
}

/// The decisions how a table is copied: for every column, in the order of the source, its
/// name and its strategy, and the schema of the output that follows from them.
pub struct TableStrategy {
    columns: Vec<ColumnInfo>,
    parquet_schema: Arc<Type>,
}

impl View for TableStrategy {
    type V = Seq<ColumnModel>;

    closed spec fn view(&self) -> Seq<ColumnModel> {
        column_models(self.columns@)
    }
}

impl TableStrategy {
    /// The root node of the schema.
    pub closed spec fn schema_node(&self) -> Type {
        *self.parquet_schema
    }

    #[verifier::type_invariant]
    spec fn well_formed(&self) -> bool {
        &&& self.columns.len() >= 1
        &&& forall|i: int| 0 <= i < self.columns.len() ==> (#[trigger] self.columns[i]).strategy.wf()
        &&& group_name(*self.parquet_schema) == "schema"@
        &&& group_fields(*self.parquet_schema) == fields_of(column_models(self.columns@))
    }

    /// Decides how to copy a table from the descriptions of its columns, given in the order
    /// of the source. A description the source failed to give holds the reason instead.
    pub fn new(described: Vec<Result<ColumnDescriptor, String>>, options: MappingOptions) -> (table:
        Result<TableStrategy, CopyError>)
        ensures
            match table {
                Ok(strategy) => {
                    &&& plan(described@, options) == Ok::<Seq<ColumnModel>, CopyErrorView>(
                        strategy@,
                    )
                    &&& group_name(strategy.schema_node()) == "schema"@
                    &&& group_fields(strategy.schema_node()) == fields_of(strategy@)
                },
                Err(error) => plan(described@, options) == Err::<
                    Seq<ColumnModel>,
                    CopyErrorView,
                >(error@),
            },
    {
        let mut columns: Vec<ColumnInfo> = Vec::new();
        let mut fields: Vec<Arc<Type>> = Vec::new();
        let mut at: usize = 0;
        assert(column_models(columns@) =~= Seq::<ColumnModel>::empty());
        while at < described.len()
            invariant
                at <= described.len(),
                columns.len() == fields.len(),
                plan_prefix(described@, options, at as nat) == Ok::<
                    Seq<ColumnModel>,
                    CopyErrorView,
                >(column_models(columns@)),
                forall|i: int| 0 <= i < columns.len() ==> (#[trigger] columns[i]).strategy.wf(),
                forall|i: int|
                    0 <= i < fields.len() ==> primitive_field(*#[trigger] fields[i]) == fields_of(
                        column_models(columns@),
                    )[i],
            decreases described.len() - at,
        {
            let index: usize = at + 1;
            match &described[at] {
                Err(cause) => {
                    proof {
                        lemma_failure_stays(described@, options, index as nat, described.len() as nat);
                    }
                    return Err(CopyError::Descriptor { index, cause: cause.clone() });
                },
                Ok(descriptor) => {
                    match strategy_from_column_description(descriptor, &options) {
                        Err(kind) => {
                            proof {
                                lemma_failure_stays(
                                    described@,
                                    options,
                                    index as nat,
                                    described.len() as nat,
                                );
                            }
                            return Err(CopyError::Schema { index, kind });
                        },
                        Ok(strategy) => {
                            let name = if descriptor.name.as_str().is_empty() {
                                String::from_str("Column").concat(decimal_text(index).as_str())
                            } else {
                                descriptor.name.clone()
                            };
                            let field = strategy.parquet_type(name.as_str());
                            let ghost before = column_models(columns@);
                            columns.push(ColumnInfo { name, strategy });
                            fields.push(field);
                            assert(column_models(columns@) =~= before.push(
                                ColumnModel {
                                    name: column_name(descriptor.name@, index as nat),
                                    strategy,
                                },
                            ));
                        },
                    }
                },
            }
            at = index;
        }
        if columns.len() == 0 {
            return Err(CopyError::Schema { index: 0, kind: SchemaErrorKind::NoColumns });
        }
        let ghost expected = fields_of(column_models(columns@));
        assert(Seq::new(fields.len() as nat, |i: int| primitive_field(*fields[i])) =~= expected);
        match group_node("schema", fields) {
            Ok(root) => Ok(TableStrategy { columns, parquet_schema: Arc::new(root) }),
            Err(_) => unreached(),
        }
    }

    /// The schema of the output: a group named `schema` with one field per column, in the
    /// order of the columns.
    pub fn parquet_schema(&self) -> (schema: Arc<Type>)
        ensures
            *schema == self.schema_node(),
            group_name(*schema) == "schema"@,
            group_fields(*schema) == fields_of(self@),
            self@.len() >= 1,
    {
        proof {
            use_type_invariant(self);
        }
        share(&self.parquet_schema)
    }

    /// Number of columns.
    pub fn num_columns(&self) -> (count: usize)
        ensures
            count == self@.len(),
            count >= 1,
    {
        proof {
            use_type_invariant(self);
        }
        self.columns.len()
    }

    /// Name and strategy of the column at `index`, counted from zero.
    pub fn column(&self, index: usize) -> (info: &ColumnInfo)
        requires
            index < self@.len(),
        ensures
            info@ == self@[index as int],
            info.strategy.wf(),
    {
        proof {
            use_type_invariant(self);
        }
        &self.columns[index]
    }

    /// Bytes one row takes in the fetch buffer and in the scratch space together, or `None`
    /// if that is more than a `usize` can count.
    pub fn memory_usage_per_row(&self) -> (cost: Option<usize>)
        ensures
            match cost {
                Some(bytes) => bytes == bytes_per_row(self@),
                None => bytes_per_row(self@) > usize::MAX,
            },
    {
        proof {
            use_type_invariant(self);
        }
        let mut fetched: usize = 0;
        let mut at: usize = 0;
        while at < self.columns.len()
            invariant
                at <= self.columns.len(),
                self@ == column_models(self.columns@),
                forall|i: int|
                    0 <= i < self.columns.len() ==> (#[trigger] self.columns[i]).strategy.wf(),
                fetched == fetch_bytes(self@, at as nat),
            decreases self.columns.len() - at,
        {
            let bytes = self.columns[at].strategy.buffer_desc().bytes_per_row();
            match fetched.checked_add(bytes) {
                None => {
                    proof {
                        lemma_fetch_bytes_grow(self@, (at + 1) as nat, self@.len());
                    }
                    return None;
                },
                Some(sum) => {
                    fetched = sum;
                },
            }
            at = at + 1;
        }
        fetched.checked_add(ParquetBuffer::MEMORY_USAGE_BYTES_PER_ROW)
    }

    /// The layouts of the columns in the fetch buffer, in the order of the columns.
    pub fn buffer_descs(&self) -> (descs: Vec<BufferDesc>)
        ensures
            descs@ == layouts_of(self@),
            forall|i: int| 0 <= i < descs.len() ==> desc_is_bounded(#[trigger] descs[i]),
    {
        proof {
            use_type_invariant(self);
        }
        let mut descs: Vec<BufferDesc> = Vec::new();
        let mut at: usize = 0;
        while at < self.columns.len()
            invariant
                at <= self.columns.len(),
                self@ == column_models(self.columns@),
                forall|i: int|
                    0 <= i < self.columns.len() ==> (#[trigger] self.columns[i]).strategy.wf(),
                descs@ == layouts_of(self@).take(at as int),
                forall|i: int| 0 <= i < descs.len() ==> desc_is_bounded(#[trigger] descs[i]),
            decreases self.columns.len() - at,
        {
            descs.push(self.columns[at].strategy.buffer_desc());
            at = at + 1;
            assert(descs@ =~= layouts_of(self@).take(at as int));
        }
        assert(descs@ =~= layouts_of(self@));
        descs
    }

    /// Allocates the buffer the batches are fetched into. One row costs what the columns
    /// take in the fetch buffer plus what the scratch space sets aside for it. A limit in
    /// rows is the capacity of the buffer; a limit in bytes is divided by the cost of a row,
    /// and gives a capacity of one row where not even one fits. No buffer is allocated for
    /// more columns than a cursor can number, nor if the cost of a row or of a batch cannot
    /// be counted.
    pub fn allocate_fetch_buffer(&self, batch_size: BatchSizeLimit) -> (allocated: Result<
        FetchBuffer,
        AllocationError,
    >)
        ensures
            match allocated {
                Ok(buffer) => {
                    &&& self@.len() <= MAX_COLUMNS
                    &&& bytes_per_row(self@) <= usize::MAX
                    &&& buffer_row_capacity(buffer) == batch_size.rows_for(bytes_per_row(self@))
                    &&& buffer_row_capacity(buffer) * bytes_per_row(self@) <= isize::MAX
                    &&& buffer_layout(buffer) == layouts_of(self@)
                },
                Err(AllocationError::TooManyColumns { columns }) => columns == self@.len()
                    && columns > MAX_COLUMNS,
                Err(AllocationError::RowTooLarge) => self@.len() <= MAX_COLUMNS && bytes_per_row(
                    self@,
                ) > usize::MAX,
                Err(AllocationError::BatchTooLarge { rows, bytes_per_row: cost }) => {
                    &&& self@.len() <= MAX_COLUMNS
                    &&& cost == bytes_per_row(self@)
                    &&& rows == batch_size.rows_for(bytes_per_row(self@))
                    &&& rows * cost > isize::MAX
                },
            },
            allocated matches Ok(buffer) ==> (batch_size matches BatchSizeLimit::Rows(rows)
                ==> buffer_row_capacity(buffer) == rows),
            allocated matches Ok(buffer) ==> (batch_size matches BatchSizeLimit::Bytes(ceiling) ==> {
                &&& buffer_row_capacity(buffer) >= 1
                &&& bytes_per_row(self@) <= ceiling ==> buffer_row_capacity(buffer)
                    * bytes_per_row(self@) <= ceiling
            }),
    {
        let columns = self.num_columns();
        if columns > MAX_COLUMNS {
            return Err(AllocationError::TooManyColumns { columns });
        }
        let cost: usize = match self.memory_usage_per_row() {
            None => {
                return Err(AllocationError::RowTooLarge);
            },
            Some(cost) => cost,
        };
        proof {
            lemma_fetch_bytes_grow(self@, 0, self@.len());
        }
        let rows = batch_size.batch_size_in_rows(cost);
        proof {
            crate::batch_size_limit::lemma_memory_limit_is_respected(
                match batch_size {
                    BatchSizeLimit::Rows(_) => 0,
                    BatchSizeLimit::Bytes(ceiling) => ceiling,
                },
                cost as int,
            );
        }
        let fits = match rows.checked_mul(cost) {
            None => false,
            Some(bytes) => bytes <= isize::MAX as usize,
        };
        if !fits {
            return Err(AllocationError::BatchTooLarge { rows, bytes_per_row: cost });
        }
        let descs = self.buffer_descs();
        proof {
            assert forall|i: int| 0 <= i < descs.len() implies rows * row_bytes(
                #[trigger] descs[i],
            ) <= isize::MAX by {
                lemma_fetch_bytes_grow(self@, (i + 1) as nat, self@.len());
                lemma_fetch_bytes_grow(self@, 0, i as nat);
                let bytes = row_bytes(descs[i]) as int;
                assert(bytes <= cost);
                assert(rows * bytes <= rows * cost) by (nonlinear_arith)
                    requires
                        0 <= bytes <= cost,
                        0 <= rows,
                ;
            }
        }
        Ok(from_descs(rows, &descs))
    }

    /// Takes the copy of this table one step further: `event` is what happened last, the
    /// result is the state the copy is in now and what is to be done next. A copy starts
    /// in the state [`CopyState::new`] with the event [`CopyEvent::Start`]; it is over with
    /// the action [`CopyAction::Finish`] or [`CopyAction::Abort`].
    pub fn block_cursor_to_parquet(&self, state: CopyState, event: CopyEvent) -> (next: (
        CopyState,
        CopyAction,
    ))
        requires
            state.wf(self@.len()),
            state.accepts(event),
        ensures
            next.0 == state.after(self@.len(), event),
            next.1@ == state.action_after(self@.len(), event),
            next.0.wf(self@.len()),
    {
        advance(self.num_columns(), state, event)
    }

    /// Encodes the column that is to be written, from the rows of the batch at hand, into
    /// `scratch`. `view` is the column as the fetch buffer holds it. A value that cannot
    /// be encoded fails the copy with the name of the column.
    pub fn convert_column(
        &self,
        state: &CopyState,
        scratch: &mut ParquetBuffer,
        view: &Vec<Option<NativeValue>>,
    ) -> (done: Result<(), CopyError>)
        requires
            state.wf(self@.len()),
            state.phase is WritingColumns,
        ensures
            final(scratch).rows() == state.rows_in_batch,
            match done {
                Ok(_) => self@[state.column as int].strategy.encode_batch(
                    view@,
                    state.rows_in_batch as nat,
                ) == Ok::<EncodedColumn, ConversionFailure>(
                    EncodedColumn {
                        values: final(scratch).encoded(),
                        def_levels: final(scratch).levels(),
                    },
                ),
                Err(error) => {
                    &&& error@ matches CopyErrorView::Conversion { column, failure }
                    &&& column == self@[state.column as int].name
                    &&& self@[state.column as int].strategy.encode_batch(
                        view@,
                        state.rows_in_batch as nat,
                    ) == Err::<EncodedColumn, ConversionFailure>(failure)
                },
            },
    {
        let info = self.column(state.column);
        scratch.set_num_rows_fetched(state.rows_in_batch);
        match info.strategy.convert(scratch, view) {
            Ok(_) => Ok(()),
            Err(failure) => Err(CopyError::Conversion { column: info.name.clone(), failure }),
        }
    }
}

/// A table has one column for every column of the source, in the same order, under the
/// name the source reports, or under `Column` and its index where the source reports none.
/// It never has no columns at all.
pub proof fn lemma_one_column_per_source_column(
    described: Seq<Result<ColumnDescriptor, String>>,
    options: MappingOptions,
)
    ensures
        plan(described, options) matches Ok(columns) ==> {
            &&& columns.len() == described.len()
            &&& columns.len() >= 1
            &&& fields_of(columns).len() == described.len()
            &&& forall|i: int|
                0 <= i < described.len() ==> ({
                    &&& (#[trigger] described[i]) matches Ok(descriptor)
                    &&& columns[i].name == column_name(descriptor.name@, (i + 1) as nat)
                    &&& fields_of(columns)[i].name == columns[i].name
                    &&& strategy_for(descriptor, options) == Ok::<
                        ColumnStrategy,
                        SchemaErrorKind,
                    >(columns[i].strategy)
                })
        },
{
    lemma_prefix_follows_source(described, options, described.len());
}

proof fn lemma_prefix_follows_source(
    described: Seq<Result<ColumnDescriptor, String>>,
    options: MappingOptions,
    count: nat,
)
    requires
        count <= described.len(),
    ensures
        plan_prefix(described, options, count) matches Ok(columns) ==> {
            &&& columns.len() == count
            &&& forall|i: int|
                0 <= i < count ==> ({
                    &&& (#[trigger] described[i]) matches Ok(descriptor)
                    &&& columns[i].name == column_name(descriptor.name@, (i + 1) as nat)
                    &&& strategy_for(descriptor, options) == Ok::<
                        ColumnStrategy,
                        SchemaErrorKind,
                    >(columns[i].strategy)
                })
        },
    decreases count,
{
    if count > 0 {
        lemma_prefix_follows_source(described, options, (count - 1) as nat);
    }
}

/// A result set without columns has no table strategy.
pub proof fn lemma_no_columns_no_schema(options: MappingOptions)
    ensures
        plan(Seq::empty(), options) == Err::<Seq<ColumnModel>, CopyErrorView>(
            CopyErrorView::Schema { index: 0, kind: SchemaErrorKind::NoColumns },
        ),
{
}

/// Once a description has failed, those behind it change nothing.
pub proof fn lemma_failure_stays(
    described: Seq<Result<ColumnDescriptor, String>>,
    options: MappingOptions,
    failed: nat,
    count: nat,
)
    requires
        failed <= count,
        plan_prefix(described, options, failed) is Err,
    ensures
        plan_prefix(described, options, count) == plan_prefix(described, options, failed),
    decreases count,
{
    if failed < count {
        lemma_failure_stays(described, options, failed, (count - 1) as nat);
    }
}

/// More columns take no fewer bytes.
pub proof fn lemma_fetch_bytes_grow(columns: Seq<ColumnModel>, fewer: nat, more: nat)
    requires
        fewer <= more,
    ensures
        0 <= fetch_bytes(columns, fewer) <= fetch_bytes(columns, more),
    decreases more,
{
    if fewer < more {
        lemma_fetch_bytes_grow(columns, fewer, (more - 1) as nat);
    } else if fewer > 0 {
        lemma_fetch_bytes_grow(columns, (fewer - 1) as nat, (fewer - 1) as nat);
    }
}

} // verus!
