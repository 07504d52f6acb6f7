//! The block of memory a batch is fetched into, and what one row of it costs.

use odbc_api::buffers::BufferDesc;
use odbc_api::buffers::ColumnarDynBuffer;
use odbc_api::RowSetBuffer;
use vstd::prelude::*;

verus! {

/// `odbc_api::buffers::BufferDesc`, the in-memory layout of one bound column. All its
/// fields are lengths and flags, so the variants are used as they are.
#[verifier::external_type_specification]
pub struct ExBufferDesc(BufferDesc);

/// Longest value, in bytes or characters, a variable-length column buffer is made for.
pub const MAX_VALUE_LEN: usize = 0x3fff_ffff;

/// Largest number of columns a fetch buffer binds: the column buffers are numbered from
/// one in 16 bits.
pub const MAX_COLUMNS: usize = 0xffff;

/// Whether the lengths in `desc` stay within [`MAX_VALUE_LEN`].
pub open spec fn desc_is_bounded(desc: BufferDesc) -> bool {
    match desc {
        BufferDesc::Binary { max_bytes } => max_bytes <= MAX_VALUE_LEN,
        BufferDesc::Text { max_str_len } => max_str_len <= MAX_VALUE_LEN,
        BufferDesc::WText { max_str_len } => max_str_len <= MAX_VALUE_LEN,
        _ => true,
    }
}

/// Bytes one row of a column bound with `desc` takes in a columnar buffer, on a machine
/// whose words have `word_bits` bits: what `odbc_api::buffers::BufferDesc::bytes_per_row`
/// returns for it there.
pub uninterp spec fn desc_bytes_per_row(desc: BufferDesc, word_bits: u32) -> usize;

/// Bytes one row of a column bound with `desc` takes in a columnar buffer on this machine.
pub open spec fn row_bytes(desc: BufferDesc) -> usize {
    desc_bytes_per_row(desc, usize::BITS)
}

/// `BufferDesc::bytes_per_row` adds the size of one element and, where the column has one,
/// of its indicator, which is one word. With lengths up to [`MAX_VALUE_LEN`] that sum fits
/// in `usize`. The result depends on the description and the size of a word alone.
pub assume_specification[ BufferDesc::bytes_per_row ](desc: &BufferDesc) -> (bytes: usize)
    requires
        desc_is_bounded(*desc),
    ensures
        bytes == desc_bytes_per_row(*desc, usize::BITS),
;

/// The buffer all batches of one copy are fetched into. It is allocated once, for a fixed
/// number of rows, and holds one column buffer per bound column.
///
/// Inside is an `odbc_api::buffers::ColumnarDynBuffer`. Its column buffers are of types that
/// are known only when the program runs, so the verifier is told nothing of what is inside:
/// what is known of a buffer is what [`buffer_row_capacity`] and [`buffer_layout`] say.
/// `inner` is what is bound to the cursor.
#[verifier::external_body]
pub struct FetchBuffer {
    pub inner: ColumnarDynBuffer,
}

/// Number of rows `buffer` was allocated for.
pub uninterp spec fn buffer_row_capacity(buffer: FetchBuffer) -> usize;

/// The layouts the columns of `buffer` were allocated with, in column order.
pub uninterp spec fn buffer_layout(buffer: FetchBuffer) -> Seq<BufferDesc>;

/// `ColumnarDynBuffer::from_descs` allocates one column buffer of `capacity` rows for each
/// description, in the order given, numbers them from one in a `u16`, and records
/// `capacity` as the row array size. The `requires` keeps the numbers within a `u16` and
/// every single allocation below `isize::MAX` bytes.
#[verifier::external_body]
pub(crate) fn from_descs(capacity: usize, descs: &Vec<BufferDesc>) -> (buffer: FetchBuffer)
    requires
        descs.len() <= MAX_COLUMNS,
        forall|i: int|
            0 <= i < descs.len() ==> desc_is_bounded(#[trigger] descs[i]) && capacity
                * row_bytes(descs[i]) <= isize::MAX,
    ensures
        buffer_row_capacity(buffer) == capacity,
        buffer_layout(buffer) == descs@,
{
    FetchBuffer { inner: ColumnarDynBuffer::from_descs(capacity, descs.iter().copied()) }
}

/// `RowSetBuffer::row_array_size` of a columnar buffer is the capacity it was made with.
#[verifier::external_body]
pub(crate) fn row_array_size(buffer: &FetchBuffer) -> (rows: usize)
    ensures
        rows == buffer_row_capacity(*buffer),
{
    buffer.inner.row_array_size()
}

/// `ColumnarBuffer::num_cols` counts the column buffers.
#[verifier::external_body]
pub(crate) fn num_cols(buffer: &FetchBuffer) -> (cols: usize)
    ensures
        cols == buffer_layout(*buffer).len(),
{
    buffer.inner.num_cols()
}

impl FetchBuffer {
    /// Number of rows one batch can hold.
    pub fn row_capacity(&self) -> (rows: usize)
        ensures
            rows == buffer_row_capacity(*self),
    {
        row_array_size(self)
    }

    /// Number of columns bound.
    pub fn num_columns(&self) -> (cols: usize)
        ensures
            cols == buffer_layout(*self).len(),
    {
        num_cols(self)
    }
}

} // verus!
