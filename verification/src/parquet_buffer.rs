//! Scratch space in which one column of one batch is encoded.

use crate::values::encoded_seq;
use crate::values::Encoded;
use crate::values::EncodedValue;
use vstd::prelude::*;

verus! {

/// Reusable buffers for the encoded values and the definition levels of one column. They
/// are allocated once for a copy and filled anew for every column of every batch.
pub struct ParquetBuffer {
    values: Vec<EncodedValue>,
    def_levels: Vec<i16>,
    num_rows_fetched: usize,
}

impl ParquetBuffer {
    /// Bytes of scratch space that are set aside for every row of a batch: one encoded
    /// value and one definition level.
    pub const MEMORY_USAGE_BYTES_PER_ROW: usize = 34;

    /// The encoded values of the column converted last, NULLs left out.
    pub closed spec fn encoded(&self) -> Seq<Encoded> {
        encoded_seq(self.values@)
    }

    /// The definition levels of the column converted last: one per row for a column that
    /// may hold NULL, none otherwise.
    pub closed spec fn levels(&self) -> Seq<i16> {
        self.def_levels@
    }

    /// Number of rows of the current batch.
    pub closed spec fn rows(&self) -> nat {
        self.num_rows_fetched as nat
    }

    /// Scratch space for batches of up to `batch_size` rows.
    pub fn new(batch_size: usize) -> (buffer: Self)
        ensures
            buffer.encoded() == Seq::<Encoded>::empty(),
            buffer.levels() == Seq::<i16>::empty(),
            buffer.rows() == 0,
    {
        let buffer = ParquetBuffer {
            values: Vec::with_capacity(batch_size),
            def_levels: Vec::with_capacity(batch_size),
            num_rows_fetched: 0,
        };
        assert(buffer.encoded() =~= Seq::<Encoded>::empty());
        buffer
    }

    /// Tells how many rows the batch at hand has. Nothing of an earlier batch stays behind.
    pub fn set_num_rows_fetched(&mut self, num_rows: usize)
        ensures
            final(self).rows() == num_rows,
            final(self).encoded() == Seq::<Encoded>::empty(),
            final(self).levels() == Seq::<i16>::empty(),
    {
        self.num_rows_fetched = num_rows;
        self.values.clear();
        self.def_levels.clear();
        assert(self.encoded() =~= Seq::<Encoded>::empty());
    }

    /// Number of rows of the current batch.
    pub fn num_rows_fetched(&self) -> (num_rows: usize)
        ensures
            num_rows == self.rows(),
    {
        self.num_rows_fetched
    }

    /// The encoded values of the column converted last.
    pub fn values(&self) -> (values: &Vec<EncodedValue>)
        ensures
            encoded_seq(values@) == self.encoded(),
    {
        &self.values
    }

    /// The definition levels of the column converted last.
    pub fn def_levels(&self) -> (levels: &Vec<i16>)
        ensures
            levels@ == self.levels(),
    {
        &self.def_levels
    }

    /// Empties the buffers for the next column.
    pub(crate) fn start_column(&mut self)
        ensures
            final(self).rows() == old(self).rows(),
            final(self).encoded() == Seq::<Encoded>::empty(),
            final(self).levels() == Seq::<i16>::empty(),
    {
        self.values.clear();
        self.def_levels.clear();
        assert(self.encoded() =~= Seq::<Encoded>::empty());
    }

    /// Appends the encoding of one value.
    pub(crate) fn push_value(&mut self, value: EncodedValue)
        ensures
            final(self).rows() == old(self).rows(),
            final(self).encoded() == old(self).encoded().push(value@),
            final(self).levels() == old(self).levels(),
    {
        self.values.push(value);
        assert(self.encoded() =~= old(self).encoded().push(value@));
    }

    /// Appends the definition level of one row.
    pub(crate) fn push_level(&mut self, level: i16)
        ensures
            final(self).rows() == old(self).rows(),
            final(self).encoded() == old(self).encoded(),
            final(self).levels() == old(self).levels().push(level),
    {
        self.def_levels.push(level);
    }
}

} // verus!
