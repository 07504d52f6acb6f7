//! How many rows one batch may hold.

use vstd::prelude::*;

verus! {

/// Limit on the size of one batch, either counted in rows or in bytes of memory.
#[derive(Clone, Copy, Debug)]
pub enum BatchSizeLimit {
    /// Every batch has room for exactly this many rows.
    Rows(usize),
    /// The buffers of one batch should not take more than this many bytes.
    Bytes(usize),
}

impl BatchSizeLimit {
    /// The row capacity the limit stands for if one row takes `bytes_per_row` bytes. A row
    /// count is taken as it is. A memory ceiling admits as many whole rows as fit below it,
    /// and one row if not even one fits.
    pub open spec fn rows_for(self, bytes_per_row: int) -> int {
        match self {
            BatchSizeLimit::Rows(rows) => rows as int,
            BatchSizeLimit::Bytes(ceiling) => if ceiling as int / bytes_per_row >= 1 {
                ceiling as int / bytes_per_row
            } else {
                1
            },
        }
    }

    /// Resolves the limit to a number of rows, given the memory one row takes.
    pub fn batch_size_in_rows(&self, bytes_per_row: usize) -> (rows: usize)
        requires
            *self is Bytes ==> bytes_per_row > 0,
        ensures
            rows == self.rows_for(bytes_per_row as int),
    {
        match self {
            BatchSizeLimit::Rows(rows) => *rows,
            BatchSizeLimit::Bytes(ceiling) => {
                let rows: usize = *ceiling / bytes_per_row;
                if rows >= 1 {
                    rows
                } else {
                    1
                }
            },
        }
    }
}

/// A row count is used verbatim, whatever a row costs.
pub proof fn lemma_row_limit_is_verbatim(rows: usize, bytes_per_row: int)
    ensures
        BatchSizeLimit::Rows(rows).rows_for(bytes_per_row) == rows,
{
}

/// A memory ceiling always admits at least one row. Where one row fits below the ceiling,
/// the whole batch does, and one more row would not.
pub proof fn lemma_memory_limit_is_respected(ceiling: usize, bytes_per_row: int)
    requires
        bytes_per_row > 0,
    ensures
        BatchSizeLimit::Bytes(ceiling).rows_for(bytes_per_row) >= 1,
        bytes_per_row <= ceiling ==> BatchSizeLimit::Bytes(ceiling).rows_for(bytes_per_row)
            * bytes_per_row <= ceiling,
        (BatchSizeLimit::Bytes(ceiling).rows_for(bytes_per_row) + 1) * bytes_per_row > ceiling,
{
    let rows = ceiling as int / bytes_per_row;
    assert(rows * bytes_per_row <= ceiling && (rows + 1) * bytes_per_row > ceiling) by {
        vstd::arithmetic::div_mod::lemma_fundamental_div_mod(ceiling as int, bytes_per_row);
        vstd::arithmetic::div_mod::lemma_mod_bound(ceiling as int, bytes_per_row);
        assert((rows + 1) * bytes_per_row == rows * bytes_per_row + bytes_per_row)
            by (nonlinear_arith);
        assert(bytes_per_row * rows == rows * bytes_per_row) by (nonlinear_arith);
    }
    if rows < 1 {
        assert(rows >= 0) by {
            vstd::arithmetic::div_mod::lemma_div_pos_is_pos(ceiling as int, bytes_per_row);
        }
        assert((1 + 1) * bytes_per_row > ceiling) by (nonlinear_arith)
            requires
                (rows + 1) * bytes_per_row > ceiling,
                rows == 0,
                bytes_per_row > 0,
        ;
    }
}

} // verus!
