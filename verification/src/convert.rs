//! Encoding one batch of one column.

use crate::column_strategy::ColumnStrategy;
use crate::column_strategy::IntWidth;
use crate::column_strategy::StrategyKind;
use crate::column_strategy::INT64_DIGITS;
use crate::decimal::be_bytes;
use crate::decimal::decimal_bytes;
use crate::decimal::lemma_pow10_is_monotonic;
use crate::decimal::lemma_pow10_of_9_and_18;
use crate::decimal::lemma_scaled_decimal_is_bounded;
use crate::decimal::parse_decimal;
use crate::decimal::scaled_decimal;
use crate::error::ConversionFailure;
use crate::error::FailureKind;
use crate::parquet_buffer::ParquetBuffer;
use crate::text::copy_bytes;
use crate::text::decode_utf16;
use crate::text::utf16_text;
use crate::values::days_from_civil;
use crate::values::day_seconds;
use crate::values::epoch_days;
use crate::values::epoch_time;
use crate::values::is_calendar_day;
use crate::values::is_clock_time;
use crate::values::is_timestamp;
use crate::values::is_valid_date;
use crate::values::is_valid_time;
use crate::values::is_valid_timestamp;
use crate::values::time_in_unit;
use crate::values::timestamp_in_unit;
use crate::values::Encoded;
use crate::values::EncodedValue;
use crate::values::NativeValue;
use crate::values::TimeUnit;
use vstd::prelude::*;
use vstd::utf8::encode_utf8;

verus! {

/// One column of one batch in the encoding of the output.
pub struct EncodedColumn {
    /// The values of the rows that are not NULL, in row order.
    pub values: Seq<Encoded>,
    /// For a column that may hold NULL, one level per row: 1 for a value, 0 for NULL. Empty
    /// for a column that holds no NULL.
    pub def_levels: Seq<i16>,
}

/// Whether `number` is one of the integers of the given width.
pub open spec fn fits_width(width: IntWidth, number: i32) -> bool {
    match width {
        IntWidth::Int8 => -128 <= number <= 127,
        IntWidth::UInt8 => 0 <= number <= 255,
        IntWidth::Int16 => -32768 <= number <= 32767,
        IntWidth::Int32 => true,
    }
}

impl ColumnStrategy {
    /// The encoding of one value. A value of another kind than the strategy fetches is a
    /// mismatch.
    pub open spec fn encode(self, value: NativeValue) -> Result<Encoded, FailureKind> {
        match (self.kind, value) {
            (StrategyKind::Boolean, NativeValue::Bit(bit)) => Ok(Encoded::Boolean(bit)),
            (StrategyKind::Int32 { width }, NativeValue::I32(number)) => if fits_width(
                width,
                number,
            ) {
                Ok(Encoded::Int32(number))
            } else {
                Err(FailureKind::Overflow)
            },
            (StrategyKind::Int64, NativeValue::I64(number)) => Ok(Encoded::Int64(number)),
            (StrategyKind::Int64FromText, NativeValue::Text(text)) => match scaled_decimal(
                text@,
                INT64_DIGITS as nat,
                0,
            ) {
                Ok(number) => if i64::MIN <= number <= i64::MAX {
                    Ok(Encoded::Int64(number as i64))
                } else {
                    Err(FailureKind::Overflow)
                },
                Err(kind) => Err(kind),
            },
            (StrategyKind::Float32, NativeValue::F32(bits)) => Ok(Encoded::Float(bits)),
            (StrategyKind::Float64, NativeValue::F64(bits)) => Ok(Encoded::Double(bits)),
            (StrategyKind::Decimal { precision, scale }, NativeValue::Text(text)) => match scaled_decimal(
                text@,
                precision as nat,
                scale as nat,
            ) {
                Ok(number) => if precision <= 9 {
                    Ok(Encoded::Int32(number as i32))
                } else if precision <= 18 {
                    Ok(Encoded::Int64(number as i64))
                } else {
                    Ok(Encoded::ByteArray(be_bytes(number)))
                },
                Err(kind) => Err(kind),
            },
            (StrategyKind::Date, NativeValue::Date(date)) => if is_calendar_day(
                date.year as int,
                date.month as int,
                date.day as int,
            ) {
                Ok(
                    Encoded::Int32(
                        days_from_civil(date.year as int, date.month as int, date.day as int) as i32,
                    ),
                )
            } else {
                Err(FailureKind::InvalidValue)
            },
            (StrategyKind::Time { unit }, NativeValue::Time(time)) => if is_clock_time(
                time.hour as int,
                time.minute as int,
                time.second as int,
            ) {
                match unit {
                    TimeUnit::Millis => Ok(Encoded::Int32(time_in_unit(time, unit) as i32)),
                    TimeUnit::Micros => Ok(Encoded::Int64(time_in_unit(time, unit) as i64)),
                }
            } else {
                Err(FailureKind::InvalidValue)
            },
            (StrategyKind::Timestamp { unit }, NativeValue::Timestamp(ts)) => if is_timestamp(ts) {
                Ok(Encoded::Int64(timestamp_in_unit(ts, unit) as i64))
            } else {
                Err(FailureKind::InvalidValue)
            },
            (StrategyKind::Text { wide: false, .. }, NativeValue::Text(text)) => Ok(
                Encoded::ByteArray(text@),
            ),
            (StrategyKind::Text { wide: true, .. }, NativeValue::WText(units)) => match utf16_text(
                units@,
            ) {
                Some(chars) => Ok(Encoded::ByteArray(encode_utf8(chars))),
                None => Err(FailureKind::InvalidValue),
            },
            (StrategyKind::Binary { max_bytes, fixed }, NativeValue::Binary(bytes)) => if fixed
                && bytes@.len() != max_bytes {
                Err(FailureKind::InvalidValue)
            } else {
                Ok(Encoded::ByteArray(bytes@))
            },
            _ => Err(FailureKind::TypeMismatch),
        }
    }

    /// The first `count` rows of `rows`, encoded. The first row that cannot be encoded
    /// fails the column: NULL where the column holds none, or a value without an encoding.
    pub open spec fn encode_prefix(self, rows: Seq<Option<NativeValue>>, count: nat) -> Result<
        EncodedColumn,
        ConversionFailure,
    >
        decreases count,
    {
        if count == 0 {
            Ok(EncodedColumn { values: Seq::empty(), def_levels: Seq::empty() })
        } else {
            let row = (count - 1) as nat;
            match self.encode_prefix(rows, row) {
                Err(failure) => Err(failure),
                Ok(column) => match rows[row as int] {
                    None => if self.nullable {
                        Ok(
                            EncodedColumn {
                                values: column.values,
                                def_levels: column.def_levels.push(0),
                            },
                        )
                    } else {
                        Err(
                            ConversionFailure {
                                row: row as usize,
                                kind: FailureKind::UnexpectedNull,
                            },
                        )
                    },
                    Some(value) => match self.encode(value) {
                        Ok(encoded) => Ok(
                            EncodedColumn {
                                values: column.values.push(encoded),
                                def_levels: if self.nullable {
                                    column.def_levels.push(1)
                                } else {
                                    column.def_levels
                                },
                            },
                        ),
                        Err(kind) => Err(ConversionFailure { row: row as usize, kind }),
                    },
                },
            }
        }
    }

    /// One batch of `count` rows, encoded. Only the first `count` rows of `rows` are read,
    /// whatever else the buffer behind them holds. A batch with fewer rows than that fails.
    pub open spec fn encode_batch(self, rows: Seq<Option<NativeValue>>, count: nat) -> Result<
        EncodedColumn,
        ConversionFailure,
    > {
        if rows.len() < count {
            Err(ConversionFailure { row: rows.len() as usize, kind: FailureKind::MissingRows })
        } else {
            self.encode_prefix(rows, count)
        }
    }

    /// Encodes one value.
    pub fn encode_value(&self, value: &NativeValue) -> (encoded: Result<EncodedValue, FailureKind>)
        requires
            self.wf(),
        ensures
            match encoded {
                Ok(stored) => self.encode(*value) == Ok::<Encoded, FailureKind>(stored@),
                Err(kind) => self.encode(*value) == Err::<Encoded, FailureKind>(kind),
            },
    {
        match (self.kind, value) {
            (StrategyKind::Boolean, NativeValue::Bit(bit)) => Ok(EncodedValue::Boolean(*bit)),
            (StrategyKind::Int32 { width }, NativeValue::I32(number)) => {
                let fits = match width {
                    IntWidth::Int8 => -128 <= *number && *number <= 127,
                    IntWidth::UInt8 => 0 <= *number && *number <= 255,
                    IntWidth::Int16 => -32768 <= *number && *number <= 32767,
                    IntWidth::Int32 => true,
                };
                if fits {
                    Ok(EncodedValue::Int32(*number))
                } else {
                    Err(FailureKind::Overflow)
                }
            },
            (StrategyKind::Int64, NativeValue::I64(number)) => Ok(EncodedValue::Int64(*number)),
            (StrategyKind::Int64FromText, NativeValue::Text(text)) => {
                match parse_decimal(text, INT64_DIGITS, 0) {
                    Ok(number) => {
                        if number < i64::MIN as i128 || number > i64::MAX as i128 {
                            Err(FailureKind::Overflow)
                        } else {
                            Ok(EncodedValue::Int64(number as i64))
                        }
                    },
                    Err(kind) => Err(kind),
                }
            },
            (StrategyKind::Float32, NativeValue::F32(bits)) => Ok(EncodedValue::Float(*bits)),
            (StrategyKind::Float64, NativeValue::F64(bits)) => Ok(EncodedValue::Double(*bits)),
            (StrategyKind::Decimal { precision, scale }, NativeValue::Text(text)) => {
                match parse_decimal(text, precision, scale) {
                    Ok(number) => {
                        proof {
                            lemma_scaled_decimal_is_bounded(
                                text@,
                                precision as nat,
                                scale as nat,
                            );
                            lemma_pow10_of_9_and_18();
                            if precision <= 9 {
                                lemma_pow10_is_monotonic(precision as nat, 9);
                            } else if precision <= 18 {
                                lemma_pow10_is_monotonic(precision as nat, 18);
                            }
                        }
                        if precision <= 9 {
                            Ok(EncodedValue::Int32(number as i32))
                        } else if precision <= 18 {
                            Ok(EncodedValue::Int64(number as i64))
                        } else {
                            Ok(EncodedValue::ByteArray(decimal_bytes(number)))
                        }
                    },
                    Err(kind) => Err(kind),
                }
            },
            (StrategyKind::Date, NativeValue::Date(date)) => {
                if is_valid_date(date.year, date.month, date.day) {
                    Ok(EncodedValue::Int32(epoch_days(date.year, date.month, date.day)))
                } else {
                    Err(FailureKind::InvalidValue)
                }
            },
            (StrategyKind::Time { unit }, NativeValue::Time(time)) => {
                if is_valid_time(time.hour, time.minute, time.second) {
                    let seconds = day_seconds(time.hour, time.minute, time.second);
                    match unit {
                        TimeUnit::Millis => Ok(EncodedValue::Int32((seconds * 1_000) as i32)),
                        TimeUnit::Micros => Ok(EncodedValue::Int64(seconds * 1_000_000)),
                    }
                } else {
                    Err(FailureKind::InvalidValue)
                }
            },
            (StrategyKind::Timestamp { unit }, NativeValue::Timestamp(ts)) => {
                if is_valid_timestamp(ts) {
                    Ok(EncodedValue::Int64(epoch_time(ts, unit)))
                } else {
                    Err(FailureKind::InvalidValue)
                }
            },
            (StrategyKind::Text { wide: false, .. }, NativeValue::Text(text)) => Ok(
                EncodedValue::ByteArray(copy_bytes(text)),
            ),
            (StrategyKind::Text { wide: true, .. }, NativeValue::WText(units)) => {
                match decode_utf16(units) {
                    Some(decoded) => Ok(EncodedValue::ByteArray(decoded.as_str().as_bytes_vec())),
                    None => Err(FailureKind::InvalidValue),
                }
            },
            (StrategyKind::Binary { max_bytes, fixed }, NativeValue::Binary(bytes)) => {
                if fixed && bytes.len() != max_bytes {
                    Err(FailureKind::InvalidValue)
                } else {
                    Ok(EncodedValue::ByteArray(copy_bytes(bytes)))
                }
            },
            _ => Err(FailureKind::TypeMismatch),
        }
    }

    /// Encodes the rows of the current batch into `scratch`. `view` is the column as the
    /// fetch buffer holds it; of its rows only as many are read as the batch has.
    pub fn convert(&self, scratch: &mut ParquetBuffer, view: &Vec<Option<NativeValue>>) -> (done:
        Result<(), ConversionFailure>)
        requires
            self.wf(),
        ensures
            final(scratch).rows() == old(scratch).rows(),
            match done {
                Ok(_) => self.encode_batch(view@, old(scratch).rows()) == Ok::<
                    EncodedColumn,
                    ConversionFailure,
                >(
                    EncodedColumn {
                        values: final(scratch).encoded(),
                        def_levels: final(scratch).levels(),
                    },
                ),
                Err(failure) => self.encode_batch(view@, old(scratch).rows()) == Err::<
                    EncodedColumn,
                    ConversionFailure,
                >(failure),
            },
    {
        let count = scratch.num_rows_fetched();
        scratch.start_column();
        if view.len() < count {
            return Err(ConversionFailure { row: view.len(), kind: FailureKind::MissingRows });
        }
        let mut row: usize = 0;
        while row < count
            invariant
                self.wf(),
                row <= count <= view.len(),
                scratch.rows() == count,
                count == old(scratch).rows(),
                self.encode_prefix(view@, row as nat) == Ok::<EncodedColumn, ConversionFailure>(
                    EncodedColumn { values: scratch.encoded(), def_levels: scratch.levels() },
                ),
            decreases count - row,
        {
            match &view[row] {
                None => {
                    if self.nullable {
                        scratch.push_level(0);
                    } else {
                        proof {
                            self.lemma_failure_stays(view@, (row + 1) as nat, count as nat);
                        }
                        return Err(
                            ConversionFailure { row, kind: FailureKind::UnexpectedNull },
                        );
                    }
                },
                Some(value) => {
                    match self.encode_value(value) {
                        Ok(encoded) => {
                            scratch.push_value(encoded);
                            if self.nullable {
                                scratch.push_level(1);
                            }
                        },
                        Err(kind) => {
                            proof {
                                self.lemma_failure_stays(view@, (row + 1) as nat, count as nat);
                            }
                            return Err(ConversionFailure { row, kind });
                        },
                    }
                },
            }
            row = row + 1;
        }
        Ok(())
    }

    /// Once a row has failed, the rows behind it change nothing.
    pub proof fn lemma_failure_stays(self, rows: Seq<Option<NativeValue>>, failed: nat, count: nat)
        requires
            failed <= count,
            self.encode_prefix(rows, failed) is Err,
        ensures
            self.encode_prefix(rows, count) == self.encode_prefix(rows, failed),
        decreases count,
    {
        if failed < count {
            self.lemma_failure_stays(rows, failed, (count - 1) as nat);
        }
    }

    /// What a buffer holds behind the rows of a batch has no part in the encoding: two
    /// buffers that agree on the first `count` rows encode to the same.
    pub proof fn lemma_trailing_rows_are_ignored(
        self,
        rows: Seq<Option<NativeValue>>,
        other: Seq<Option<NativeValue>>,
        count: nat,
    )
        requires
            count <= rows.len(),
            count <= other.len(),
            rows.take(count as int) == other.take(count as int),
        ensures
            self.encode_batch(rows, count) == self.encode_batch(other, count),
    {
        self.lemma_prefix_reads_prefix(rows, other, count, count);
    }

    proof fn lemma_prefix_reads_prefix(
        self,
        rows: Seq<Option<NativeValue>>,
        other: Seq<Option<NativeValue>>,
        count: nat,
        upto: nat,
    )
        requires
            upto <= count,
            count <= rows.len(),
            count <= other.len(),
            rows.take(count as int) == other.take(count as int),
        ensures
            self.encode_prefix(rows, upto) == self.encode_prefix(other, upto),
        decreases upto,
    {
        if upto > 0 {
            self.lemma_prefix_reads_prefix(rows, other, count, (upto - 1) as nat);
            assert(rows[upto - 1] == rows.take(count as int)[upto - 1]);
            assert(other[upto - 1] == other.take(count as int)[upto - 1]);
        }
    }

    /// An encoded batch accounts for every row: a column that may hold NULL has one
    /// definition level per row and no more values than rows; a column that holds no NULL
    /// has one value per row and no definition levels.
    pub proof fn lemma_encoded_rows_are_counted(self, rows: Seq<Option<NativeValue>>, count: nat)
        ensures
            self.encode_prefix(rows, count) matches Ok(column) ==> {
                &&& column.values.len() <= count
                &&& self.nullable ==> column.def_levels.len() == count
                &&& !self.nullable ==> column.def_levels.len() == 0 && column.values.len()
                    == count
            },
        decreases count,
    {
        if count > 0 {
            self.lemma_encoded_rows_are_counted(rows, (count - 1) as nat);
        }
    }
}

} // verus!
