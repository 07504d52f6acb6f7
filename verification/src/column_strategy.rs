//! One column: how it is fetched and which field of the output it becomes.

use crate::error::SchemaErrorKind;
use crate::fetch_buffer::desc_is_bounded;
use crate::fetch_buffer::MAX_VALUE_LEN;
use crate::schema::annotation_fits;
use crate::schema::primitive_field;
use crate::schema::primitive_node;
use crate::schema::FieldModel;
use crate::schema::FieldType;
use crate::schema::UNSET;
use crate::source::ColumnDescriptor;
use crate::source::MappingOptions;
use crate::source::SourceType;
use crate::values::TimeUnit;
use odbc_api::buffers::BufferDesc;
use parquet::basic::ConvertedType;
use parquet::basic::Repetition;
use parquet::basic::Type as PhysicalType;
use parquet::schema::types::Type;
use std::sync::Arc;
use vstd::math::min;
use vstd::pervasive::unreached;
use vstd::prelude::*;

verus! {

/// The integers that are stored in 32 bits.
#[derive(Clone, Copy, Debug)]
pub enum IntWidth {
    Int8,
    UInt8,
    Int16,
    Int32,
}

/// The different ways to copy a column.
#[derive(Clone, Copy, Debug)]
pub enum StrategyKind {
    /// Bits become booleans.
    Boolean,
    /// Integers of up to 32 bits are fetched and stored in 32 bits.
    Int32 { width: IntWidth },
    /// Integers of 64 bits are fetched and stored as they are.
    Int64,
    /// Integers of 64 bits are fetched as text, for drivers that cannot fetch them otherwise.
    Int64FromText,
    /// Floating point numbers of single precision are fetched and stored as they are.
    Float32,
    /// Floating point numbers of double precision are fetched and stored as they are.
    Float64,
    /// Decimals are fetched as text and stored as integers scaled by ten to the power of
    /// `scale`: in 32 bits up to 9 digits, in 64 bits up to 18 digits, in 16 bytes beyond.
    Decimal { precision: u8, scale: u8 },
    /// Dates are stored as days since 1970-01-01.
    Date,
    /// Times of day are stored as a count of `unit` since midnight.
    Time { unit: TimeUnit },
    /// Timestamps are stored as a count of `unit` since 1970-01-01 00:00:00.
    Timestamp { unit: TimeUnit },
    /// Text is fetched into buffers of `max_str_len` bytes, or 16-bit units if `wide`, and
    /// stored as UTF-8.
    Text { max_str_len: usize, wide: bool },
    /// Bytes are fetched into buffers of `max_bytes` bytes and stored as they are, with a
    /// fixed length if `fixed`.
    Binary { max_bytes: usize, fixed: bool },
}

/// The decision how one column is copied. It is made once, when the copy is set up.
#[derive(Clone, Copy, Debug)]
pub struct ColumnStrategy {
    /// How values are fetched and encoded.
    pub kind: StrategyKind,
    /// Whether the column may hold NULL.
    pub nullable: bool,
}

/// Longest text of a 64-bit integer: a sign and 19 digits.
pub const INT64_TEXT_LEN: usize = 20;

/// Number of decimal digits a 64-bit integer is read with.
pub const INT64_DIGITS: u8 = 19;

/// The longest value a text or binary column is given room for.
pub open spec fn length_limit(options: MappingOptions) -> int {
    min(options.column_length_limit as int, MAX_VALUE_LEN as int)
}

/// Room for text of `chars` characters: four bytes for each, or two 16-bit units, but no
/// more than the limit. The limit itself if the number of characters is unknown.
pub open spec fn text_length(chars: Option<usize>, options: MappingOptions) -> int {
    let per_char: int = if options.use_utf16 {
        2
    } else {
        4
    };
    match chars {
        None => length_limit(options),
        Some(n) => min(n * per_char, length_limit(options)),
    }
}

/// The strategy for text of `chars` characters.
pub open spec fn text_kind_for(chars: Option<usize>, options: MappingOptions) -> Result<
    StrategyKind,
    SchemaErrorKind,
> {
    if text_length(chars, options) == 0 {
        Err(SchemaErrorKind::ZeroLength)
    } else {
        Ok(
            StrategyKind::Text {
                max_str_len: text_length(chars, options) as usize,
                wide: options.use_utf16,
            },
        )
    }
}

/// The strategy for binary values of `length` bytes.
pub open spec fn binary_kind_for(length: Option<usize>, fixed: bool, options: MappingOptions) -> Result<
    StrategyKind,
    SchemaErrorKind,
> {
    let max_bytes = match length {
        None => length_limit(options),
        Some(n) => min(n as int, length_limit(options)),
    };
    if max_bytes == 0 {
        Err(SchemaErrorKind::ZeroLength)
    } else {
        Ok(
            StrategyKind::Binary {
                max_bytes: max_bytes as usize,
                fixed: fixed && !options.prefer_varbinary && length == Some(max_bytes as usize),
            },
        )
    }
}

/// Characters the text of a decimal of `precision` digits can have: the digits, a sign and
/// a decimal point.
pub open spec fn decimal_text_chars(precision: usize) -> usize {
    if precision <= MAX_VALUE_LEN {
        (precision + 2) as usize
    } else {
        MAX_VALUE_LEN
    }
}

/// Whether precision and scale are such that the decimal can be stored as a scaled integer.
pub open spec fn is_storable_decimal(precision: usize, scale: i16) -> bool {
    1 <= precision <= 38 && 0 <= scale <= precision
}

/// The strategy that is chosen for a column of the given type.
pub open spec fn kind_for(source_type: SourceType, options: MappingOptions) -> Result<
    StrategyKind,
    SchemaErrorKind,
> {
    match source_type {
        SourceType::Bit => Ok(StrategyKind::Boolean),
        SourceType::TinyInt { unsigned } => Ok(
            StrategyKind::Int32 {
                width: if unsigned {
                    IntWidth::UInt8
                } else {
                    IntWidth::Int8
                },
            },
        ),
        SourceType::SmallInt => Ok(StrategyKind::Int32 { width: IntWidth::Int16 }),
        SourceType::Integer => Ok(StrategyKind::Int32 { width: IntWidth::Int32 }),
        SourceType::BigInt => if options.driver_does_support_i64 {
            Ok(StrategyKind::Int64)
        } else {
            Ok(StrategyKind::Int64FromText)
        },
        SourceType::Real => Ok(StrategyKind::Float32),
        SourceType::Double => Ok(StrategyKind::Float64),
        SourceType::Float { precision } => if precision <= 24 {
            Ok(StrategyKind::Float32)
        } else if precision <= 53 {
            Ok(StrategyKind::Float64)
        } else if options.fallback_to_text {
            text_kind_for(None, options)
        } else {
            Err(SchemaErrorKind::UnsupportedType)
        },
        SourceType::Decimal { precision, scale } => if options.avoid_decimal {
            text_kind_for(Some(decimal_text_chars(precision)), options)
        } else if is_storable_decimal(precision, scale) {
            Ok(StrategyKind::Decimal { precision: precision as u8, scale: scale as u8 })
        } else if options.fallback_to_text {
            text_kind_for(Some(decimal_text_chars(precision)), options)
        } else {
            Err(SchemaErrorKind::UnsupportedType)
        },
        SourceType::Date => Ok(StrategyKind::Date),
        SourceType::Time { precision } => Ok(StrategyKind::Time { unit: unit_for(precision) }),
        SourceType::Timestamp { precision } => Ok(
            StrategyKind::Timestamp { unit: unit_for(precision) },
        ),
        SourceType::Text { length } => text_kind_for(length, options),
        SourceType::Binary { length, fixed } => binary_kind_for(length, fixed, options),
        SourceType::Other { display_size } => if options.fallback_to_text && display_size is Some {
            text_kind_for(display_size, options)
        } else {
            Err(SchemaErrorKind::UnsupportedType)
        },
    }
}

/// The unit that keeps `precision` digits of fractional seconds, as far as the output can.
pub open spec fn unit_for(precision: i16) -> TimeUnit {
    if precision <= 3 {
        TimeUnit::Millis
    } else {
        TimeUnit::Micros
    }
}

/// The strategy that is chosen for a column with the given description.
pub open spec fn strategy_for(descriptor: ColumnDescriptor, options: MappingOptions) -> Result<
    ColumnStrategy,
    SchemaErrorKind,
> {
    match kind_for(descriptor.source_type, options) {
        Ok(kind) => Ok(ColumnStrategy { kind, nullable: descriptor.nullability.admits_null() }),
        Err(reason) => Err(reason),
    }
}

fn limit_of(options: &MappingOptions) -> (limit: usize)
    ensures
        limit == length_limit(*options),
{
    if options.column_length_limit < MAX_VALUE_LEN {
        options.column_length_limit
    } else {
        MAX_VALUE_LEN
    }
}

fn text_kind(chars: Option<usize>, options: &MappingOptions) -> (kind: Result<
    StrategyKind,
    SchemaErrorKind,
>)
    ensures
        kind == text_kind_for(chars, *options),
{
    let limit = limit_of(options);
    let per_char: usize = if options.use_utf16 {
        2
    } else {
        4
    };
    let max_str_len: usize = match chars {
        None => limit,
        Some(n) => if n <= limit / per_char {
            n * per_char
        } else {
            limit
        },
    };
    if max_str_len == 0 {
        Err(SchemaErrorKind::ZeroLength)
    } else {
        Ok(StrategyKind::Text { max_str_len, wide: options.use_utf16 })
    }
}

fn binary_kind(length: Option<usize>, fixed: bool, options: &MappingOptions) -> (kind: Result<
    StrategyKind,
    SchemaErrorKind,
>)
    ensures
        kind == binary_kind_for(length, fixed, *options),
{
    let limit = limit_of(options);
    let (max_bytes, complete): (usize, bool) = match length {
        None => (limit, false),
        Some(n) => if n <= limit {
            (n, true)
        } else {
            (limit, false)
        },
    };
    if max_bytes == 0 {
        Err(SchemaErrorKind::ZeroLength)
    } else {
        Ok(StrategyKind::Binary { max_bytes, fixed: fixed && !options.prefer_varbinary && complete })
    }
}

fn decimal_chars(precision: usize) -> (chars: usize)
    ensures
        chars == decimal_text_chars(precision),
{
    if precision <= MAX_VALUE_LEN {
        precision + 2
    } else {
        MAX_VALUE_LEN
    }
}

fn time_unit(precision: i16) -> (unit: TimeUnit)
    ensures
        unit == unit_for(precision),
{
    if precision <= 3 {
        TimeUnit::Millis
    } else {
        TimeUnit::Micros
    }
}

/// Chooses the strategy for one column from what the source reports of it. There is exactly
/// one strategy for every type category; a category without one is an error.
pub fn strategy_from_column_description(
    descriptor: &ColumnDescriptor,
    options: &MappingOptions,
) -> (strategy: Result<ColumnStrategy, SchemaErrorKind>)
    ensures
        strategy == strategy_for(*descriptor, *options),
        strategy matches Ok(chosen) ==> chosen.wf(),
{
    let kind = match descriptor.source_type {
        SourceType::Bit => Ok(StrategyKind::Boolean),
        SourceType::TinyInt { unsigned } => {
            if unsigned {
                Ok(StrategyKind::Int32 { width: IntWidth::UInt8 })
            } else {
                Ok(StrategyKind::Int32 { width: IntWidth::Int8 })
            }
        },
        SourceType::SmallInt => Ok(StrategyKind::Int32 { width: IntWidth::Int16 }),
        SourceType::Integer => Ok(StrategyKind::Int32 { width: IntWidth::Int32 }),
        SourceType::BigInt => {
            if options.driver_does_support_i64 {
                Ok(StrategyKind::Int64)
            } else {
                Ok(StrategyKind::Int64FromText)
            }
        },
        SourceType::Real => Ok(StrategyKind::Float32),
        SourceType::Double => Ok(StrategyKind::Float64),
        SourceType::Float { precision } => {
            if precision <= 24 {
                Ok(StrategyKind::Float32)
            } else if precision <= 53 {
                Ok(StrategyKind::Float64)
            } else if options.fallback_to_text {
                text_kind(None, options)
            } else {
                Err(SchemaErrorKind::UnsupportedType)
            }
        },
        SourceType::Decimal { precision, scale } => {
            if options.avoid_decimal {
                text_kind(Some(decimal_chars(precision)), options)
            } else if 1 <= precision && precision <= 38 && 0 <= scale && scale as usize
                <= precision {
                Ok(StrategyKind::Decimal { precision: precision as u8, scale: scale as u8 })
            } else if options.fallback_to_text {
                text_kind(Some(decimal_chars(precision)), options)
            } else {
                Err(SchemaErrorKind::UnsupportedType)
            }
        },
        SourceType::Date => Ok(StrategyKind::Date),
        SourceType::Time { precision } => Ok(StrategyKind::Time { unit: time_unit(precision) }),
        SourceType::Timestamp { precision } => Ok(
            StrategyKind::Timestamp { unit: time_unit(precision) },
        ),
        SourceType::Text { length } => text_kind(length, options),
        SourceType::Binary { length, fixed } => binary_kind(length, fixed, options),
        SourceType::Other { display_size } => {
            if options.fallback_to_text && display_size.is_some() {
                text_kind(display_size, options)
            } else {
                Err(SchemaErrorKind::UnsupportedType)
            }
        },
    };
    match kind {
        Ok(kind) => Ok(ColumnStrategy { kind, nullable: descriptor.nullability.could_be_nullable() }),
        Err(reason) => Err(reason),
    }
}

impl ColumnStrategy {
    /// Whether the sizes the strategy holds are within the bounds all strategies keep.
    pub open spec fn wf(self) -> bool {
        match self.kind {
            StrategyKind::Decimal { precision, scale } => 1 <= precision <= 38 && scale
                <= precision,
            StrategyKind::Text { max_str_len, .. } => 1 <= max_str_len <= MAX_VALUE_LEN,
            StrategyKind::Binary { max_bytes, .. } => 1 <= max_bytes <= MAX_VALUE_LEN,
            _ => true,
        }
    }

    /// Tells whether the sizes the strategy holds are within the bounds all strategies keep.
    /// Every strategy that [`strategy_from_column_description`] chooses is.
    pub fn is_valid(&self) -> (valid: bool)
        ensures
            valid == self.wf(),
    {
        match self.kind {
            StrategyKind::Decimal { precision, scale } => 1 <= precision && precision <= 38
                && scale <= precision,
            StrategyKind::Text { max_str_len, .. } => 1 <= max_str_len && max_str_len
                <= MAX_VALUE_LEN,
            StrategyKind::Binary { max_bytes, .. } => 1 <= max_bytes && max_bytes
                <= MAX_VALUE_LEN,
            _ => true,
        }
    }

    /// The layout of the column in the fetch buffer.
    pub open spec fn layout(self) -> BufferDesc {
        match self.kind {
            StrategyKind::Boolean => BufferDesc::Bit { nullable: self.nullable },
            StrategyKind::Int32 { .. } => BufferDesc::I32 { nullable: self.nullable },
            StrategyKind::Int64 => BufferDesc::I64 { nullable: self.nullable },
            StrategyKind::Int64FromText => BufferDesc::Text { max_str_len: INT64_TEXT_LEN },
            StrategyKind::Float32 => BufferDesc::F32 { nullable: self.nullable },
            StrategyKind::Float64 => BufferDesc::F64 { nullable: self.nullable },
            StrategyKind::Decimal { precision, .. } => BufferDesc::Text {
                max_str_len: (precision + 2) as usize,
            },
            StrategyKind::Date => BufferDesc::Date { nullable: self.nullable },
            StrategyKind::Time { .. } => BufferDesc::Time { nullable: self.nullable },
            StrategyKind::Timestamp { .. } => BufferDesc::Timestamp { nullable: self.nullable },
            StrategyKind::Text { max_str_len, wide } => if wide {
                BufferDesc::WText { max_str_len }
            } else {
                BufferDesc::Text { max_str_len }
            },
            StrategyKind::Binary { max_bytes, .. } => BufferDesc::Binary { max_bytes },
        }
    }

    /// The memory layout one batch of this column needs in the fetch buffer.
    pub fn buffer_desc(&self) -> (desc: BufferDesc)
        requires
            self.wf(),
        ensures
            desc == self.layout(),
            desc_is_bounded(desc),
    {
        let nullable = self.nullable;
        match self.kind {
            StrategyKind::Boolean => BufferDesc::Bit { nullable },
            StrategyKind::Int32 { .. } => BufferDesc::I32 { nullable },
            StrategyKind::Int64 => BufferDesc::I64 { nullable },
            StrategyKind::Int64FromText => BufferDesc::Text { max_str_len: INT64_TEXT_LEN },
            StrategyKind::Float32 => BufferDesc::F32 { nullable },
            StrategyKind::Float64 => BufferDesc::F64 { nullable },
            StrategyKind::Decimal { precision, .. } => BufferDesc::Text {
                max_str_len: precision as usize + 2,
            },
            StrategyKind::Date => BufferDesc::Date { nullable },
            StrategyKind::Time { .. } => BufferDesc::Time { nullable },
            StrategyKind::Timestamp { .. } => BufferDesc::Timestamp { nullable },
            StrategyKind::Text { max_str_len, wide } => {
                if wide {
                    BufferDesc::WText { max_str_len }
                } else {
                    BufferDesc::Text { max_str_len }
                }
            },
            StrategyKind::Binary { max_bytes, .. } => BufferDesc::Binary { max_bytes },
        }
    }

    /// The physical type and the annotation values of this column are stored with.
    pub open spec fn storage(self) -> (PhysicalType, ConvertedType) {
        match self.kind {
            StrategyKind::Boolean => (PhysicalType::BOOLEAN, ConvertedType::NONE),
            StrategyKind::Int32 { width } => (
                PhysicalType::INT32,
                match width {
                    IntWidth::Int8 => ConvertedType::INT_8,
                    IntWidth::UInt8 => ConvertedType::UINT_8,
                    IntWidth::Int16 => ConvertedType::INT_16,
                    IntWidth::Int32 => ConvertedType::INT_32,
                },
            ),
            StrategyKind::Int64 | StrategyKind::Int64FromText => (
                PhysicalType::INT64,
                ConvertedType::INT_64,
            ),
            StrategyKind::Float32 => (PhysicalType::FLOAT, ConvertedType::NONE),
            StrategyKind::Float64 => (PhysicalType::DOUBLE, ConvertedType::NONE),
            StrategyKind::Decimal { precision, .. } => (
                if precision <= 9 {
                    PhysicalType::INT32
                } else if precision <= 18 {
                    PhysicalType::INT64
                } else {
                    PhysicalType::BYTE_ARRAY
                },
                ConvertedType::DECIMAL,
            ),
            StrategyKind::Date => (PhysicalType::INT32, ConvertedType::DATE),
            StrategyKind::Time { unit } => match unit {
                TimeUnit::Millis => (PhysicalType::INT32, ConvertedType::TIME_MILLIS),
                TimeUnit::Micros => (PhysicalType::INT64, ConvertedType::TIME_MICROS),
            },
            StrategyKind::Timestamp { unit } => match unit {
                TimeUnit::Millis => (PhysicalType::INT64, ConvertedType::TIMESTAMP_MILLIS),
                TimeUnit::Micros => (PhysicalType::INT64, ConvertedType::TIMESTAMP_MICROS),
            },
            StrategyKind::Text { .. } => (PhysicalType::BYTE_ARRAY, ConvertedType::UTF8),
            StrategyKind::Binary { fixed, .. } => (
                if fixed {
                    PhysicalType::FIXED_LEN_BYTE_ARRAY
                } else {
                    PhysicalType::BYTE_ARRAY
                },
                ConvertedType::NONE,
            ),
        }
    }

    /// The type of the field this column becomes: required if the column holds no NULL,
    /// optional otherwise.
    pub open spec fn field_type(self) -> FieldType {
        FieldType {
            physical: self.storage().0,
            annotation: self.storage().1,
            repetition: if self.nullable {
                Repetition::OPTIONAL
            } else {
                Repetition::REQUIRED
            },
            length: match self.kind {
                StrategyKind::Binary { max_bytes, fixed: true } => max_bytes as i32,
                _ => UNSET,
            },
            precision: match self.kind {
                StrategyKind::Decimal { precision, .. } => precision as i32,
                _ => UNSET,
            },
            scale: match self.kind {
                StrategyKind::Decimal { scale, .. } => scale as i32,
                _ => UNSET,
            },
        }
    }

    /// Computes the type of the field this column becomes.
    pub fn parquet_field(&self) -> (ty: FieldType)
        requires
            self.wf(),
        ensures
            ty == self.field_type(),
            annotation_fits(ty),
    {
        let (physical, annotation) = match self.kind {
            StrategyKind::Boolean => (PhysicalType::BOOLEAN, ConvertedType::NONE),
            StrategyKind::Int32 { width } => match width {
                IntWidth::Int8 => (PhysicalType::INT32, ConvertedType::INT_8),
                IntWidth::UInt8 => (PhysicalType::INT32, ConvertedType::UINT_8),
                IntWidth::Int16 => (PhysicalType::INT32, ConvertedType::INT_16),
                IntWidth::Int32 => (PhysicalType::INT32, ConvertedType::INT_32),
            },
            StrategyKind::Int64 => (PhysicalType::INT64, ConvertedType::INT_64),
            StrategyKind::Int64FromText => (PhysicalType::INT64, ConvertedType::INT_64),
            StrategyKind::Float32 => (PhysicalType::FLOAT, ConvertedType::NONE),
            StrategyKind::Float64 => (PhysicalType::DOUBLE, ConvertedType::NONE),
            StrategyKind::Decimal { precision, .. } => {
                if precision <= 9 {
                    (PhysicalType::INT32, ConvertedType::DECIMAL)
                } else if precision <= 18 {
                    (PhysicalType::INT64, ConvertedType::DECIMAL)
                } else {
                    (PhysicalType::BYTE_ARRAY, ConvertedType::DECIMAL)
                }
            },
            StrategyKind::Date => (PhysicalType::INT32, ConvertedType::DATE),
            StrategyKind::Time { unit } => match unit {
                TimeUnit::Millis => (PhysicalType::INT32, ConvertedType::TIME_MILLIS),
                TimeUnit::Micros => (PhysicalType::INT64, ConvertedType::TIME_MICROS),
            },
            StrategyKind::Timestamp { unit } => match unit {
                TimeUnit::Millis => (PhysicalType::INT64, ConvertedType::TIMESTAMP_MILLIS),
                TimeUnit::Micros => (PhysicalType::INT64, ConvertedType::TIMESTAMP_MICROS),
            },
            StrategyKind::Text { .. } => (PhysicalType::BYTE_ARRAY, ConvertedType::UTF8),
            StrategyKind::Binary { fixed, .. } => {
                if fixed {
                    (PhysicalType::FIXED_LEN_BYTE_ARRAY, ConvertedType::NONE)
                } else {
                    (PhysicalType::BYTE_ARRAY, ConvertedType::NONE)
                }
            },
        };
        let repetition = if self.nullable {
            Repetition::OPTIONAL
        } else {
            Repetition::REQUIRED
        };
        let length: i32 = match self.kind {
            StrategyKind::Binary { max_bytes, fixed: true } => max_bytes as i32,
            _ => UNSET,
        };
        let (precision, scale): (i32, i32) = match self.kind {
            StrategyKind::Decimal { precision, scale } => (precision as i32, scale as i32),
            _ => (UNSET, UNSET),
        };
        FieldType { physical, annotation, repetition, length, precision, scale }
    }

    /// The node of the output schema for this column, under the given name.
    pub fn parquet_type(&self, name: &str) -> (node: Arc<Type>)
        requires
            self.wf(),
        ensures
            primitive_field(*node) == (FieldModel { name: name@, ty: self.field_type() }),
    {
        let ty = self.parquet_field();
        match primitive_node(name, &ty) {
            Ok(node) => Arc::new(node),
            Err(_) => unreached(),
        }
    }
}

} // verus!
