//! What the source reports of a column, and the options that steer the mapping.

use vstd::prelude::*;

verus! {

/// Whether a column may hold NULL.
#[derive(Clone, Copy, Debug)]
pub enum Nullability {
    /// The source does not say.
    Unknown,
    /// The column may hold NULL.
    Nullable,
    /// The column never holds NULL.
    NoNulls,
}

impl Nullability {
    /// `false` only for a column that is known to hold no NULL.
    pub open spec fn admits_null(self) -> bool {
        !(self is NoNulls)
    }

    /// `false` only for a column that is known to hold no NULL.
    pub fn could_be_nullable(&self) -> (nullable: bool)
        ensures
            nullable == self.admits_null(),
    {
        match self {
            Nullability::NoNulls => false,
            _ => true,
        }
    }
}

/// The type categories a source column can be of.
#[allow(inconsistent_fields)]
#[derive(Clone, Copy, Debug)]
pub enum SourceType {
    /// A single bit.
    Bit,
    /// Integer of 8 bits, signed unless the source says otherwise.
    TinyInt { unsigned: bool },
    /// Signed integer of 16 bits.
    SmallInt,
    /// Signed integer of 32 bits.
    Integer,
    /// Signed integer of 64 bits.
    BigInt,
    /// Floating point number of single precision.
    Real,
    /// Floating point number of double precision.
    Double,
    /// Floating point number with a mantissa of `precision` bits.
    Float { precision: usize },
    /// Exact number of `precision` decimal digits, `scale` of them behind the point.
    Decimal { precision: usize, scale: i16 },
    /// Calendar date.
    Date,
    /// Time of day, with `precision` digits of fractional seconds.
    Time { precision: i16 },
    /// Date and time of day, with `precision` digits of fractional seconds.
    Timestamp { precision: i16 },
    /// Text of up to `length` characters, of fixed or variable length. `None` where the
    /// source does not report a length.
    Text { length: Option<usize> },
    /// Bytes. With `fixed` every value has exactly `length` bytes, otherwise up to `length`.
    Binary { length: Option<usize>, fixed: bool },
    /// A type the source cannot name, or names in its own way, with the number of characters
    /// needed to display a value, where known.
    Other { display_size: Option<usize> },
}

/// Description of one column of a result set.
#[derive(Clone, Debug)]
pub struct ColumnDescriptor {
    /// Name as reported. Empty if the source has none.
    pub name: String,
    /// Whether the column may hold NULL.
    pub nullability: Nullability,
    /// Type category with its size, precision and scale.
    pub source_type: SourceType,
}

/// Options that apply to the mapping of every column of a table.
#[derive(Clone, Copy, Debug)]
pub struct MappingOptions {
    /// Fetch text as UTF-16 and transcode it, rather than trusting the source to send UTF-8.
    pub use_utf16: bool,
    /// Store binary values of fixed length as variable-length byte arrays, too.
    pub prefer_varbinary: bool,
    /// Store decimals as the text the source renders them to.
    pub avoid_decimal: bool,
    /// `false` for a driver that cannot fetch 64-bit integers. They are then fetched as text.
    pub driver_does_support_i64: bool,
    /// Upper bound for the length of text and binary values. Longer values are not expected;
    /// the fetch buffer has no room for them.
    pub column_length_limit: usize,
    /// Fetch columns of a type without a mapping of its own as text, where the source tells
    /// how long that text can get.
    pub fallback_to_text: bool,
}

} // verus!
