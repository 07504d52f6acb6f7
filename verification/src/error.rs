//! What can go wrong while a table is copied.

use crate::text::decimal_chars;
use crate::text::decimal_text;
use vstd::prelude::*;

verus! {

/// `odbc_api::Error`, the reason a call into the source failed.
#[verifier::external_type_specification]
#[verifier::external_body]
pub struct ExSourceError(odbc_api::Error);

/// Why a result set has no schema.
#[derive(Clone, Copy, Debug, PartialEq, Eq, Structural)]
pub enum SchemaErrorKind {
    /// The result set has no columns, so the output would have no fields.
    NoColumns,
    /// No strategy represents the type of the column, and no fallback is configured.
    UnsupportedType,
    /// The column holds text or bytes, but has no room for a single one.
    ZeroLength,
}

/// Why no fetch buffer was allocated.
#[derive(Clone, Copy, Debug, PartialEq, Eq, Structural)]
pub enum AllocationError {
    /// The table has more columns than a fetch buffer can bind.
    TooManyColumns { columns: usize },
    /// The bytes that one row takes cannot be counted in a `usize`.
    RowTooLarge,
    /// The bytes that one batch takes are more than a buffer can have.
    BatchTooLarge { rows: usize, bytes_per_row: usize },
}

/// Why a fetched value could not be encoded.
#[derive(Clone, Copy, Debug, PartialEq, Eq, Structural)]
pub enum FailureKind {
    /// NULL in a column whose field is required.
    UnexpectedNull,
    /// The value is not of the kind the column's buffer holds.
    TypeMismatch,
    /// The value is nothing the target encoding has a place for: a month 13, text that is
    /// no number, or bytes of the wrong length.
    InvalidValue,
    /// The number is too large for the target type.
    Overflow,
    /// The batch has fewer rows than were reported fetched.
    MissingRows,
}

/// The first value of a column that could not be encoded.
#[derive(Clone, Copy, Debug, PartialEq, Eq, Structural)]
pub struct ConversionFailure {
    /// Index of the row within its batch.
    pub row: usize,
    /// What was wrong with the value.
    pub kind: FailureKind,
}

/// Whether `error` is the one that drivers without 64-bit integers give on a fetch: the
/// variant `odbc_api::Error::OracleOdbcDriverDoesNotSupport64Bit`.
pub uninterp spec fn is_int64_failure(error: odbc_api::Error) -> bool;

/// Tells the variant `odbc_api::Error::OracleOdbcDriverDoesNotSupport64Bit` from all
/// others. Nothing of the error is read but which variant it is.
#[verifier::external_body]
pub(crate) fn tell_int64_failure(error: &odbc_api::Error) -> (told: bool)
    ensures
        told == is_int64_failure(*error),
{
    matches!(error, odbc_api::Error::OracleOdbcDriverDoesNotSupport64Bit(_))
}

/// Why a table could not be copied. Every one of these ends the copy.
#[derive(Debug)]
pub enum CopyError {
    /// The result set has no schema: it has no columns, or column `index`, counted from
    /// one, has a type without a strategy.
    Schema { index: usize, kind: SchemaErrorKind },
    /// The source could not describe column `index`, counted from one.
    Descriptor { index: usize, cause: String },
    /// The source could not fetch the next batch, for the reason `source` holds. `hinted`
    /// if the error is one that a change of configuration avoids.
    Fetch { hinted: bool, source: odbc_api::Error },
    /// A value of column `column` could not be encoded.
    Conversion { column: String, failure: ConversionFailure },
    /// The output could not be written.
    Write { cause: String },
}

/// A [`CopyError`] with its texts as sequences.
pub enum CopyErrorView {
    Schema { index: usize, kind: SchemaErrorKind },
    Descriptor { index: usize, cause: Seq<char> },
    Fetch { hinted: bool, source: odbc_api::Error },
    Conversion { column: Seq<char>, failure: ConversionFailure },
    Write { cause: Seq<char> },
}

impl View for CopyError {
    type V = CopyErrorView;

    open spec fn view(&self) -> CopyErrorView {
        match *self {
            CopyError::Schema { index, kind } => CopyErrorView::Schema { index, kind },
            CopyError::Descriptor { index, cause } => CopyErrorView::Descriptor {
                index,
                cause: cause@,
            },
            CopyError::Fetch { hinted, source } => CopyErrorView::Fetch { hinted, source },
            CopyError::Conversion { column, failure } => CopyErrorView::Conversion {
                column: column@,
                failure,
            },
            CopyError::Write { cause } => CopyErrorView::Write { cause: cause@ },
        }
    }
}

/// The advice given with a fetch error of a driver without 64-bit integers.
pub open spec fn hint_text() -> Seq<char> {
    "Looks like you are using an Oracle database. Try the `--driver-does-not-support-64bit-integers` flag."@
}

/// What is wrong with a value, in words.
pub open spec fn kind_text(kind: FailureKind) -> Seq<char> {
    match kind {
        FailureKind::UnexpectedNull => "NULL in a column that must not hold any"@,
        FailureKind::TypeMismatch => "value of another type than the column is fetched as"@,
        FailureKind::InvalidValue => "value that the output cannot represent"@,
        FailureKind::Overflow => "number too large for the output"@,
        FailureKind::MissingRows => "batch ends before its last row"@,
    }
}

/// The error in the words of the library: what failed. A fetch error has such words only
/// where it comes with advice, and then they are the advice and nothing else. Any other
/// fetch error has no words but those of the error of the source that it holds.
pub open spec fn message_text(error: CopyErrorView) -> Option<Seq<char>> {
    match error {
        CopyErrorView::Schema { index, kind } => Some(
            match kind {
                SchemaErrorKind::NoColumns => "Resulting parquet file would not have any columns!"@,
                SchemaErrorKind::UnsupportedType => "Column "@ + decimal_chars(index as nat)
                    + " is of a type that cannot be copied."@,
                SchemaErrorKind::ZeroLength => "Column "@ + decimal_chars(index as nat)
                    + " has no room for a single value."@,
            },
        ),
        CopyErrorView::Descriptor { index, cause } => Some(
            "Failed to describe column "@ + decimal_chars(index as nat) + ": "@ + cause,
        ),
        CopyErrorView::Fetch { hinted, .. } => if hinted {
            Some(hint_text())
        } else {
            None
        },
        CopyErrorView::Conversion { column, .. } => Some(
            "Failed to copy column '"@ + column + "' from ODBC representation into Parquet."@,
        ),
        CopyErrorView::Write { cause } => Some(cause),
    }
}

/// What is wrong with the first value that could not be encoded, and in which row it is.
pub open spec fn failure_text(failure: ConversionFailure) -> Seq<char> {
    "Row "@ + decimal_chars(failure.row as nat) + ": "@ + kind_text(failure.kind)
}

/// The cause behind a conversion error, in words: the value that could not be encoded. The
/// cause behind a fetch error is the error of the source, which the fetch error holds.
pub open spec fn cause_text(error: CopyErrorView) -> Option<Seq<char>> {
    match error {
        CopyErrorView::Conversion { failure, .. } => Some(failure_text(failure)),
        _ => None,
    }
}

/// The fetch error that `error` becomes: it holds `error`, and is marked for the advice if
/// `error` comes from a driver without 64-bit integers.
pub open spec fn fetch_error(error: odbc_api::Error) -> CopyErrorView {
    CopyErrorView::Fetch { hinted: is_int64_failure(error), source: error }
}

/// Turns an error of the source into the error of the copy. The copy fails either way; an
/// error that comes from a driver without 64-bit integers gets the advice to say so in the
/// configuration. The error of the source is kept as it is.
pub fn give_hint_about_flag_for_oracle_users(error: odbc_api::Error) -> (hinted: CopyError)
    ensures
        hinted@ == fetch_error(error),
{
    let hinted = tell_int64_failure(&error);
    CopyError::Fetch { hinted, source: error }
}

fn kind_words(kind: FailureKind) -> (words: &'static str)
    ensures
        words@ == kind_text(kind),
{
    match kind {
        FailureKind::UnexpectedNull => "NULL in a column that must not hold any",
        FailureKind::TypeMismatch => "value of another type than the column is fetched as",
        FailureKind::InvalidValue => "value that the output cannot represent",
        FailureKind::Overflow => "number too large for the output",
        FailureKind::MissingRows => "batch ends before its last row",
    }
}

impl CopyError {
    /// The error in the words of the library, if it has any: see [`message_text`].
    pub fn message(&self) -> (text: Option<String>)
        ensures
            match text {
                Some(words) => message_text(self@) == Some(words@),
                None => message_text(self@) is None,
            },
    {
        match self {
            CopyError::Schema { index, kind } => match kind {
                SchemaErrorKind::NoColumns => Some(
                    String::from_str("Resulting parquet file would not have any columns!"),
                ),
                SchemaErrorKind::UnsupportedType => Some(
                    String::from_str("Column ").concat(decimal_text(*index).as_str()).concat(
                        " is of a type that cannot be copied.",
                    ),
                ),
                SchemaErrorKind::ZeroLength => Some(
                    String::from_str("Column ").concat(decimal_text(*index).as_str()).concat(
                        " has no room for a single value.",
                    ),
                ),
            },
            CopyError::Descriptor { index, cause } => Some(
                String::from_str("Failed to describe column ").concat(
                    decimal_text(*index).as_str(),
                ).concat(": ").concat(cause.as_str()),
            ),
            CopyError::Fetch { hinted, .. } => {
                if *hinted {
                    Some(
                        String::from_str(
                            "Looks like you are using an Oracle database. Try the `--driver-does-not-support-64bit-integers` flag.",
                        ),
                    )
                } else {
                    None
                }
            },
            CopyError::Conversion { column, .. } => Some(
                String::from_str("Failed to copy column '").concat(column.as_str()).concat(
                    "' from ODBC representation into Parquet.",
                ),
            ),
            CopyError::Write { cause } => Some(String::from_str(cause.as_str())),
        }
    }

    /// The cause behind a conversion error in words: see [`cause_text`].
    pub fn cause(&self) -> (text: Option<String>)
        ensures
            match text {
                Some(words) => cause_text(self@) == Some(words@),
                None => cause_text(self@) is None,
            },
    {
        match self {
            CopyError::Conversion { failure, .. } => Some(
                String::from_str("Row ").concat(decimal_text(failure.row).as_str()).concat(
                    ": ",
                ).concat(kind_words(failure.kind)),
            ),
            _ => None,
        }
    }
}

/// A fetch error of a driver without 64-bit integers reads as the advice and nothing else.
/// Any other fetch error has no words of the library: it reads as the error of the source
/// reads. So the two never read the same, and only the first gives the advice. Both hold
/// the error of the source as it came.
pub proof fn lemma_hint_is_given(error: odbc_api::Error, other: odbc_api::Error)
    requires
        is_int64_failure(error),
        !is_int64_failure(other),
    ensures
        message_text(fetch_error(error)) == Some(hint_text()),
        message_text(fetch_error(other)) is None,
        message_text(fetch_error(error)) != message_text(fetch_error(other)),
        fetch_error(error) matches CopyErrorView::Fetch { source, .. } && source == error,
        fetch_error(other) matches CopyErrorView::Fetch { source, .. } && source == other,
{
}

} // verus!
