//! Fields of the output schema, and the schema nodes that stand for them in the output
//! format's own terms.

use parquet::basic::ConvertedType;
use parquet::basic::Repetition;
use parquet::basic::Type as PhysicalType;
use parquet::errors::ParquetError;
use parquet::schema::types::Type;
use std::sync::Arc;
use vstd::prelude::*;

verus! {

/// `parquet::basic::Type`, the physical types of the output format. A plain list of tags.
#[verifier::external_type_specification]
pub struct ExPhysicalType(PhysicalType);

/// `parquet::basic::ConvertedType`, the annotations that say how a physical value is to be
/// read. A plain list of tags.
#[verifier::external_type_specification]
pub struct ExConvertedType(ConvertedType);

/// `parquet::basic::Repetition`, whether a field is required, optional or repeated. A plain
/// list of tags.
#[verifier::external_type_specification]
pub struct ExRepetition(Repetition);

/// `parquet::schema::types::Type`, a node of a schema: a primitive field or a group.
#[verifier::external_type_specification]
#[verifier::external_body]
pub struct ExType(Type);

/// `parquet::errors::ParquetError`, the reason a schema node could not be built.
#[verifier::external_type_specification]
#[verifier::external_body]
pub struct ExParquetError(ParquetError);

/// Value of a length, precision or scale that a field does not use.
pub const UNSET: i32 = -1;

/// What a primitive field of the output schema is made of, apart from its name.
#[derive(Clone, Copy, Debug)]
pub struct FieldType {
    /// How values are stored.
    pub physical: PhysicalType,
    /// How stored values are to be read.
    pub annotation: ConvertedType,
    /// `REQUIRED` for a column without NULLs, `OPTIONAL` otherwise.
    pub repetition: Repetition,
    /// Byte length of a fixed-length value, [`UNSET`] for every other physical type.
    pub length: i32,
    /// Number of decimal digits, [`UNSET`] unless the field holds decimals.
    pub precision: i32,
    /// Number of digits behind the decimal point, [`UNSET`] unless the field holds decimals.
    pub scale: i32,
}

/// A primitive field of the output schema: its name and its type.
pub struct FieldModel {
    pub name: Seq<char>,
    pub ty: FieldType,
}

/// Precision and scale that a decimal annotation accepts on the physical type of `ty`.
pub open spec fn decimal_fits(ty: FieldType) -> bool {
    &&& ty.precision >= 1
    &&& 0 <= ty.scale <= ty.precision
    &&& match ty.physical {
        PhysicalType::INT32 => ty.precision <= 9,
        PhysicalType::INT64 => ty.precision <= 18,
        PhysicalType::BYTE_ARRAY => true,
        _ => false,
    }
}

/// Combinations of physical type and annotation that are known to make a valid primitive
/// field. This covers the fields the column strategies ask for; the output format accepts
/// more.
pub open spec fn annotation_fits(ty: FieldType) -> bool {
    &&& ty.physical == PhysicalType::FIXED_LEN_BYTE_ARRAY ==> ty.length >= 0
    &&& match ty.annotation {
        ConvertedType::NONE => true,
        ConvertedType::UTF8 => ty.physical == PhysicalType::BYTE_ARRAY,
        ConvertedType::DECIMAL => decimal_fits(ty),
        ConvertedType::DATE
        | ConvertedType::TIME_MILLIS
        | ConvertedType::INT_8
        | ConvertedType::INT_16
        | ConvertedType::INT_32
        | ConvertedType::UINT_8 => ty.physical == PhysicalType::INT32,
        ConvertedType::TIME_MICROS
        | ConvertedType::TIMESTAMP_MILLIS
        | ConvertedType::TIMESTAMP_MICROS
        | ConvertedType::INT_64 => ty.physical == PhysicalType::INT64,
        _ => false,
    }
}

/// Name and type that the primitive schema node `node` was built with.
pub uninterp spec fn primitive_field(node: Type) -> FieldModel;

/// Name that the group node `node` was built with.
pub uninterp spec fn group_name(node: Type) -> Seq<char>;

/// The fields of the group node `node`, in their order, each as [`primitive_field`] sees it.
pub uninterp spec fn group_fields(node: Type) -> Seq<FieldModel>;

/// `Type::primitive_type_builder(..).build()` with the converted type, repetition, length,
/// precision and scale of `ty`, and no logical type. The builder checks the annotation
/// against the physical type and accepts at least what [`annotation_fits`] lists. The node
/// it returns holds the name and the values it was given.
#[verifier::external_body]
pub(crate) fn primitive_node(name: &str, ty: &FieldType) -> (node: Result<Type, ParquetError>)
    ensures
        annotation_fits(*ty) ==> node is Ok,
        node matches Ok(built) ==> primitive_field(built) == (FieldModel { name: name@, ty: *ty }),
{
    Type::primitive_type_builder(name, ty.physical)
        .with_converted_type(ty.annotation)
        .with_repetition(ty.repetition)
        .with_length(ty.length)
        .with_precision(ty.precision)
        .with_scale(ty.scale)
        .build()
}

/// `Type::group_type_builder(name).with_fields(fields).build()`. Without a logical type the
/// builder checks nothing: it returns a group of that name holding `fields` in their order.
#[verifier::external_body]
pub(crate) fn group_node(name: &str, fields: Vec<Arc<Type>>) -> (node: Result<Type, ParquetError>)
    ensures
        node is Ok,
        node matches Ok(built) ==> group_name(built) == name@ && group_fields(built) == Seq::new(
            fields.len() as nat,
            |i: int| primitive_field(*fields[i]),
        ),
{
    Type::group_type_builder(name).with_fields(fields).build()
}

/// `Arc::clone` hands out another pointer to the same node.
#[verifier::external_body]
pub(crate) fn share(node: &Arc<Type>) -> (shared: Arc<Type>)
    ensures
        shared == *node,
{
    Arc::clone(node)
}

} // verus!
