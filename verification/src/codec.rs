//! Decoding of relational cells into dynamic values.
//!
//! A column declares a type; a cell of that column is either absent or holds a
//! value of the native width that belongs to the type. Decoding maps an absent
//! cell to `Null` and a present one to the variant that belongs to its type,
//! without loss: the cell can be told again from the value and the type.

use vstd::prelude::*;

verus! {

/// The declared type of a column.
#[derive(Debug, Clone, Copy, PartialEq, Eq, Structural)]
pub enum ColumnType {
    /// A signed integer of 8 bits.
    Char,
    /// A signed integer of 16 bits.
    Int2,
    /// A signed integer of 32 bits.
    Int4,
    /// A signed integer of 64 bits.
    Int8,
    /// An unsigned integer of 32 bits.
    Oid,
    /// A binary32 number.
    Float4,
    /// A binary64 number.
    Float8,
    /// A sequence of bytes.
    Bytea,
    /// A text.
    Text,
    /// A boolean.
    Bool,
    /// Any type that decoding does not know.
    Other,
}

/// A binary floating-point number, held as its bit pattern in its own width.
#[derive(Debug, Clone, Copy, PartialEq, Eq, Structural)]
pub enum FloatBits {
    Single(u32),
    Double(u64),
}

/// What a present cell holds, in the native width of its column's type.
#[derive(Debug, Clone, PartialEq, Eq)]
pub enum Native {
    I8(i8),
    I16(i16),
    I32(i32),
    I64(i64),
    U32(u32),
    /// A binary32 number as its bit pattern.
    F32(u32),
    /// A binary64 number as its bit pattern.
    F64(u64),
    Bytes(Vec<u8>),
    Str(String),
    Bool(bool),
}

/// The value that a cell is decoded into.
#[derive(Debug, Clone, PartialEq, Eq)]
pub enum DynamicValue {
    Null,
    Integer(i64),
    Float(FloatBits),
    Boolean(bool),
    Bytes(Vec<u8>),
    Text(String),
}

impl ColumnType {
    /// Decoding knows this type.
    pub open spec fn supported(self) -> bool {
        self != ColumnType::Other
    }

    /// Decoding knows this type.
    pub fn is_supported(&self) -> (known: bool)
        ensures
            known == self.supported(),
    {
        match self {
            ColumnType::Other => false,
            _ => true,
        }
    }
}

impl Native {
    /// The column type whose native width this value has.
    pub open spec fn type_of(self) -> ColumnType {
        match self {
            Native::I8(_) => ColumnType::Char,
            Native::I16(_) => ColumnType::Int2,
            Native::I32(_) => ColumnType::Int4,
            Native::I64(_) => ColumnType::Int8,
            Native::U32(_) => ColumnType::Oid,
            Native::F32(_) => ColumnType::Float4,
            Native::F64(_) => ColumnType::Float8,
            Native::Bytes(_) => ColumnType::Bytea,
            Native::Str(_) => ColumnType::Text,
            Native::Bool(_) => ColumnType::Bool,
        }
    }

    /// The column type whose native width this value has.
    pub fn column_type(&self) -> (ty: ColumnType)
        ensures
            ty == self.type_of(),
            ty.supported(),
    {
        match self {
            Native::I8(_) => ColumnType::Char,
            Native::I16(_) => ColumnType::Int2,
            Native::I32(_) => ColumnType::Int4,
            Native::I64(_) => ColumnType::Int8,
            Native::U32(_) => ColumnType::Oid,
            Native::F32(_) => ColumnType::Float4,
            Native::F64(_) => ColumnType::Float8,
            Native::Bytes(_) => ColumnType::Bytea,
            Native::Str(_) => ColumnType::Text,
            Native::Bool(_) => ColumnType::Bool,
        }
    }
}

/// A cell can stand in a column of the declared type: the type is one that
/// decoding knows, and the cell is absent or holds a value of its width.
pub open spec fn fits(cell: Option<Native>, col_type: ColumnType) -> bool {
    match cell {
        None => col_type.supported(),
        Some(native) => native.type_of() == col_type,
    }
}

/// The value that a cell is decoded into.
pub open spec fn decoded(cell: Option<Native>) -> DynamicValue {
    match cell {
        None => DynamicValue::Null,
        Some(Native::I8(v)) => DynamicValue::Integer(v as i64),
        Some(Native::I16(v)) => DynamicValue::Integer(v as i64),
        Some(Native::I32(v)) => DynamicValue::Integer(v as i64),
        Some(Native::I64(v)) => DynamicValue::Integer(v),
        Some(Native::U32(v)) => DynamicValue::Integer(v as i64),
        Some(Native::F32(bits)) => DynamicValue::Float(FloatBits::Single(bits)),
        Some(Native::F64(bits)) => DynamicValue::Float(FloatBits::Double(bits)),
        Some(Native::Bytes(bytes)) => DynamicValue::Bytes(bytes),
        Some(Native::Str(text)) => DynamicValue::Text(text),
        Some(Native::Bool(b)) => DynamicValue::Boolean(b),
    }
}

/// The variant that values of a column type are decoded into.
pub open spec fn variant_of(col_type: ColumnType, value: DynamicValue) -> bool {
    match col_type {
        ColumnType::Char | ColumnType::Int2 | ColumnType::Int4 | ColumnType::Int8 | ColumnType::Oid =>
            value is Integer,
        ColumnType::Float4 | ColumnType::Float8 => value is Float,
        ColumnType::Bytea => value is Bytes,
        ColumnType::Text => value is Text,
        ColumnType::Bool => value is Boolean,
        ColumnType::Other => false,
    }
}

/// The cell of a column of the declared type that a value was decoded from.
pub open spec fn recovered(value: DynamicValue, col_type: ColumnType) -> Option<Native> {
    match (value, col_type) {
        (DynamicValue::Integer(v), ColumnType::Char) => Some(Native::I8(v as i8)),
        (DynamicValue::Integer(v), ColumnType::Int2) => Some(Native::I16(v as i16)),
        (DynamicValue::Integer(v), ColumnType::Int4) => Some(Native::I32(v as i32)),
        (DynamicValue::Integer(v), ColumnType::Int8) => Some(Native::I64(v)),
        (DynamicValue::Integer(v), ColumnType::Oid) => Some(Native::U32(v as u32)),
        (DynamicValue::Float(FloatBits::Single(bits)), _) => Some(Native::F32(bits)),
        (DynamicValue::Float(FloatBits::Double(bits)), _) => Some(Native::F64(bits)),
        (DynamicValue::Bytes(bytes), _) => Some(Native::Bytes(bytes)),
        (DynamicValue::Text(text), _) => Some(Native::Str(text)),
        (DynamicValue::Boolean(b), _) => Some(Native::Bool(b)),
        _ => None,
    }
}

/// Decodes a cell of a column of the declared type.
pub fn into_value(cell: Option<Native>, col_type: &ColumnType) -> (value: DynamicValue)
    requires
        fits(cell, *col_type),
    ensures
        value == decoded(cell),
{
    match cell {
        None => DynamicValue::Null,
        Some(Native::I8(v)) => DynamicValue::Integer(v as i64),
        Some(Native::I16(v)) => DynamicValue::Integer(v as i64),
        Some(Native::I32(v)) => DynamicValue::Integer(v as i64),
        Some(Native::I64(v)) => DynamicValue::Integer(v),
        Some(Native::U32(v)) => DynamicValue::Integer(v as i64),
        Some(Native::F32(bits)) => DynamicValue::Float(FloatBits::Single(bits)),
        Some(Native::F64(bits)) => DynamicValue::Float(FloatBits::Double(bits)),
        Some(Native::Bytes(bytes)) => DynamicValue::Bytes(bytes),
        Some(Native::Str(text)) => DynamicValue::Text(text),
        Some(Native::Bool(b)) => DynamicValue::Boolean(b),
    }
}

/// Decoding loses nothing: a present cell gives the variant of its column's
/// type, from which the cell can be told again; an absent cell gives `Null`.
pub proof fn lemma_decoding_is_lossless(cell: Option<Native>, col_type: ColumnType)
    requires
        fits(cell, col_type),
    ensures
        cell is None <==> decoded(cell) is Null,
        cell is Some ==> variant_of(col_type, decoded(cell)),
        recovered(decoded(cell), col_type) == cell,
{
}

/// Whether a cell can stand in a column of the declared type.
pub fn cell_fits(cell: &Option<Native>, col_type: &ColumnType) -> (ok: bool)
    ensures
        ok == fits(*cell, *col_type),
{
    match cell {
        None => col_type.is_supported(),
        Some(native) => native.column_type() == *col_type,
    }
}

/// A column of a row: its name, its declared type, and the row's cell in it.
#[derive(Debug, Clone, PartialEq, Eq)]
pub struct Column {
    pub name: String,
    pub col_type: ColumnType,
    pub cell: Option<Native>,
}

/// A field of a decoded row: the column's name and the decoded value.
#[derive(Debug, Clone, PartialEq, Eq)]
pub struct Field {
    pub name: String,
    pub value: DynamicValue,
}

/// The field that a column is decoded into.
pub open spec fn decoded_field(column: Column) -> Field {
    Field { name: column.name, value: decoded(column.cell) }
}

/// Every cell of the row can stand in its column.
pub open spec fn row_fits(columns: Seq<Column>) -> bool {
    forall|i: int| 0 <= i < columns.len() ==> fits((#[trigger] columns[i]).cell, columns[i].col_type)
}

/// Whether every cell of the row can stand in its column.
pub fn row_is_decodable(columns: &Vec<Column>) -> (ok: bool)
    ensures
        ok == row_fits(columns@),
{
    let mut i: usize = 0;
    while i < columns.len()
        invariant
            i <= columns.len(),
            forall|j: int| 0 <= j < i ==> fits((#[trigger] columns@[j]).cell, columns@[j].col_type),
        decreases columns.len() - i,
    {
        if !cell_fits(&columns[i].cell, &columns[i].col_type) {
            return false;
        }
        i += 1;
    }
    true
}

/// Decodes a row column by column: one field for each column, in the order of
/// the columns, under the column's name.
pub fn decode_row(columns: Vec<Column>) -> (fields: Vec<Field>)
    requires
        row_fits(columns@),
    ensures
        fields@ == columns@.map_values(|column: Column| decoded_field(column)),
{
    let mut fields: Vec<Field> = Vec::new();
    for column in it: columns
        invariant
            row_fits(columns@),
            it.seq() == columns@,
            fields@ == columns@.take(it.index() as int).map_values(|column: Column| decoded_field(column)),
    {
        let Column { name, col_type, cell } = column;
        let value = into_value(cell, &col_type);
        fields.push(Field { name, value });
        assert(fields@ =~= columns@.take(it.index() + 1).map_values(
            |column: Column| decoded_field(column),
        ));
    }
    fields
}

} // verus!
