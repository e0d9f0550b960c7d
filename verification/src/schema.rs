//! Schemas and their normalization.
//!
//! A schema is an ordered sequence of columns, each with a name, a logical type
//! and a nullability flag. Normalization replaces the type of every column by
//! one target type and keeps names, order and nullability.

use crate::error::SaError;
use crate::text::{spec_to_lowercase, str_eq, to_lowercase};
use vstd::prelude::*;
use vstd::string::*;

verus! {

/// The logical type of a column. Types that carry parameters or children are
/// not told apart: they are `Other`.
#[derive(Clone, Copy, Debug, PartialEq, Eq, Structural)]
pub enum DataType {
    Null,
    Boolean,
    Int8,
    Int16,
    Int32,
    Int64,
    UInt8,
    UInt16,
    UInt32,
    UInt64,
    Float16,
    Float32,
    Float64,
    Utf8,
    LargeUtf8,
    Binary,
    LargeBinary,
    Date32,
    Date64,
    Other,
}

impl DataType {
    /// The name of the type.
    pub open spec fn spec_name(&self) -> Seq<char> {
        match self {
            DataType::Null => "Null"@,
            DataType::Boolean => "Boolean"@,
            DataType::Int8 => "Int8"@,
            DataType::Int16 => "Int16"@,
            DataType::Int32 => "Int32"@,
            DataType::Int64 => "Int64"@,
            DataType::UInt8 => "UInt8"@,
            DataType::UInt16 => "UInt16"@,
            DataType::UInt32 => "UInt32"@,
            DataType::UInt64 => "UInt64"@,
            DataType::Float16 => "Float16"@,
            DataType::Float32 => "Float32"@,
            DataType::Float64 => "Float64"@,
            DataType::Utf8 => "Utf8"@,
            DataType::LargeUtf8 => "LargeUtf8"@,
            DataType::Binary => "Binary"@,
            DataType::LargeBinary => "LargeBinary"@,
            DataType::Date32 => "Date32"@,
            DataType::Date64 => "Date64"@,
            DataType::Other => "Other"@,
        }
    }

    /// The name of the type.
    pub fn name(&self) -> (r: &'static str)
        ensures
            r@ == self.spec_name(),
    {
        match self {
            DataType::Null => "Null",
            DataType::Boolean => "Boolean",
            DataType::Int8 => "Int8",
            DataType::Int16 => "Int16",
            DataType::Int32 => "Int32",
            DataType::Int64 => "Int64",
            DataType::UInt8 => "UInt8",
            DataType::UInt16 => "UInt16",
            DataType::UInt32 => "UInt32",
            DataType::UInt64 => "UInt64",
            DataType::Float16 => "Float16",
            DataType::Float32 => "Float32",
            DataType::Float64 => "Float64",
            DataType::Utf8 => "Utf8",
            DataType::LargeUtf8 => "LargeUtf8",
            DataType::Binary => "Binary",
            DataType::LargeBinary => "LargeBinary",
            DataType::Date32 => "Date32",
            DataType::Date64 => "Date64",
            DataType::Other => "Other",
        }
    }
}

/// A column: name, logical type, nullability.
#[derive(Debug, PartialEq, Eq)]
pub struct Field {
    pub name: String,
    pub data_type: DataType,
    pub nullable: bool,
}

/// What a column is, with its name as a sequence of characters.
pub struct FieldView {
    pub name: Seq<char>,
    pub data_type: DataType,
    pub nullable: bool,
}

impl View for Field {
    type V = FieldView;

    open spec fn view(&self) -> FieldView {
        FieldView { name: self.name@, data_type: self.data_type, nullable: self.nullable }
    }
}

impl Field {
    /// A column with the given name, type and nullability.
    pub fn new(name: &str, data_type: DataType, nullable: bool) -> (r: Field)
        ensures
            r@ == (FieldView { name: name@, data_type, nullable }),
    {
        Field { name: String::from_str(name), data_type, nullable }
    }

    /// The name of the column.
    pub fn name(&self) -> (r: &str)
        ensures
            r@ == self@.name,
    {
        self.name.as_str()
    }

    /// The logical type of the column.
    pub fn data_type(&self) -> (r: DataType)
        ensures
            r == self@.data_type,
    {
        self.data_type
    }

    /// Whether the column may hold nulls.
    pub fn is_nullable(&self) -> (r: bool)
        ensures
            r == self@.nullable,
    {
        self.nullable
    }
}

impl Clone for Field {
    fn clone(&self) -> (r: Field)
        ensures
            r@ == self@,
    {
        Field { name: self.name.clone(), data_type: self.data_type, nullable: self.nullable }
    }
}

/// An ordered sequence of columns.
#[derive(Debug, PartialEq, Eq)]
pub struct TableSchema {
    pub fields: Vec<Field>,
}

impl View for TableSchema {
    type V = Seq<FieldView>;

    open spec fn view(&self) -> Seq<FieldView> {
        Seq::new(self.fields@.len(), |i: int| self.fields@[i]@)
    }
}

/// Every column of `s` with its type replaced by `target`.
pub open spec fn spec_cast_all(s: Seq<FieldView>, target: DataType) -> Seq<FieldView> {
    Seq::new(
        s.len(),
        |i: int| FieldView { name: s[i].name, data_type: target, nullable: s[i].nullable },
    )
}

/// The schema a source is bound with: as inferred, or with every column as
/// text.
pub open spec fn spec_normalize(s: Seq<FieldView>, stringify: bool) -> Seq<FieldView> {
    if stringify {
        spec_cast_all(s, DataType::Utf8)
    } else {
        s
    }
}

impl TableSchema {
    /// The schema with the given columns.
    pub fn new(fields: Vec<Field>) -> (r: TableSchema)
        ensures
            r.fields == fields,
    {
        TableSchema { fields }
    }

    /// The schema without columns.
    pub fn empty() -> (r: TableSchema)
        ensures
            r@.len() == 0,
    {
        TableSchema { fields: Vec::new() }
    }

    /// The number of columns.
    pub fn len(&self) -> (r: usize)
        ensures
            r == self@.len(),
    {
        self.fields.len()
    }

    /// Whether the schema has no column.
    pub fn is_empty(&self) -> (r: bool)
        ensures
            r == (self@.len() == 0),
    {
        self.fields.len() == 0
    }

    /// The column at `index`, if there is one.
    pub fn field(&self, index: usize) -> (r: Option<&Field>)
        ensures
            match r {
                Some(f) => index < self@.len() && f@ == self@[index as int],
                None => index >= self@.len(),
            },
    {
        if index < self.fields.len() {
            Some(&self.fields[index])
        } else {
            None
        }
    }

    /// Replaces the type of every column by `target`; names, order and
    /// nullability stay.
    pub fn cast_all(&self, target: DataType) -> (r: TableSchema)
        ensures
            r@ == spec_cast_all(self@, target),
    {
        let mut fields: Vec<Field> = Vec::new();
        let mut i: usize = 0;
        while i < self.fields.len()
            invariant
                i <= self.fields.len(),
                fields@.len() == i,
                forall|k: int|
                    0 <= k < i ==> (#[trigger] fields@[k])@ == (FieldView {
                        name: self.fields@[k]@.name,
                        data_type: target,
                        nullable: self.fields@[k]@.nullable,
                    }),
            decreases self.fields.len() - i,
        {
            let f = &self.fields[i];
            fields.push(Field::new(f.name(), target, f.is_nullable()));
            i += 1;
        }
        let r = TableSchema { fields };
        assert(r@ =~= spec_cast_all(self@, target));
        r
    }

    /// The schema under stringify mode or as it is.
    pub fn normalize(&self, stringify: bool) -> (r: TableSchema)
        ensures
            r@ == spec_normalize(self@, stringify),
    {
        if stringify {
            self.cast_all(DataType::Utf8)
        } else {
            self.clone()
        }
    }
}

impl Clone for TableSchema {
    fn clone(&self) -> (r: TableSchema)
        ensures
            r@ == self@,
    {
        let mut fields: Vec<Field> = Vec::new();
        let mut i: usize = 0;
        while i < self.fields.len()
            invariant
                i <= self.fields.len(),
                fields@.len() == i,
                forall|k: int| 0 <= k < i ==> (#[trigger] fields@[k])@ == self.fields@[k]@,
            decreases self.fields.len() - i,
        {
            fields.push(self.fields[i].clone());
            i += 1;
        }
        let r = TableSchema { fields };
        assert(r@ =~= self@);
        r
    }
}

/// Normalization keeps the number, the order, the names and the nullability of
/// the columns, and under stringify mode every column is text.
pub proof fn law_normalize_keeps_columns(s: Seq<FieldView>, stringify: bool)
    ensures
        spec_normalize(s, stringify).len() == s.len(),
        forall|i: int|
            0 <= i < s.len() ==> {
                &&& (#[trigger] spec_normalize(s, stringify)[i]).name == s[i].name
                &&& spec_normalize(s, stringify)[i].nullable == s[i].nullable
                &&& spec_normalize(s, stringify)[i].data_type == if stringify {
                    DataType::Utf8
                } else {
                    s[i].data_type
                }
            },
{
}

/// Casting twice is casting to the second type.
pub proof fn law_cast_all_twice(s: Seq<FieldView>, first: DataType, second: DataType)
    ensures
        spec_cast_all(spec_cast_all(s, first), second) == spec_cast_all(s, second),
{
    assert(spec_cast_all(spec_cast_all(s, first), second) =~= spec_cast_all(s, second));
}

/// The type that a lower-case type name stands for: `string` is text,
/// `float` is the 64-bit floating-point type.
pub open spec fn spec_dtype_of_name(lowered: Seq<char>) -> Option<DataType> {
    if lowered == "string"@ {
        Some(DataType::Utf8)
    } else if lowered == "float"@ {
        Some(DataType::Float64)
    } else {
        None
    }
}

/// The type that the lower-case type name `lowered` stands for.
pub fn dtype_of_name(lowered: &str) -> (r: Option<DataType>)
    ensures
        r == spec_dtype_of_name(lowered@),
{
    if str_eq(lowered, "string") {
        Some(DataType::Utf8)
    } else if str_eq(lowered, "float") {
        Some(DataType::Float64)
    } else {
        None
    }
}

/// A statement or a request that cannot be planned, with the reason in words.
#[derive(Debug, PartialEq, Eq)]
pub struct PlanError {
    pub message: String,
}

/// What converting the type name `type_str` gives: the type that its lower
/// case names, or an error whose message holds the name as it was written.
pub open spec fn dtype_converted(type_str: Seq<char>, r: Result<DataType, PlanError>) -> bool {
    match r {
        Ok(t) => spec_dtype_of_name(spec_to_lowercase(type_str)) == Some(t),
        Err(e) => spec_dtype_of_name(spec_to_lowercase(type_str)).is_none() && e.message@
            == "Unsupported data type: "@ + type_str,
    }
}

/// The type that the type name `type_str` stands for, whatever its case.
pub fn convert_dtype(type_str: &str) -> (r: Result<DataType, PlanError>)
    ensures
        dtype_converted(type_str@, r),
{
    let lowered = to_lowercase(type_str);
    match dtype_of_name(lowered.as_str()) {
        Some(t) => Ok(t),
        None => Err(
            PlanError { message: String::from_str("Unsupported data type: ").concat(type_str) },
        ),
    }
}

/// `s` with every column cast to the type that `lowered` names. A schema
/// without columns is cast to itself whatever the name; otherwise an unknown
/// name is an error.
pub open spec fn spec_cast_to_named(s: Seq<FieldView>, lowered: Seq<char>) -> Result<
    Seq<FieldView>,
    SaError,
> {
    if s.len() == 0 {
        Ok(s)
    } else {
        match spec_dtype_of_name(lowered) {
            Some(t) => Ok(spec_cast_all(s, t)),
            None => Err(SaError::UnsupportedDataType),
        }
    }
}

/// A schema or an error, by the view of the schema.
pub open spec fn schema_result_view(r: Result<TableSchema, SaError>) -> Result<
    Seq<FieldView>,
    SaError,
> {
    match r {
        Ok(s) => Ok(s@),
        Err(e) => Err(e),
    }
}

/// Casts every column of `schema` to the type that `type_str` names, whatever
/// its case.
pub fn cast_schema_to_named(schema: &TableSchema, type_str: &str) -> (r: Result<
    TableSchema,
    SaError,
>)
    ensures
        schema_result_view(r) == spec_cast_to_named(schema@, spec_to_lowercase(type_str@)),
{
    if schema.is_empty() {
        let r = TableSchema::empty();
        assert(r@ =~= schema@);
        return Ok(r);
    }
    match convert_dtype(type_str) {
        Ok(t) => Ok(schema.cast_all(t)),
        Err(_) => Err(SaError::UnsupportedDataType),
    }
}

} // verus!
