//! What a record type tells the layer about itself, and the way from a
//! JSON document to a record.

use vstd::prelude::*;
use vstd::string::*;

use crate::error::Error;
use crate::model::{with_field, FieldModel, Row, Value};
use crate::query::executor::Scalar;
use crate::query::state::slice_texts;

verus! {

/// A type whose values are the rows of a table.
pub trait Model: Sized {
    /// The name of the table.
    fn table_name() -> &'static str;

    /// The name of the primary key column.
    fn primary_key() -> &'static str {
        "id"
    }

    /// The value of the primary key, if the row has one yet.
    fn primary_key_value(&self) -> Option<Value>;

    /// The row's values, each under its column's name.
    fn to_values(&self) -> Row;

    /// The names of the columns but the primary key.
    fn columns() -> Vec<&'static str>;

    /// The names of all columns: the primary key that `primary_key` names,
    /// then the columns that `columns` names.
    fn all_columns() -> (out: Vec<&'static str>)
        ensures
            exists|key: &'static str, columns: Vec<&'static str>|
                call_ensures(Self::primary_key, (), key) && call_ensures(
                    Self::columns,
                    (),
                    columns,
                ) && slice_texts(out@) == seq![key@] + slice_texts(columns@),
    {
        key_first(Self::primary_key(), Self::columns())
    }
}

/// `table` is the table that the model names.
pub open spec fn names_table<T: Model>(table: Seq<char>) -> bool {
    exists|t: &'static str| call_ensures(T::table_name, (), t) && t@ == table
}

/// `key` is the primary key column that the model names.
pub open spec fn names_key<T: Model>(key: Seq<char>) -> bool {
    exists|k: &'static str| call_ensures(T::primary_key, (), k) && k@ == key
}

/// `columns` are all the columns that the model names, the primary key
/// first.
pub open spec fn names_all_columns<T: Model>(columns: Seq<Seq<char>>) -> bool {
    exists|c: Vec<&'static str>| call_ensures(T::all_columns, (), c) && slice_texts(c@) == columns
}

/// The primary key that a model may hold, as a value.
pub open spec fn held_key(key: Option<Value>) -> Option<Scalar> {
    match key {
        Some(k) => Some(k@),
        None => None,
    }
}

/// `data` is the record of the values that `model` gives of itself.
pub open spec fn gives_values<T: Model>(model: &T, data: Seq<FieldModel>) -> bool {
    exists|row: Row| call_ensures(T::to_values, (model,), row) && row@ == data
}

/// `key` is the primary key that `model` gives of itself.
pub open spec fn gives_key<T: Model>(model: &T, key: Option<Scalar>) -> bool {
    exists|k: Option<Value>| call_ensures(T::primary_key_value, (model,), k) && held_key(k) == key
}

/// `columns` with `key` before them.
pub fn key_first(key: &'static str, columns: Vec<&'static str>) -> (out: Vec<&'static str>)
    ensures
        slice_texts(out@) == seq![key@] + slice_texts(columns@),
{
    let mut out: Vec<&'static str> = Vec::new();
    out.push(key);
    let mut i: usize = 0;
    while i < columns.len()
        invariant
            i <= columns.len(),
            out@.len() == i + 1,
            out@[0]@ == key@,
            forall|j: int| 0 <= j < i ==> out@[j + 1]@ == columns@[j]@,
        decreases columns.len() - i,
    {
        out.push(columns[i]);
        i += 1;
    }
    assert(slice_texts(out@) =~= seq![key@] + slice_texts(columns@));
    out
}

/// What a JSON number reads as: as a 64-bit integer and as a double, each
/// where the number can be read so. A double is held as its IEEE 754 bit
/// pattern.
pub struct JsonNumber {
    pub as_i64: Option<i64>,
    pub as_double: Option<u64>,
}

/// The value of a member of a JSON object, as far as a record can hold
/// it: an array or an object inside is only known to be one.
pub enum JsonCell {
    Null,
    Bool(bool),
    Number(JsonNumber),
    String(String),
    Nested,
}

/// A member of a JSON object.
pub struct JsonMember {
    pub name: String,
    pub value: JsonCell,
}

/// A JSON document: an object with its members in order, or anything else.
pub enum JsonDocument {
    Object(Vec<JsonMember>),
    Other,
}

/// The value that a record holds for a member of a JSON object: null and
/// booleans as they are; a number as a 64-bit integer if it reads as one,
/// else as a double if it reads as one, else null; text as it is; null for
/// an array or an object.
pub open spec fn json_cell_value(cell: JsonCell) -> Scalar {
    match cell {
        JsonCell::Null => Scalar::Null,
        JsonCell::Bool(b) => Scalar::Bool(b),
        JsonCell::Number(n) => if n.as_i64 is Some {
            Scalar::I64(n.as_i64->0)
        } else if n.as_double is Some {
            Scalar::F64(n.as_double->0)
        } else {
            Scalar::Null
        },
        JsonCell::String(s) => Scalar::Text(s@),
        JsonCell::Nested => Scalar::Null,
    }
}

/// The record of the members of a JSON object: each member's value under
/// the member's name, in order; of two members of one name the later one's
/// value stands, in the place of the earlier.
pub open spec fn record_of_members(members: Seq<JsonMember>) -> Seq<FieldModel>
    decreases members.len(),
{
    if members.len() == 0 {
        Seq::empty()
    } else {
        with_field(
            record_of_members(members.drop_last()),
            members.last().name@,
            json_cell_value(members.last().value),
        )
    }
}

/// Chooses the value that a record holds for a member of a JSON object.
pub fn json_cell_to_value(cell: &JsonCell) -> (v: Value)
    ensures
        v@ == json_cell_value(*cell),
{
    match cell {
        JsonCell::Null => Value::Null,
        JsonCell::Bool(b) => Value::Bool(*b),
        JsonCell::Number(n) => {
            if let Some(i) = n.as_i64 {
                Value::I64(i)
            } else if let Some(bits) = n.as_double {
                Value::F64(bits)
            } else {
                Value::Null
            }
        },
        JsonCell::String(s) => Value::String(s.clone()),
        JsonCell::Nested => Value::Null,
    }
}

/// Makes the record of a JSON document, which must be an object.
pub fn json_to_row(document: &JsonDocument) -> (r: Result<Row, Error>)
    ensures
        match r {
            Ok(row) => document matches JsonDocument::Object(members) && row@
                == record_of_members(members@),
            Err(e) => {
                &&& document is Other
                &&& e is SerializationError
                &&& e.detail() == "Expected JSON object"@
            },
        },
{
    match document {
        JsonDocument::Object(members) => {
            let mut row = Row::new();
            let mut i: usize = 0;
            assert(members@.take(0) =~= Seq::<JsonMember>::empty());
            while i < members.len()
                invariant
                    i <= members.len(),
                    row@ == record_of_members(members@.take(i as int)),
                decreases members.len() - i,
            {
                proof {
                    assert(members@.take(i + 1).drop_last() =~= members@.take(i as int));
                    assert(members@.take(i + 1).last() == members@[i as int]);
                }
                row.insert(members[i].name.clone(), json_cell_to_value(&members[i].value));
                i += 1;
            }
            assert(members@.take(members.len() as int) =~= members@);
            Ok(row)
        },
        JsonDocument::Other => Err(
            Error::SerializationError(String::from_str("Expected JSON object")),
        ),
    }
}

/// A type that can be made from a record.
pub trait FromRow: Sized {
    /// Makes a value from a record, or says what the record lacks.
    fn from_row(row: &Row) -> Result<Self, Error>;

    /// Makes a value from a JSON document: what `from_row` makes of the
    /// record of the document, which must be an object.
    fn from_json(value: &JsonDocument) -> (r: Result<Self, Error>)
        ensures
            match *value {
                JsonDocument::Object(members) => exists|row: Row|
                    row@ == record_of_members(members@) && call_ensures(
                        Self::from_row,
                        (&row,),
                        r,
                    ),
                JsonDocument::Other => {
                    &&& r matches Err(e)
                    &&& e is SerializationError
                    &&& e.detail() == "Expected JSON object"@
                },
            },
    {
        match json_to_row(value) {
            Ok(row) => Self::from_row(&row),
            Err(e) => Err(e),
        }
    }
}

} // verus!
