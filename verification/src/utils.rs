//! From what a driver reads in a row to a record: the choice of each
//! cell's value, and the text that stands for bytes.

use vstd::prelude::*;
use vstd::string::*;

use crate::model::{with_field, FieldModel, Row, Value};
use crate::query::executor::Scalar;

verus! {

/// The 64 characters that stand for the values of six bits.
pub open spec fn base64_alphabet() -> Seq<char> {
    "ABCDEFGHIJKLMNOPQRSTUVWXYZabcdefghijklmnopqrstuvwxyz0123456789+/"@
}

/// The character that stands for the six-bit value `v`.
pub open spec fn sextet_char(v: int) -> char
    recommends
        0 <= v < 64,
{
    base64_alphabet()[v]
}

/// The four characters of a group of one to three bytes: the group's bits,
/// six at a time from the top, with `=` where the group has no byte to take
/// bits from.
pub open spec fn base64_group(g: Seq<u8>) -> Seq<char>
    recommends
        1 <= g.len() <= 3,
{
    let b1 = g[0] as int;
    let b2 = if g.len() > 1 {
        g[1] as int
    } else {
        0
    };
    let b3 = if g.len() > 2 {
        g[2] as int
    } else {
        0
    };
    seq![
        sextet_char(b1 / 4),
        sextet_char((b1 % 4) * 16 + b2 / 16),
        if g.len() > 1 {
            sextet_char((b2 % 16) * 4 + b3 / 64)
        } else {
            '='
        },
        if g.len() > 2 {
            sextet_char(b3 % 64)
        } else {
            '='
        },
    ]
}

/// Where the last group of `len` bytes begins.
pub open spec fn last_group_start(len: nat) -> int
    recommends
        len > 0,
{
    ((len - 1) / 3) * 3
}

/// The base64 text of `bytes`, padded: the bytes in groups of three from
/// the front, four characters for each group.
pub open spec fn base64(bytes: Seq<u8>) -> Seq<char>
    decreases bytes.len(),
{
    if bytes.len() == 0 {
        Seq::empty()
    } else {
        let start = last_group_start(bytes.len());
        base64(bytes.take(start)) + base64_group(bytes.skip(start))
    }
}

/// Base64 text has four characters for every three bytes begun.
pub proof fn lemma_base64_length(bytes: Seq<u8>)
    ensures
        base64(bytes).len() == 4 * ((bytes.len() + 2) / 3),
    decreases bytes.len(),
{
    if bytes.len() > 0 {
        let start = last_group_start(bytes.len());
        assert(0 <= start < bytes.len());
        assert(bytes.len() - start <= 3);
        assert(start % 3 == 0);
        lemma_base64_length(bytes.take(start));
        assert(bytes.take(start).len() == start);
        assert((start + 2) / 3 == start / 3);
        assert((bytes.len() + 2) / 3 == start / 3 + 1);
    }
}

/// The one-character text of a six-bit value.
fn sextet_str(v: u8) -> (s: &'static str)
    requires
        v < 64,
    ensures
        s@ == seq![sextet_char(v as int)],
{
    let alphabet = "ABCDEFGHIJKLMNOPQRSTUVWXYZabcdefghijklmnopqrstuvwxyz0123456789+/";
    proof {
        reveal_strlit("ABCDEFGHIJKLMNOPQRSTUVWXYZabcdefghijklmnopqrstuvwxyz0123456789+/");
    }
    let s = alphabet.substring_char(v as usize, v as usize + 1);
    assert(s@ =~= seq![sextet_char(v as int)]);
    s
}

/// Writes `bytes` as padded base64 text.
pub fn base64_encode(bytes: &[u8]) -> (out: String)
    ensures
        out@ == base64(bytes@),
{
    let mut out = String::new();
    let mut i: usize = 0;
    assert(bytes@.take(0) =~= Seq::<u8>::empty());
    while i < bytes.len()
        invariant
            i <= bytes.len(),
            i % 3 == 0 || i == bytes.len(),
            out@ == base64(bytes@.take(i as int)),
        decreases bytes.len() - i,
    {
        let remaining = bytes.len() - i;
        let step: usize = if remaining >= 3 {
            3
        } else {
            remaining
        };
        let b1 = bytes[i];
        let b2 = if remaining > 1 {
            bytes[i + 1]
        } else {
            0
        };
        let b3 = if remaining > 2 {
            bytes[i + 2]
        } else {
            0
        };
        let ghost group = bytes@.subrange(i as int, i + step);
        let ghost before = out@;
        out.append(sextet_str(b1 / 4));
        out.append(sextet_str((b1 % 4) * 16 + b2 / 16));
        proof {
            reveal_strlit("=");
        }
        if remaining > 1 {
            out.append(sextet_str((b2 % 16) * 4 + b3 / 64));
        } else {
            out.append("=");
        }
        if remaining > 2 {
            out.append(sextet_str(b3 % 64));
        } else {
            out.append("=");
        }
        proof {
            assert(out@ =~= before + base64_group(group));
            let next = bytes@.take(i + step);
            assert(last_group_start(next.len()) == i);
            assert(next.take(i as int) =~= bytes@.take(i as int));
            assert(next.skip(i as int) =~= group);
        }
        i += step;
    }
    assert(bytes@.take(bytes.len() as int) =~= bytes@);
    out
}

/// What a driver reads in one cell of a row when the cell is tried as each
/// type in turn: under each type the value, or nothing where the cell
/// cannot be read as that type. A double is held as its IEEE 754 bit
/// pattern.
pub struct CellReading {
    pub as_i64: Option<i64>,
    pub as_i32: Option<i32>,
    pub as_double: Option<u64>,
    pub as_bool: Option<bool>,
    pub as_text: Option<String>,
    pub as_bytes: Option<Vec<u8>>,
}

/// A column of a row as the driver reads it.
pub struct ColumnReading {
    pub name: String,
    pub cell: CellReading,
}

/// What a cell reading is.
pub struct ReadingModel {
    pub as_i64: Option<i64>,
    pub as_i32: Option<i32>,
    pub as_double: Option<u64>,
    pub as_bool: Option<bool>,
    pub as_text: Option<Seq<char>>,
    pub as_bytes: Option<Seq<u8>>,
}

impl View for CellReading {
    type V = ReadingModel;

    open spec fn view(&self) -> ReadingModel {
        ReadingModel {
            as_i64: self.as_i64,
            as_i32: self.as_i32,
            as_double: self.as_double,
            as_bool: self.as_bool,
            as_text: match self.as_text {
                Some(t) => Some(t@),
                None => None,
            },
            as_bytes: match self.as_bytes {
                Some(b) => Some(b@),
                None => None,
            },
        }
    }
}

/// The value of a cell that is no integer: the first reading that
/// succeeds, tried as a double, then as a boolean, then as text, then as
/// bytes, which are written as base64 text; null if none does.
pub open spec fn non_integer_value(r: ReadingModel) -> Scalar {
    if r.as_double is Some {
        Scalar::F64(r.as_double->0)
    } else if r.as_bool is Some {
        Scalar::Bool(r.as_bool->0)
    } else if r.as_text is Some {
        Scalar::Text(r.as_text->0)
    } else if r.as_bytes is Some {
        Scalar::Text(base64(r.as_bytes->0))
    } else {
        Scalar::Null
    }
}

/// The value of a cell of a SQLite row: a 64-bit integer if it reads as
/// one, else what it reads as first of the other types.
pub open spec fn sqlite_cell_value(r: ReadingModel) -> Scalar {
    if r.as_i64 is Some {
        Scalar::I64(r.as_i64->0)
    } else {
        non_integer_value(r)
    }
}

/// The value of a cell of a MySQL row: a 64-bit integer if it reads as a
/// 64-bit or, failing that, a 32-bit integer, else what it reads as first
/// of the other types.
pub open spec fn mysql_cell_value(r: ReadingModel) -> Scalar {
    if r.as_i64 is Some {
        Scalar::I64(r.as_i64->0)
    } else if r.as_i32 is Some {
        Scalar::I64(r.as_i32->0 as i64)
    } else {
        non_integer_value(r)
    }
}

/// The record of a row: each column's value under the column's name, in
/// column order; of two columns of one name the later one's value stands,
/// in the place of the earlier.
pub open spec fn record_of(
    columns: Seq<ColumnReading>,
    value_of: spec_fn(ReadingModel) -> Scalar,
) -> Seq<FieldModel>
    decreases columns.len(),
{
    if columns.len() == 0 {
        Seq::empty()
    } else {
        with_field(
            record_of(columns.drop_last(), value_of),
            columns.last().name@,
            value_of(columns.last().cell@),
        )
    }
}

/// Chooses the value of a cell that is no integer.
fn non_integer_cell(cell: &CellReading) -> (v: Value)
    ensures
        v@ == non_integer_value(cell@),
{
    if let Some(bits) = cell.as_double {
        Value::F64(bits)
    } else if let Some(b) = cell.as_bool {
        Value::Bool(b)
    } else if let Some(t) = &cell.as_text {
        Value::String(t.clone())
    } else if let Some(bytes) = &cell.as_bytes {
        Value::String(base64_encode(bytes.as_slice()))
    } else {
        Value::Null
    }
}

/// Chooses the value of a cell of a SQLite row.
pub fn sqlite_cell_to_value(cell: &CellReading) -> (v: Value)
    ensures
        v@ == sqlite_cell_value(cell@),
{
    if let Some(n) = cell.as_i64 {
        Value::I64(n)
    } else {
        non_integer_cell(cell)
    }
}

/// Chooses the value of a cell of a MySQL row.
pub fn mysql_cell_to_value(cell: &CellReading) -> (v: Value)
    ensures
        v@ == mysql_cell_value(cell@),
{
    if let Some(n) = cell.as_i64 {
        Value::I64(n)
    } else if let Some(n) = cell.as_i32 {
        Value::I64(n as i64)
    } else {
        non_integer_cell(cell)
    }
}

/// Makes the record of a SQLite row.
pub fn sqlite_row_to_json(row: &Vec<ColumnReading>) -> (record: Row)
    ensures
        record@ == record_of(row@, |r: ReadingModel| sqlite_cell_value(r)),
{
    let ghost value_of = |r: ReadingModel| sqlite_cell_value(r);
    let mut record = Row::new();
    let mut i: usize = 0;
    assert(row@.take(0) =~= Seq::<ColumnReading>::empty());
    while i < row.len()
        invariant
            i <= row.len(),
            value_of == (|r: ReadingModel| sqlite_cell_value(r)),
            record@ == record_of(row@.take(i as int), value_of),
        decreases row.len() - i,
    {
        proof {
            assert(row@.take(i + 1).drop_last() =~= row@.take(i as int));
            assert(row@.take(i + 1).last() == row@[i as int]);
        }
        record.insert(row[i].name.clone(), sqlite_cell_to_value(&row[i].cell));
        i += 1;
    }
    assert(row@.take(row.len() as int) =~= row@);
    record
}

/// Makes the record of a MySQL row.
pub fn mysql_row_to_json(row: &Vec<ColumnReading>) -> (record: Row)
    ensures
        record@ == record_of(row@, |r: ReadingModel| mysql_cell_value(r)),
{
    let ghost value_of = |r: ReadingModel| mysql_cell_value(r);
    let mut record = Row::new();
    let mut i: usize = 0;
    assert(row@.take(0) =~= Seq::<ColumnReading>::empty());
    while i < row.len()
        invariant
            i <= row.len(),
            value_of == (|r: ReadingModel| mysql_cell_value(r)),
            record@ == record_of(row@.take(i as int), value_of),
        decreases row.len() - i,
    {
        proof {
            assert(row@.take(i + 1).drop_last() =~= row@.take(i as int));
            assert(row@.take(i + 1).last() == row@[i as int]);
        }
        record.insert(row[i].name.clone(), mysql_cell_to_value(&row[i].cell));
        i += 1;
    }
    assert(row@.take(row.len() as int) =~= row@);
    record
}

} // verus!
