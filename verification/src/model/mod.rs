//! Stored values and the records that carry them.

pub mod crud;
pub mod traits;

use vstd::prelude::*;
use vstd::string::*;

use crate::query::executor::{QueryValue, Scalar};
use crate::text::{i64_to_string, signed_decimal};

pub use crud::{ModelCrud, ModelQuery};
pub use traits::{FromRow, Model};

verus! {

/// A value that a field of a record holds.
#[derive(Debug, PartialEq)]
pub enum Value {
    Null,
    Bool(bool),
    I32(i32),
    I64(i64),
    /// A double, held as its IEEE 754 bit pattern.
    F64(u64),
    String(String),
}

impl View for Value {
    type V = Scalar;

    open spec fn view(&self) -> Scalar {
        match self {
            Value::Null => Scalar::Null,
            Value::Bool(b) => Scalar::Bool(*b),
            Value::I32(n) => Scalar::I32(*n),
            Value::I64(n) => Scalar::I64(*n),
            Value::F64(bits) => Scalar::F64(*bits),
            Value::String(s) => Scalar::Text(s@),
        }
    }
}

impl Clone for Value {
    fn clone(&self) -> (r: Self)
        ensures
            r@ == self@,
    {
        match self {
            Value::Null => Value::Null,
            Value::Bool(b) => Value::Bool(*b),
            Value::I32(n) => Value::I32(*n),
            Value::I64(n) => Value::I64(*n),
            Value::F64(bits) => Value::F64(*bits),
            Value::String(s) => Value::String(s.clone()),
        }
    }
}

impl From<bool> for Value {
    fn from(v: bool) -> (r: Self) {
        Value::Bool(v)
    }
}

impl vstd::std_specs::convert::FromSpecImpl<bool> for Value {
    open spec fn obeys_from_spec() -> bool {
        true
    }

    open spec fn from_spec(v: bool) -> Self {
        Value::Bool(v)
    }
}

impl From<i32> for Value {
    fn from(v: i32) -> (r: Self) {
        Value::I32(v)
    }
}

impl vstd::std_specs::convert::FromSpecImpl<i32> for Value {
    open spec fn obeys_from_spec() -> bool {
        true
    }

    open spec fn from_spec(v: i32) -> Self {
        Value::I32(v)
    }
}

impl From<i64> for Value {
    fn from(v: i64) -> (r: Self) {
        Value::I64(v)
    }
}

impl vstd::std_specs::convert::FromSpecImpl<i64> for Value {
    open spec fn obeys_from_spec() -> bool {
        true
    }

    open spec fn from_spec(v: i64) -> Self {
        Value::I64(v)
    }
}

impl From<String> for Value {
    fn from(v: String) -> (r: Self) {
        Value::String(v)
    }
}

impl vstd::std_specs::convert::FromSpecImpl<String> for Value {
    open spec fn obeys_from_spec() -> bool {
        true
    }

    open spec fn from_spec(v: String) -> Self {
        Value::String(v)
    }
}

impl From<Option<String>> for Value {
    fn from(v: Option<String>) -> (r: Self) {
        match v {
            Some(s) => Value::String(s),
            None => Value::Null,
        }
    }
}

impl vstd::std_specs::convert::FromSpecImpl<Option<String>> for Value {
    open spec fn obeys_from_spec() -> bool {
        true
    }

    open spec fn from_spec(v: Option<String>) -> Self {
        match v {
            Some(s) => Value::String(s),
            None => Value::Null,
        }
    }
}

/// `text` with every single quote written twice.
pub open spec fn quotes_doubled(text: Seq<char>) -> Seq<char>
    decreases text.len(),
{
    if text.len() == 0 {
        Seq::empty()
    } else if text.last() == '\'' {
        quotes_doubled(text.drop_last()) + seq!['\'', '\'']
    } else {
        quotes_doubled(text.drop_last()).push(text.last())
    }
}

/// The SQL literal of a value: `NULL`, `TRUE` or `FALSE`, a decimal
/// numeral, or the text between single quotes with its own quotes doubled.
/// A double has none here: its decimal text is not this library's to write.
pub open spec fn sql_literal(v: Scalar) -> Option<Seq<char>> {
    match v {
        Scalar::Null => Some("NULL"@),
        Scalar::Bool(b) => Some(
            if b {
                "TRUE"@
            } else {
                "FALSE"@
            },
        ),
        Scalar::I32(n) => Some(signed_decimal(n as int)),
        Scalar::I64(n) => Some(signed_decimal(n as int)),
        Scalar::F64(_) => None,
        Scalar::Text(t) => Some(seq!['\''] + quotes_doubled(t) + seq!['\'']),
    }
}

/// Writes `text` with every single quote doubled.
fn double_quotes(text: &str) -> (out: String)
    ensures
        out@ == quotes_doubled(text@),
{
    let n = text.unicode_len();
    let mut out = String::new();
    let mut i: usize = 0;
    while i < n
        invariant
            i <= n,
            n == text@.len(),
            out@ == quotes_doubled(text@.take(i as int)),
        decreases n - i,
    {
        let c = text.get_char(i);
        proof {
            assert(text@.take(i + 1).drop_last() =~= text@.take(i as int));
            assert(text@.take(i + 1).last() == c);
        }
        if c == '\'' {
            proof {
                reveal_strlit("''");
                assert("''"@ =~= seq!['\'', '\'']);
            }
            out.append("''");
        } else {
            let piece = text.substring_char(i, i + 1);
            proof {
                assert(piece@ =~= seq![c]);
                assert(quotes_doubled(text@.take(i as int)) + seq![c] =~= quotes_doubled(
                    text@.take(i as int),
                ).push(c));
            }
            out.append(piece);
        }
        i += 1;
    }
    assert(text@.take(n as int) =~= text@);
    out
}

impl Value {
    /// The SQL literal of the value, for statements whose text the program
    /// itself writes. Not for input: bind the value instead, with
    /// `to_query_value`. A double has no literal here.
    pub fn to_sql_string(&self) -> (r: Option<String>)
        ensures
            match r {
                Some(text) => sql_literal(self@) == Some(text@),
                None => sql_literal(self@) is None,
            },
    {
        match self {
            Value::Null => Some(String::from_str("NULL")),
            Value::Bool(b) => Some(
                String::from_str(
                    if *b {
                        "TRUE"
                    } else {
                        "FALSE"
                    },
                ),
            ),
            Value::I32(n) => Some(i64_to_string(*n as i64)),
            Value::I64(n) => Some(i64_to_string(*n)),
            Value::F64(_) => None,
            Value::String(s) => {
                let mut out = String::from_str("'");
                let inner = double_quotes(s.as_str());
                out.append(inner.as_str());
                out.append("'");
                proof {
                    reveal_strlit("'");
                    assert(out@ =~= seq!['\''] + quotes_doubled(s@) + seq!['\'']);
                }
                Some(out)
            },
        }
    }

    /// The value as a bound parameter: the same value, whatever its kind.
    pub fn to_query_value(&self) -> (q: QueryValue)
        ensures
            q@ == self@,
    {
        match self {
            Value::Null => QueryValue::Null,
            Value::Bool(b) => QueryValue::Bool(*b),
            Value::I32(n) => QueryValue::I32(*n),
            Value::I64(n) => QueryValue::I64(*n),
            Value::F64(bits) => QueryValue::F64(*bits),
            Value::String(s) => QueryValue::String(s.clone()),
        }
    }
}

/// One field of a record: the column's name and the value under it.
pub struct FieldModel {
    pub name: Seq<char>,
    pub value: Scalar,
}

/// The position of the first field called `name`, if there is one.
pub open spec fn position_of(fields: Seq<FieldModel>, name: Seq<char>) -> Option<int>
    decreases fields.len(),
{
    if fields.len() == 0 {
        None
    } else {
        match position_of(fields.drop_last(), name) {
            Some(i) => Some(i),
            None => if fields.last().name == name {
                Some(fields.len() - 1)
            } else {
                None
            },
        }
    }
}

/// The value of the first field called `name`, if there is one.
pub open spec fn lookup(fields: Seq<FieldModel>, name: Seq<char>) -> Option<Scalar> {
    match position_of(fields, name) {
        Some(i) => Some(fields[i].value),
        None => None,
    }
}

/// The fields after `value` was put under `name`: in the place of the field
/// of that name if there is one, else behind the others.
pub open spec fn with_field(fields: Seq<FieldModel>, name: Seq<char>, value: Scalar) -> Seq<
    FieldModel,
> {
    match position_of(fields, name) {
        Some(i) => fields.update(i, FieldModel { name, value }),
        None => fields.push(FieldModel { name, value }),
    }
}

/// `position_of` finds a field of the name, and the first one.
pub proof fn lemma_position_of(fields: Seq<FieldModel>, name: Seq<char>)
    ensures
        match position_of(fields, name) {
            Some(i) => {
                &&& 0 <= i < fields.len()
                &&& fields[i].name == name
                &&& forall|j: int| 0 <= j < i ==> fields[j].name != name
            },
            None => forall|j: int| 0 <= j < fields.len() ==> fields[j].name != name,
        },
    decreases fields.len(),
{
    if fields.len() > 0 {
        let head = fields.drop_last();
        lemma_position_of(head, name);
        assert forall|j: int| 0 <= j < head.len() implies head[j] == fields[j] by {}
        match position_of(head, name) {
            Some(i) => {
                assert(head[i] == fields[i]);
                assert forall|j: int| 0 <= j < i implies fields[j].name != name by {
                    assert(head[j] == fields[j]);
                }
            },
            None => {
                assert forall|j: int| 0 <= j < fields.len() - 1 implies fields[j].name
                    != name by {
                    assert(head[j] == fields[j]);
                }
            },
        }
    }
}

/// One field of a record.
#[derive(Debug)]
struct Field {
    name: String,
    value: Value,
}

impl View for Field {
    type V = FieldModel;

    closed spec fn view(&self) -> FieldModel {
        FieldModel { name: self.name@, value: self.value@ }
    }
}

/// A record: the fields of a row, each value under its column's name, in
/// the order in which the columns came.
#[derive(Debug)]
pub struct Row {
    fields: Vec<Field>,
}

impl View for Row {
    type V = Seq<FieldModel>;

    closed spec fn view(&self) -> Seq<FieldModel> {
        self.fields@.map_values(|f: Field| f@)
    }
}

impl Row {
    /// A record without fields.
    pub fn new() -> (r: Self)
        ensures
            r@ == Seq::<FieldModel>::empty(),
    {
        let r = Row { fields: Vec::new() };
        assert(r@ =~= Seq::<FieldModel>::empty());
        r
    }

    /// The number of fields.
    pub fn len(&self) -> (n: usize)
        ensures
            n == self@.len(),
    {
        self.fields.len()
    }

    /// Whether the record has no field.
    pub fn is_empty(&self) -> (b: bool)
        ensures
            b == (self@.len() == 0),
    {
        self.fields.len() == 0
    }

    /// The position of the first field called `name`.
    fn find(&self, name: &str) -> (r: Option<usize>)
        ensures
            match r {
                Some(i) => position_of(self@, name@) == Some(i as int) && i < self@.len(),
                None => position_of(self@, name@) is None,
            },
    {
        let key = String::from_str(name);
        let mut i: usize = 0;
        while i < self.fields.len()
            invariant
                i <= self.fields@.len(),
                key@ == name@,
                forall|j: int| 0 <= j < i ==> self@[j].name != name@,
            decreases self.fields.len() - i,
        {
            if self.fields[i].name == key {
                proof {
                    lemma_position_of(self@, name@);
                    assert(self@[i as int].name == name@);
                }
                return Some(i);
            }
            i += 1;
        }
        proof {
            lemma_position_of(self@, name@);
        }
        None
    }

    /// The value under `name`, if the record has a field of that name.
    pub fn get(&self, name: &str) -> (v: Option<&Value>)
        ensures
            match v {
                Some(value) => lookup(self@, name@) == Some(value@),
                None => lookup(self@, name@) is None,
            },
    {
        match self.find(name) {
            Some(i) => Some(&self.fields[i].value),
            None => None,
        }
    }

    /// The name of the field at `index`.
    pub fn name_at(&self, index: usize) -> (n: &str)
        requires
            index < self@.len(),
        ensures
            n@ == self@[index as int].name,
    {
        self.fields[index].name.as_str()
    }

    /// The value of the field at `index`.
    pub fn value_at(&self, index: usize) -> (v: &Value)
        requires
            index < self@.len(),
        ensures
            v@ == self@[index as int].value,
    {
        &self.fields[index].value
    }

    /// Puts `value` under `name`: in the place of the field of that name if
    /// there is one, else behind the other fields.
    pub fn insert(&mut self, name: String, value: Value)
        ensures
            final(self)@ == with_field(old(self)@, name@, value@),
    {
        match self.find(name.as_str()) {
            Some(i) => {
                self.fields.set(i, Field { name, value });
                proof {
                    assert(self@ =~= with_field(old(self)@, name@, value@));
                }
            },
            None => {
                self.fields.push(Field { name, value });
                proof {
                    assert(self@ =~= with_field(old(self)@, name@, value@));
                }
            },
        }
    }
}

} // verus!
