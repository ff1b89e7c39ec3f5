//! Bound parameter values and the prepared statement that carries them.

use vstd::prelude::*;
use vstd::string::*;

verus! {

/// What a scalar value is, whatever type carries it: the mathematical model
/// of both stored field values and bound parameters.
pub enum Scalar {
    Null,
    Bool(bool),
    I32(i32),
    I64(i64),
    /// A double, as its IEEE 754 bit pattern.
    F64(u64),
    Text(Seq<char>),
}

/// A value bound to a placeholder of a statement.
#[derive(Debug, PartialEq)]
pub enum QueryValue {
    Null,
    Bool(bool),
    I32(i32),
    I64(i64),
    /// A double, held as its IEEE 754 bit pattern.
    F64(u64),
    String(String),
}

impl View for QueryValue {
    type V = Scalar;

    open spec fn view(&self) -> Scalar {
        match self {
            QueryValue::Null => Scalar::Null,
            QueryValue::Bool(b) => Scalar::Bool(*b),
            QueryValue::I32(n) => Scalar::I32(*n),
            QueryValue::I64(n) => Scalar::I64(*n),
            QueryValue::F64(bits) => Scalar::F64(*bits),
            QueryValue::String(s) => Scalar::Text(s@),
        }
    }
}

impl Clone for QueryValue {
    fn clone(&self) -> (r: Self)
        ensures
            r@ == self@,
    {
        match self {
            QueryValue::Null => QueryValue::Null,
            QueryValue::Bool(b) => QueryValue::Bool(*b),
            QueryValue::I32(n) => QueryValue::I32(*n),
            QueryValue::I64(n) => QueryValue::I64(*n),
            QueryValue::F64(bits) => QueryValue::F64(*bits),
            QueryValue::String(s) => QueryValue::String(s.clone()),
        }
    }
}

/// The models of a list of bound values.
pub open spec fn scalars(v: Seq<QueryValue>) -> Seq<Scalar> {
    v.map_values(|q: QueryValue| q@)
}

/// A statement ready to run: its text and the values bound to its
/// placeholders, in placeholder order. The two go to the store together.
#[derive(Debug)]
pub struct QueryExecutor {
    sql: String,
    params: Vec<QueryValue>,
}

impl QueryExecutor {
    /// The text of the statement.
    pub closed spec fn spec_sql(&self) -> Seq<char> {
        self.sql@
    }

    /// The bound values, in placeholder order.
    pub closed spec fn spec_params(&self) -> Seq<Scalar> {
        scalars(self.params@)
    }

    /// A statement with no value bound yet.
    pub fn new(sql: String) -> (e: Self)
        ensures
            e.spec_sql() == sql@,
            e.spec_params() == Seq::<Scalar>::empty(),
    {
        let e = QueryExecutor { sql, params: Vec::new() };
        assert(e.spec_params() =~= Seq::<Scalar>::empty());
        e
    }

    /// The statement of `sql` and the values bound to it.
    pub fn from_parts(sql: String, params: Vec<QueryValue>) -> (e: Self)
        ensures
            e.spec_sql() == sql@,
            e.spec_params() == scalars(params@),
    {
        QueryExecutor { sql, params }
    }

    /// A statement with its values.
    pub fn with_params(sql: &str, params: &[QueryValue]) -> (e: Self)
        ensures
            e.spec_sql() == sql@,
            e.spec_params() == scalars(params@),
    {
        let mut values: Vec<QueryValue> = Vec::new();
        let mut i: usize = 0;
        while i < params.len()
            invariant
                i <= params.len(),
                values@.len() == i,
                forall|j: int| 0 <= j < i ==> values@[j]@ == params@[j]@,
            decreases params.len() - i,
        {
            values.push(params[i].clone());
            i += 1;
        }
        assert(scalars(values@) =~= scalars(params@));
        QueryExecutor { sql: String::from_str(sql), params: values }
    }

    /// Binds `value` to the next placeholder.
    pub fn bind(self, value: QueryValue) -> (e: Self)
        ensures
            e.spec_sql() == self.spec_sql(),
            e.spec_params() == self.spec_params().push(value@),
    {
        let mut e = self;
        e.params.push(value);
        assert(scalars(e.params@) =~= scalars(self.params@).push(value@));
        e
    }

    pub fn sql(&self) -> (s: &str)
        ensures
            s@ == self.spec_sql(),
    {
        self.sql.as_str()
    }

    pub fn params(&self) -> (p: &[QueryValue])
        ensures
            scalars(p@) == self.spec_params(),
    {
        self.params.as_slice()
    }
}

} // verus!
