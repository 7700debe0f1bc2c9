//! The values that travel between the handlers and the storage: typed
//! attribute values, bound statement parameters and raw row columns.

use vstd::prelude::*;

verus! {

/// The declared type of an entity field.
#[derive(Clone, Copy, Debug, PartialEq, Eq)]
pub enum FieldType {
    Text,
    Bool,
    Int16,
    Int32,
    Int64,
}

/// A value as the storage hands it out or takes it in. `Null` and `Other`
/// stand for what no entity field can hold.
#[derive(Clone, Debug, PartialEq, Eq)]
pub enum SqlValue {
    Text(String),
    Bool(bool),
    Int16(i16),
    Int32(i32),
    Int64(i64),
    Null,
    Other,
}

/// The mathematical content of a [`SqlValue`].
pub enum Value {
    Text(Seq<char>),
    Bool(bool),
    Int16(i16),
    Int32(i32),
    Int64(i64),
    Null,
    Other,
}

impl View for SqlValue {
    type V = Value;

    open spec fn view(&self) -> Value {
        match self {
            SqlValue::Text(s) => Value::Text(s@),
            SqlValue::Bool(b) => Value::Bool(*b),
            SqlValue::Int16(n) => Value::Int16(*n),
            SqlValue::Int32(n) => Value::Int32(*n),
            SqlValue::Int64(n) => Value::Int64(*n),
            SqlValue::Null => Value::Null,
            SqlValue::Other => Value::Other,
        }
    }
}

impl DeepView for SqlValue {
    type V = Value;

    open spec fn deep_view(&self) -> Value {
        self@
    }
}

/// Whether a value is of the given field type.
pub open spec fn has_type(v: Value, t: FieldType) -> bool {
    match t {
        FieldType::Text => v is Text,
        FieldType::Bool => v is Bool,
        FieldType::Int16 => v is Int16,
        FieldType::Int32 => v is Int32,
        FieldType::Int64 => v is Int64,
    }
}

/// The value a field holds before anything was stored in it: the empty
/// text, `false` or zero.
pub open spec fn default_value(t: FieldType) -> Value {
    match t {
        FieldType::Text => Value::Text(Seq::empty()),
        FieldType::Bool => Value::Bool(false),
        FieldType::Int16 => Value::Int16(0),
        FieldType::Int32 => Value::Int32(0),
        FieldType::Int64 => Value::Int64(0),
    }
}

impl SqlValue {
    /// A copy of the value.
    pub fn duplicate(&self) -> (r: SqlValue)
        ensures
            r@ == self@,
    {
        match self {
            SqlValue::Text(s) => SqlValue::Text(s.clone()),
            SqlValue::Bool(b) => SqlValue::Bool(*b),
            SqlValue::Int16(n) => SqlValue::Int16(*n),
            SqlValue::Int32(n) => SqlValue::Int32(*n),
            SqlValue::Int64(n) => SqlValue::Int64(*n),
            SqlValue::Null => SqlValue::Null,
            SqlValue::Other => SqlValue::Other,
        }
    }

    /// Whether the value is of the given field type.
    pub fn is_of(&self, t: FieldType) -> (r: bool)
        ensures
            r == has_type(self@, t),
    {
        match t {
            FieldType::Text => matches!(self, SqlValue::Text(_)),
            FieldType::Bool => matches!(self, SqlValue::Bool(_)),
            FieldType::Int16 => matches!(self, SqlValue::Int16(_)),
            FieldType::Int32 => matches!(self, SqlValue::Int32(_)),
            FieldType::Int64 => matches!(self, SqlValue::Int64(_)),
        }
    }

    /// The default value of a field type.
    pub fn default_of(t: FieldType) -> (r: SqlValue)
        ensures
            r@ == default_value(t),
    {
        match t {
            FieldType::Text => SqlValue::Text(String::new()),
            FieldType::Bool => SqlValue::Bool(false),
            FieldType::Int16 => SqlValue::Int16(0),
            FieldType::Int32 => SqlValue::Int32(0),
            FieldType::Int64 => SqlValue::Int64(0),
        }
    }
}

/// A copy of a list of values.
pub fn duplicate_values(values: &Vec<SqlValue>) -> (r: Vec<SqlValue>)
    ensures
        r.deep_view() == values.deep_view(),
{
    let mut out: Vec<SqlValue> = Vec::new();
    let mut i: usize = 0;
    while i < values.len()
        invariant
            i <= values.len(),
            out.len() == i,
            forall|j: int| 0 <= j < i ==> out[j]@ == values[j]@,
        decreases values.len() - i,
    {
        out.push(values[i].duplicate());
        i = i + 1;
    }
    assert(out.deep_view() =~= values.deep_view());
    out
}

} // verus!
