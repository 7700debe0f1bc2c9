//! The statement builder: from an entity kind, an operation and its
//! arguments to a parameterized statement and its bound values, in order.
//! Values are always bound, never written into the text.

use vstd::prelude::*;
use vstd::string::*;
use sql_builder::SqlBuilder;
use crate::model::{
    lemma_model_name_not_empty, spec_field_names, spec_fields, spec_model_name, EntityKind,
};
use crate::request::HandlerError;
use crate::value::{duplicate_values, SqlValue, Value};

verus! {

/// What a statement does to its table.
#[derive(Clone, Copy, Debug, PartialEq, Eq)]
pub enum SqlOp {
    /// Select the rows whose identity is the one bound value.
    SelectById,
    /// Select `limit` rows from position `offset` on, newest first.
    SelectPage { limit: u64, offset: u64 },
    /// As `SelectPage`, among the rows whose field at position `field`
    /// equals the one bound value.
    SelectPageBy { field: usize, limit: u64, offset: u64 },
    /// Insert the bound values as one row.
    Insert,
    /// Overwrite the row whose identity is the first bound value with the
    /// bound values.
    Update,
    /// Delete the rows whose identity is the one bound value.
    Delete,
}

/// A parameterized statement with its bound values, ready for the storage.
#[derive(Clone, Debug, PartialEq, Eq)]
pub struct Statement {
    pub kind: EntityKind,
    pub op: SqlOp,
    pub sql: String,
    pub params: Vec<SqlValue>,
}

/// The mathematical content of a [`Statement`].
pub struct StatementView {
    pub kind: EntityKind,
    pub op: SqlOp,
    pub sql: Seq<char>,
    pub params: Seq<Value>,
}

impl View for Statement {
    type V = StatementView;

    open spec fn view(&self) -> StatementView {
        StatementView {
            kind: self.kind,
            op: self.op,
            sql: self.sql@,
            params: self.params.deep_view(),
        }
    }
}

/// The parts of a list, with a separator between each two neighbours.
pub open spec fn spec_join(parts: Seq<Seq<char>>, sep: Seq<char>) -> Seq<char>
    decreases parts.len(),
{
    if parts.len() == 0 {
        Seq::empty()
    } else if parts.len() == 1 {
        parts[0]
    } else {
        spec_join(parts.drop_last(), sep) + sep + parts.last()
    }
}

/// The character that writes a digit.
pub open spec fn digit_char(d: nat) -> char {
    if d == 0 {
        '0'
    } else if d == 1 {
        '1'
    } else if d == 2 {
        '2'
    } else if d == 3 {
        '3'
    } else if d == 4 {
        '4'
    } else if d == 5 {
        '5'
    } else if d == 6 {
        '6'
    } else if d == 7 {
        '7'
    } else if d == 8 {
        '8'
    } else {
        '9'
    }
}

/// A number written in decimal, without sign or leading zeros.
pub open spec fn spec_decimal(n: nat) -> Seq<char>
    decreases n,
{
    if n < 10 {
        seq![digit_char(n)]
    } else {
        spec_decimal(n / 10).push(digit_char(n % 10))
    }
}

/// The placeholder of the bound value with the given number, counted from 1.
pub open spec fn spec_placeholder(n: nat) -> Seq<char> {
    "$"@ + spec_decimal(n)
}

/// The placeholders of the first `n` bound values, separated by commas.
pub open spec fn spec_placeholders(n: nat) -> Seq<char> {
    spec_join(Seq::new(n, |i: int| spec_placeholder((i + 1) as nat)), ", "@)
}

/// The assignments of an update: every field but the identity, each set to
/// the placeholder of its own position.
pub open spec fn spec_assignments(names: Seq<Seq<char>>) -> Seq<char> {
    spec_join(
        Seq::new(
            (names.len() - 1) as nat,
            |i: int| names[i + 1] + " = "@ + spec_placeholder((i + 2) as nat),
        ),
        ", "@,
    )
}

/// The text that selects all fields of the row with a given identity.
pub open spec fn spec_get_by_id_sql(kind: EntityKind) -> Seq<char> {
    "SELECT "@ + spec_join(spec_field_names(kind), ", "@) + " FROM "@ + spec_model_name(kind)
        + " WHERE id = $1"@
}

/// The text that inserts one full row.
pub open spec fn spec_insert_sql(kind: EntityKind) -> Seq<char> {
    "INSERT INTO "@ + spec_model_name(kind) + " ("@ + spec_join(spec_field_names(kind), ", "@)
        + ") VALUES ("@ + spec_placeholders(spec_fields(kind).len()) + ")"@
}

/// The text that overwrites the row with a given identity.
pub open spec fn spec_update_sql(kind: EntityKind) -> Seq<char> {
    "UPDATE "@ + spec_model_name(kind) + " SET "@ + spec_assignments(spec_field_names(kind))
        + " WHERE id = $1"@
}

/// The text that deletes the row with a given identity.
pub open spec fn spec_delete_sql(kind: EntityKind) -> Seq<char> {
    "DELETE FROM "@ + spec_model_name(kind) + " WHERE id = $1"@
}

/// The text that selects the given fields from a table, newest first by
/// the field to order by, `limit` rows from position `offset` on.
pub open spec fn spec_select_page_sql(
    table: Seq<char>,
    fields: Seq<Seq<char>>,
    order_by: Seq<char>,
    limit: u64,
    offset: u64,
) -> Seq<char> {
    "SELECT "@ + spec_join(fields, ", "@) + " FROM "@ + table + " ORDER BY "@ + order_by
        + " DESC LIMIT "@ + spec_decimal(limit as nat) + " OFFSET "@ + spec_decimal(offset as nat)
        + ";"@
}

/// The text of the same select among the rows in which a field equals what
/// a placeholder stands for.
pub open spec fn spec_select_page_where_sql(
    table: Seq<char>,
    fields: Seq<Seq<char>>,
    filter: Seq<char>,
    placeholder: Seq<char>,
    order_by: Seq<char>,
    limit: u64,
    offset: u64,
) -> Seq<char> {
    "SELECT "@ + spec_join(fields, ", "@) + " FROM "@ + table + " WHERE "@ + filter + " = "@
        + placeholder + " ORDER BY "@ + order_by + " DESC LIMIT "@ + spec_decimal(limit as nat)
        + " OFFSET "@ + spec_decimal(offset as nat) + ";"@
}

/// The statement that reads one entity by its identity.
pub open spec fn spec_get_by_id(kind: EntityKind, id: Seq<char>) -> StatementView {
    StatementView {
        kind,
        op: SqlOp::SelectById,
        sql: spec_get_by_id_sql(kind),
        params: seq![Value::Text(id)],
    }
}

/// The statement that stores a new entity.
pub open spec fn spec_insert(kind: EntityKind, values: Seq<Value>) -> StatementView {
    StatementView { kind, op: SqlOp::Insert, sql: spec_insert_sql(kind), params: values }
}

/// The statement that overwrites a stored entity.
pub open spec fn spec_update(kind: EntityKind, values: Seq<Value>) -> StatementView {
    StatementView { kind, op: SqlOp::Update, sql: spec_update_sql(kind), params: values }
}

/// The statement that removes an entity by its identity.
pub open spec fn spec_delete(kind: EntityKind, id: Seq<char>) -> StatementView {
    StatementView {
        kind,
        op: SqlOp::Delete,
        sql: spec_delete_sql(kind),
        params: seq![Value::Text(id)],
    }
}

/// The statement that reads one page of a kind, newest first.
pub open spec fn spec_list(kind: EntityKind, limit: u64, offset: u64) -> StatementView {
    StatementView {
        kind,
        op: SqlOp::SelectPage { limit, offset },
        sql: spec_select_page_sql(
            spec_model_name(kind),
            spec_field_names(kind),
            "created_time"@,
            limit,
            offset,
        ),
        params: Seq::empty(),
    }
}

/// The statement that reads one page of the entities whose field at
/// position `field` equals `value`, newest first.
pub open spec fn spec_list_by(
    kind: EntityKind,
    field: usize,
    value: Seq<char>,
    limit: u64,
    offset: u64,
) -> StatementView {
    StatementView {
        kind,
        op: SqlOp::SelectPageBy { field, limit, offset },
        sql: spec_select_page_where_sql(
            spec_model_name(kind),
            spec_field_names(kind),
            spec_field_names(kind)[field as int],
            "$1"@,
            "created_time"@,
            limit,
            offset,
        ),
        params: seq![Value::Text(value)],
    }
}

/// `anyhow::Error`, in which `sql_builder` reports a refusal. Nothing is
/// known of what it holds; it is only carried to where it is mapped.
#[verifier::external_type_specification]
#[verifier::external_body]
pub struct ExAnyhowError(anyhow::Error);

/// Calls `sql_builder::SqlBuilder`: `select_from(table)`, `fields`,
/// `order_desc`, `limit`, `offset`, then `sql()`. The builder refuses an
/// empty table name and nothing else. What it writes is taken from its
/// source: `SELECT`, the fields joined by `, `, `FROM` and the table,
/// `ORDER BY` and the field followed by `DESC`, `LIMIT` and `OFFSET` with
/// their numbers in decimal, and a closing `;`.
#[verifier::external_body]
fn select_page(table: &str, fields: &Vec<String>, order_by: &str, limit: u64, offset: u64) -> (r:
    Result<String, anyhow::Error>)
    requires
        fields.len() > 0,
    ensures
        r is Ok <==> table@.len() > 0,
        r matches Ok(s) ==> s@ == spec_select_page_sql(
            table@,
            fields.deep_view(),
            order_by@,
            limit,
            offset,
        ),
{
    SqlBuilder::select_from(table).fields(fields).order_desc(order_by).limit(limit).offset(
        offset,
    ).sql()
}

/// Calls `sql_builder::SqlBuilder` as `select_page` does, with one
/// `and_where_eq(filter, placeholder)` between `fields` and `order_desc`.
/// The builder refuses an empty table name and nothing else. What it
/// writes is taken from its source: as for `select_page`, with `WHERE`, the
/// field, ` = ` and the placeholder between the table and `ORDER BY`.
#[verifier::external_body]
fn select_page_where(
    table: &str,
    fields: &Vec<String>,
    filter: &str,
    placeholder: &str,
    order_by: &str,
    limit: u64,
    offset: u64,
) -> (r: Result<String, anyhow::Error>)
    requires
        fields.len() > 0,
    ensures
        r is Ok <==> table@.len() > 0,
        r matches Ok(s) ==> s@ == spec_select_page_where_sql(
            table@,
            fields.deep_view(),
            filter@,
            placeholder@,
            order_by@,
            limit,
            offset,
        ),
{
    SqlBuilder::select_from(table).fields(fields).and_where_eq(filter, placeholder).order_desc(
        order_by,
    ).limit(limit).offset(offset).sql()
}

/// Joins the parts of a list with a separator.
pub fn join(parts: &Vec<String>, sep: &str) -> (r: String)
    ensures
        r@ == spec_join(parts.deep_view(), sep@),
{
    let mut out = String::new();
    let mut i: usize = 0;
    let ghost all = parts.deep_view();
    while i < parts.len()
        invariant
            i <= parts.len(),
            all == parts.deep_view(),
            out@ == spec_join(all.subrange(0, i as int), sep@),
        decreases parts.len() - i,
    {
        let ghost before = all.subrange(0, i as int);
        let ghost after = all.subrange(0, i + 1);
        assert(after.drop_last() =~= before);
        assert(after.last() == parts[i as int]@);
        if i > 0 {
            out.append(sep);
        }
        out.append(parts[i].as_str());
        assert(out@ =~= spec_join(after, sep@));
        i = i + 1;
    }
    assert(all.subrange(0, i as int) =~= all);
    out
}

fn digit_text(d: u64) -> (r: &'static str)
    requires
        d < 10,
    ensures
        r@ == seq![digit_char(d as nat)],
{
    proof {
        reveal_strlit("0");
        reveal_strlit("1");
        reveal_strlit("2");
        reveal_strlit("3");
        reveal_strlit("4");
        reveal_strlit("5");
        reveal_strlit("6");
        reveal_strlit("7");
        reveal_strlit("8");
        reveal_strlit("9");
    }
    let r = if d == 0 {
        "0"
    } else if d == 1 {
        "1"
    } else if d == 2 {
        "2"
    } else if d == 3 {
        "3"
    } else if d == 4 {
        "4"
    } else if d == 5 {
        "5"
    } else if d == 6 {
        "6"
    } else if d == 7 {
        "7"
    } else if d == 8 {
        "8"
    } else {
        "9"
    };
    assert(r@ =~= seq![digit_char(d as nat)]);
    r
}

/// Writes a number in decimal.
pub fn decimal(n: u64) -> (r: String)
    ensures
        r@ == spec_decimal(n as nat),
    decreases n,
{
    if n < 10 {
        String::from_str(digit_text(n))
    } else {
        let mut head = decimal(n / 10);
        head.append(digit_text(n % 10));
        assert(head@ =~= spec_decimal(n as nat));
        head
    }
}

/// Writes the placeholder of a bound value.
pub fn placeholder(n: u64) -> (r: String)
    ensures
        r@ == spec_placeholder(n as nat),
{
    let mut out = String::from_str("$");
    let digits = decimal(n);
    out.append(digits.as_str());
    out
}

fn placeholders(n: usize) -> (r: String)
    requires
        n <= 15,
    ensures
        r@ == spec_placeholders(n as nat),
{
    let mut parts: Vec<String> = Vec::new();
    let mut i: usize = 0;
    while i < n
        invariant
            i <= n <= 15,
            parts.len() == i,
            forall|j: int| 0 <= j < i ==> parts[j]@ == spec_placeholder((j + 1) as nat),
        decreases n - i,
    {
        parts.push(placeholder((i + 1) as u64));
        i = i + 1;
    }
    assert(parts.deep_view() =~= Seq::new(n as nat, |i: int| spec_placeholder((i + 1) as nat)));
    join(&parts, ", ")
}

fn assignments(names: &Vec<String>) -> (r: String)
    requires
        1 <= names.len() <= 15,
    ensures
        r@ == spec_assignments(names.deep_view()),
{
    let mut parts: Vec<String> = Vec::new();
    let mut i: usize = 1;
    let ghost all = names.deep_view();
    while i < names.len()
        invariant
            1 <= i <= names.len() <= 15,
            all == names.deep_view(),
            parts.len() == i - 1,
            forall|j: int|
                0 <= j < i - 1 ==> parts[j]@ == all[j + 1] + " = "@ + spec_placeholder(
                    (j + 2) as nat,
                ),
        decreases names.len() - i,
    {
        let mut part = names[i].clone();
        part.append(" = ");
        let ph = placeholder((i + 1) as u64);
        part.append(ph.as_str());
        assert(all[i as int] == names[i as int]@);
        parts.push(part);
        i = i + 1;
    }
    assert(parts.deep_view() =~= Seq::new(
        (all.len() - 1) as nat,
        |i: int| all[i + 1] + " = "@ + spec_placeholder((i + 2) as nat),
    ));
    join(&parts, ", ")
}

/// Builds the statement that reads one entity by its identity.
pub fn build_get_by_id(kind: EntityKind, id: &str) -> (s: Statement)
    ensures
        s@ == spec_get_by_id(kind, id@),
{
    let names = kind.field_names();
    let table = kind.model_name();
    let mut sql = String::from_str("SELECT ");
    let list = join(&names, ", ");
    sql.append(list.as_str());
    sql.append(" FROM ");
    sql.append(table.as_str());
    sql.append(" WHERE id = $1");
    let mut params: Vec<SqlValue> = Vec::new();
    params.push(SqlValue::Text(String::from_str(id)));
    assert(params.deep_view() =~= seq![Value::Text(id@)]);
    Statement { kind, op: SqlOp::SelectById, sql, params }
}

/// Builds the statement that stores a new entity; `values` are its fields
/// in order.
pub fn build_insert(kind: EntityKind, values: &Vec<SqlValue>) -> (s: Statement)
    ensures
        s@ == spec_insert(kind, values.deep_view()),
{
    let names = kind.field_names();
    let table = kind.model_name();
    proof {
        crate::model::lemma_identity_and_creation(kind);
    }
    let mut sql = String::from_str("INSERT INTO ");
    sql.append(table.as_str());
    sql.append(" (");
    let list = join(&names, ", ");
    sql.append(list.as_str());
    sql.append(") VALUES (");
    let marks = placeholders(names.len());
    sql.append(marks.as_str());
    sql.append(")");
    let params = duplicate_values(values);
    Statement { kind, op: SqlOp::Insert, sql, params }
}

/// Builds the statement that overwrites the stored entity whose identity is
/// the first of `values`; `values` are its fields in order.
pub fn build_update(kind: EntityKind, values: &Vec<SqlValue>) -> (s: Statement)
    ensures
        s@ == spec_update(kind, values.deep_view()),
{
    let names = kind.field_names();
    let table = kind.model_name();
    proof {
        crate::model::lemma_identity_and_creation(kind);
    }
    let mut sql = String::from_str("UPDATE ");
    sql.append(table.as_str());
    sql.append(" SET ");
    let sets = assignments(&names);
    sql.append(sets.as_str());
    sql.append(" WHERE id = $1");
    let params = duplicate_values(values);
    Statement { kind, op: SqlOp::Update, sql, params }
}

/// Builds the statement that removes an entity by its identity.
pub fn build_delete(kind: EntityKind, id: &str) -> (s: Statement)
    ensures
        s@ == spec_delete(kind, id@),
{
    let table = kind.model_name();
    let mut sql = String::from_str("DELETE FROM ");
    sql.append(table.as_str());
    sql.append(" WHERE id = $1");
    let mut params: Vec<SqlValue> = Vec::new();
    params.push(SqlValue::Text(String::from_str(id)));
    assert(params.deep_view() =~= seq![Value::Text(id@)]);
    Statement { kind, op: SqlOp::Delete, sql, params }
}

/// Builds the statement that reads `limit` entities from position `offset`
/// on, newest first. It never fails: the builder accepts every table name
/// of the model.
pub fn build_list(kind: EntityKind, limit: u64, offset: u64) -> (r: Result<
    Statement,
    HandlerError,
>)
    ensures
        r matches Ok(s) && s@ == spec_list(kind, limit, offset),
{
    let names = kind.field_names();
    let table = kind.model_name();
    proof {
        lemma_model_name_not_empty(kind);
    }
    assert(names.deep_view().len() == names.len());
    match select_page(table.as_str(), &names, "created_time", limit, offset) {
        Ok(sql) => {
            let params: Vec<SqlValue> = Vec::new();
            assert(params.deep_view() =~= Seq::empty());
            Ok(Statement { kind, op: SqlOp::SelectPage { limit, offset }, sql, params })
        },
        Err(_) => Err(HandlerError::StorageFailure(String::from_str("no statement"))),
    }
}

/// Builds the statement that reads one page of the entities whose field at
/// position `field` equals `value`, newest first. The field is named in
/// the text; the value is bound. It never fails.
pub fn build_list_by(kind: EntityKind, field: usize, value: &str, limit: u64, offset: u64) -> (r:
    Result<Statement, HandlerError>)
    requires
        field < spec_fields(kind).len(),
    ensures
        r matches Ok(s) && s@ == spec_list_by(kind, field, value@, limit, offset),
{
    let names = kind.field_names();
    let table = kind.model_name();
    proof {
        lemma_model_name_not_empty(kind);
    }
    assert(names.deep_view().len() == names.len());
    assert(names.deep_view()[field as int] == names[field as int]@);
    match select_page_where(
        table.as_str(),
        &names,
        names[field].as_str(),
        "$1",
        "created_time",
        limit,
        offset,
    ) {
        Ok(sql) => {
            let mut params: Vec<SqlValue> = Vec::new();
            params.push(SqlValue::Text(String::from_str(value)));
            assert(params.deep_view() =~= seq![Value::Text(value@)]);
            Ok(Statement { kind, op: SqlOp::SelectPageBy { field, limit, offset }, sql, params })
        },
        Err(_) => Err(HandlerError::StorageFailure(String::from_str("no statement"))),
    }
}

} // verus!
