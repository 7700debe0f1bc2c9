//! The handler pattern that every entity kind shares: reading parameters,
//! decoding rows, merging an update onto the stored row, and putting the
//! statement and the response of each operation together. A handler never
//! touches the storage: it says which statement to run, and is called again
//! with the rows that came back.

use vstd::prelude::*;
use vstd::string::*;
use crate::entity::EightFishModel;
use crate::model::{
    default_record, lemma_identity_and_creation, spec_created_index, spec_field_types,
    spec_fields, well_typed, EntityKind,
};
use crate::request::{lookup, required, spec_required, Failure, HandlerError, Params, Request};
use crate::response::{
    response_result, spec_success, statement_result, write_result, HandlerCRUD, Response,
    ResponseView, Write,
};
use crate::sql::{
    build_delete, build_get_by_id, build_insert, build_list, build_list_by, build_update,
    spec_delete, spec_get_by_id, spec_insert, spec_list, spec_list_by, spec_update,
    StatementView,
};
use crate::text::{
    parse_bool, parse_i16, parse_i32, parse_i64, parse_u64, spec_parse_bool, spec_parse_i16,
    spec_parse_i32, spec_parse_i64, spec_parse_u64,
};
use crate::value::{default_value, has_type, FieldType, SqlValue, Value};

verus! {

/// The number of rows of a page where the request names none.
pub const PAGESIZE: u64 = 25;

/// The tie between a request parameter and the entity field it fills. A
/// create cannot do without a required parameter; an optional one that is
/// absent leaves its field at the default.
#[derive(Clone, Debug, PartialEq, Eq)]
pub struct Binding {
    pub param: String,
    pub field: usize,
    pub required: bool,
}

impl DeepView for Binding {
    type V = (Seq<char>, int, bool);

    open spec fn deep_view(&self) -> (Seq<char>, int, bool) {
        (self.param@, self.field as int, self.required)
    }
}

/// One field of an entity set to a new value.
#[derive(Clone, Debug, PartialEq, Eq)]
pub struct Change {
    pub field: usize,
    pub value: SqlValue,
}

impl DeepView for Change {
    type V = (int, Value);

    open spec fn deep_view(&self) -> (int, Value) {
        (self.field as int, self.value@)
    }
}

/// Whether a request may set the field at this position: every field but
/// the identity and the creation time.
pub open spec fn editable(kind: EntityKind, field: int) -> bool {
    0 < field < spec_fields(kind).len() && field != spec_created_index(kind)
}

/// Whether every binding of a list fills an editable field.
pub open spec fn valid_bindings(kind: EntityKind, bindings: Seq<(Seq<char>, int, bool)>) -> bool {
    forall|i: int| 0 <= i < bindings.len() ==> editable(kind, (#[trigger] bindings[i]).1)
}

/// Whether every change of a list sets an editable field to a value of
/// that field's type.
pub open spec fn changes_fit(kind: EntityKind, changes: Seq<(int, Value)>) -> bool {
    forall|i: int|
        0 <= i < changes.len() ==> {
            &&& editable(kind, (#[trigger] changes[i]).0)
            &&& has_type(changes[i].1, spec_fields(kind)[changes[i].0].1)
        }
}

/// Whether a list of changes sets the field at a position.
pub open spec fn touches(changes: Seq<(int, Value)>, field: int) -> bool {
    exists|i: int| 0 <= i < changes.len() && (#[trigger] changes[i]).0 == field
}

/// The value that a parameter text stands for in a field of a given type.
/// Every text is a text; a boolean and the integers are read as the
/// `text` module says.
pub open spec fn spec_parse_value(text: Seq<char>, ty: FieldType) -> Option<Value> {
    match ty {
        FieldType::Text => Some(Value::Text(text)),
        FieldType::Bool => match spec_parse_bool(text) {
            Some(b) => Some(Value::Bool(b)),
            None => None,
        },
        FieldType::Int16 => match spec_parse_i16(text) {
            Some(n) => Some(Value::Int16(n)),
            None => None,
        },
        FieldType::Int32 => match spec_parse_i32(text) {
            Some(n) => Some(Value::Int32(n)),
            None => None,
        },
        FieldType::Int64 => match spec_parse_i64(text) {
            Some(n) => Some(Value::Int64(n)),
            None => None,
        },
    }
}

/// The changes that a request asks for, in the order of the bindings. With
/// `must`, as on create, every required parameter has to be there; an
/// optional one, and without `must` any one, leaves its field alone where it
/// is absent. The first parameter that is absent though it has to be there,
/// or that does not read as its field's type, decides.
pub open spec fn spec_changes(
    kind: EntityKind,
    bindings: Seq<(Seq<char>, int, bool)>,
    params: Seq<(Seq<char>, Seq<char>)>,
    must: bool,
) -> Result<Seq<(int, Value)>, Failure>
    decreases bindings.len(),
{
    if bindings.len() == 0 {
        Ok(Seq::empty())
    } else {
        match spec_changes(kind, bindings.drop_last(), params, must) {
            Err(e) => Err(e),
            Ok(changes) => {
                let (key, field, required) = bindings.last();
                match lookup(params, key) {
                    None => if must && required {
                        Err(Failure::MissingParameter(key))
                    } else {
                        Ok(changes)
                    },
                    Some(text) => match spec_parse_value(text, spec_fields(kind)[field].1) {
                        None => Err(Failure::InvalidValue(key)),
                        Some(v) => Ok(changes.push((field, v))),
                    },
                }
            },
        }
    }
}

/// A record after a list of changes, applied one after the other. A change
/// to a position that the record does not have changes nothing.
pub open spec fn spec_merge(record: Seq<Value>, changes: Seq<(int, Value)>) -> Seq<Value>
    decreases changes.len(),
{
    if changes.len() == 0 {
        record
    } else {
        let before = spec_merge(record, changes.drop_last());
        let (field, v) = changes.last();
        if 0 <= field < before.len() {
            before.update(field, v)
        } else {
            before
        }
    }
}

/// Whether a raw row can be read as an entity of a kind: it has a column
/// for each field, of the field's type. Columns behind those do not count.
pub open spec fn decodable(kind: EntityKind, row: Seq<Value>) -> bool {
    &&& row.len() >= spec_fields(kind).len()
    &&& forall|i: int|
        0 <= i < spec_fields(kind).len() ==> has_type(#[trigger] row[i], spec_fields(kind)[i].1)
}

/// The record that a raw row holds: its leading columns, one per field.
pub open spec fn spec_decode_row(kind: EntityKind, row: Seq<Value>) -> Result<
    Seq<Value>,
    Failure,
> {
    if decodable(kind, row) {
        Ok(row.subrange(0, spec_fields(kind).len() as int))
    } else {
        Err(Failure::DecodeFailure)
    }
}

/// The records that a list of raw rows holds, in the same order; one row
/// that cannot be read fails them all.
pub open spec fn spec_decode_rows(kind: EntityKind, rows: Seq<Seq<Value>>) -> Result<
    Seq<Seq<Value>>,
    Failure,
> {
    if forall|i: int| 0 <= i < rows.len() ==> decodable(kind, #[trigger] rows[i]) {
        Ok(Seq::new(rows.len(), |i: int| rows[i].subrange(0, spec_fields(kind).len() as int)))
    } else {
        Err(Failure::DecodeFailure)
    }
}

/// The number under a paging key: the default where the key is absent.
pub open spec fn spec_page_number(params: Seq<(Seq<char>, Seq<char>)>, key: Seq<char>, or: u64)
    -> Result<u64, Failure> {
    match lookup(params, key) {
        None => Ok(or),
        Some(text) => match spec_parse_u64(text) {
            Some(n) => Ok(n),
            None => Err(Failure::InvalidValue(key)),
        },
    }
}

/// The limit and the offset of the page that a request asks for: `pagesize`
/// rows (25 by default) from row `page * pagesize` on (`page` 0 by default).
/// A page so far out that its offset does not fit 64 bits is refused.
pub open spec fn spec_page(params: Seq<(Seq<char>, Seq<char>)>) -> Result<(u64, u64), Failure> {
    match spec_page_number(params, "page"@, 0) {
        Err(e) => Err(e),
        Ok(page) => match spec_page_number(params, "pagesize"@, PAGESIZE) {
            Err(e) => Err(e),
            Ok(limit) => if page * limit > u64::MAX {
                Err(Failure::InvalidValue("page"@))
            } else {
                Ok((limit, (page * limit) as u64))
            },
        },
    }
}

/// What reading one entity by identity asks of the storage.
pub open spec fn spec_get_one(kind: EntityKind, params: Seq<(Seq<char>, Seq<char>)>) -> Result<
    StatementView,
    Failure,
> {
    match spec_required(params, "id"@) {
        Err(e) => Err(e),
        Ok(id) => Ok(spec_get_by_id(kind, id)),
    }
}

/// The answer to reading one entity, from the rows that came back: no row
/// is `NotFound`; else the first row, decoded.
pub open spec fn spec_found(kind: EntityKind, rows: Seq<Seq<Value>>) -> Result<
    ResponseView,
    Failure,
> {
    if rows.len() == 0 {
        Err(Failure::NotFound)
    } else {
        match spec_decode_row(kind, rows[0]) {
            Err(e) => Err(e),
            Ok(record) => Ok(spec_success(kind, HandlerCRUD::GetOne, seq![record])),
        }
    }
}

/// What listing a page asks of the storage.
pub open spec fn spec_get_list(kind: EntityKind, params: Seq<(Seq<char>, Seq<char>)>) -> Result<
    StatementView,
    Failure,
> {
    match spec_page(params) {
        Err(e) => Err(e),
        Ok((limit, offset)) => Ok(spec_list(kind, limit, offset)),
    }
}

/// What listing a page of the entities with a given value in one field
/// asks of the storage. The value comes from the parameter `key`.
pub open spec fn spec_get_list_by(
    kind: EntityKind,
    key: Seq<char>,
    field: usize,
    params: Seq<(Seq<char>, Seq<char>)>,
) -> Result<StatementView, Failure> {
    match spec_required(params, key) {
        Err(e) => Err(e),
        Ok(value) => match spec_page(params) {
            Err(e) => Err(e),
            Ok((limit, offset)) => Ok(spec_list_by(kind, field, value, limit, offset)),
        },
    }
}

/// The answer to a listing, from the rows that came back: all of them,
/// decoded, in their order. No row at all is a success too.
pub open spec fn spec_listed(kind: EntityKind, action: HandlerCRUD, rows: Seq<Seq<Value>>)
    -> Result<ResponseView, Failure> {
    match spec_decode_rows(kind, rows) {
        Err(e) => Err(e),
        Ok(records) => Ok(spec_success(kind, action, records)),
    }
}

/// The record of a new entity: every bound parameter that the request
/// carries in its field, the identity and the creation time from the
/// request's context, and the default in every other field. A required
/// parameter that is absent fails the create.
pub open spec fn spec_new_record(
    kind: EntityKind,
    bindings: Seq<(Seq<char>, int, bool)>,
    params: Seq<(Seq<char>, Seq<char>)>,
    ext: Seq<(Seq<char>, Seq<char>)>,
) -> Result<Seq<Value>, Failure> {
    match spec_changes(kind, bindings, params, true) {
        Err(e) => Err(e),
        Ok(changes) => match spec_required(ext, "random_str"@) {
            Err(e) => Err(e),
            Ok(id) => match spec_required(ext, "time"@) {
                Err(e) => Err(e),
                Ok(text) => match spec_parse_i64(text) {
                    None => Err(Failure::InvalidValue("time"@)),
                    Some(time) => Ok(
                        spec_merge(default_record(kind), changes).update(0, Value::Text(id)).update(
                            spec_created_index(kind),
                            Value::Int64(time),
                        ),
                    ),
                },
            },
        },
    }
}

/// What creating an entity asks of the storage, and the response once the
/// statement has run: the new entity, as it was put together.
pub open spec fn spec_create(
    kind: EntityKind,
    bindings: Seq<(Seq<char>, int, bool)>,
    params: Seq<(Seq<char>, Seq<char>)>,
    ext: Seq<(Seq<char>, Seq<char>)>,
) -> Result<(StatementView, ResponseView), Failure> {
    match spec_new_record(kind, bindings, params, ext) {
        Err(e) => Err(e),
        Ok(record) => Ok(
            (spec_insert(kind, record), spec_success(kind, HandlerCRUD::Create, seq![record])),
        ),
    }
}

/// What an update asks of the storage first: the stored row, by identity.
/// The parameters are all read before that, so a bad one stops the update
/// before the storage is asked.
pub open spec fn spec_update_lookup(
    kind: EntityKind,
    bindings: Seq<(Seq<char>, int, bool)>,
    params: Seq<(Seq<char>, Seq<char>)>,
) -> Result<StatementView, Failure> {
    match spec_required(params, "id"@) {
        Err(e) => Err(e),
        Ok(id) => match spec_changes(kind, bindings, params, false) {
            Err(e) => Err(e),
            Ok(changes) => Ok(spec_get_by_id(kind, id)),
        },
    }
}

/// The second half of an update, from the rows that the lookup gave: no row
/// is `NotFound`; else the request's changes are applied to the first row,
/// and the merged entity is both written back and sent out.
pub open spec fn spec_update_merge(
    kind: EntityKind,
    bindings: Seq<(Seq<char>, int, bool)>,
    params: Seq<(Seq<char>, Seq<char>)>,
    rows: Seq<Seq<Value>>,
) -> Result<(StatementView, ResponseView), Failure> {
    match spec_required(params, "id"@) {
        Err(e) => Err(e),
        Ok(id) => match spec_changes(kind, bindings, params, false) {
            Err(e) => Err(e),
            Ok(changes) => if rows.len() == 0 {
                Err(Failure::NotFound)
            } else {
                match spec_decode_row(kind, rows[0]) {
                    Err(e) => Err(e),
                    Ok(old) => {
                        let merged = spec_merge(old, changes);
                        Ok(
                            (
                                spec_update(kind, merged),
                                spec_success(kind, HandlerCRUD::Update, seq![merged]),
                            ),
                        )
                    },
                }
            },
        },
    }
}

/// What deleting an entity asks of the storage, and the response once the
/// statement has run: a success without results, whether or not a row went.
pub open spec fn spec_remove(kind: EntityKind, params: Seq<(Seq<char>, Seq<char>)>) -> Result<
    (StatementView, ResponseView),
    Failure,
> {
    match spec_required(params, "id"@) {
        Err(e) => Err(e),
        Ok(id) => Ok(
            (spec_delete(kind, id), spec_success(kind, HandlerCRUD::Delete, Seq::empty())),
        ),
    }
}

/// The changes that valid bindings produce fit the kind.
pub proof fn lemma_changes_fit(
    kind: EntityKind,
    bindings: Seq<(Seq<char>, int, bool)>,
    params: Seq<(Seq<char>, Seq<char>)>,
    must: bool,
)
    requires
        valid_bindings(kind, bindings),
    ensures
        spec_changes(kind, bindings, params, must) matches Ok(changes) ==> changes_fit(
            kind,
            changes,
        ),
    decreases bindings.len(),
{
    if bindings.len() > 0 {
        let head = bindings.drop_last();
        assert forall|i: int| 0 <= i < head.len() implies editable(kind, (#[trigger] head[i]).1) by {
            assert(head[i] == bindings[i]);
        }
        lemma_changes_fit(kind, head, params, must);
        assert(editable(kind, bindings[bindings.len() - 1].1));
    }
}

/// Merging keeps what it should: applying changes that fit to a full
/// record gives a full record with the same identity and creation time,
/// and with every field that no change sets as it was.
pub proof fn lemma_merge_preserves(kind: EntityKind, record: Seq<Value>, changes: Seq<(int, Value)>)
    requires
        well_typed(kind, record),
        changes_fit(kind, changes),
    ensures
        well_typed(kind, spec_merge(record, changes)),
        spec_merge(record, changes)[0] == record[0],
        spec_merge(record, changes)[spec_created_index(kind)] == record[spec_created_index(kind)],
        forall|j: int|
            0 <= j < record.len() && !touches(changes, j) ==> spec_merge(record, changes)[j]
                == record[j],
    decreases changes.len(),
{
    lemma_identity_and_creation(kind);
    if changes.len() > 0 {
        let head = changes.drop_last();
        assert forall|i: int| 0 <= i < head.len() implies {
            &&& editable(kind, (#[trigger] head[i]).0)
            &&& has_type(head[i].1, spec_fields(kind)[head[i].0].1)
        } by {
            assert(head[i] == changes[i]);
        }
        lemma_merge_preserves(kind, record, head);
        let last = changes[changes.len() - 1];
        assert(editable(kind, last.0));
        assert forall|j: int| 0 <= j < record.len() && !touches(changes, j) implies spec_merge(
            record,
            changes,
        )[j] == record[j] by {
            assert(last.0 != j);
            if touches(head, j) {
                let i = choose|i: int| 0 <= i < head.len() && (#[trigger] head[i]).0 == j;
                assert(changes[i] == head[i]);
            }
        }
    }
}

/// Adds a binding behind those that are there.
pub fn push_binding(bindings: &mut Vec<Binding>, param: &str, field: usize, required: bool)
    ensures
        final(bindings).deep_view() == old(bindings).deep_view().push(
            (param@, field as int, required),
        ),
{
    bindings.push(Binding { param: String::from_str(param), field, required });
    assert(bindings.deep_view() =~= old(bindings).deep_view().push(
        (param@, field as int, required),
    ));
}

/// Reads a parameter text as a value of a field type.
pub fn parse_value(text: &str, ty: FieldType) -> (r: Option<SqlValue>)
    ensures
        match r {
            Some(v) => spec_parse_value(text@, ty) == Some(v@),
            None => spec_parse_value(text@, ty) is None,
        },
{
    match ty {
        FieldType::Text => Some(SqlValue::Text(String::from_str(text))),
        FieldType::Bool => match parse_bool(text) {
            Some(b) => Some(SqlValue::Bool(b)),
            None => None,
        },
        FieldType::Int16 => match parse_i16(text) {
            Some(n) => Some(SqlValue::Int16(n)),
            None => None,
        },
        FieldType::Int32 => match parse_i32(text) {
            Some(n) => Some(SqlValue::Int32(n)),
            None => None,
        },
        FieldType::Int64 => match parse_i64(text) {
            Some(n) => Some(SqlValue::Int64(n)),
            None => None,
        },
    }
}

/// The content of a list of changes, or of the failure in its place.
pub open spec fn changes_result(r: Result<Vec<Change>, HandlerError>) -> Result<
    Seq<(int, Value)>,
    Failure,
> {
    match r {
        Ok(c) => Ok(c.deep_view()),
        Err(e) => Err(e@),
    }
}

/// The content of a record, or of the failure in its place.
pub open spec fn record_result(r: Result<Vec<SqlValue>, HandlerError>) -> Result<
    Seq<Value>,
    Failure,
> {
    match r {
        Ok(v) => Ok(v.deep_view()),
        Err(e) => Err(e@),
    }
}

/// The content of a list of records, or of the failure in its place.
pub open spec fn records_result(r: Result<Vec<Vec<SqlValue>>, HandlerError>) -> Result<
    Seq<Seq<Value>>,
    Failure,
> {
    match r {
        Ok(v) => Ok(v.deep_view()),
        Err(e) => Err(e@),
    }
}

/// Reads from the parameters the changes that the bindings allow.
pub fn collect_changes(kind: EntityKind, bindings: &Vec<Binding>, params: &Params, must: bool) -> (r:
    Result<Vec<Change>, HandlerError>)
    requires
        valid_bindings(kind, bindings.deep_view()),
    ensures
        changes_result(r) == spec_changes(kind, bindings.deep_view(), params@, must),
{
    let types = kind.field_types();
    let mut out: Vec<Change> = Vec::new();
    let mut i: usize = 0;
    let ghost all = bindings.deep_view();
    assert(out.deep_view() =~= Seq::empty());
    assert(all.len() == bindings.len());
    while i < bindings.len()
        invariant
            i <= bindings.len(),
            all == bindings.deep_view(),
            all.len() == bindings.len(),
            valid_bindings(kind, all),
            types@ == spec_field_types(kind),
            spec_changes(kind, all.subrange(0, i as int), params@, must) == Ok::<
                Seq<(int, Value)>,
                Failure,
            >(out.deep_view()),
        decreases bindings.len() - i,
    {
        let ghost before = all.subrange(0, i as int);
        let ghost after = all.subrange(0, i + 1);
        assert(after.drop_last() =~= before);
        assert(after.last() == all[i as int]);
        assert(all[i as int] == (
            bindings[i as int].param@,
            bindings[i as int].field as int,
            bindings[i as int].required,
        ));
        assert(editable(kind, all[i as int].1));
        let b = &bindings[i];
        let ghost prev = out.deep_view();
        match params.get(b.param.as_str()) {
            None => {
                if must && b.required {
                    proof {
                        lemma_changes_prefix_error(kind, all, i + 1, params@, must);
                    }
                    return Err(HandlerError::MissingParameter(b.param.clone()));
                }
            },
            Some(text) => {
                match parse_value(text.as_str(), types[b.field]) {
                    None => {
                        proof {
                            lemma_changes_prefix_error(kind, all, i + 1, params@, must);
                        }
                        return Err(HandlerError::InvalidValue(b.param.clone()));
                    },
                    Some(v) => {
                        out.push(Change { field: b.field, value: v });
                        assert(out.deep_view() =~= prev.push((b.field as int, v@)));
                    },
                }
            },
        }
        i = i + 1;
    }
    assert(all.subrange(0, i as int) =~= all);
    Ok(out)
}

/// Once a prefix of the bindings has failed, the whole list fails alike.
proof fn lemma_changes_prefix_error(
    kind: EntityKind,
    bindings: Seq<(Seq<char>, int, bool)>,
    k: int,
    params: Seq<(Seq<char>, Seq<char>)>,
    must: bool,
)
    requires
        0 <= k <= bindings.len(),
        spec_changes(kind, bindings.subrange(0, k), params, must) is Err,
    ensures
        spec_changes(kind, bindings, params, must) == spec_changes(
            kind,
            bindings.subrange(0, k),
            params,
            must,
        ),
    decreases bindings.len() - k,
{
    if k < bindings.len() {
        let next = bindings.subrange(0, k + 1);
        assert(next.drop_last() =~= bindings.subrange(0, k));
        lemma_changes_prefix_error(kind, bindings, k + 1, params, must);
    } else {
        assert(bindings.subrange(0, k) =~= bindings);
    }
}

/// Applies changes to a record, one after the other: the merge of an update
/// onto the stored row. A change to a position that the record does not have
/// changes nothing.
pub fn merge(record: Vec<SqlValue>, changes: &Vec<Change>) -> (r: Vec<SqlValue>)
    ensures
        r.deep_view() == spec_merge(record.deep_view(), changes.deep_view()),
{
    let mut out = record;
    let mut i: usize = 0;
    let ghost all = changes.deep_view();
    let ghost start = record.deep_view();
    assert(all.len() == changes.len());
    while i < changes.len()
        invariant
            i <= changes.len(),
            all == changes.deep_view(),
            all.len() == changes.len(),
            out.deep_view() == spec_merge(start, all.subrange(0, i as int)),
        decreases changes.len() - i,
    {
        let ghost before = all.subrange(0, i as int);
        let ghost after = all.subrange(0, i + 1);
        assert(after.drop_last() =~= before);
        assert(after.last() == all[i as int]);
        assert(all[i as int] == (changes[i as int].field as int, changes[i as int].value@));
        let ghost prev = out.deep_view();
        assert(prev.len() == out.len());
        let c = &changes[i];
        if c.field < out.len() {
            let v = c.value.duplicate();
            out.set(c.field, v);
            assert(out.deep_view() =~= prev.update(c.field as int, v@));
        }
        i = i + 1;
    }
    assert(all.subrange(0, i as int) =~= all);
    out
}

/// The record of a kind in which every field holds its default value.
pub fn default_values(kind: EntityKind) -> (r: Vec<SqlValue>)
    ensures
        r.deep_view() == default_record(kind),
{
    let types = kind.field_types();
    let mut out: Vec<SqlValue> = Vec::new();
    let mut i: usize = 0;
    while i < types.len()
        invariant
            i <= types.len(),
            types@ == spec_field_types(kind),
            out.len() == i,
            forall|j: int| 0 <= j < i ==> out[j]@ == default_value(spec_fields(kind)[j].1),
        decreases types.len() - i,
    {
        out.push(SqlValue::default_of(types[i]));
        i = i + 1;
    }
    assert(out.deep_view() =~= default_record(kind));
    out
}

/// Decodes one raw row into the record of an entity of the given kind.
/// Columns behind the last field are ignored.
pub fn decode_row(kind: EntityKind, row: &Vec<SqlValue>) -> (r: Result<Vec<SqlValue>, HandlerError>)
    ensures
        record_result(r) == spec_decode_row(kind, row.deep_view()),
        r matches Ok(v) ==> well_typed(kind, v.deep_view()),
{
    let types = kind.field_types();
    assert(row.deep_view().len() == row.len());
    if row.len() < types.len() {
        return Err(HandlerError::DecodeFailure);
    }
    let mut out: Vec<SqlValue> = Vec::new();
    let mut i: usize = 0;
    while i < types.len()
        invariant
            i <= types.len() <= row.len(),
            types@ == spec_field_types(kind),
            row.deep_view().len() == row.len(),
            out.len() == i,
            forall|j: int| 0 <= j < i ==> (#[trigger] out[j])@ == row.deep_view()[j],
            forall|j: int|
                0 <= j < i ==> has_type(#[trigger] row.deep_view()[j], spec_fields(kind)[j].1),
        decreases types.len() - i,
    {
        assert(row.deep_view()[i as int] == row[i as int]@);
        if !row[i].is_of(types[i]) {
            assert(!has_type(row.deep_view()[i as int], spec_fields(kind)[i as int].1));
            return Err(HandlerError::DecodeFailure);
        }
        out.push(row[i].duplicate());
        i = i + 1;
    }
    assert(out.deep_view() =~= row.deep_view().subrange(0, spec_fields(kind).len() as int));
    assert(well_typed(kind, out.deep_view())) by {
        assert forall|j: int| 0 <= j < out.deep_view().len() implies has_type(
            #[trigger] out.deep_view()[j],
            spec_fields(kind)[j].1,
        ) by {
            assert(out.deep_view()[j] == row.deep_view()[j]);
        }
    }
    Ok(out)
}

/// Decodes all raw rows, in their order.
pub fn decode_rows(kind: EntityKind, rows: &Vec<Vec<SqlValue>>) -> (r: Result<
    Vec<Vec<SqlValue>>,
    HandlerError,
>)
    ensures
        records_result(r) == spec_decode_rows(kind, rows.deep_view()),
        r matches Ok(v) ==> forall|i: int|
            0 <= i < v.len() ==> well_typed(kind, #[trigger] v[i].deep_view()),
{
    let mut out: Vec<Vec<SqlValue>> = Vec::new();
    let mut i: usize = 0;
    assert(rows.deep_view().len() == rows.len());
    while i < rows.len()
        invariant
            i <= rows.len(),
            rows.deep_view().len() == rows.len(),
            out.len() == i,
            forall|j: int| 0 <= j < i ==> decodable(kind, #[trigger] rows.deep_view()[j]),
            forall|j: int|
                0 <= j < i ==> (#[trigger] out[j]).deep_view() == rows.deep_view()[j].subrange(
                    0,
                    spec_fields(kind).len() as int,
                ),
            forall|j: int| 0 <= j < i ==> well_typed(kind, #[trigger] out[j].deep_view()),
        decreases rows.len() - i,
    {
        assert(rows.deep_view()[i as int] == rows[i as int].deep_view());
        match decode_row(kind, &rows[i]) {
            Err(e) => {
                assert(!decodable(kind, rows.deep_view()[i as int]));
                return Err(e);
            },
            Ok(record) => {
                out.push(record);
            },
        }
        i = i + 1;
    }
    assert(out.deep_view() =~= Seq::new(
        rows.deep_view().len(),
        |i: int| rows.deep_view()[i].subrange(0, spec_fields(kind).len() as int),
    ));
    Ok(out)
}

/// The typed entities of a list of full records.
pub fn typed<T: EightFishModel>(records: &Vec<Vec<SqlValue>>) -> (r: Vec<T>)
    requires
        forall|i: int|
            0 <= i < records.len() ==> well_typed(T::spec_kind(), #[trigger] records[i].deep_view()),
    ensures
        Seq::new(r@.len(), |i: int| r@[i].spec_values()) == records.deep_view(),
{
    let mut out: Vec<T> = Vec::new();
    let mut i: usize = 0;
    while i < records.len()
        invariant
            i <= records.len(),
            out.len() == i,
            forall|j: int|
                0 <= j < records.len() ==> well_typed(
                    T::spec_kind(),
                    #[trigger] records[j].deep_view(),
                ),
            forall|j: int| 0 <= j < i ==> (#[trigger] out[j]).spec_values() == records[j].deep_view(),
        decreases records.len() - i,
    {
        out.push(T::from_values(&records[i]));
        i = i + 1;
    }
    assert(Seq::new(out@.len(), |i: int| out@[i].spec_values()) =~= records.deep_view());
    out
}

/// The content of a page window, or of the failure in its place.
pub open spec fn window_result(r: Result<(u64, u64), HandlerError>) -> Result<(u64, u64), Failure> {
    match r {
        Ok(w) => Ok(w),
        Err(e) => Err(e@),
    }
}

fn page_number(params: &Params, key: &str, or: u64) -> (r: Result<u64, HandlerError>)
    ensures
        match r {
            Ok(n) => spec_page_number(params@, key@, or) == Ok::<u64, Failure>(n),
            Err(e) => spec_page_number(params@, key@, or) == Err::<u64, Failure>(e@),
        },
{
    match params.get(key) {
        None => Ok(or),
        Some(text) => match parse_u64(text.as_str()) {
            Some(n) => Ok(n),
            None => Err(HandlerError::InvalidValue(String::from_str(key))),
        },
    }
}

/// The limit and the offset of the page that the parameters ask for.
pub fn page_window(params: &Params) -> (r: Result<(u64, u64), HandlerError>)
    ensures
        window_result(r) == spec_page(params@),
{
    let page = match page_number(params, "page", 0) {
        Ok(n) => n,
        Err(e) => {
            return Err(e);
        },
    };
    let limit = match page_number(params, "pagesize", PAGESIZE) {
        Ok(n) => n,
        Err(e) => {
            return Err(e);
        },
    };
    match page.checked_mul(limit) {
        Some(offset) => Ok((limit, offset)),
        None => Err(HandlerError::InvalidValue(String::from_str("page"))),
    }
}

/// First half of reading one entity: the statement that fetches it.
pub fn get_one<T: EightFishModel>(req: &Request) -> (r: Result<crate::sql::Statement, HandlerError>)
    ensures
        statement_result(r) == spec_get_one(T::spec_kind(), req.params@),
{
    match required(&req.params, "id") {
        Err(e) => Err(e),
        Ok(id) => Ok(build_get_by_id(T::kind(), id.as_str())),
    }
}

/// Second half of reading one entity: the response from the rows.
pub fn found<T: EightFishModel>(rows: &Vec<Vec<SqlValue>>) -> (r: Result<Response<T>, HandlerError>)
    ensures
        response_result(r) == spec_found(T::spec_kind(), rows.deep_view()),
{
    assert(rows.deep_view().len() == rows.len());
    if rows.len() == 0 {
        return Err(HandlerError::NotFound);
    }
    assert(rows.deep_view()[0] == rows[0].deep_view());
    match decode_row(T::kind(), &rows[0]) {
        Err(e) => Err(e),
        Ok(record) => {
            let mut results: Vec<T> = Vec::new();
            results.push(T::from_values(&record));
            assert(Seq::new(results@.len(), |i: int| results@[i].spec_values()) =~= seq![
                record.deep_view(),
            ]);
            Ok(Response::success(HandlerCRUD::GetOne, results))
        },
    }
}

/// First half of a listing: the statement that fetches the page.
pub fn get_list<T: EightFishModel>(req: &Request) -> (r: Result<crate::sql::Statement, HandlerError>)
    ensures
        statement_result(r) == spec_get_list(T::spec_kind(), req.params@),
{
    match page_window(&req.params) {
        Err(e) => Err(e),
        Ok((limit, offset)) => build_list(T::kind(), limit, offset),
    }
}

/// First half of a filtered listing: the statement that fetches the page of
/// the entities whose field at `field` equals the parameter under `key`.
pub fn get_list_by<T: EightFishModel>(req: &Request, key: &str, field: usize) -> (r: Result<
    crate::sql::Statement,
    HandlerError,
>)
    requires
        field < spec_fields(T::spec_kind()).len(),
    ensures
        statement_result(r) == spec_get_list_by(T::spec_kind(), key@, field, req.params@),
{
    let value = match required(&req.params, key) {
        Err(e) => {
            return Err(e);
        },
        Ok(v) => v,
    };
    match page_window(&req.params) {
        Err(e) => Err(e),
        Ok((limit, offset)) => build_list_by(T::kind(), field, value.as_str(), limit, offset),
    }
}

/// Second half of a listing: the response from the rows.
pub fn listed<T: EightFishModel>(action: HandlerCRUD, rows: &Vec<Vec<SqlValue>>) -> (r: Result<
    Response<T>,
    HandlerError,
>)
    ensures
        response_result(r) == spec_listed(T::spec_kind(), action, rows.deep_view()),
{
    match decode_rows(T::kind(), rows) {
        Err(e) => Err(e),
        Ok(records) => {
            let results: Vec<T> = typed(&records);
            Ok(Response::success(action, results))
        },
    }
}

/// Creating an entity: the insert statement and the response that follows.
pub fn create<T: EightFishModel>(req: &Request, bindings: &Vec<Binding>) -> (r: Result<
    Write<T>,
    HandlerError,
>)
    requires
        valid_bindings(T::spec_kind(), bindings.deep_view()),
    ensures
        write_result(r) == spec_create(
            T::spec_kind(),
            bindings.deep_view(),
            req.params@,
            req.ext@,
        ),
{
    let kind = T::kind();
    let changes = match collect_changes(kind, bindings, &req.params, true) {
        Err(e) => {
            return Err(e);
        },
        Ok(c) => c,
    };
    let id = match required(&req.ext, "random_str") {
        Err(e) => {
            return Err(e);
        },
        Ok(v) => v,
    };
    let text = match required(&req.ext, "time") {
        Err(e) => {
            return Err(e);
        },
        Ok(v) => v,
    };
    let time = match parse_i64(text.as_str()) {
        None => {
            return Err(HandlerError::InvalidValue(String::from_str("time")));
        },
        Some(t) => t,
    };
    let mut record = merge(default_values(kind), &changes);
    proof {
        lemma_identity_and_creation(kind);
        lemma_changes_fit(kind, bindings.deep_view(), req.params@, true);
        lemma_merge_preserves(kind, default_record(kind), changes.deep_view());
    }
    let ghost filled = record.deep_view();
    assert(filled.len() == record.len());
    let id_value = SqlValue::Text(id.clone());
    record.set(0, id_value);
    assert(record.deep_view() =~= filled.update(0, Value::Text(id@)));
    let ghost named = record.deep_view();
    let created = kind.created_index();
    record.set(created, SqlValue::Int64(time));
    assert(record.deep_view() =~= named.update(created as int, Value::Int64(time)));
    assert(well_typed(kind, record.deep_view()));
    let statement = build_insert(kind, &record);
    let mut results: Vec<T> = Vec::new();
    results.push(T::from_values(&record));
    assert(Seq::new(results@.len(), |i: int| results@[i].spec_values()) =~= seq![
        record.deep_view(),
    ]);
    Ok(Write { statement, response: Response::success(HandlerCRUD::Create, results) })
}

/// First half of an update: the statement that fetches the stored row.
pub fn update_lookup<T: EightFishModel>(req: &Request, bindings: &Vec<Binding>) -> (r: Result<
    crate::sql::Statement,
    HandlerError,
>)
    requires
        valid_bindings(T::spec_kind(), bindings.deep_view()),
    ensures
        statement_result(r) == spec_update_lookup(
            T::spec_kind(),
            bindings.deep_view(),
            req.params@,
        ),
{
    let kind = T::kind();
    let id = match required(&req.params, "id") {
        Err(e) => {
            return Err(e);
        },
        Ok(v) => v,
    };
    match collect_changes(kind, bindings, &req.params, false) {
        Err(e) => Err(e),
        Ok(_) => Ok(build_get_by_id(kind, id.as_str())),
    }
}

/// Second half of an update: the merge onto the stored row, the statement
/// that writes the merged entity back, and the response that follows.
pub fn update_merge<T: EightFishModel>(
    req: &Request,
    bindings: &Vec<Binding>,
    rows: &Vec<Vec<SqlValue>>,
) -> (r: Result<Write<T>, HandlerError>)
    requires
        valid_bindings(T::spec_kind(), bindings.deep_view()),
    ensures
        write_result(r) == spec_update_merge(
            T::spec_kind(),
            bindings.deep_view(),
            req.params@,
            rows.deep_view(),
        ),
{
    let kind = T::kind();
    let id = match required(&req.params, "id") {
        Err(e) => {
            return Err(e);
        },
        Ok(v) => v,
    };
    let changes = match collect_changes(kind, bindings, &req.params, false) {
        Err(e) => {
            return Err(e);
        },
        Ok(c) => c,
    };
    assert(rows.deep_view().len() == rows.len());
    if rows.len() == 0 {
        return Err(HandlerError::NotFound);
    }
    assert(rows.deep_view()[0] == rows[0].deep_view());
    let old = match decode_row(kind, &rows[0]) {
        Err(e) => {
            return Err(e);
        },
        Ok(record) => record,
    };
    let ghost stored = old.deep_view();
    let merged = merge(old, &changes);
    proof {
        lemma_changes_fit(kind, bindings.deep_view(), req.params@, false);
        lemma_merge_preserves(kind, stored, changes.deep_view());
    }
    let statement = build_update(kind, &merged);
    let mut results: Vec<T> = Vec::new();
    results.push(T::from_values(&merged));
    assert(Seq::new(results@.len(), |i: int| results@[i].spec_values()) =~= seq![
        merged.deep_view(),
    ]);
    Ok(Write { statement, response: Response::success(HandlerCRUD::Update, results) })
}

/// Deleting an entity: the delete statement and the response that follows.
pub fn remove<T: EightFishModel>(req: &Request) -> (r: Result<Write<T>, HandlerError>)
    ensures
        write_result(r) == spec_remove(T::spec_kind(), req.params@),
{
    match required(&req.params, "id") {
        Err(e) => Err(e),
        Ok(id) => {
            let statement = build_delete(T::kind(), id.as_str());
            let results: Vec<T> = Vec::new();
            assert(Seq::new(results@.len(), |i: int| results@[i].spec_values()) =~= Seq::<
                Seq<Value>,
            >::empty());
            Ok(Write { statement, response: Response::success(HandlerCRUD::Delete, results) })
        },
    }
}

} // verus!
