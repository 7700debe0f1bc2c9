//! What the statements mean. The storage itself is outside this library;
//! here a table is a sequence of rows, and each operation of a statement is
//! given its meaning on such a table. Against that meaning the handlers can
//! be held to what a caller expects of them across several requests.

use vstd::prelude::*;
use crate::crud::{
    decodable, editable, lemma_changes_fit, lemma_merge_preserves, spec_changes, spec_create,
    spec_decode_rows, spec_found, spec_get_one, spec_listed, spec_merge, spec_new_record,
    spec_remove, spec_update_merge, touches, valid_bindings,
};
use crate::model::{
    default_record, lemma_identity_and_creation, spec_created_index, spec_fields, well_typed,
    EntityKind,
};
use crate::request::{lookup, Failure};
use crate::response::{spec_success, HandlerCRUD, ResponseView, Status};
use crate::sql::{spec_list, spec_list_by, SqlOp, StatementView};
use crate::value::Value;

verus! {

/// Whether the condition of a statement holds of a row. Statements by
/// identity compare the first column with the first bound value; a filtered
/// page compares the column of its field; a plain page takes every row.
pub open spec fn admits(s: StatementView, row: Seq<Value>) -> bool {
    match s.op {
        SqlOp::SelectById | SqlOp::Update | SqlOp::Delete => s.params.len() > 0 && row.len() > 0
            && row[0] == s.params[0],
        SqlOp::SelectPage { limit, offset } => true,
        SqlOp::SelectPageBy { field, limit, offset } => s.params.len() > 0 && field < row.len()
            && row[field as int] == s.params[0],
        SqlOp::Insert => false,
    }
}

/// The condition of a statement, as a predicate on rows.
pub open spec fn admitting(s: StatementView) -> spec_fn(Seq<Value>) -> bool {
    |row: Seq<Value>| admits(s, row)
}

/// The opposite of the condition of a statement.
pub open spec fn rejecting(s: StatementView) -> spec_fn(Seq<Value>) -> bool {
    |row: Seq<Value>| !admits(s, row)
}

/// The rows of a table that a statement speaks of, in the table's order.
pub open spec fn spec_matching(table: Seq<Seq<Value>>, s: StatementView) -> Seq<Seq<Value>> {
    table.filter(admitting(s))
}

/// The table after a statement has run. An insert adds its bound values as
/// a row; an update puts them in the place of every row with their
/// identity; a delete drops every row with the bound identity; a select
/// changes nothing.
pub open spec fn spec_execute(table: Seq<Seq<Value>>, s: StatementView) -> Seq<Seq<Value>> {
    match s.op {
        SqlOp::Insert => table.push(s.params),
        SqlOp::Update => Seq::new(
            table.len(),
            |i: int|
                if admits(s, table[i]) {
                    s.params
                } else {
                    table[i]
                },
        ),
        SqlOp::Delete => table.filter(rejecting(s)),
        _ => table,
    }
}

/// The rows from position `offset` on, `limit` at most, of a listing.
pub open spec fn spec_window(listing: Seq<Seq<Value>>, limit: u64, offset: u64) -> Seq<
    Seq<Value>,
> {
    let from = if offset <= listing.len() {
        offset as int
    } else {
        listing.len() as int
    };
    let to = if offset + limit <= listing.len() {
        offset + limit
    } else {
        listing.len() as int
    };
    listing.subrange(from, to)
}

/// The page that a paging statement cuts out of a listing of the rows it
/// speaks of.
pub open spec fn spec_page_of(listing: Seq<Seq<Value>>, s: StatementView) -> Seq<Seq<Value>> {
    match s.op {
        SqlOp::SelectPage { limit, offset } => spec_window(listing, limit, offset),
        SqlOp::SelectPageBy { field, limit, offset } => spec_window(listing, limit, offset),
        _ => listing,
    }
}

/// The creation time that a row of a kind holds.
pub open spec fn created_time(kind: EntityKind, row: Seq<Value>) -> int {
    match row[spec_created_index(kind)] {
        Value::Int64(t) => t as int,
        _ => 0,
    }
}

/// Whether a listing runs from the newest row to the oldest.
pub open spec fn newest_first(kind: EntityKind, listing: Seq<Seq<Value>>) -> bool {
    forall|i: int, j: int|
        0 <= i <= j < listing.len() ==> created_time(kind, #[trigger] listing[i]) >= created_time(
            kind,
            #[trigger] listing[j],
        )
}

/// Whether a request carries a parameter that is bound to the field at a
/// position.
pub open spec fn supplies(
    bindings: Seq<(Seq<char>, int, bool)>,
    params: Seq<(Seq<char>, Seq<char>)>,
    field: int,
) -> bool {
    exists|i: int|
        0 <= i < bindings.len() && (#[trigger] bindings[i]).1 == field && lookup(
            params,
            bindings[i].0,
        ) is Some
}

proof fn lemma_filter_keeps_all<A>(s: Seq<A>, p: spec_fn(A) -> bool)
    requires
        forall|i: int| 0 <= i < s.len() ==> p(#[trigger] s[i]),
    ensures
        s.filter(p) == s,
    decreases s.len(),
{
    reveal(Seq::filter);
    if s.len() > 0 {
        let head = s.drop_last();
        assert forall|i: int| 0 <= i < head.len() implies p(#[trigger] head[i]) by {
            assert(head[i] == s[i]);
        }
        lemma_filter_keeps_all(head, p);
        assert(p(s[s.len() - 1]));
        assert(head.push(s.last()) =~= s);
    }
}

proof fn lemma_filter_drops_all<A>(s: Seq<A>, p: spec_fn(A) -> bool)
    requires
        forall|i: int| 0 <= i < s.len() ==> !p(#[trigger] s[i]),
    ensures
        s.filter(p).len() == 0,
    decreases s.len(),
{
    reveal(Seq::filter);
    if s.len() > 0 {
        let head = s.drop_last();
        assert forall|i: int| 0 <= i < head.len() implies !p(#[trigger] head[i]) by {
            assert(head[i] == s[i]);
        }
        lemma_filter_drops_all(head, p);
        assert(!p(s[s.len() - 1]));
    }
}

proof fn lemma_empty_filter_rejects<A>(s: Seq<A>, p: spec_fn(A) -> bool, i: int)
    requires
        s.filter(p).len() == 0,
        0 <= i < s.len(),
    ensures
        !p(s[i]),
{
    if p(s[i]) {
        s.lemma_filter_contains(p, i);
        let k = choose|k: int| 0 <= k < s.filter(p).len() && s.filter(p)[k] == s[i];
    }
}

/// A full record decodes to itself.
pub proof fn lemma_record_decodes(kind: EntityKind, record: Seq<Value>)
    requires
        well_typed(kind, record),
    ensures
        decodable(kind, record),
        crate::crud::spec_decode_row(kind, record) == Ok::<Seq<Value>, Failure>(record),
{
    assert(record.subrange(0, spec_fields(kind).len() as int) =~= record);
}

/// What a successful create puts together is a full record that holds the
/// identity and the time of the request's context.
pub proof fn lemma_new_record(
    kind: EntityKind,
    bindings: Seq<(Seq<char>, int, bool)>,
    params: Seq<(Seq<char>, Seq<char>)>,
    ext: Seq<(Seq<char>, Seq<char>)>,
)
    requires
        valid_bindings(kind, bindings),
    ensures
        spec_new_record(kind, bindings, params, ext) matches Ok(record) ==> {
            &&& well_typed(kind, record)
            &&& lookup(ext, "random_str"@) matches Some(id) && record[0] == Value::Text(id)
            &&& lookup(ext, "time"@) matches Some(text) && crate::text::spec_parse_i64(text)
                matches Some(time) && record[spec_created_index(kind)] == Value::Int64(time)
            &&& forall|j: int|
                editable(kind, j) && !supplies(bindings, params, j) ==> record[j]
                    == default_record(kind)[j]
        },
{
    lemma_identity_and_creation(kind);
    if let Ok(record) = spec_new_record(kind, bindings, params, ext) {
        let changes = spec_changes(kind, bindings, params, true)->Ok_0;
        lemma_changes_fit(kind, bindings, params, true);
        assert(well_typed(kind, default_record(kind)));
        lemma_merge_preserves(kind, default_record(kind), changes);
        assert forall|j: int|
            editable(kind, j) && !supplies(bindings, params, j) implies record[j] == default_record(
            kind,
        )[j] by {
            if touches(changes, j) {
                lemma_touched_is_supplied(kind, bindings, params, true, j);
            }
        }
    }
}

/// A field that the changes of a request set is one that the request
/// supplies.
pub proof fn lemma_touched_is_supplied(
    kind: EntityKind,
    bindings: Seq<(Seq<char>, int, bool)>,
    params: Seq<(Seq<char>, Seq<char>)>,
    must: bool,
    field: int,
)
    requires
        spec_changes(kind, bindings, params, must) matches Ok(changes) && touches(changes, field),
    ensures
        supplies(bindings, params, field),
    decreases bindings.len(),
{
    let changes = spec_changes(kind, bindings, params, must)->Ok_0;
    if bindings.len() > 0 {
        let head = bindings.drop_last();
        let before = spec_changes(kind, head, params, must)->Ok_0;
        let last = bindings[bindings.len() - 1];
        let i = choose|i: int| 0 <= i < changes.len() && (#[trigger] changes[i]).0 == field;
        if i < before.len() {
            assert(changes[i] == before[i]);
            assert(touches(before, field));
            lemma_touched_is_supplied(kind, head, params, must, field);
            let k = choose|k: int|
                0 <= k < head.len() && (#[trigger] head[k]).1 == field && lookup(
                    params,
                    head[k].0,
                ) is Some;
            assert(bindings[k] == head[k]);
        } else {
            assert(last.1 == field);
            assert(lookup(params, last.0) is Some);
        }
    }
}

/// Reading an entity by an identity that was deleted gives `NotFound`,
/// whatever the table held before, and so also where the entity had been
/// created in it.
pub proof fn lemma_get_after_delete(
    kind: EntityKind,
    table: Seq<Seq<Value>>,
    delete: Seq<(Seq<char>, Seq<char>)>,
    get: Seq<(Seq<char>, Seq<char>)>,
)
    requires
        lookup(delete, "id"@) is Some,
        lookup(get, "id"@) == lookup(delete, "id"@),
    ensures
        spec_remove(kind, delete) matches Ok(removal) && spec_get_one(kind, get) matches Ok(query)
            && spec_found(kind, spec_matching(spec_execute(table, removal.0), query)) == Err::<
            ResponseView,
            Failure,
        >(Failure::NotFound),
{
    let removal = spec_remove(kind, delete)->Ok_0.0;
    let query = spec_get_one(kind, get)->Ok_0;
    let after = spec_execute(table, removal);
    assert(after == table.filter(rejecting(removal)));
    assert forall|i: int| 0 <= i < after.len() implies !admitting(query)(#[trigger] after[i]) by {
        table.lemma_filter_pred(rejecting(removal), i);
        assert(rejecting(removal)(after[i]));
    }
    lemma_filter_drops_all(after, admitting(query));
}

/// An entity that was created under a fresh identity is read back by that
/// identity exactly as the create returned it, field by field.
pub proof fn lemma_get_after_create(
    kind: EntityKind,
    bindings: Seq<(Seq<char>, int, bool)>,
    table: Seq<Seq<Value>>,
    params: Seq<(Seq<char>, Seq<char>)>,
    ext: Seq<(Seq<char>, Seq<char>)>,
    get: Seq<(Seq<char>, Seq<char>)>,
)
    requires
        valid_bindings(kind, bindings),
        spec_create(kind, bindings, params, ext) is Ok,
        lookup(get, "id"@) == lookup(ext, "random_str"@),
        spec_matching(table, spec_get_one(kind, get)->Ok_0).len() == 0,
    ensures
        spec_create(kind, bindings, params, ext) matches Ok(created) && spec_get_one(kind, get)
            matches Ok(query) && spec_found(
            kind,
            spec_matching(spec_execute(table, created.0), query),
        ) == Ok::<ResponseView, Failure>(
            spec_success(kind, HandlerCRUD::GetOne, created.1.results),
        ),
{
    lemma_identity_and_creation(kind);
    lemma_new_record(kind, bindings, params, ext);
    let record = spec_new_record(kind, bindings, params, ext)->Ok_0;
    let created = spec_create(kind, bindings, params, ext)->Ok_0;
    let query = spec_get_one(kind, get)->Ok_0;
    assert(created.0.params == record);
    assert(query.params[0] == record[0]);
    assert(admitting(query)(record));
    table.lemma_filter_push(record, admitting(query));
    let rows = spec_matching(spec_execute(table, created.0), query);
    assert(rows == table.filter(admitting(query)).push(record));
    assert(rows[0] == record);
    lemma_record_decodes(kind, record);
}

/// A partial update leaves alone what it does not supply: the merged entity
/// has the identity and the creation time of the stored row, and every
/// field for which the request carries no parameter is as it was stored.
/// The merged entity is what is written back and what is sent out.
pub proof fn lemma_update_keeps_the_rest(
    kind: EntityKind,
    bindings: Seq<(Seq<char>, int, bool)>,
    params: Seq<(Seq<char>, Seq<char>)>,
    rows: Seq<Seq<Value>>,
)
    requires
        valid_bindings(kind, bindings),
        spec_update_merge(kind, bindings, params, rows) is Ok,
    ensures
        spec_update_merge(kind, bindings, params, rows) matches Ok(updated) && {
            let merged = updated.0.params;
            &&& updated.0.op == SqlOp::Update
            &&& updated.1.results == seq![merged]
            &&& well_typed(kind, merged)
            &&& merged[0] == rows[0][0]
            &&& merged[spec_created_index(kind)] == rows[0][spec_created_index(kind)]
            &&& forall|j: int|
                0 <= j < spec_fields(kind).len() && !supplies(bindings, params, j) ==> merged[j]
                    == rows[0][j]
        },
{
    lemma_identity_and_creation(kind);
    let changes = spec_changes(kind, bindings, params, false)->Ok_0;
    let old = rows[0].subrange(0, spec_fields(kind).len() as int);
    lemma_changes_fit(kind, bindings, params, false);
    assert(well_typed(kind, old)) by {
        assert forall|i: int| 0 <= i < old.len() implies crate::value::has_type(
            #[trigger] old[i],
            spec_fields(kind)[i].1,
        ) by {
            assert(old[i] == rows[0][i]);
        }
    }
    lemma_merge_preserves(kind, old, changes);
    let merged = spec_merge(old, changes);
    assert forall|j: int|
        0 <= j < spec_fields(kind).len() && !supplies(bindings, params, j) implies merged[j]
        == rows[0][j] by {
        if touches(changes, j) {
            lemma_touched_is_supplied(kind, bindings, params, false, j);
        }
        assert(old[j] == rows[0][j]);
    }
}

/// Two pages that follow each other tile the listing: together they are
/// its first rows without a gap and without a row in both, each row of the
/// first at least as new as each of the second where the listing runs
/// newest first, and no row of the one equal to a row of the other where
/// the listing holds no row twice.
pub proof fn lemma_pages_tile(kind: EntityKind, listing: Seq<Seq<Value>>, n: u64)
    requires
        listing.len() >= 2 * n,
    ensures
        ({
            let first = spec_page_of(listing, spec_list(kind, n, 0));
            let second = spec_page_of(listing, spec_list(kind, n, n));
            &&& first.len() == n && second.len() == n
            &&& first + second == listing.subrange(0, 2 * n)
            &&& forall|i: int| 0 <= i < n ==> first[i] == listing[i] && second[i] == listing[n + i]
            &&& newest_first(kind, listing) ==> newest_first(kind, first + second)
            &&& newest_first(kind, listing) ==> forall|i: int, j: int|
                0 <= i < n && 0 <= j < n ==> created_time(kind, #[trigger] first[i])
                    >= created_time(kind, #[trigger] second[j])
            &&& listing.no_duplicates() ==> forall|i: int, j: int|
                0 <= i < n && 0 <= j < n ==> #[trigger] first[i] != #[trigger] second[j]
        }),
{
    let first = spec_page_of(listing, spec_list(kind, n, 0));
    let second = spec_page_of(listing, spec_list(kind, n, n));
    assert(first == listing.subrange(0, n as int));
    assert(second == listing.subrange(n as int, 2 * n));
    assert(first + second =~= listing.subrange(0, 2 * n));
    if newest_first(kind, listing) {
        let both = first + second;
        assert forall|i: int, j: int| 0 <= i <= j < both.len() implies created_time(
            kind,
            #[trigger] both[i],
        ) >= created_time(kind, #[trigger] both[j]) by {
            assert(both[i] == listing[i]);
            assert(both[j] == listing[j]);
        }
        assert forall|i: int, j: int| 0 <= i < n && 0 <= j < n implies created_time(
            kind,
            #[trigger] first[i],
        ) >= created_time(kind, #[trigger] second[j]) by {
            assert(first[i] == listing[i]);
            assert(second[j] == listing[n + j]);
        }
    }
    if listing.no_duplicates() {
        assert forall|i: int, j: int| 0 <= i < n && 0 <= j < n implies #[trigger] first[i]
            != #[trigger] second[j] by {
            assert(first[i] == listing[i]);
            assert(second[j] == listing[n + j]);
        }
    }
}

/// A filtered listing speaks of the rows that hold the value in the field,
/// of all of them and of no other; so the listings for two different values
/// share no row, and every row with a text in the field belongs to the
/// listing for that text.
pub proof fn lemma_filter_partitions(
    kind: EntityKind,
    table: Seq<Seq<Value>>,
    field: usize,
    value: Seq<char>,
    other: Seq<char>,
    limit: u64,
    offset: u64,
)
    ensures
        ({
            let rows = spec_matching(table, spec_list_by(kind, field, value, limit, offset));
            let others = spec_matching(table, spec_list_by(kind, field, other, limit, offset));
            &&& forall|i: int|
                0 <= i < rows.len() ==> field < (#[trigger] rows[i]).len() && rows[i][field as int]
                    == Value::Text(value)
            &&& forall|i: int| 0 <= i < rows.len() ==> table.contains(#[trigger] rows[i])
            &&& forall|i: int|
                0 <= i < table.len() && field < table[i].len() && table[i][field as int]
                    == Value::Text(value) ==> rows.contains(#[trigger] table[i])
            &&& value != other ==> forall|i: int, j: int|
                0 <= i < rows.len() && 0 <= j < others.len() ==> #[trigger] rows[i]
                    != #[trigger] others[j]
        }),
{
    let s = spec_list_by(kind, field, value, limit, offset);
    let t = spec_list_by(kind, field, other, limit, offset);
    let rows = spec_matching(table, s);
    let others = spec_matching(table, t);
    assert forall|i: int| 0 <= i < rows.len() implies field < (#[trigger] rows[i]).len()
        && rows[i][field as int] == Value::Text(value) && table.contains(rows[i]) by {
        table.lemma_filter_pred(admitting(s), i);
        assert(admitting(s)(rows[i]));
        assert(rows.contains(rows[i]));
        table.lemma_filter_contains_rev(admitting(s), rows[i]);
    }
    assert forall|i: int|
        0 <= i < table.len() && field < table[i].len() && table[i][field as int] == Value::Text(
            value,
        ) implies rows.contains(#[trigger] table[i]) by {
        assert(admitting(s)(table[i]));
        table.lemma_filter_contains(admitting(s), i);
    }
    if value != other {
        assert forall|i: int, j: int| 0 <= i < rows.len() && 0 <= j < others.len() implies
            #[trigger] rows[i] != #[trigger] others[j] by {
            table.lemma_filter_pred(admitting(s), i);
            table.lemma_filter_pred(admitting(t), j);
            assert(admitting(s)(rows[i]));
            assert(admitting(t)(others[j]));
        }
    }
}

/// A page of a listing that runs newest first is answered newest first:
/// where every row of the listing can be read, the response to any page of
/// it is a success whose entities run from the newest to the oldest.
pub proof fn lemma_page_is_answered_newest_first(
    kind: EntityKind,
    action: HandlerCRUD,
    listing: Seq<Seq<Value>>,
    s: StatementView,
)
    requires
        newest_first(kind, listing),
        forall|i: int| 0 <= i < listing.len() ==> decodable(kind, #[trigger] listing[i]),
    ensures
        spec_listed(kind, action, spec_page_of(listing, s)) matches Ok(response) && {
            &&& response.status == Status::Successful
            &&& response.action == action
            &&& response.results.len() == spec_page_of(listing, s).len()
            &&& newest_first(kind, response.results)
        },
{
    lemma_identity_and_creation(kind);
    let rows = spec_page_of(listing, s);
    let from: int = match s.op {
        SqlOp::SelectPage { limit, offset } => if offset <= listing.len() {
            offset as int
        } else {
            listing.len() as int
        },
        SqlOp::SelectPageBy { field, limit, offset } => if offset <= listing.len() {
            offset as int
        } else {
            listing.len() as int
        },
        _ => 0,
    };
    assert(rows.len() + from <= listing.len());
    assert forall|i: int| 0 <= i < rows.len() implies decodable(kind, #[trigger] rows[i]) by {
        assert(rows[i] == listing[from + i]);
    }
    let records = spec_decode_rows(kind, rows)->Ok_0;
    assert forall|i: int, j: int| 0 <= i <= j < records.len() implies created_time(
        kind,
        #[trigger] records[i],
    ) >= created_time(kind, #[trigger] records[j]) by {
        assert(rows[i] == listing[from + i]);
        assert(rows[j] == listing[from + j]);
        assert(decodable(kind, rows[i]));
        assert(decodable(kind, rows[j]));
        assert(records[i][spec_created_index(kind)] == rows[i][spec_created_index(kind)]);
        assert(records[j][spec_created_index(kind)] == rows[j][spec_created_index(kind)]);
    }
}

/// Whether a row holds a text in the field at a position.
pub open spec fn holds(row: Seq<Value>, field: usize, value: Seq<char>) -> bool {
    field < row.len() && row[field as int] == Value::Text(value)
}

/// How many of the values of a list a row holds in the field.
pub open spec fn spec_hits(row: Seq<Value>, field: usize, values: Seq<Seq<char>>) -> nat
    decreases values.len(),
{
    if values.len() == 0 {
        0
    } else {
        spec_hits(row, field, values.drop_last()) + if holds(row, field, values.last()) {
            1nat
        } else {
            0nat
        }
    }
}

/// How many rows the filtered listings for a list of values speak of, all
/// listings taken together.
pub open spec fn spec_filtered_total(
    kind: EntityKind,
    table: Seq<Seq<Value>>,
    field: usize,
    values: Seq<Seq<char>>,
) -> nat
    decreases values.len(),
{
    if values.len() == 0 {
        0
    } else {
        spec_filtered_total(kind, table, field, values.drop_last()) + spec_matching(
            table,
            spec_list_by(kind, field, values.last(), 0, 0),
        ).len()
    }
}

proof fn lemma_total_of_nothing(kind: EntityKind, field: usize, values: Seq<Seq<char>>)
    ensures
        spec_filtered_total(kind, Seq::empty(), field, values) == 0,
    decreases values.len(),
{
    if values.len() > 0 {
        lemma_total_of_nothing(kind, field, values.drop_last());
        Seq::<Seq<Value>>::empty().lemma_filter_len(
            admitting(spec_list_by(kind, field, values.last(), 0, 0)),
        );
    }
}

proof fn lemma_total_grows_by_hits(
    kind: EntityKind,
    table: Seq<Seq<Value>>,
    row: Seq<Value>,
    field: usize,
    values: Seq<Seq<char>>,
)
    ensures
        spec_filtered_total(kind, table.push(row), field, values) == spec_filtered_total(
            kind,
            table,
            field,
            values,
        ) + spec_hits(row, field, values),
    decreases values.len(),
{
    if values.len() > 0 {
        lemma_total_grows_by_hits(kind, table, row, field, values.drop_last());
        let s = spec_list_by(kind, field, values.last(), 0, 0);
        table.lemma_filter_push(row, admitting(s));
        assert(admitting(s)(row) == holds(row, field, values.last()));
    }
}

proof fn lemma_one_hit(row: Seq<Value>, field: usize, values: Seq<Seq<char>>, k: int)
    requires
        values.no_duplicates(),
        0 <= k < values.len(),
        holds(row, field, values[k]),
    ensures
        spec_hits(row, field, values) == 1,
    decreases values.len(),
{
    let head = values.drop_last();
    assert forall|i: int, j: int| 0 <= i < head.len() && 0 <= j < head.len() && i != j implies head[i]
        != head[j] by {
        assert(head[i] == values[i]);
        assert(head[j] == values[j]);
    }
    if k == values.len() - 1 {
        assert forall|i: int| 0 <= i < head.len() implies #[trigger] head[i] != values[k] by {
            assert(head[i] == values[i]);
        }
        lemma_no_hit(row, field, head, values[k]);
    } else {
        assert(head[k] == values[k]);
        lemma_one_hit(row, field, head, k);
        assert(values.last() != values[k]);
    }
}

proof fn lemma_no_hit(row: Seq<Value>, field: usize, values: Seq<Seq<char>>, held: Seq<char>)
    requires
        holds(row, field, held),
        forall|i: int| 0 <= i < values.len() ==> #[trigger] values[i] != held,
    ensures
        spec_hits(row, field, values) == 0,
    decreases values.len(),
{
    if values.len() > 0 {
        let head = values.drop_last();
        assert forall|i: int| 0 <= i < head.len() implies #[trigger] head[i] != held by {
            assert(head[i] == values[i]);
        }
        lemma_no_hit(row, field, head, held);
        assert(values[values.len() - 1] != held);
    }
}

/// The filtered listings add up to the table: where every row holds in the
/// field one of the values of a list without repeats, the listings for
/// these values speak of as many rows, all together, as the table has.
pub proof fn lemma_filters_add_up(
    kind: EntityKind,
    table: Seq<Seq<Value>>,
    field: usize,
    values: Seq<Seq<char>>,
)
    requires
        values.no_duplicates(),
        forall|i: int|
            0 <= i < table.len() ==> exists|k: int|
                0 <= k < values.len() && holds(#[trigger] table[i], field, values[k]),
    ensures
        spec_filtered_total(kind, table, field, values) == table.len(),
    decreases table.len(),
{
    if table.len() == 0 {
        assert(table =~= Seq::empty());
        lemma_total_of_nothing(kind, field, values);
    } else {
        let head = table.drop_last();
        let row = table.last();
        assert forall|i: int| 0 <= i < head.len() implies exists|k: int|
            0 <= k < values.len() && holds(#[trigger] head[i], field, values[k]) by {
            assert(head[i] == table[i]);
        }
        lemma_filters_add_up(kind, head, field, values);
        assert(row == table[table.len() - 1]);
        let k = choose|k: int| 0 <= k < values.len() && holds(row, field, values[k]);
        lemma_one_hit(row, field, values, k);
        lemma_total_grows_by_hits(kind, head, row, field, values);
        assert(head.push(row) =~= table);
    }
}

/// Deleting an identity that no row has succeeds like any other delete, and
/// leaves the table as it was.
pub proof fn lemma_delete_absent(
    kind: EntityKind,
    table: Seq<Seq<Value>>,
    delete: Seq<(Seq<char>, Seq<char>)>,
)
    requires
        lookup(delete, "id"@) is Some,
        spec_matching(table, spec_get_one(kind, delete)->Ok_0).len() == 0,
    ensures
        spec_remove(kind, delete) matches Ok(removal) && removal.1.status == Status::Successful
            && spec_execute(table, removal.0) == table,
{
    let removal = spec_remove(kind, delete)->Ok_0.0;
    let query = spec_get_one(kind, delete)->Ok_0;
    assert forall|i: int| 0 <= i < table.len() implies rejecting(removal)(#[trigger] table[i]) by {
        lemma_empty_filter_rejects(table, admitting(query), i);
        assert(!admitting(query)(table[i]));
    }
    lemma_filter_keeps_all(table, rejecting(removal));
}

} // verus!
