use gutp::model::EntityKind;
use gutp::sql::{
    build_delete, build_get_by_id, build_insert, build_list, build_list_by, build_update, decimal,
    join, placeholder, SqlOp,
};
use gutp::value::SqlValue;

fn text(s: &str) -> SqlValue {
    SqlValue::Text(s.to_string())
}

#[test]
fn get_by_id_selects_all_fields_and_binds_the_id() {
    let s = build_get_by_id(EntityKind::Tag, "t1");
    assert_eq!(
        s.sql,
        "SELECT id, caption, subspace_id, creator_id, is_public, weight, created_time FROM gutptag \
         WHERE id = $1"
    );
    assert_eq!(s.params, vec![text("t1")]);
    assert_eq!(s.op, SqlOp::SelectById);
    assert_eq!(s.kind, EntityKind::Tag);
}

#[test]
fn the_id_is_bound_and_never_written_into_the_text() {
    let evil = "x'; DROP TABLE gutpuser; --";
    let s = build_get_by_id(EntityKind::User, evil);
    assert!(!s.sql.contains("DROP"));
    assert_eq!(s.params, vec![text(evil)]);
    let d = build_delete(EntityKind::User, evil);
    assert!(!d.sql.contains("DROP"));
    assert_eq!(d.params, vec![text(evil)]);
    let l = build_list_by(EntityKind::User, 1, evil, 25, 0).unwrap();
    assert!(!l.sql.contains("DROP"));
    assert_eq!(l.params, vec![text(evil)]);
}

#[test]
fn insert_names_every_field_and_binds_every_value() {
    let values = vec![text("pt1"), text("post1"), text("t1"), SqlValue::Int64(77)];
    let s = build_insert(EntityKind::PostTag, &values);
    assert_eq!(
        s.sql,
        "INSERT INTO gutpposttag (id, post_id, tag_id, created_time) VALUES ($1, $2, $3, $4)"
    );
    assert_eq!(s.params, values);
    assert_eq!(s.op, SqlOp::Insert);
}

#[test]
fn insert_of_the_widest_entity_counts_placeholders_past_nine() {
    let values: Vec<SqlValue> = Vec::new();
    let s = build_insert(EntityKind::Post, &values);
    assert_eq!(
        s.sql,
        "INSERT INTO gutppost (id, title, content, author_id, author_nickname, subspace_id, \
         parent_post_id, ext_link, is_public, status, weight, category, app_id, created_time, \
         updated_time) VALUES ($1, $2, $3, $4, $5, $6, $7, $8, $9, $10, $11, $12, $13, $14, $15)"
    );
}

#[test]
fn update_overwrites_the_whole_row_keyed_by_id() {
    let values = vec![text("pt1"), text("post2"), text("t2"), SqlValue::Int64(77)];
    let s = build_update(EntityKind::PostTag, &values);
    assert_eq!(
        s.sql,
        "UPDATE gutpposttag SET post_id = $2, tag_id = $3, created_time = $4 WHERE id = $1"
    );
    assert_eq!(s.params, values);
    assert_eq!(s.op, SqlOp::Update);
}

#[test]
fn delete_is_keyed_by_id() {
    let s = build_delete(EntityKind::Moderator, "m1");
    assert_eq!(s.sql, "DELETE FROM gutpmoderator WHERE id = $1");
    assert_eq!(s.params, vec![text("m1")]);
    assert_eq!(s.op, SqlOp::Delete);
}

#[test]
fn list_orders_by_creation_time_descending() {
    let s = build_list(EntityKind::Tag, 25, 0).unwrap();
    assert_eq!(
        s.sql,
        "SELECT id, caption, subspace_id, creator_id, is_public, weight, created_time FROM gutptag \
         ORDER BY created_time DESC LIMIT 25 OFFSET 0;"
    );
    assert!(s.params.is_empty());
    assert_eq!(s.op, SqlOp::SelectPage { limit: 25, offset: 0 });
}

#[test]
fn list_by_field_binds_the_value() {
    let s = build_list_by(EntityKind::Tag, 2, "s1", 10, 20).unwrap();
    assert_eq!(
        s.sql,
        "SELECT id, caption, subspace_id, creator_id, is_public, weight, created_time FROM gutptag \
         WHERE subspace_id = $1 ORDER BY created_time DESC LIMIT 10 OFFSET 20;"
    );
    assert_eq!(s.params, vec![text("s1")]);
    assert_eq!(s.op, SqlOp::SelectPageBy { field: 2, limit: 10, offset: 20 });
}

#[test]
fn list_takes_the_largest_window() {
    let s = build_list(EntityKind::PostTag, u64::MAX, u64::MAX).unwrap();
    assert_eq!(
        s.sql,
        "SELECT id, post_id, tag_id, created_time FROM gutpposttag ORDER BY created_time DESC \
         LIMIT 18446744073709551615 OFFSET 18446744073709551615;"
    );
}

#[test]
fn list_never_fails_for_any_kind() {
    let kinds = [
        EntityKind::User,
        EntityKind::Subspace,
        EntityKind::Post,
        EntityKind::Comment,
        EntityKind::Tag,
        EntityKind::PostTag,
        EntityKind::PostDiff,
        EntityKind::Moderator,
        EntityKind::Extobj,
    ];
    for kind in kinds {
        assert!(build_list(kind, 25, 0).is_ok());
        assert!(build_list_by(kind, 0, "x", 25, 0).is_ok());
    }
}

#[test]
fn decimal_and_placeholder_are_exact() {
    assert_eq!(decimal(0), "0");
    assert_eq!(decimal(9), "9");
    assert_eq!(decimal(10), "10");
    assert_eq!(decimal(1234567890), "1234567890");
    assert_eq!(decimal(u64::MAX), "18446744073709551615");
    assert_eq!(placeholder(1), "$1");
    assert_eq!(placeholder(15), "$15");
}

#[test]
fn join_puts_the_separator_between_neighbours_only() {
    assert_eq!(join(&vec![], ", "), "");
    assert_eq!(join(&vec!["a".to_string()], ", "), "a");
    assert_eq!(join(&vec!["a".to_string(), "b".to_string(), "c".to_string()], ", "), "a, b, c");
}

fn all_kinds() -> Vec<EntityKind> {
    vec![
        EntityKind::User,
        EntityKind::Subspace,
        EntityKind::Post,
        EntityKind::Comment,
        EntityKind::Tag,
        EntityKind::PostTag,
        EntityKind::PostDiff,
        EntityKind::Moderator,
        EntityKind::Extobj,
    ]
}

#[test]
fn page_selects_follow_one_pattern_for_every_kind_and_window() {
    let numbers = [0u64, 1, 9, 10, 25, 99, 100, 12345, 4294967296, u64::MAX - 1, u64::MAX];
    for kind in all_kinds() {
        let names = kind.field_names();
        let table = kind.model_name();
        for limit in numbers {
            for offset in numbers {
                let s = build_list(kind, limit, offset).unwrap();
                assert_eq!(
                    s.sql,
                    format!(
                        "SELECT {} FROM {} ORDER BY created_time DESC LIMIT {} OFFSET {};",
                        names.join(", "),
                        table,
                        limit,
                        offset
                    )
                );
                assert!(s.params.is_empty());
            }
        }
        for field in 0..names.len() {
            let s = build_list_by(kind, field, "v", 7, 14).unwrap();
            assert_eq!(
                s.sql,
                format!(
                    "SELECT {} FROM {} WHERE {} = $1 ORDER BY created_time DESC LIMIT 7 OFFSET 14;",
                    names.join(", "),
                    table,
                    names[field]
                )
            );
            assert_eq!(s.params, vec![text("v")]);
            assert_eq!(s.op, SqlOp::SelectPageBy { field, limit: 7, offset: 14 });
        }
    }
}

#[test]
fn statements_by_id_follow_one_pattern_for_every_kind() {
    for kind in all_kinds() {
        let names = kind.field_names();
        let table = kind.model_name();
        let marks: Vec<String> = (1..=names.len()).map(|i| format!("${}", i)).collect();
        let sets: Vec<String> =
            (1..names.len()).map(|i| format!("{} = ${}", names[i], i + 1)).collect();
        assert_eq!(
            build_get_by_id(kind, "x").sql,
            format!("SELECT {} FROM {} WHERE id = $1", names.join(", "), table)
        );
        assert_eq!(
            build_insert(kind, &vec![]).sql,
            format!("INSERT INTO {} ({}) VALUES ({})", table, names.join(", "), marks.join(", "))
        );
        assert_eq!(
            build_update(kind, &vec![]).sql,
            format!("UPDATE {} SET {} WHERE id = $1", table, sets.join(", "))
        );
        assert_eq!(build_delete(kind, "x").sql, format!("DELETE FROM {} WHERE id = $1", table));
    }
}

#[test]
fn decimal_writes_numbers_as_the_standard_library_does() {
    let mut n: u64 = 1;
    for _ in 0..64 {
        assert_eq!(decimal(n), n.to_string());
        assert_eq!(decimal(n - 1), (n - 1).to_string());
        n = n.wrapping_mul(3).wrapping_add(7);
    }
}
