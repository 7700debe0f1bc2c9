use gutp::comment::GutpCommentModule;
use gutp::crud::{merge, decode_row, decode_rows, default_values, page_window, Change};
use gutp::entity::{
    GutpComment, GutpExtobj, GutpModerator, GutpPost, GutpPostDiff, GutpSubspace, GutpTag, GutpUser,
};
use gutp::extobj::GutpExtobjModule;
use gutp::post::GutpPostModule;
use gutp::model::{EntityKind, EntityStatus, EntityWeight, UserRole};
use gutp::moderator::GutpModeratorModule;
use gutp::postdiff::GutpPostDiffModule;
use gutp::posttag::GutpPostTagModule;
use gutp::request::{required, HandlerError, Method, Params, Request};
use gutp::response::{failure_message, HandlerCRUD, Response, Status};
use gutp::sql::SqlOp;
use gutp::subspace::GutpSubspaceModule;
use gutp::tag::GutpTagModule;
use gutp::user::GutpUserModule;
use gutp::value::SqlValue;

fn params(pairs: &[(&str, &str)]) -> Params {
    let mut p = Params::new();
    for (k, v) in pairs {
        p.push(k, v);
    }
    p
}

fn get(path: &str, pairs: &[(&str, &str)]) -> Request {
    Request { method: Method::Get, path: path.to_string(), params: params(pairs), ext: Params::new() }
}

fn post(path: &str, pairs: &[(&str, &str)], ext: &[(&str, &str)]) -> Request {
    Request { method: Method::Post, path: path.to_string(), params: params(pairs), ext: params(ext) }
}

fn text(s: &str) -> SqlValue {
    SqlValue::Text(s.to_string())
}

const MODERATOR: [(&str, &str); 5] = [
    ("user_id", "u1"),
    ("is_smoderator", "true"),
    ("subspace_id", "s1"),
    ("tag_id", "t1"),
    ("permission_level", "3"),
];

const CONTEXT: [(&str, &str); 2] = [("random_str", "M1"), ("time", "1700000000")];

fn without(pairs: &[(&'static str, &'static str)], key: &str) -> Vec<(&'static str, &'static str)> {
    pairs.iter().filter(|(k, _)| *k != key).cloned().collect()
}

fn with(
    pairs: &[(&'static str, &'static str)],
    key: &'static str,
    value: &'static str,
) -> Vec<(&'static str, &'static str)> {
    pairs.iter().map(|(k, v)| if *k == key { (*k, value) } else { (*k, *v) }).collect()
}

#[test]
fn params_give_the_first_value_of_a_key() {
    let p = params(&[("a", "1"), ("b", "2"), ("a", "3")]);
    assert_eq!(p.get("a"), Some(&"1".to_string()));
    assert_eq!(p.get("b"), Some(&"2".to_string()));
    assert_eq!(p.get("c"), None);
    assert_eq!(required(&p, "b"), Ok(&"2".to_string()));
    assert_eq!(required(&p, "c"), Err(HandlerError::MissingParameter("c".to_string())));
}

#[test]
fn moderator_new_one_builds_the_insert_and_the_response() {
    let req = post("/gutp/v1/moderator/create", &MODERATOR, &CONTEXT);
    let w = GutpModeratorModule::new_one(&req).unwrap();
    assert_eq!(
        w.statement.sql,
        "INSERT INTO gutpmoderator (id, user_id, subspace_id, is_subspace_moderator, tag_id, \
         permission_level, created_time) VALUES ($1, $2, $3, $4, $5, $6, $7)"
    );
    assert_eq!(
        w.statement.params,
        vec![
            text("M1"),
            text("u1"),
            text("s1"),
            SqlValue::Bool(true),
            text("t1"),
            SqlValue::Int16(3),
            SqlValue::Int64(1700000000),
        ]
    );
    assert_eq!(w.statement.op, SqlOp::Insert);
    assert_eq!(w.statement.kind, EntityKind::Moderator);
    assert_eq!(w.response.status, Status::Successful);
    assert_eq!(w.response.info.model_name, "gutpmoderator");
    assert_eq!(w.response.info.action, HandlerCRUD::Create);
    assert_eq!(w.response.info.extra, "");
    assert_eq!(
        w.response.results,
        vec![GutpModerator {
            id: "M1".to_string(),
            user_id: "u1".to_string(),
            subspace_id: "s1".to_string(),
            is_subspace_moderator: true,
            tag_id: "t1".to_string(),
            permission_level: 3,
            created_time: 1700000000,
        }]
    );
}

#[test]
fn moderator_new_one_ignores_id_and_time_sent_as_parameters() {
    let mut pairs = MODERATOR.to_vec();
    pairs.push(("id", "forged"));
    pairs.push(("created_time", "1"));
    let req = post("/gutp/v1/moderator/create", &pairs, &CONTEXT);
    let w = GutpModeratorModule::new_one(&req).unwrap();
    assert_eq!(w.response.results[0].id, "M1");
    assert_eq!(w.response.results[0].created_time, 1700000000);
}

#[test]
fn moderator_new_one_names_the_first_missing_parameter() {
    for (key, _) in MODERATOR {
        let req = post("/gutp/v1/moderator/create", &without(&MODERATOR, key), &CONTEXT);
        assert_eq!(
            GutpModeratorModule::new_one(&req),
            Err(HandlerError::MissingParameter(key.to_string()))
        );
    }
    let two = without(&without(&MODERATOR, "tag_id"), "is_smoderator");
    let req = post("/gutp/v1/moderator/create", &two, &CONTEXT);
    assert_eq!(
        GutpModeratorModule::new_one(&req),
        Err(HandlerError::MissingParameter("is_smoderator".to_string()))
    );
}

#[test]
fn moderator_new_one_refuses_values_of_the_wrong_type() {
    let req = post("/gutp/v1/moderator/create", &with(&MODERATOR, "is_smoderator", "yes"), &CONTEXT);
    assert_eq!(
        GutpModeratorModule::new_one(&req),
        Err(HandlerError::InvalidValue("is_smoderator".to_string()))
    );
    let req =
        post("/gutp/v1/moderator/create", &with(&MODERATOR, "permission_level", "70000"), &CONTEXT);
    assert_eq!(
        GutpModeratorModule::new_one(&req),
        Err(HandlerError::InvalidValue("permission_level".to_string()))
    );
    let req = post("/gutp/v1/moderator/create", &with(&MODERATOR, "permission_level", "-32768"), &CONTEXT);
    assert_eq!(GutpModeratorModule::new_one(&req).unwrap().response.results[0].permission_level, i16::MIN);
}

#[test]
fn moderator_new_one_needs_the_context_values() {
    let req = post("/gutp/v1/moderator/create", &MODERATOR, &[("time", "5")]);
    assert_eq!(
        GutpModeratorModule::new_one(&req),
        Err(HandlerError::MissingParameter("random_str".to_string()))
    );
    let req = post("/gutp/v1/moderator/create", &MODERATOR, &[("random_str", "M1")]);
    assert_eq!(
        GutpModeratorModule::new_one(&req),
        Err(HandlerError::MissingParameter("time".to_string()))
    );
    let req = post("/gutp/v1/moderator/create", &MODERATOR, &[("random_str", "M1"), ("time", "now")]);
    assert_eq!(
        GutpModeratorModule::new_one(&req),
        Err(HandlerError::InvalidValue("time".to_string()))
    );
    let req = post("/gutp/v1/moderator/create", &without(&MODERATOR, "user_id"), &[]);
    assert_eq!(
        GutpModeratorModule::new_one(&req),
        Err(HandlerError::MissingParameter("user_id".to_string()))
    );
}

fn stored_moderator() -> Vec<SqlValue> {
    vec![
        text("M1"),
        text("u1"),
        text("s1"),
        SqlValue::Bool(true),
        text("t1"),
        SqlValue::Int16(3),
        SqlValue::Int64(1700000000),
    ]
}

#[test]
fn moderator_update_fetches_the_stored_row_first() {
    let req = post("/gutp/v1/moderator/update", &[("id", "M1"), ("permission_level", "9")], &[]);
    let s = GutpModeratorModule::update(&req).unwrap();
    assert_eq!(
        s.sql,
        "SELECT id, user_id, subspace_id, is_subspace_moderator, tag_id, permission_level, \
         created_time FROM gutpmoderator WHERE id = $1"
    );
    assert_eq!(s.params, vec![text("M1")]);
}

#[test]
fn moderator_update_merges_onto_the_stored_row() {
    let req = post(
        "/gutp/v1/moderator/update",
        &[("id", "M1"), ("permission_level", "9"), ("is_smoderator", "false")],
        &[("random_str", "OTHER"), ("time", "1")],
    );
    let w = GutpModeratorModule::update_reply(&req, &vec![stored_moderator()]).unwrap();
    let merged = GutpModerator {
        id: "M1".to_string(),
        user_id: "u1".to_string(),
        subspace_id: "s1".to_string(),
        is_subspace_moderator: false,
        tag_id: "t1".to_string(),
        permission_level: 9,
        created_time: 1700000000,
    };
    assert_eq!(w.response.results, vec![merged]);
    assert_eq!(w.response.status, Status::Successful);
    assert_eq!(w.response.info.action, HandlerCRUD::Update);
    assert_eq!(w.response.info.model_name, "gutpmoderator");
    assert_eq!(
        w.statement.sql,
        "UPDATE gutpmoderator SET user_id = $2, subspace_id = $3, is_subspace_moderator = $4, \
         tag_id = $5, permission_level = $6, created_time = $7 WHERE id = $1"
    );
    assert_eq!(
        w.statement.params,
        vec![
            text("M1"),
            text("u1"),
            text("s1"),
            SqlValue::Bool(false),
            text("t1"),
            SqlValue::Int16(9),
            SqlValue::Int64(1700000000),
        ]
    );
}

#[test]
fn moderator_update_with_all_fields_replaces_them_all() {
    let mut pairs = with(&with(&MODERATOR, "user_id", "u2"), "tag_id", "t2");
    pairs.push(("id", "M1"));
    let req = post("/gutp/v1/moderator/update", &pairs, &[]);
    let w = GutpModeratorModule::update_reply(&req, &vec![stored_moderator()]).unwrap();
    assert_eq!(w.response.results[0].user_id, "u2");
    assert_eq!(w.response.results[0].tag_id, "t2");
    assert_eq!(w.response.results[0].id, "M1");
    assert_eq!(w.response.results[0].created_time, 1700000000);
}

#[test]
fn moderator_update_of_nothing_stored_is_not_found() {
    let req = post("/gutp/v1/moderator/update", &[("id", "M1")], &[]);
    assert_eq!(GutpModeratorModule::update_reply(&req, &vec![]), Err(HandlerError::NotFound));
}

#[test]
fn moderator_update_reads_its_parameters_before_the_storage() {
    let req = post("/gutp/v1/moderator/update", &[("permission_level", "9")], &[]);
    assert_eq!(
        GutpModeratorModule::update(&req),
        Err(HandlerError::MissingParameter("id".to_string()))
    );
    let req = post("/gutp/v1/moderator/update", &[("id", "M1"), ("permission_level", "x")], &[]);
    assert_eq!(
        GutpModeratorModule::update(&req),
        Err(HandlerError::InvalidValue("permission_level".to_string()))
    );
    assert_eq!(
        GutpModeratorModule::update_reply(&req, &vec![]),
        Err(HandlerError::InvalidValue("permission_level".to_string()))
    );
}

#[test]
fn moderator_update_cannot_change_id_or_creation_time() {
    let req = post(
        "/gutp/v1/moderator/update",
        &[("id", "M1"), ("created_time", "5"), ("user_id", "u9")],
        &[],
    );
    let w = GutpModeratorModule::update_reply(&req, &vec![stored_moderator()]).unwrap();
    assert_eq!(w.response.results[0].id, "M1");
    assert_eq!(w.response.results[0].created_time, 1700000000);
    assert_eq!(w.response.results[0].user_id, "u9");
}

#[test]
fn get_one_asks_by_id_and_answers_with_the_first_row() {
    let req = get("/gutp/v1/moderator", &[("id", "M1")]);
    let s = GutpModeratorModule::get_one(&req).unwrap();
    assert_eq!(s.op, SqlOp::SelectById);
    assert_eq!(s.params, vec![text("M1")]);
    let r = GutpModeratorModule::get_one_reply(&vec![stored_moderator()]).unwrap();
    assert_eq!(r.status, Status::Successful);
    assert_eq!(r.info.action, HandlerCRUD::GetOne);
    assert_eq!(r.info.model_name, "gutpmoderator");
    assert_eq!(r.results.len(), 1);
    assert_eq!(r.results[0].id, "M1");
    assert_eq!(r.results[0].permission_level, 3);
}

#[test]
fn get_one_without_id_or_without_row_fails() {
    let req = get("/gutp/v1/moderator", &[]);
    assert_eq!(
        GutpModeratorModule::get_one(&req),
        Err(HandlerError::MissingParameter("id".to_string()))
    );
    assert_eq!(GutpModeratorModule::get_one_reply(&vec![]), Err(HandlerError::NotFound));
    assert_eq!(GutpUserModule::get_one_reply(&vec![]), Err(HandlerError::NotFound));
    assert_eq!(GutpSubspaceModule::get_one_reply(&vec![]), Err(HandlerError::NotFound));
    assert_eq!(GutpCommentModule::get_one_reply(&vec![]), Err(HandlerError::NotFound));
    assert_eq!(GutpTagModule::get_one_reply(&vec![]), Err(HandlerError::NotFound));
    assert_eq!(GutpPostTagModule::get_one_reply(&vec![]), Err(HandlerError::NotFound));
    assert_eq!(GutpPostDiffModule::get_one_reply(&vec![]), Err(HandlerError::NotFound));
    assert_eq!(GutpPostModule::get_one_reply(&vec![]), Err(HandlerError::NotFound));
    assert_eq!(GutpExtobjModule::get_one_reply(&vec![]), Err(HandlerError::NotFound));
}

#[test]
fn rows_with_missing_or_mistyped_columns_do_not_decode() {
    let mut short = stored_moderator();
    short.pop();
    assert_eq!(GutpModeratorModule::get_one_reply(&vec![short]), Err(HandlerError::DecodeFailure));
    let mut wrong = stored_moderator();
    wrong[5] = SqlValue::Int32(3);
    assert_eq!(
        GutpModeratorModule::get_one_reply(&vec![wrong.clone()]),
        Err(HandlerError::DecodeFailure)
    );
    let mut null = stored_moderator();
    null[1] = SqlValue::Null;
    assert_eq!(decode_row(EntityKind::Moderator, &null), Err(HandlerError::DecodeFailure));
    let mut other = stored_moderator();
    other[6] = SqlValue::Other;
    assert_eq!(decode_row(EntityKind::Moderator, &other), Err(HandlerError::DecodeFailure));
    assert_eq!(
        GutpModeratorModule::get_list_reply(&vec![stored_moderator(), wrong]),
        Err(HandlerError::DecodeFailure)
    );
    assert_eq!(decode_row(EntityKind::Moderator, &vec![]), Err(HandlerError::DecodeFailure));
}

#[test]
fn extra_columns_are_ignored() {
    let mut wide = stored_moderator();
    wide.push(SqlValue::Other);
    wide.push(text("more"));
    assert_eq!(decode_row(EntityKind::Moderator, &wide), Ok(stored_moderator()));
    let r = GutpModeratorModule::get_one_reply(&vec![wide.clone()]).unwrap();
    assert_eq!(r.results[0].created_time, 1700000000);
    assert_eq!(
        decode_rows(EntityKind::Moderator, &vec![wide, stored_moderator()]),
        Ok(vec![stored_moderator(), stored_moderator()])
    );
}

#[test]
fn list_defaults_to_the_first_page_of_twenty_five() {
    let s = GutpModeratorModule::get_list(&get("/gutp/v1/moderator/list", &[])).unwrap();
    assert_eq!(s.op, SqlOp::SelectPage { limit: 25, offset: 0 });
    assert_eq!(
        s.sql,
        "SELECT id, user_id, subspace_id, is_subspace_moderator, tag_id, permission_level, \
         created_time FROM gutpmoderator ORDER BY created_time DESC LIMIT 25 OFFSET 0;"
    );
    assert!(s.params.is_empty());
}

#[test]
fn page_window_multiplies_page_by_pagesize() {
    assert_eq!(page_window(&params(&[])), Ok((25, 0)));
    assert_eq!(page_window(&params(&[("page", "2")])), Ok((25, 50)));
    assert_eq!(page_window(&params(&[("pagesize", "10")])), Ok((10, 0)));
    assert_eq!(page_window(&params(&[("page", "3"), ("pagesize", "10")])), Ok((10, 30)));
    assert_eq!(page_window(&params(&[("page", "7"), ("pagesize", "0")])), Ok((0, 0)));
    assert_eq!(
        page_window(&params(&[("page", "1"), ("pagesize", "18446744073709551615")])),
        Ok((u64::MAX, u64::MAX))
    );
}

#[test]
fn page_window_refuses_what_is_negative_unreadable_or_too_far() {
    assert_eq!(
        page_window(&params(&[("page", "-1")])),
        Err(HandlerError::InvalidValue("page".to_string()))
    );
    assert_eq!(
        page_window(&params(&[("pagesize", "-5")])),
        Err(HandlerError::InvalidValue("pagesize".to_string()))
    );
    assert_eq!(
        page_window(&params(&[("page", "x"), ("pagesize", "y")])),
        Err(HandlerError::InvalidValue("page".to_string()))
    );
    assert_eq!(
        page_window(&params(&[("page", "2"), ("pagesize", "18446744073709551615")])),
        Err(HandlerError::InvalidValue("page".to_string()))
    );
    assert_eq!(
        page_window(&params(&[("page", "4294967296"), ("pagesize", "4294967296")])),
        Err(HandlerError::InvalidValue("page".to_string()))
    );
}

#[test]
fn list_reply_keeps_the_order_of_the_rows_and_accepts_none() {
    let mut second = stored_moderator();
    second[0] = text("M2");
    second[6] = SqlValue::Int64(1600000000);
    let r = GutpModeratorModule::get_list_reply(&vec![stored_moderator(), second]).unwrap();
    assert_eq!(r.info.action, HandlerCRUD::List);
    assert_eq!(r.results.len(), 2);
    assert_eq!(r.results[0].id, "M1");
    assert_eq!(r.results[1].id, "M2");
    let empty = GutpModeratorModule::get_list_reply(&vec![]).unwrap();
    assert_eq!(empty.status, Status::Successful);
    assert!(empty.results.is_empty());
}

#[test]
fn moderator_filters_bind_their_value() {
    let req = get("/gutp/v1/moderator/list_by_subspace", &[("subspace_id", "s1"), ("page", "1")]);
    let s = GutpModeratorModule::list_by_subspace(&req).unwrap();
    assert_eq!(s.op, SqlOp::SelectPageBy { field: 2, limit: 25, offset: 25 });
    assert_eq!(s.params, vec![text("s1")]);
    assert!(s.sql.contains(" WHERE subspace_id = $1 ORDER BY created_time DESC LIMIT 25 OFFSET 25;"));
    let req = get("/gutp/v1/moderator/list_by_user", &[("user_id", "u1")]);
    let s = GutpModeratorModule::list_by_user(&req).unwrap();
    assert_eq!(s.op, SqlOp::SelectPageBy { field: 1, limit: 25, offset: 0 });
    assert!(s.sql.contains(" WHERE user_id = $1 "));
    let req = get("/gutp/v1/moderator/list_by_tag", &[("tag_id", "t1")]);
    let s = GutpModeratorModule::list_by_tag(&req).unwrap();
    assert_eq!(s.op, SqlOp::SelectPageBy { field: 4, limit: 25, offset: 0 });
    assert!(s.sql.contains(" WHERE tag_id = $1 "));
    let req = get("/gutp/v1/moderator/list_by_tag", &[("page", "x")]);
    assert_eq!(
        GutpModeratorModule::list_by_tag(&req),
        Err(HandlerError::MissingParameter("tag_id".to_string()))
    );
    let req = get("/gutp/v1/moderator/list_by_tag", &[("tag_id", "t"), ("page", "x")]);
    assert_eq!(
        GutpModeratorModule::list_by_tag(&req),
        Err(HandlerError::InvalidValue("page".to_string()))
    );
}

#[test]
fn delete_needs_only_the_id_and_returns_no_entity() {
    let req = post("/gutp/v1/moderator/delete", &[("id", "M1")], &[]);
    let w = GutpModeratorModule::delete(&req).unwrap();
    assert_eq!(w.statement.sql, "DELETE FROM gutpmoderator WHERE id = $1");
    assert_eq!(w.statement.params, vec![text("M1")]);
    assert_eq!(w.response.status, Status::Successful);
    assert_eq!(w.response.info.action, HandlerCRUD::Delete);
    assert!(w.response.results.is_empty());
    let req = post("/gutp/v1/moderator/delete", &[], &[]);
    assert_eq!(
        GutpModeratorModule::delete(&req),
        Err(HandlerError::MissingParameter("id".to_string()))
    );
}

#[test]
fn user_new_user_starts_with_normal_role_and_status() {
    let req = post(
        "/v1/user/create",
        &[("account", "a@x"), ("oauth_source", "github"), ("nickname", "nick"), ("avatar", "pic")],
        &[("random_str", "U1"), ("time", "42")],
    );
    let w = GutpUserModule::new_user(&req).unwrap();
    assert_eq!(
        w.response.results,
        vec![GutpUser {
            id: "U1".to_string(),
            account: "a@x".to_string(),
            oauth_source: "github".to_string(),
            nickname: "nick".to_string(),
            avatar: "pic".to_string(),
            role: 0,
            status: 0,
            created_time: 42,
        }]
    );
    assert_eq!(w.response.results[0].role, UserRole::Normal.code());
    assert_eq!(w.response.results[0].status, EntityStatus::Normal.code());
    assert_eq!(
        w.statement.sql,
        "INSERT INTO gutpuser (id, account, oauth_source, nickname, avatar, role, status, \
         created_time) VALUES ($1, $2, $3, $4, $5, $6, $7, $8)"
    );
}

#[test]
fn user_update_keeps_role_and_status() {
    let stored = vec![
        text("U1"),
        text("a@x"),
        text("github"),
        text("nick"),
        text("pic"),
        SqlValue::Int16(2),
        SqlValue::Int16(1),
        SqlValue::Int64(42),
    ];
    let req = post(
        "/v1/user/update",
        &[("id", "U1"), ("account", "b@x"), ("oauth_source", "gitlab"), ("nickname", "n2"), ("avatar", "pic2"), ("role", "0"), ("status", "0")],
        &[],
    );
    let w = GutpUserModule::update_reply(&req, &vec![stored]).unwrap();
    assert_eq!(
        w.response.results,
        vec![GutpUser {
            id: "U1".to_string(),
            account: "b@x".to_string(),
            oauth_source: "gitlab".to_string(),
            nickname: "n2".to_string(),
            avatar: "pic2".to_string(),
            role: 2,
            status: 1,
            created_time: 42,
        }]
    );
}

#[test]
fn user_get_by_account_lists_under_get_one() {
    let req = get("/v1/user/get_by_account", &[("account", "a@x")]);
    let s = GutpUserModule::get_by_account(&req).unwrap();
    assert_eq!(
        s.sql,
        "SELECT id, account, oauth_source, nickname, avatar, role, status, created_time FROM \
         gutpuser WHERE account = $1 ORDER BY created_time DESC LIMIT 25 OFFSET 0;"
    );
    assert_eq!(s.params, vec![text("a@x")]);
    let r = GutpUserModule::get_by_account_reply(&vec![]).unwrap();
    assert_eq!(r.info.action, HandlerCRUD::GetOne);
    assert_eq!(r.status, Status::Successful);
    assert!(r.results.is_empty());
    assert_eq!(
        GutpUserModule::get_by_account(&get("/v1/user/get_by_account", &[])),
        Err(HandlerError::MissingParameter("account".to_string()))
    );
}

#[test]
fn subspace_new_one_fills_what_is_bound_and_defaults_the_rest() {
    let req = post(
        "/v1/subspace/create",
        &[
            ("title", "t"),
            ("description", "d"),
            ("banner", "b"),
            ("owner_id", "u1"),
            ("profession", "c"),
            ("appid", "a"),
            ("is_public", "true"),
        ],
        &[("random_str", "S1"), ("time", "1000")],
    );
    let w = GutpSubspaceModule::new_one(&req).unwrap();
    assert_eq!(
        w.response.results,
        vec![GutpSubspace {
            id: "S1".to_string(),
            slug: "".to_string(),
            title: "t".to_string(),
            description: "d".to_string(),
            banner: "b".to_string(),
            is_public: true,
            status: 0,
            weight: 0,
            owner_id: "u1".to_string(),
            category: "c".to_string(),
            app_id: "a".to_string(),
            created_time: 1000,
        }]
    );
    assert_eq!(w.response.results[0].status, EntityStatus::Normal.code());
    assert_eq!(w.response.results[0].weight, EntityWeight::Normal.code());
}

#[test]
fn subspace_filters_use_the_fields_of_the_model() {
    let s = GutpSubspaceModule::list_by_owner(&get("/v1/subspace/list_by_owner", &[("owner_id", "u1")])).unwrap();
    assert!(s.sql.contains(" WHERE owner_id = $1 "));
    assert_eq!(s.op, SqlOp::SelectPageBy { field: 8, limit: 25, offset: 0 });
    let s = GutpSubspaceModule::list_by_profession(&get("/v1/subspace/list_by_profession", &[("profession", "c")])).unwrap();
    assert!(s.sql.contains(" WHERE category = $1 "));
    assert_eq!(s.params, vec![text("c")]);
    let s = GutpSubspaceModule::list_by_appid(&get("/v1/subspace/list_by_appid", &[("appid", "a")])).unwrap();
    assert!(s.sql.contains(" WHERE app_id = $1 "));
    let s = GutpSubspaceModule::get_list(&get("/v1/subspace/list", &[("pagesize", "5"), ("page", "4")])).unwrap();
    assert_eq!(s.op, SqlOp::SelectPage { limit: 5, offset: 20 });
}

#[test]
fn comment_new_one_and_filters() {
    let req = post(
        "/v1/comment/create",
        &[
            ("content", "hello"),
            ("author_id", "u1"),
            ("post_id", "post1"),
            ("parent_comment_id", ""),
            ("is_public", "false"),
        ],
        &[("random_str", "C1"), ("time", "-5")],
    );
    let w = GutpCommentModule::new_one(&req).unwrap();
    assert_eq!(
        w.response.results,
        vec![GutpComment {
            id: "C1".to_string(),
            content: "hello".to_string(),
            author_id: "u1".to_string(),
            author_nickname: "".to_string(),
            post_id: "post1".to_string(),
            parent_comment_id: "".to_string(),
            is_public: false,
            status: 0,
            weight: 0,
            created_time: -5,
        }]
    );
    let s = GutpCommentModule::list_by_post(&get("/v1/comment/list_by_post", &[("post_id", "post1")])).unwrap();
    assert!(s.sql.contains("FROM gutpcomment WHERE post_id = $1 "));
    let s = GutpCommentModule::list_by_author(&get("/v1/comment/list_by_author", &[("author_id", "u1")])).unwrap();
    assert!(s.sql.contains("FROM gutpcomment WHERE author_id = $1 "));
    assert_eq!(s.op, SqlOp::SelectPageBy { field: 2, limit: 25, offset: 0 });
}

#[test]
fn tag_new_one_update_and_filter() {
    let req = post(
        "/v1/tag/create",
        &[("caption", "rust"), ("subspace_id", "s1"), ("creator_id", "u1"), ("is_public", "true")],
        &[("random_str", "T1"), ("time", "9")],
    );
    let w = GutpTagModule::new_one(&req).unwrap();
    assert_eq!(
        w.response.results,
        vec![GutpTag {
            id: "T1".to_string(),
            caption: "rust".to_string(),
            subspace_id: "s1".to_string(),
            creator_id: "u1".to_string(),
            is_public: true,
            weight: 0,
            created_time: 9,
        }]
    );
    let stored = w.statement.params.clone();
    let req = post("/v1/tag/update", &[("id", "T1"), ("caption", "verus")], &[]);
    let u = GutpTagModule::update_reply(&req, &vec![stored]).unwrap();
    assert_eq!(u.response.results[0].caption, "verus");
    assert_eq!(u.response.results[0].subspace_id, "s1");
    assert_eq!(u.response.results[0].creator_id, "u1");
    assert!(u.response.results[0].is_public);
    let s = GutpTagModule::list_by_subspace(&get("/v1/tag/list_by_subspace", &[("subspace_id", "s1")])).unwrap();
    assert!(s.sql.contains("FROM gutptag WHERE subspace_id = $1 "));
    let s = GutpTagModule::list_by_creator(&get("/v1/tag/list_by_creator", &[("creator_id", "u1")])).unwrap();
    assert!(s.sql.contains("FROM gutptag WHERE creator_id = $1 "));
    assert_eq!(s.op, SqlOp::SelectPageBy { field: 3, limit: 25, offset: 0 });
    assert_eq!(s.params, vec![text("u1")]);
    assert_eq!(
        GutpTagModule::list_by_creator(&get("/v1/tag/list_by_creator", &[])),
        Err(HandlerError::MissingParameter("creator_id".to_string()))
    );
    let req = post(
        "/v1/tag/create",
        &[("caption", "rust"), ("subspace_id", "s1"), ("is_public", "true")],
        &[("random_str", "T1"), ("time", "9")],
    );
    assert_eq!(
        GutpTagModule::new_one(&req),
        Err(HandlerError::MissingParameter("creator_id".to_string()))
    );
}

#[test]
fn postdiff_reads_its_version_number_as_thirty_two_bits() {
    let pairs = [("post_id", "post1"), ("diff", "+a"), ("version_num", "2147483647")];
    let ctx = [("random_str", "D1"), ("time", "3")];
    let w = GutpPostDiffModule::new_one(&post("/v1/postdiff/create", &pairs, &ctx)).unwrap();
    assert_eq!(
        w.response.results,
        vec![GutpPostDiff {
            id: "D1".to_string(),
            post_id: "post1".to_string(),
            diff: "+a".to_string(),
            version_num: i32::MAX,
            created_time: 3,
        }]
    );
    let over = [("post_id", "post1"), ("diff", "+a"), ("version_num", "2147483648")];
    assert_eq!(
        GutpPostDiffModule::new_one(&post("/v1/postdiff/create", &over, &ctx)),
        Err(HandlerError::InvalidValue("version_num".to_string()))
    );
    let s = GutpPostDiffModule::list_by_post(&get("/v1/postdiff/list_by_post", &[("post_id", "post1")])).unwrap();
    assert!(s.sql.contains("FROM gutppostdiff WHERE post_id = $1 "));
}

#[test]
fn posttag_handlers() {
    let ctx = [("random_str", "PT1"), ("time", "3")];
    let w = GutpPostTagModule::new_one(&post("/v1/posttag/create", &[("post_id", "post1"), ("tag_id", "t1")], &ctx)).unwrap();
    assert_eq!(w.statement.params, vec![text("PT1"), text("post1"), text("t1"), SqlValue::Int64(3)]);
    let s = GutpPostTagModule::list_by_post(&get("/v1/posttag/list_by_post", &[("post_id", "post1")])).unwrap();
    assert!(s.sql.contains("FROM gutpposttag WHERE post_id = $1 "));
    let s = GutpPostTagModule::list_by_tag(&get("/v1/posttag/list_by_tag", &[("tag_id", "t1")])).unwrap();
    assert!(s.sql.contains("FROM gutpposttag WHERE tag_id = $1 "));
    let u = GutpPostTagModule::update_reply(
        &post("/v1/posttag/update", &[("id", "PT1"), ("tag_id", "t2")], &[]),
        &vec![w.statement.params.clone()],
    )
    .unwrap();
    assert_eq!(u.statement.params, vec![text("PT1"), text("post1"), text("t2"), SqlValue::Int64(3)]);
    let d = GutpPostTagModule::delete(&post("/v1/posttag/delete", &[("id", "PT1")], &[])).unwrap();
    assert_eq!(d.statement.sql, "DELETE FROM gutpposttag WHERE id = $1");
}

#[test]
fn failures_become_failed_responses_with_a_message() {
    let e = HandlerError::MissingParameter("id".to_string());
    let r: Response<GutpUser> = Response::failure(HandlerCRUD::GetOne, &e);
    assert_eq!(r.status, Status::Failed);
    assert_eq!(r.info.model_name, "gutpuser");
    assert_eq!(r.info.action, HandlerCRUD::GetOne);
    assert_eq!(r.info.extra, "id is required");
    assert!(r.results.is_empty());
    assert_eq!(HandlerError::InvalidValue("page".to_string()).message(), "page is not valid");
    assert_eq!(HandlerError::NotFound.message(), "no this item");
    assert_eq!(HandlerError::StorageFailure("connection refused".to_string()).message(), "connection refused");
    assert_eq!(HandlerError::ConfigurationMissing("DB_URL".to_string()).message(), "DB_URL is not set");
    assert_eq!(HandlerError::DecodeFailure.message(), "stored row does not match the model");
}

#[test]
fn an_update_that_finds_nothing_says_so() {
    assert_eq!(
        failure_message(HandlerCRUD::Update, &HandlerError::NotFound),
        "update action: no item in db"
    );
    assert_eq!(failure_message(HandlerCRUD::GetOne, &HandlerError::NotFound), "no this item");
    assert_eq!(
        failure_message(HandlerCRUD::Update, &HandlerError::MissingParameter("id".to_string())),
        "id is required"
    );
    let r: Response<GutpTag> = Response::failure(HandlerCRUD::Update, &HandlerError::NotFound);
    assert_eq!(r.status, Status::Failed);
    assert_eq!(r.info.extra, "update action: no item in db");
    assert_eq!(r.info.model_name, "gutptag");
    let r: Response<GutpTag> = Response::failure(HandlerCRUD::GetOne, &HandlerError::NotFound);
    assert_eq!(r.info.extra, "no this item");
}

#[test]
fn subspace_new_one_needs_only_title_owner_and_visibility() {
    let ctx = [("random_str", "S1"), ("time", "1000")];
    let three = [("title", "t"), ("owner_id", "u1"), ("is_public", "true")];
    let w = GutpSubspaceModule::new_one(&post("/v1/subspace/create", &three, &ctx)).unwrap();
    assert_eq!(w.response.status, Status::Successful);
    assert_eq!(w.response.info.action, HandlerCRUD::Create);
    assert_eq!(
        w.response.results,
        vec![GutpSubspace {
            id: "S1".to_string(),
            slug: "".to_string(),
            title: "t".to_string(),
            description: "".to_string(),
            banner: "".to_string(),
            is_public: true,
            status: 0,
            weight: 0,
            owner_id: "u1".to_string(),
            category: "".to_string(),
            app_id: "".to_string(),
            created_time: 1000,
        }]
    );
    for key in ["title", "owner_id", "is_public"] {
        let req = post("/v1/subspace/create", &without(&three, key), &ctx);
        assert_eq!(
            GutpSubspaceModule::new_one(&req),
            Err(HandlerError::MissingParameter(key.to_string()))
        );
    }
    let wrong = post("/v1/subspace/create", &with(&three, "is_public", "maybe"), &ctx);
    assert_eq!(
        GutpSubspaceModule::new_one(&wrong),
        Err(HandlerError::InvalidValue("is_public".to_string()))
    );
}

#[test]
fn subspace_reads_profession_and_appid_into_the_model_fields() {
    let ctx = [("random_str", "S1"), ("time", "1000")];
    let pairs = [
        ("title", "t"),
        ("owner_id", "u1"),
        ("is_public", "true"),
        ("profession", "dev"),
        ("appid", "forum"),
        ("category", "ignored"),
        ("app_id", "ignored"),
    ];
    let w = GutpSubspaceModule::new_one(&post("/v1/subspace/create", &pairs, &ctx)).unwrap();
    assert_eq!(w.response.results[0].category, "dev");
    assert_eq!(w.response.results[0].app_id, "forum");
    let stored = w.statement.params.clone();
    let change = post("/v1/subspace/update", &[("id", "S1"), ("profession", "ops")], &[]);
    let u = GutpSubspaceModule::update_reply(&change, &vec![stored]).unwrap();
    assert_eq!(u.response.results[0].category, "ops");
    assert_eq!(u.response.results[0].app_id, "forum");
    assert_eq!(
        GutpSubspaceModule::list_by_profession(&get("/v1/subspace/list_by_profession", &[("category", "c")])),
        Err(HandlerError::MissingParameter("profession".to_string()))
    );
}

const POST: [(&str, &str); 5] = [
    ("title", "hello"),
    ("content", "world"),
    ("author_id", "u1"),
    ("subspace_id", "s1"),
    ("is_public", "true"),
];

#[test]
fn post_new_one_fills_what_is_sent_and_defaults_the_rest() {
    let ctx = [("random_str", "PO1"), ("time", "50")];
    let w = GutpPostModule::new_one(&post("/v1/post/create", &POST, &ctx)).unwrap();
    let made = GutpPost {
        id: "PO1".to_string(),
        title: "hello".to_string(),
        content: "world".to_string(),
        author_id: "u1".to_string(),
        author_nickname: "".to_string(),
        subspace_id: "s1".to_string(),
        parent_post_id: "".to_string(),
        ext_link: "".to_string(),
        is_public: true,
        status: 0,
        weight: 0,
        category: "".to_string(),
        app_id: "".to_string(),
        created_time: 50,
        updated_time: 0,
    };
    assert_eq!(w.response.results, vec![made]);
    assert_eq!(w.response.info.model_name, "gutppost");
    assert_eq!(w.response.info.action, HandlerCRUD::Create);
    assert_eq!(w.statement.op, SqlOp::Insert);
    assert_eq!(w.statement.params.len(), 15);
    assert!(w.statement.sql.starts_with("INSERT INTO gutppost (id, title, content, "));
    let mut all = POST.to_vec();
    all.push(("author_nickname", "nick"));
    all.push(("parent_post_id", "PO0"));
    all.push(("ext_link", "http://x"));
    all.push(("category", "news"));
    all.push(("app_id", "forum"));
    let w = GutpPostModule::new_one(&post("/v1/post/create", &all, &ctx)).unwrap();
    assert_eq!(w.response.results[0].author_nickname, "nick");
    assert_eq!(w.response.results[0].parent_post_id, "PO0");
    assert_eq!(w.response.results[0].ext_link, "http://x");
    assert_eq!(w.response.results[0].category, "news");
    assert_eq!(w.response.results[0].app_id, "forum");
    for (key, _) in POST {
        let req = post("/v1/post/create", &without(&POST, key), &ctx);
        assert_eq!(
            GutpPostModule::new_one(&req),
            Err(HandlerError::MissingParameter(key.to_string()))
        );
    }
}

#[test]
fn post_handlers_read_update_list_and_delete() {
    let ctx = [("random_str", "PO1"), ("time", "50")];
    let w = GutpPostModule::new_one(&post("/v1/post/create", &POST, &ctx)).unwrap();
    let stored = w.statement.params.clone();
    let s = GutpPostModule::get_one(&get("/v1/post", &[("id", "PO1")])).unwrap();
    assert_eq!(s.op, SqlOp::SelectById);
    assert_eq!(s.params, vec![text("PO1")]);
    let r = GutpPostModule::get_one_reply(&vec![stored.clone()]).unwrap();
    assert_eq!(r.results, w.response.results);
    assert_eq!(GutpPostModule::get_one_reply(&vec![]), Err(HandlerError::NotFound));
    let change = post("/v1/post/update", &[("id", "PO1"), ("title", "bye")], &[]);
    assert_eq!(GutpPostModule::update(&change).unwrap().params, vec![text("PO1")]);
    let u = GutpPostModule::update_reply(&change, &vec![stored.clone()]).unwrap();
    assert_eq!(u.response.results[0].title, "bye");
    assert_eq!(u.response.results[0].content, "world");
    assert_eq!(u.response.results[0].created_time, 50);
    assert_eq!(u.response.results[0].updated_time, 0);
    assert_eq!(GutpPostModule::update_reply(&change, &vec![]), Err(HandlerError::NotFound));
    let s = GutpPostModule::get_list(&get("/v1/post/list", &[("page", "2")])).unwrap();
    assert_eq!(s.op, SqlOp::SelectPage { limit: 25, offset: 50 });
    assert!(s.sql.contains(" FROM gutppost ORDER BY created_time DESC LIMIT 25 OFFSET 50;"));
    let l = GutpPostModule::get_list_reply(&vec![stored.clone(), stored]).unwrap();
    assert_eq!(l.results.len(), 2);
    assert_eq!(l.info.action, HandlerCRUD::List);
    let s = GutpPostModule::list_by_subspace(&get("/v1/post/list_by_subspace", &[("subspace_id", "s1")])).unwrap();
    assert!(s.sql.contains(" FROM gutppost WHERE subspace_id = $1 "));
    assert_eq!(s.op, SqlOp::SelectPageBy { field: 5, limit: 25, offset: 0 });
    let s = GutpPostModule::list_by_author(&get("/v1/post/list_by_author", &[("author_id", "u1")])).unwrap();
    assert!(s.sql.contains(" FROM gutppost WHERE author_id = $1 "));
    assert_eq!(s.op, SqlOp::SelectPageBy { field: 3, limit: 25, offset: 0 });
    let d = GutpPostModule::delete(&post("/v1/post/delete", &[("id", "PO1")], &[])).unwrap();
    assert_eq!(d.statement.sql, "DELETE FROM gutppost WHERE id = $1");
    assert!(d.response.results.is_empty());
}

const EXTOBJ: [(&str, &str); 4] =
    [("caption", "cap"), ("content", "body"), ("user_id", "u1"), ("is_public", "false")];

#[test]
fn extobj_handlers_create_read_update_list_and_delete() {
    let ctx = [("random_str", "E1"), ("time", "60")];
    let w = GutpExtobjModule::new_one(&post("/v1/extobj/create", &EXTOBJ, &ctx)).unwrap();
    let made = GutpExtobj {
        id: "E1".to_string(),
        caption: "cap".to_string(),
        content: "body".to_string(),
        user_id: "u1".to_string(),
        subspace_id: "".to_string(),
        tag_id: "".to_string(),
        post_id: "".to_string(),
        comment_id: "".to_string(),
        is_public: false,
        weight: 0,
        created_time: 60,
    };
    assert_eq!(w.response.results, vec![made.clone()]);
    assert_eq!(w.response.info.model_name, "gutpextobj");
    for (key, _) in EXTOBJ {
        let req = post("/v1/extobj/create", &without(&EXTOBJ, key), &ctx);
        assert_eq!(
            GutpExtobjModule::new_one(&req),
            Err(HandlerError::MissingParameter(key.to_string()))
        );
    }
    let mut attached = EXTOBJ.to_vec();
    attached.push(("post_id", "PO1"));
    attached.push(("comment_id", "C1"));
    attached.push(("tag_id", "T1"));
    attached.push(("subspace_id", "S1"));
    let a = GutpExtobjModule::new_one(&post("/v1/extobj/create", &attached, &ctx)).unwrap();
    assert_eq!(a.response.results[0].post_id, "PO1");
    assert_eq!(a.response.results[0].comment_id, "C1");
    assert_eq!(a.response.results[0].tag_id, "T1");
    assert_eq!(a.response.results[0].subspace_id, "S1");
    let stored = w.statement.params.clone();
    let r = GutpExtobjModule::get_one_reply(&vec![stored.clone()]).unwrap();
    assert_eq!(r.results, vec![made]);
    let s = GutpExtobjModule::get_one(&get("/v1/extobj", &[("id", "E1")])).unwrap();
    assert!(s.sql.ends_with(" FROM gutpextobj WHERE id = $1"));
    let change = post("/v1/extobj/update", &[("id", "E1"), ("post_id", "PO2")], &[]);
    let u = GutpExtobjModule::update_reply(&change, &vec![stored.clone()]).unwrap();
    assert_eq!(u.response.results[0].post_id, "PO2");
    assert_eq!(u.response.results[0].caption, "cap");
    assert_eq!(u.response.results[0].created_time, 60);
    assert_eq!(GutpExtobjModule::update(&change).unwrap().op, SqlOp::SelectById);
    let s = GutpExtobjModule::get_list(&get("/v1/extobj/list", &[])).unwrap();
    assert!(s.sql.contains(" FROM gutpextobj ORDER BY created_time DESC LIMIT 25 OFFSET 0;"));
    assert_eq!(GutpExtobjModule::get_list_reply(&vec![stored]).unwrap().results.len(), 1);
    let d = GutpExtobjModule::delete(&post("/v1/extobj/delete", &[("id", "E1")], &[])).unwrap();
    assert_eq!(d.statement.sql, "DELETE FROM gutpextobj WHERE id = $1");
}

#[test]
fn changes_apply_in_order_and_skip_what_is_out_of_range() {
    let start = default_values(EntityKind::PostTag);
    assert_eq!(start, vec![text(""), text(""), text(""), SqlValue::Int64(0)]);
    let changes = vec![
        Change { field: 1, value: text("a") },
        Change { field: 9, value: text("nowhere") },
        Change { field: 1, value: text("b") },
        Change { field: 2, value: text("c") },
    ];
    assert_eq!(
        merge(start, &changes),
        vec![text(""), text("b"), text("c"), SqlValue::Int64(0)]
    );
}
