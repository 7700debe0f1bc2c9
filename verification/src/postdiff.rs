//! The post revision module: the handlers of the post revisions and their routes.
//! Each handler says which statement the storage has to run; where rows
//! come back, its `_reply` twin turns them into the response.

use vstd::prelude::*;
use crate::crud::{
    create, found, get_list, get_list_by, get_one, listed, push_binding, remove, spec_create,
    spec_found, spec_get_list, spec_get_list_by, spec_get_one, spec_listed, spec_remove,
    spec_update_lookup, spec_update_merge, update_lookup, update_merge, valid_bindings, Binding,
};
use crate::entity::GutpPostDiff;
use crate::model::{spec_fields, EntityKind};
use crate::request::{HandlerError, Request};
use crate::response::{
    response_result, statement_result, write_result, HandlerCRUD, Response, Write,
};
use crate::router::{spec_get, spec_post, Action, Filter, RouteView, Router};
use crate::sql::Statement;
use crate::value::SqlValue;

verus! {

/// The position of `post_id` among the fields.
pub const POST_ID: usize = 1;

/// The position of `diff` among the fields.
pub const DIFF: usize = 2;

/// The position of `version_num` among the fields.
pub const VERSION_NUM: usize = 3;

/// The module of the post revisions.
#[derive(Clone, Copy, Debug, Default, PartialEq, Eq)]
pub struct GutpPostDiffModule;

impl GutpPostDiffModule {
    /// The parameters that a request may set, each with the position of
    /// its field and whether a create cannot do without it, in the order in
    /// which they are read.
    pub open spec fn spec_bindings() -> Seq<(Seq<char>, int, bool)> {
        seq![
            ("post_id"@, POST_ID as int, true),
            ("diff"@, DIFF as int, true),
            ("version_num"@, VERSION_NUM as int, true),
        ]
    }

    /// The routes of the module, in the order of registration.
    pub open spec fn spec_routes() -> Seq<RouteView> {
        seq![
            spec_get("/v1/postdiff"@, EntityKind::PostDiff, Action::GetOne),
            spec_get("/v1/postdiff/list"@, EntityKind::PostDiff, Action::GetList),
            spec_get(
                "/v1/postdiff/list_by_post"@,
                EntityKind::PostDiff,
                Action::ListBy(Filter::Post),
            ),
            spec_post("/v1/postdiff/create"@, EntityKind::PostDiff, Action::Create),
            spec_post("/v1/postdiff/update"@, EntityKind::PostDiff, Action::Update),
            spec_post("/v1/postdiff/delete"@, EntityKind::PostDiff, Action::Delete),
        ]
    }

    /// Each position above is that of the field it is named after.
    pub proof fn lemma_positions()
        ensures
            spec_fields(EntityKind::PostDiff)[POST_ID as int].0 == "post_id"@,
            spec_fields(EntityKind::PostDiff)[DIFF as int].0 == "diff"@,
            spec_fields(EntityKind::PostDiff)[VERSION_NUM as int].0 == "version_num"@,
    {
    }

    /// The parameters that a request may set, each with the position of
    /// its field.
    pub fn bindings() -> (b: Vec<Binding>)
        ensures
            b.deep_view() == Self::spec_bindings(),
            valid_bindings(EntityKind::PostDiff, b.deep_view()),
    {
        let mut b: Vec<Binding> = Vec::new();
        assert(b.deep_view() =~= Seq::empty());
        push_binding(&mut b, "post_id", POST_ID, true);
        push_binding(&mut b, "diff", DIFF, true);
        push_binding(&mut b, "version_num", VERSION_NUM, true);
        b
    }

    /// Reads one post revision by the parameter `id`: the statement to run.
    pub fn get_one(req: &Request) -> (r: Result<Statement, HandlerError>)
        ensures
            statement_result(r) == spec_get_one(EntityKind::PostDiff, req.params@),
    {
        get_one::<GutpPostDiff>(req)
    }

    /// The response to `get_one` from the rows that came back: the post revision,
    /// or `NotFound` where there is no row.
    pub fn get_one_reply(rows: &Vec<Vec<SqlValue>>) -> (r: Result<
        Response<GutpPostDiff>,
        HandlerError,
    >)
        ensures
            response_result(r) == spec_found(EntityKind::PostDiff, rows.deep_view()),
    {
        found::<GutpPostDiff>(rows)
    }

    /// Lists the post revisions, newest first, a page at a time: the statement
    /// to run.
    pub fn get_list(req: &Request) -> (r: Result<Statement, HandlerError>)
        ensures
            statement_result(r) == spec_get_list(EntityKind::PostDiff, req.params@),
    {
        get_list::<GutpPostDiff>(req)
    }

    /// The response to a listing, filtered or not, from the rows that came
    /// back: all of them, in their order.
    pub fn get_list_reply(rows: &Vec<Vec<SqlValue>>) -> (r: Result<
        Response<GutpPostDiff>,
        HandlerError,
    >)
        ensures
            response_result(r) == spec_listed(
                EntityKind::PostDiff,
                HandlerCRUD::List,
                rows.deep_view(),
            ),
    {
        listed::<GutpPostDiff>(HandlerCRUD::List, rows)
    }

    /// Lists the post revisions of one post,
    /// newest first, a page at a time: the statement to run. The value to
    /// compare with comes from the parameter `post_id`.
    pub fn list_by_post(req: &Request) -> (r: Result<Statement, HandlerError>)
        ensures
            statement_result(r) == spec_get_list_by(
                EntityKind::PostDiff,
                "post_id"@,
                POST_ID,
                req.params@,
            ),
    {
        get_list_by::<GutpPostDiff>(req, "post_id", POST_ID)
    }

    /// Creates a post revision from the bound parameters, of which the required
    /// ones must be there, with the identity and the creation time of the
    /// request's context: the insert to run and the response that follows it.
    pub fn new_one(req: &Request) -> (r: Result<Write<GutpPostDiff>, HandlerError>)
        ensures
            write_result(r) == spec_create(
                EntityKind::PostDiff,
                Self::spec_bindings(),
                req.params@,
                req.ext@,
            ),
    {
        let b = Self::bindings();
        create::<GutpPostDiff>(req, &b)
    }

    /// Updates the post revision with the identity under `id`: the statement that
    /// fetches the stored row. The bound parameters are read first.
    pub fn update(req: &Request) -> (r: Result<Statement, HandlerError>)
        ensures
            statement_result(r) == spec_update_lookup(
                EntityKind::PostDiff,
                Self::spec_bindings(),
                req.params@,
            ),
    {
        let b = Self::bindings();
        update_lookup::<GutpPostDiff>(req, &b)
    }

    /// The second half of `update`, from the rows that the lookup gave: the
    /// bound parameters that the request carries replace their fields of the
    /// stored row, every other field stays. Gives the update to run and the
    /// response that follows it, or `NotFound` where there is no row.
    pub fn update_reply(req: &Request, rows: &Vec<Vec<SqlValue>>) -> (r: Result<
        Write<GutpPostDiff>,
        HandlerError,
    >)
        ensures
            write_result(r) == spec_update_merge(
                EntityKind::PostDiff,
                Self::spec_bindings(),
                req.params@,
                rows.deep_view(),
            ),
    {
        let b = Self::bindings();
        update_merge::<GutpPostDiff>(req, &b, rows)
    }

    /// Deletes the post revision with the identity under `id`, whether it is stored
    /// or not: the delete to run and the response that follows it.
    pub fn delete(req: &Request) -> (r: Result<Write<GutpPostDiff>, HandlerError>)
        ensures
            write_result(r) == spec_remove(EntityKind::PostDiff, req.params@),
    {
        remove::<GutpPostDiff>(req)
    }

    /// Registers the routes of the module.
    pub fn router(&self, router: &mut Router)
        ensures
            final(router)@ == old(router)@ + Self::spec_routes(),
    {
        router.get("/v1/postdiff", EntityKind::PostDiff, Action::GetOne);
        router.get("/v1/postdiff/list", EntityKind::PostDiff, Action::GetList);
        router.get(
            "/v1/postdiff/list_by_post",
            EntityKind::PostDiff,
            Action::ListBy(Filter::Post),
        );
        router.post("/v1/postdiff/create", EntityKind::PostDiff, Action::Create);
        router.post("/v1/postdiff/update", EntityKind::PostDiff, Action::Update);
        router.post("/v1/postdiff/delete", EntityKind::PostDiff, Action::Delete);
        assert(router@ =~= old(router)@ + Self::spec_routes());
    }
}

} // verus!
