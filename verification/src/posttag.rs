//! The post tag module: the handlers of the post tags and their routes.
//! Each handler says which statement the storage has to run; where rows
//! come back, its `_reply` twin turns them into the response.

use vstd::prelude::*;
use crate::crud::{
    create, found, get_list, get_list_by, get_one, listed, push_binding, remove, spec_create,
    spec_found, spec_get_list, spec_get_list_by, spec_get_one, spec_listed, spec_remove,
    spec_update_lookup, spec_update_merge, update_lookup, update_merge, valid_bindings, Binding,
};
use crate::entity::GutpPostTag;
use crate::model::{spec_fields, EntityKind};
use crate::request::{HandlerError, Request};
use crate::response::{
    response_result, statement_result, write_result, HandlerCRUD, Response, Write,
};
use crate::router::{spec_get, spec_post, Action, Filter, RouteView, Router};
use crate::sql::Statement;
use crate::value::SqlValue;

verus! {

/// The position of `post_id` among the fields.
pub const POST_ID: usize = 1;

/// The position of `tag_id` among the fields.
pub const TAG_ID: usize = 2;

/// The module of the post tags.
#[derive(Clone, Copy, Debug, Default, PartialEq, Eq)]
pub struct GutpPostTagModule;

impl GutpPostTagModule {
    /// The parameters that a request may set, each with the position of
    /// its field and whether a create cannot do without it, in the order in
    /// which they are read.
    pub open spec fn spec_bindings() -> Seq<(Seq<char>, int, bool)> {
        seq![
            ("post_id"@, POST_ID as int, true),
            ("tag_id"@, TAG_ID as int, true),
        ]
    }

    /// The routes of the module, in the order of registration.
    pub open spec fn spec_routes() -> Seq<RouteView> {
        seq![
            spec_get("/v1/posttag"@, EntityKind::PostTag, Action::GetOne),
            spec_get("/v1/posttag/list"@, EntityKind::PostTag, Action::GetList),
            spec_get(
                "/v1/posttag/list_by_post"@,
                EntityKind::PostTag,
                Action::ListBy(Filter::Post),
            ),
            spec_get("/v1/posttag/list_by_tag"@, EntityKind::PostTag, Action::ListBy(Filter::Tag)),
            spec_post("/v1/posttag/create"@, EntityKind::PostTag, Action::Create),
            spec_post("/v1/posttag/update"@, EntityKind::PostTag, Action::Update),
            spec_post("/v1/posttag/delete"@, EntityKind::PostTag, Action::Delete),
        ]
    }

    /// Each position above is that of the field it is named after.
    pub proof fn lemma_positions()
        ensures
            spec_fields(EntityKind::PostTag)[POST_ID as int].0 == "post_id"@,
            spec_fields(EntityKind::PostTag)[TAG_ID as int].0 == "tag_id"@,
    {
    }

    /// The parameters that a request may set, each with the position of
    /// its field.
    pub fn bindings() -> (b: Vec<Binding>)
        ensures
            b.deep_view() == Self::spec_bindings(),
            valid_bindings(EntityKind::PostTag, b.deep_view()),
    {
        let mut b: Vec<Binding> = Vec::new();
        assert(b.deep_view() =~= Seq::empty());
        push_binding(&mut b, "post_id", POST_ID, true);
        push_binding(&mut b, "tag_id", TAG_ID, true);
        b
    }

    /// Reads one post tag by the parameter `id`: the statement to run.
    pub fn get_one(req: &Request) -> (r: Result<Statement, HandlerError>)
        ensures
            statement_result(r) == spec_get_one(EntityKind::PostTag, req.params@),
    {
        get_one::<GutpPostTag>(req)
    }

    /// The response to `get_one` from the rows that came back: the post tag,
    /// or `NotFound` where there is no row.
    pub fn get_one_reply(rows: &Vec<Vec<SqlValue>>) -> (r: Result<
        Response<GutpPostTag>,
        HandlerError,
    >)
        ensures
            response_result(r) == spec_found(EntityKind::PostTag, rows.deep_view()),
    {
        found::<GutpPostTag>(rows)
    }

    /// Lists the post tags, newest first, a page at a time: the statement
    /// to run.
    pub fn get_list(req: &Request) -> (r: Result<Statement, HandlerError>)
        ensures
            statement_result(r) == spec_get_list(EntityKind::PostTag, req.params@),
    {
        get_list::<GutpPostTag>(req)
    }

    /// The response to a listing, filtered or not, from the rows that came
    /// back: all of them, in their order.
    pub fn get_list_reply(rows: &Vec<Vec<SqlValue>>) -> (r: Result<
        Response<GutpPostTag>,
        HandlerError,
    >)
        ensures
            response_result(r) == spec_listed(
                EntityKind::PostTag,
                HandlerCRUD::List,
                rows.deep_view(),
            ),
    {
        listed::<GutpPostTag>(HandlerCRUD::List, rows)
    }

    /// Lists the post tags of one post,
    /// newest first, a page at a time: the statement to run. The value to
    /// compare with comes from the parameter `post_id`.
    pub fn list_by_post(req: &Request) -> (r: Result<Statement, HandlerError>)
        ensures
            statement_result(r) == spec_get_list_by(
                EntityKind::PostTag,
                "post_id"@,
                POST_ID,
                req.params@,
            ),
    {
        get_list_by::<GutpPostTag>(req, "post_id", POST_ID)
    }

    /// Lists the post tags with one tag,
    /// newest first, a page at a time: the statement to run. The value to
    /// compare with comes from the parameter `tag_id`.
    pub fn list_by_tag(req: &Request) -> (r: Result<Statement, HandlerError>)
        ensures
            statement_result(r) == spec_get_list_by(
                EntityKind::PostTag,
                "tag_id"@,
                TAG_ID,
                req.params@,
            ),
    {
        get_list_by::<GutpPostTag>(req, "tag_id", TAG_ID)
    }

    /// Creates a post tag from the bound parameters, of which the required
    /// ones must be there, with the identity and the creation time of the
    /// request's context: the insert to run and the response that follows it.
    pub fn new_one(req: &Request) -> (r: Result<Write<GutpPostTag>, HandlerError>)
        ensures
            write_result(r) == spec_create(
                EntityKind::PostTag,
                Self::spec_bindings(),
                req.params@,
                req.ext@,
            ),
    {
        let b = Self::bindings();
        create::<GutpPostTag>(req, &b)
    }

    /// Updates the post tag with the identity under `id`: the statement that
    /// fetches the stored row. The bound parameters are read first.
    pub fn update(req: &Request) -> (r: Result<Statement, HandlerError>)
        ensures
            statement_result(r) == spec_update_lookup(
                EntityKind::PostTag,
                Self::spec_bindings(),
                req.params@,
            ),
    {
        let b = Self::bindings();
        update_lookup::<GutpPostTag>(req, &b)
    }

    /// The second half of `update`, from the rows that the lookup gave: the
    /// bound parameters that the request carries replace their fields of the
    /// stored row, every other field stays. Gives the update to run and the
    /// response that follows it, or `NotFound` where there is no row.
    pub fn update_reply(req: &Request, rows: &Vec<Vec<SqlValue>>) -> (r: Result<
        Write<GutpPostTag>,
        HandlerError,
    >)
        ensures
            write_result(r) == spec_update_merge(
                EntityKind::PostTag,
                Self::spec_bindings(),
                req.params@,
                rows.deep_view(),
            ),
    {
        let b = Self::bindings();
        update_merge::<GutpPostTag>(req, &b, rows)
    }

    /// Deletes the post tag with the identity under `id`, whether it is stored
    /// or not: the delete to run and the response that follows it.
    pub fn delete(req: &Request) -> (r: Result<Write<GutpPostTag>, HandlerError>)
        ensures
            write_result(r) == spec_remove(EntityKind::PostTag, req.params@),
    {
        remove::<GutpPostTag>(req)
    }

    /// Registers the routes of the module.
    pub fn router(&self, router: &mut Router)
        ensures
            final(router)@ == old(router)@ + Self::spec_routes(),
    {
        router.get("/v1/posttag", EntityKind::PostTag, Action::GetOne);
        router.get("/v1/posttag/list", EntityKind::PostTag, Action::GetList);
        router.get("/v1/posttag/list_by_post", EntityKind::PostTag, Action::ListBy(Filter::Post));
        router.get("/v1/posttag/list_by_tag", EntityKind::PostTag, Action::ListBy(Filter::Tag));
        router.post("/v1/posttag/create", EntityKind::PostTag, Action::Create);
        router.post("/v1/posttag/update", EntityKind::PostTag, Action::Update);
        router.post("/v1/posttag/delete", EntityKind::PostTag, Action::Delete);
        assert(router@ =~= old(router)@ + Self::spec_routes());
    }
}

} // verus!
