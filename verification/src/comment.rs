//! The comment module: the handlers of the comments and their routes.
//! Each handler says which statement the storage has to run; where rows
//! come back, its `_reply` twin turns them into the response.

use vstd::prelude::*;
use crate::crud::{
    create, found, get_list, get_list_by, get_one, listed, push_binding, remove, spec_create,
    spec_found, spec_get_list, spec_get_list_by, spec_get_one, spec_listed, spec_remove,
    spec_update_lookup, spec_update_merge, update_lookup, update_merge, valid_bindings, Binding,
};
use crate::entity::GutpComment;
use crate::model::{spec_fields, EntityKind};
use crate::request::{HandlerError, Request};
use crate::response::{
    response_result, statement_result, write_result, HandlerCRUD, Response, Write,
};
use crate::router::{spec_get, spec_post, Action, Filter, RouteView, Router};
use crate::sql::Statement;
use crate::value::SqlValue;

verus! {

/// The position of `content` among the fields.
pub const CONTENT: usize = 1;

/// The position of `author_id` among the fields.
pub const AUTHOR_ID: usize = 2;

/// The position of `post_id` among the fields.
pub const POST_ID: usize = 4;

/// The position of `parent_comment_id` among the fields.
pub const PARENT_COMMENT_ID: usize = 5;

/// The position of `is_public` among the fields.
pub const IS_PUBLIC: usize = 6;

/// The module of the comments.
#[derive(Clone, Copy, Debug, Default, PartialEq, Eq)]
pub struct GutpCommentModule;

impl GutpCommentModule {
    /// The parameters that a request may set, each with the position of
    /// its field and whether a create cannot do without it, in the order in
    /// which they are read.
    pub open spec fn spec_bindings() -> Seq<(Seq<char>, int, bool)> {
        seq![
            ("content"@, CONTENT as int, true),
            ("author_id"@, AUTHOR_ID as int, true),
            ("post_id"@, POST_ID as int, true),
            ("parent_comment_id"@, PARENT_COMMENT_ID as int, true),
            ("is_public"@, IS_PUBLIC as int, true),
        ]
    }

    /// The routes of the module, in the order of registration.
    pub open spec fn spec_routes() -> Seq<RouteView> {
        seq![
            spec_get("/v1/comment"@, EntityKind::Comment, Action::GetOne),
            spec_get("/v1/comment/list"@, EntityKind::Comment, Action::GetList),
            spec_get(
                "/v1/comment/list_by_post"@,
                EntityKind::Comment,
                Action::ListBy(Filter::Post),
            ),
            spec_get(
                "/v1/comment/list_by_author"@,
                EntityKind::Comment,
                Action::ListBy(Filter::Author),
            ),
            spec_post("/v1/comment/create"@, EntityKind::Comment, Action::Create),
            spec_post("/v1/comment/update"@, EntityKind::Comment, Action::Update),
            spec_post("/v1/comment/delete"@, EntityKind::Comment, Action::Delete),
        ]
    }

    /// Each position above is that of the field it is named after.
    pub proof fn lemma_positions()
        ensures
            spec_fields(EntityKind::Comment)[CONTENT as int].0 == "content"@,
            spec_fields(EntityKind::Comment)[AUTHOR_ID as int].0 == "author_id"@,
            spec_fields(EntityKind::Comment)[POST_ID as int].0 == "post_id"@,
            spec_fields(EntityKind::Comment)[PARENT_COMMENT_ID as int].0 == "parent_comment_id"@,
            spec_fields(EntityKind::Comment)[IS_PUBLIC as int].0 == "is_public"@,
    {
    }

    /// The parameters that a request may set, each with the position of
    /// its field.
    pub fn bindings() -> (b: Vec<Binding>)
        ensures
            b.deep_view() == Self::spec_bindings(),
            valid_bindings(EntityKind::Comment, b.deep_view()),
    {
        let mut b: Vec<Binding> = Vec::new();
        assert(b.deep_view() =~= Seq::empty());
        push_binding(&mut b, "content", CONTENT, true);
        push_binding(&mut b, "author_id", AUTHOR_ID, true);
        push_binding(&mut b, "post_id", POST_ID, true);
        push_binding(&mut b, "parent_comment_id", PARENT_COMMENT_ID, true);
        push_binding(&mut b, "is_public", IS_PUBLIC, true);
        b
    }

    /// Reads one comment by the parameter `id`: the statement to run.
    pub fn get_one(req: &Request) -> (r: Result<Statement, HandlerError>)
        ensures
            statement_result(r) == spec_get_one(EntityKind::Comment, req.params@),
    {
        get_one::<GutpComment>(req)
    }

    /// The response to `get_one` from the rows that came back: the comment,
    /// or `NotFound` where there is no row.
    pub fn get_one_reply(rows: &Vec<Vec<SqlValue>>) -> (r: Result<
        Response<GutpComment>,
        HandlerError,
    >)
        ensures
            response_result(r) == spec_found(EntityKind::Comment, rows.deep_view()),
    {
        found::<GutpComment>(rows)
    }

    /// Lists the comments, newest first, a page at a time: the statement
    /// to run.
    pub fn get_list(req: &Request) -> (r: Result<Statement, HandlerError>)
        ensures
            statement_result(r) == spec_get_list(EntityKind::Comment, req.params@),
    {
        get_list::<GutpComment>(req)
    }

    /// The response to a listing, filtered or not, from the rows that came
    /// back: all of them, in their order.
    pub fn get_list_reply(rows: &Vec<Vec<SqlValue>>) -> (r: Result<
        Response<GutpComment>,
        HandlerError,
    >)
        ensures
            response_result(r) == spec_listed(
                EntityKind::Comment,
                HandlerCRUD::List,
                rows.deep_view(),
            ),
    {
        listed::<GutpComment>(HandlerCRUD::List, rows)
    }

    /// Lists the comments under one post,
    /// newest first, a page at a time: the statement to run. The value to
    /// compare with comes from the parameter `post_id`.
    pub fn list_by_post(req: &Request) -> (r: Result<Statement, HandlerError>)
        ensures
            statement_result(r) == spec_get_list_by(
                EntityKind::Comment,
                "post_id"@,
                POST_ID,
                req.params@,
            ),
    {
        get_list_by::<GutpComment>(req, "post_id", POST_ID)
    }

    /// Lists the comments of one author,
    /// newest first, a page at a time: the statement to run. The value to
    /// compare with comes from the parameter `author_id`.
    pub fn list_by_author(req: &Request) -> (r: Result<Statement, HandlerError>)
        ensures
            statement_result(r) == spec_get_list_by(
                EntityKind::Comment,
                "author_id"@,
                AUTHOR_ID,
                req.params@,
            ),
    {
        get_list_by::<GutpComment>(req, "author_id", AUTHOR_ID)
    }

    /// Creates a comment from the bound parameters, of which the required
    /// ones must be there, with the identity and the creation time of the
    /// request's context: the insert to run and the response that follows it.
    pub fn new_one(req: &Request) -> (r: Result<Write<GutpComment>, HandlerError>)
        ensures
            write_result(r) == spec_create(
                EntityKind::Comment,
                Self::spec_bindings(),
                req.params@,
                req.ext@,
            ),
    {
        let b = Self::bindings();
        create::<GutpComment>(req, &b)
    }

    /// Updates the comment with the identity under `id`: the statement that
    /// fetches the stored row. The bound parameters are read first.
    pub fn update(req: &Request) -> (r: Result<Statement, HandlerError>)
        ensures
            statement_result(r) == spec_update_lookup(
                EntityKind::Comment,
                Self::spec_bindings(),
                req.params@,
            ),
    {
        let b = Self::bindings();
        update_lookup::<GutpComment>(req, &b)
    }

    /// The second half of `update`, from the rows that the lookup gave: the
    /// bound parameters that the request carries replace their fields of the
    /// stored row, every other field stays. Gives the update to run and the
    /// response that follows it, or `NotFound` where there is no row.
    pub fn update_reply(req: &Request, rows: &Vec<Vec<SqlValue>>) -> (r: Result<
        Write<GutpComment>,
        HandlerError,
    >)
        ensures
            write_result(r) == spec_update_merge(
                EntityKind::Comment,
                Self::spec_bindings(),
                req.params@,
                rows.deep_view(),
            ),
    {
        let b = Self::bindings();
        update_merge::<GutpComment>(req, &b, rows)
    }

    /// Deletes the comment with the identity under `id`, whether it is stored
    /// or not: the delete to run and the response that follows it.
    pub fn delete(req: &Request) -> (r: Result<Write<GutpComment>, HandlerError>)
        ensures
            write_result(r) == spec_remove(EntityKind::Comment, req.params@),
    {
        remove::<GutpComment>(req)
    }

    /// Registers the routes of the module.
    pub fn router(&self, router: &mut Router)
        ensures
            final(router)@ == old(router)@ + Self::spec_routes(),
    {
        router.get("/v1/comment", EntityKind::Comment, Action::GetOne);
        router.get("/v1/comment/list", EntityKind::Comment, Action::GetList);
        router.get("/v1/comment/list_by_post", EntityKind::Comment, Action::ListBy(Filter::Post));
        router.get(
            "/v1/comment/list_by_author",
            EntityKind::Comment,
            Action::ListBy(Filter::Author),
        );
        router.post("/v1/comment/create", EntityKind::Comment, Action::Create);
        router.post("/v1/comment/update", EntityKind::Comment, Action::Update);
        router.post("/v1/comment/delete", EntityKind::Comment, Action::Delete);
        assert(router@ =~= old(router)@ + Self::spec_routes());
    }
}

} // verus!
