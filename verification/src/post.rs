//! The post module: the handlers of the posts and their routes.
//! Each handler says which statement the storage has to run; where rows
//! come back, its `_reply` twin turns them into the response.
//! No handler sets the time of the last update: a new post has none, and
//! an update leaves the stored one.

use vstd::prelude::*;
use crate::crud::{
    create, found, get_list, get_list_by, get_one, listed, push_binding, remove, spec_create,
    spec_found, spec_get_list, spec_get_list_by, spec_get_one, spec_listed, spec_remove,
    spec_update_lookup, spec_update_merge, update_lookup, update_merge, valid_bindings, Binding,
};
use crate::entity::GutpPost;
use crate::model::{spec_fields, EntityKind};
use crate::request::{HandlerError, Request};
use crate::response::{
    response_result, statement_result, write_result, HandlerCRUD, Response, Write,
};
use crate::router::{spec_get, spec_post, Action, Filter, RouteView, Router};
use crate::sql::Statement;
use crate::value::SqlValue;

verus! {

/// The position of `title` among the fields.
pub const TITLE: usize = 1;

/// The position of `content` among the fields.
pub const CONTENT: usize = 2;

/// The position of `author_id` among the fields.
pub const AUTHOR_ID: usize = 3;

/// The position of `author_nickname` among the fields.
pub const AUTHOR_NICKNAME: usize = 4;

/// The position of `subspace_id` among the fields.
pub const SUBSPACE_ID: usize = 5;

/// The position of `parent_post_id` among the fields.
pub const PARENT_POST_ID: usize = 6;

/// The position of `ext_link` among the fields.
pub const EXT_LINK: usize = 7;

/// The position of `is_public` among the fields.
pub const IS_PUBLIC: usize = 8;

/// The position of `category` among the fields.
pub const CATEGORY: usize = 11;

/// The position of `app_id` among the fields.
pub const APP_ID: usize = 12;

/// The module of the posts.
#[derive(Clone, Copy, Debug, Default, PartialEq, Eq)]
pub struct GutpPostModule;

impl GutpPostModule {
    /// The parameters that a request may set, each with the position of
    /// its field and whether a create cannot do without it, in the order in
    /// which they are read.
    pub open spec fn spec_bindings() -> Seq<(Seq<char>, int, bool)> {
        seq![
            ("title"@, TITLE as int, true),
            ("content"@, CONTENT as int, true),
            ("author_id"@, AUTHOR_ID as int, true),
            ("author_nickname"@, AUTHOR_NICKNAME as int, false),
            ("subspace_id"@, SUBSPACE_ID as int, true),
            ("parent_post_id"@, PARENT_POST_ID as int, false),
            ("ext_link"@, EXT_LINK as int, false),
            ("category"@, CATEGORY as int, false),
            ("app_id"@, APP_ID as int, false),
            ("is_public"@, IS_PUBLIC as int, true),
        ]
    }

    /// The routes of the module, in the order of registration.
    pub open spec fn spec_routes() -> Seq<RouteView> {
        seq![
            spec_get("/v1/post"@, EntityKind::Post, Action::GetOne),
            spec_get("/v1/post/list"@, EntityKind::Post, Action::GetList),
            spec_get(
                "/v1/post/list_by_subspace"@,
                EntityKind::Post,
                Action::ListBy(Filter::Subspace),
            ),
            spec_get("/v1/post/list_by_author"@, EntityKind::Post, Action::ListBy(Filter::Author)),
            spec_post("/v1/post/create"@, EntityKind::Post, Action::Create),
            spec_post("/v1/post/update"@, EntityKind::Post, Action::Update),
            spec_post("/v1/post/delete"@, EntityKind::Post, Action::Delete),
        ]
    }

    /// Each position above is that of the field it is named after.
    pub proof fn lemma_positions()
        ensures
            spec_fields(EntityKind::Post)[TITLE as int].0 == "title"@,
            spec_fields(EntityKind::Post)[CONTENT as int].0 == "content"@,
            spec_fields(EntityKind::Post)[AUTHOR_ID as int].0 == "author_id"@,
            spec_fields(EntityKind::Post)[AUTHOR_NICKNAME as int].0 == "author_nickname"@,
            spec_fields(EntityKind::Post)[SUBSPACE_ID as int].0 == "subspace_id"@,
            spec_fields(EntityKind::Post)[PARENT_POST_ID as int].0 == "parent_post_id"@,
            spec_fields(EntityKind::Post)[EXT_LINK as int].0 == "ext_link"@,
            spec_fields(EntityKind::Post)[IS_PUBLIC as int].0 == "is_public"@,
            spec_fields(EntityKind::Post)[CATEGORY as int].0 == "category"@,
            spec_fields(EntityKind::Post)[APP_ID as int].0 == "app_id"@,
    {
    }

    /// The parameters that a request may set, each with the position of
    /// its field.
    pub fn bindings() -> (b: Vec<Binding>)
        ensures
            b.deep_view() == Self::spec_bindings(),
            valid_bindings(EntityKind::Post, b.deep_view()),
    {
        let mut b: Vec<Binding> = Vec::new();
        assert(b.deep_view() =~= Seq::empty());
        push_binding(&mut b, "title", TITLE, true);
        push_binding(&mut b, "content", CONTENT, true);
        push_binding(&mut b, "author_id", AUTHOR_ID, true);
        push_binding(&mut b, "author_nickname", AUTHOR_NICKNAME, false);
        push_binding(&mut b, "subspace_id", SUBSPACE_ID, true);
        push_binding(&mut b, "parent_post_id", PARENT_POST_ID, false);
        push_binding(&mut b, "ext_link", EXT_LINK, false);
        push_binding(&mut b, "category", CATEGORY, false);
        push_binding(&mut b, "app_id", APP_ID, false);
        push_binding(&mut b, "is_public", IS_PUBLIC, true);
        b
    }

    /// Reads one post by the parameter `id`: the statement to run.
    pub fn get_one(req: &Request) -> (r: Result<Statement, HandlerError>)
        ensures
            statement_result(r) == spec_get_one(EntityKind::Post, req.params@),
    {
        get_one::<GutpPost>(req)
    }

    /// The response to `get_one` from the rows that came back: the post,
    /// or `NotFound` where there is no row.
    pub fn get_one_reply(rows: &Vec<Vec<SqlValue>>) -> (r: Result<
        Response<GutpPost>,
        HandlerError,
    >)
        ensures
            response_result(r) == spec_found(EntityKind::Post, rows.deep_view()),
    {
        found::<GutpPost>(rows)
    }

    /// Lists the posts, newest first, a page at a time: the statement
    /// to run.
    pub fn get_list(req: &Request) -> (r: Result<Statement, HandlerError>)
        ensures
            statement_result(r) == spec_get_list(EntityKind::Post, req.params@),
    {
        get_list::<GutpPost>(req)
    }

    /// The response to a listing, filtered or not, from the rows that came
    /// back: all of them, in their order.
    pub fn get_list_reply(rows: &Vec<Vec<SqlValue>>) -> (r: Result<
        Response<GutpPost>,
        HandlerError,
    >)
        ensures
            response_result(r) == spec_listed(
                EntityKind::Post,
                HandlerCRUD::List,
                rows.deep_view(),
            ),
    {
        listed::<GutpPost>(HandlerCRUD::List, rows)
    }

    /// Lists the posts of one subspace,
    /// newest first, a page at a time: the statement to run. The value to
    /// compare with comes from the parameter `subspace_id`.
    pub fn list_by_subspace(req: &Request) -> (r: Result<Statement, HandlerError>)
        ensures
            statement_result(r) == spec_get_list_by(
                EntityKind::Post,
                "subspace_id"@,
                SUBSPACE_ID,
                req.params@,
            ),
    {
        get_list_by::<GutpPost>(req, "subspace_id", SUBSPACE_ID)
    }

    /// Lists the posts of one author,
    /// newest first, a page at a time: the statement to run. The value to
    /// compare with comes from the parameter `author_id`.
    pub fn list_by_author(req: &Request) -> (r: Result<Statement, HandlerError>)
        ensures
            statement_result(r) == spec_get_list_by(
                EntityKind::Post,
                "author_id"@,
                AUTHOR_ID,
                req.params@,
            ),
    {
        get_list_by::<GutpPost>(req, "author_id", AUTHOR_ID)
    }

    /// Creates a post from the bound parameters, of which the required
    /// ones must be there, with the identity and the creation time of the
    /// request's context: the insert to run and the response that follows it.
    pub fn new_one(req: &Request) -> (r: Result<Write<GutpPost>, HandlerError>)
        ensures
            write_result(r) == spec_create(
                EntityKind::Post,
                Self::spec_bindings(),
                req.params@,
                req.ext@,
            ),
    {
        let b = Self::bindings();
        create::<GutpPost>(req, &b)
    }

    /// Updates the post with the identity under `id`: the statement that
    /// fetches the stored row. The bound parameters are read first.
    pub fn update(req: &Request) -> (r: Result<Statement, HandlerError>)
        ensures
            statement_result(r) == spec_update_lookup(
                EntityKind::Post,
                Self::spec_bindings(),
                req.params@,
            ),
    {
        let b = Self::bindings();
        update_lookup::<GutpPost>(req, &b)
    }

    /// The second half of `update`, from the rows that the lookup gave: the
    /// bound parameters that the request carries replace their fields of the
    /// stored row, every other field stays. Gives the update to run and the
    /// response that follows it, or `NotFound` where there is no row.
    pub fn update_reply(req: &Request, rows: &Vec<Vec<SqlValue>>) -> (r: Result<
        Write<GutpPost>,
        HandlerError,
    >)
        ensures
            write_result(r) == spec_update_merge(
                EntityKind::Post,
                Self::spec_bindings(),
                req.params@,
                rows.deep_view(),
            ),
    {
        let b = Self::bindings();
        update_merge::<GutpPost>(req, &b, rows)
    }

    /// Deletes the post with the identity under `id`, whether it is stored
    /// or not: the delete to run and the response that follows it.
    pub fn delete(req: &Request) -> (r: Result<Write<GutpPost>, HandlerError>)
        ensures
            write_result(r) == spec_remove(EntityKind::Post, req.params@),
    {
        remove::<GutpPost>(req)
    }

    /// Registers the routes of the module.
    pub fn router(&self, router: &mut Router)
        ensures
            final(router)@ == old(router)@ + Self::spec_routes(),
    {
        router.get("/v1/post", EntityKind::Post, Action::GetOne);
        router.get("/v1/post/list", EntityKind::Post, Action::GetList);
        router.get(
            "/v1/post/list_by_subspace",
            EntityKind::Post,
            Action::ListBy(Filter::Subspace),
        );
        router.get("/v1/post/list_by_author", EntityKind::Post, Action::ListBy(Filter::Author));
        router.post("/v1/post/create", EntityKind::Post, Action::Create);
        router.post("/v1/post/update", EntityKind::Post, Action::Update);
        router.post("/v1/post/delete", EntityKind::Post, Action::Delete);
        assert(router@ =~= old(router)@ + Self::spec_routes());
    }
}

} // verus!
