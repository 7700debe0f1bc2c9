//! The extension object module: the handlers of the extension objects and their routes.
//! Each handler says which statement the storage has to run; where rows
//! come back, its `_reply` twin turns them into the response.

use vstd::prelude::*;
use crate::crud::{
    create, found, get_list, get_one, listed, push_binding, remove, spec_create, spec_found,
    spec_get_list, spec_get_one, spec_listed, spec_remove, spec_update_lookup, spec_update_merge,
    update_lookup, update_merge, valid_bindings, Binding,
};
use crate::entity::GutpExtobj;
use crate::model::{spec_fields, EntityKind};
use crate::request::{HandlerError, Request};
use crate::response::{
    response_result, statement_result, write_result, HandlerCRUD, Response, Write,
};
use crate::router::{spec_get, spec_post, Action, RouteView, Router};
use crate::sql::Statement;
use crate::value::SqlValue;

verus! {

/// The position of `caption` among the fields.
pub const CAPTION: usize = 1;

/// The position of `content` among the fields.
pub const CONTENT: usize = 2;

/// The position of `user_id` among the fields.
pub const USER_ID: usize = 3;

/// The position of `subspace_id` among the fields.
pub const SUBSPACE_ID: usize = 4;

/// The position of `tag_id` among the fields.
pub const TAG_ID: usize = 5;

/// The position of `post_id` among the fields.
pub const POST_ID: usize = 6;

/// The position of `comment_id` among the fields.
pub const COMMENT_ID: usize = 7;

/// The position of `is_public` among the fields.
pub const IS_PUBLIC: usize = 8;

/// The module of the extension objects.
#[derive(Clone, Copy, Debug, Default, PartialEq, Eq)]
pub struct GutpExtobjModule;

impl GutpExtobjModule {
    /// The parameters that a request may set, each with the position of
    /// its field and whether a create cannot do without it, in the order in
    /// which they are read.
    pub open spec fn spec_bindings() -> Seq<(Seq<char>, int, bool)> {
        seq![
            ("caption"@, CAPTION as int, true),
            ("content"@, CONTENT as int, true),
            ("user_id"@, USER_ID as int, true),
            ("subspace_id"@, SUBSPACE_ID as int, false),
            ("tag_id"@, TAG_ID as int, false),
            ("post_id"@, POST_ID as int, false),
            ("comment_id"@, COMMENT_ID as int, false),
            ("is_public"@, IS_PUBLIC as int, true),
        ]
    }

    /// The routes of the module, in the order of registration.
    pub open spec fn spec_routes() -> Seq<RouteView> {
        seq![
            spec_get("/v1/extobj"@, EntityKind::Extobj, Action::GetOne),
            spec_get("/v1/extobj/list"@, EntityKind::Extobj, Action::GetList),
            spec_post("/v1/extobj/create"@, EntityKind::Extobj, Action::Create),
            spec_post("/v1/extobj/update"@, EntityKind::Extobj, Action::Update),
            spec_post("/v1/extobj/delete"@, EntityKind::Extobj, Action::Delete),
        ]
    }

    /// Each position above is that of the field it is named after.
    pub proof fn lemma_positions()
        ensures
            spec_fields(EntityKind::Extobj)[CAPTION as int].0 == "caption"@,
            spec_fields(EntityKind::Extobj)[CONTENT as int].0 == "content"@,
            spec_fields(EntityKind::Extobj)[USER_ID as int].0 == "user_id"@,
            spec_fields(EntityKind::Extobj)[SUBSPACE_ID as int].0 == "subspace_id"@,
            spec_fields(EntityKind::Extobj)[TAG_ID as int].0 == "tag_id"@,
            spec_fields(EntityKind::Extobj)[POST_ID as int].0 == "post_id"@,
            spec_fields(EntityKind::Extobj)[COMMENT_ID as int].0 == "comment_id"@,
            spec_fields(EntityKind::Extobj)[IS_PUBLIC as int].0 == "is_public"@,
    {
    }

    /// The parameters that a request may set, each with the position of
    /// its field.
    pub fn bindings() -> (b: Vec<Binding>)
        ensures
            b.deep_view() == Self::spec_bindings(),
            valid_bindings(EntityKind::Extobj, b.deep_view()),
    {
        let mut b: Vec<Binding> = Vec::new();
        assert(b.deep_view() =~= Seq::empty());
        push_binding(&mut b, "caption", CAPTION, true);
        push_binding(&mut b, "content", CONTENT, true);
        push_binding(&mut b, "user_id", USER_ID, true);
        push_binding(&mut b, "subspace_id", SUBSPACE_ID, false);
        push_binding(&mut b, "tag_id", TAG_ID, false);
        push_binding(&mut b, "post_id", POST_ID, false);
        push_binding(&mut b, "comment_id", COMMENT_ID, false);
        push_binding(&mut b, "is_public", IS_PUBLIC, true);
        b
    }

    /// Reads one extension object by the parameter `id`: the statement to run.
    pub fn get_one(req: &Request) -> (r: Result<Statement, HandlerError>)
        ensures
            statement_result(r) == spec_get_one(EntityKind::Extobj, req.params@),
    {
        get_one::<GutpExtobj>(req)
    }

    /// The response to `get_one` from the rows that came back: the extension object,
    /// or `NotFound` where there is no row.
    pub fn get_one_reply(rows: &Vec<Vec<SqlValue>>) -> (r: Result<
        Response<GutpExtobj>,
        HandlerError,
    >)
        ensures
            response_result(r) == spec_found(EntityKind::Extobj, rows.deep_view()),
    {
        found::<GutpExtobj>(rows)
    }

    /// Lists the extension objects, newest first, a page at a time: the statement
    /// to run.
    pub fn get_list(req: &Request) -> (r: Result<Statement, HandlerError>)
        ensures
            statement_result(r) == spec_get_list(EntityKind::Extobj, req.params@),
    {
        get_list::<GutpExtobj>(req)
    }

    /// The response to a listing, filtered or not, from the rows that came
    /// back: all of them, in their order.
    pub fn get_list_reply(rows: &Vec<Vec<SqlValue>>) -> (r: Result<
        Response<GutpExtobj>,
        HandlerError,
    >)
        ensures
            response_result(r) == spec_listed(
                EntityKind::Extobj,
                HandlerCRUD::List,
                rows.deep_view(),
            ),
    {
        listed::<GutpExtobj>(HandlerCRUD::List, rows)
    }

    /// Creates an extension object from the bound parameters, of which the required
    /// ones must be there, with the identity and the creation time of the
    /// request's context: the insert to run and the response that follows it.
    pub fn new_one(req: &Request) -> (r: Result<Write<GutpExtobj>, HandlerError>)
        ensures
            write_result(r) == spec_create(
                EntityKind::Extobj,
                Self::spec_bindings(),
                req.params@,
                req.ext@,
            ),
    {
        let b = Self::bindings();
        create::<GutpExtobj>(req, &b)
    }

    /// Updates the extension object with the identity under `id`: the statement that
    /// fetches the stored row. The bound parameters are read first.
    pub fn update(req: &Request) -> (r: Result<Statement, HandlerError>)
        ensures
            statement_result(r) == spec_update_lookup(
                EntityKind::Extobj,
                Self::spec_bindings(),
                req.params@,
            ),
    {
        let b = Self::bindings();
        update_lookup::<GutpExtobj>(req, &b)
    }

    /// The second half of `update`, from the rows that the lookup gave: the
    /// bound parameters that the request carries replace their fields of the
    /// stored row, every other field stays. Gives the update to run and the
    /// response that follows it, or `NotFound` where there is no row.
    pub fn update_reply(req: &Request, rows: &Vec<Vec<SqlValue>>) -> (r: Result<
        Write<GutpExtobj>,
        HandlerError,
    >)
        ensures
            write_result(r) == spec_update_merge(
                EntityKind::Extobj,
                Self::spec_bindings(),
                req.params@,
                rows.deep_view(),
            ),
    {
        let b = Self::bindings();
        update_merge::<GutpExtobj>(req, &b, rows)
    }

    /// Deletes the extension object with the identity under `id`, whether it is stored
    /// or not: the delete to run and the response that follows it.
    pub fn delete(req: &Request) -> (r: Result<Write<GutpExtobj>, HandlerError>)
        ensures
            write_result(r) == spec_remove(EntityKind::Extobj, req.params@),
    {
        remove::<GutpExtobj>(req)
    }

    /// Registers the routes of the module.
    pub fn router(&self, router: &mut Router)
        ensures
            final(router)@ == old(router)@ + Self::spec_routes(),
    {
        router.get("/v1/extobj", EntityKind::Extobj, Action::GetOne);
        router.get("/v1/extobj/list", EntityKind::Extobj, Action::GetList);
        router.post("/v1/extobj/create", EntityKind::Extobj, Action::Create);
        router.post("/v1/extobj/update", EntityKind::Extobj, Action::Update);
        router.post("/v1/extobj/delete", EntityKind::Extobj, Action::Delete);
        assert(router@ =~= old(router)@ + Self::spec_routes());
    }
}

} // verus!
