//! The tag module: the handlers of the tags and their routes.
//! Each handler says which statement the storage has to run; where rows
//! come back, its `_reply` twin turns them into the response.

use vstd::prelude::*;
use crate::crud::{
    create, found, get_list, get_list_by, get_one, listed, push_binding, remove, spec_create,
    spec_found, spec_get_list, spec_get_list_by, spec_get_one, spec_listed, spec_remove,
    spec_update_lookup, spec_update_merge, update_lookup, update_merge, valid_bindings, Binding,
};
use crate::entity::GutpTag;
use crate::model::{spec_fields, EntityKind};
use crate::request::{HandlerError, Request};
use crate::response::{
    response_result, statement_result, write_result, HandlerCRUD, Response, Write,
};
use crate::router::{spec_get, spec_post, Action, Filter, RouteView, Router};
use crate::sql::Statement;
use crate::value::SqlValue;

verus! {

/// The position of `caption` among the fields.
pub const CAPTION: usize = 1;

/// The position of `subspace_id` among the fields.
pub const SUBSPACE_ID: usize = 2;

/// The position of `creator_id` among the fields.
pub const CREATOR_ID: usize = 3;

/// The position of `is_public` among the fields.
pub const IS_PUBLIC: usize = 4;

/// The module of the tags.
#[derive(Clone, Copy, Debug, Default, PartialEq, Eq)]
pub struct GutpTagModule;

impl GutpTagModule {
    /// The parameters that a request may set, each with the position of
    /// its field and whether a create cannot do without it, in the order in
    /// which they are read.
    pub open spec fn spec_bindings() -> Seq<(Seq<char>, int, bool)> {
        seq![
            ("caption"@, CAPTION as int, true),
            ("subspace_id"@, SUBSPACE_ID as int, true),
            ("creator_id"@, CREATOR_ID as int, true),
            ("is_public"@, IS_PUBLIC as int, true),
        ]
    }

    /// The routes of the module, in the order of registration.
    pub open spec fn spec_routes() -> Seq<RouteView> {
        seq![
            spec_get("/v1/tag"@, EntityKind::Tag, Action::GetOne),
            spec_get("/v1/tag/list"@, EntityKind::Tag, Action::GetList),
            spec_get(
                "/v1/tag/list_by_subspace"@,
                EntityKind::Tag,
                Action::ListBy(Filter::Subspace),
            ),
            spec_get("/v1/tag/list_by_creator"@, EntityKind::Tag, Action::ListBy(Filter::Creator)),
            spec_post("/v1/tag/create"@, EntityKind::Tag, Action::Create),
            spec_post("/v1/tag/update"@, EntityKind::Tag, Action::Update),
            spec_post("/v1/tag/delete"@, EntityKind::Tag, Action::Delete),
        ]
    }

    /// Each position above is that of the field it is named after.
    pub proof fn lemma_positions()
        ensures
            spec_fields(EntityKind::Tag)[CAPTION as int].0 == "caption"@,
            spec_fields(EntityKind::Tag)[SUBSPACE_ID as int].0 == "subspace_id"@,
            spec_fields(EntityKind::Tag)[CREATOR_ID as int].0 == "creator_id"@,
            spec_fields(EntityKind::Tag)[IS_PUBLIC as int].0 == "is_public"@,
    {
    }

    /// The parameters that a request may set, each with the position of
    /// its field.
    pub fn bindings() -> (b: Vec<Binding>)
        ensures
            b.deep_view() == Self::spec_bindings(),
            valid_bindings(EntityKind::Tag, b.deep_view()),
    {
        let mut b: Vec<Binding> = Vec::new();
        assert(b.deep_view() =~= Seq::empty());
        push_binding(&mut b, "caption", CAPTION, true);
        push_binding(&mut b, "subspace_id", SUBSPACE_ID, true);
        push_binding(&mut b, "creator_id", CREATOR_ID, true);
        push_binding(&mut b, "is_public", IS_PUBLIC, true);
        b
    }

    /// Reads one tag by the parameter `id`: the statement to run.
    pub fn get_one(req: &Request) -> (r: Result<Statement, HandlerError>)
        ensures
            statement_result(r) == spec_get_one(EntityKind::Tag, req.params@),
    {
        get_one::<GutpTag>(req)
    }

    /// The response to `get_one` from the rows that came back: the tag,
    /// or `NotFound` where there is no row.
    pub fn get_one_reply(rows: &Vec<Vec<SqlValue>>) -> (r: Result<
        Response<GutpTag>,
        HandlerError,
    >)
        ensures
            response_result(r) == spec_found(EntityKind::Tag, rows.deep_view()),
    {
        found::<GutpTag>(rows)
    }

    /// Lists the tags, newest first, a page at a time: the statement
    /// to run.
    pub fn get_list(req: &Request) -> (r: Result<Statement, HandlerError>)
        ensures
            statement_result(r) == spec_get_list(EntityKind::Tag, req.params@),
    {
        get_list::<GutpTag>(req)
    }

    /// The response to a listing, filtered or not, from the rows that came
    /// back: all of them, in their order.
    pub fn get_list_reply(rows: &Vec<Vec<SqlValue>>) -> (r: Result<
        Response<GutpTag>,
        HandlerError,
    >)
        ensures
            response_result(r) == spec_listed(
                EntityKind::Tag,
                HandlerCRUD::List,
                rows.deep_view(),
            ),
    {
        listed::<GutpTag>(HandlerCRUD::List, rows)
    }

    /// Lists the tags of one subspace,
    /// newest first, a page at a time: the statement to run. The value to
    /// compare with comes from the parameter `subspace_id`.
    pub fn list_by_subspace(req: &Request) -> (r: Result<Statement, HandlerError>)
        ensures
            statement_result(r) == spec_get_list_by(
                EntityKind::Tag,
                "subspace_id"@,
                SUBSPACE_ID,
                req.params@,
            ),
    {
        get_list_by::<GutpTag>(req, "subspace_id", SUBSPACE_ID)
    }

    /// Lists the tags of one creator,
    /// newest first, a page at a time: the statement to run. The value to
    /// compare with comes from the parameter `creator_id`.
    pub fn list_by_creator(req: &Request) -> (r: Result<Statement, HandlerError>)
        ensures
            statement_result(r) == spec_get_list_by(
                EntityKind::Tag,
                "creator_id"@,
                CREATOR_ID,
                req.params@,
            ),
    {
        get_list_by::<GutpTag>(req, "creator_id", CREATOR_ID)
    }

    /// Creates a tag from the bound parameters, of which the required
    /// ones must be there, with the identity and the creation time of the
    /// request's context: the insert to run and the response that follows it.
    pub fn new_one(req: &Request) -> (r: Result<Write<GutpTag>, HandlerError>)
        ensures
            write_result(r) == spec_create(
                EntityKind::Tag,
                Self::spec_bindings(),
                req.params@,
                req.ext@,
            ),
    {
        let b = Self::bindings();
        create::<GutpTag>(req, &b)
    }

    /// Updates the tag with the identity under `id`: the statement that
    /// fetches the stored row. The bound parameters are read first.
    pub fn update(req: &Request) -> (r: Result<Statement, HandlerError>)
        ensures
            statement_result(r) == spec_update_lookup(
                EntityKind::Tag,
                Self::spec_bindings(),
                req.params@,
            ),
    {
        let b = Self::bindings();
        update_lookup::<GutpTag>(req, &b)
    }

    /// The second half of `update`, from the rows that the lookup gave: the
    /// bound parameters that the request carries replace their fields of the
    /// stored row, every other field stays. Gives the update to run and the
    /// response that follows it, or `NotFound` where there is no row.
    pub fn update_reply(req: &Request, rows: &Vec<Vec<SqlValue>>) -> (r: Result<
        Write<GutpTag>,
        HandlerError,
    >)
        ensures
            write_result(r) == spec_update_merge(
                EntityKind::Tag,
                Self::spec_bindings(),
                req.params@,
                rows.deep_view(),
            ),
    {
        let b = Self::bindings();
        update_merge::<GutpTag>(req, &b, rows)
    }

    /// Deletes the tag with the identity under `id`, whether it is stored
    /// or not: the delete to run and the response that follows it.
    pub fn delete(req: &Request) -> (r: Result<Write<GutpTag>, HandlerError>)
        ensures
            write_result(r) == spec_remove(EntityKind::Tag, req.params@),
    {
        remove::<GutpTag>(req)
    }

    /// Registers the routes of the module.
    pub fn router(&self, router: &mut Router)
        ensures
            final(router)@ == old(router)@ + Self::spec_routes(),
    {
        router.get("/v1/tag", EntityKind::Tag, Action::GetOne);
        router.get("/v1/tag/list", EntityKind::Tag, Action::GetList);
        router.get("/v1/tag/list_by_subspace", EntityKind::Tag, Action::ListBy(Filter::Subspace));
        router.get("/v1/tag/list_by_creator", EntityKind::Tag, Action::ListBy(Filter::Creator));
        router.post("/v1/tag/create", EntityKind::Tag, Action::Create);
        router.post("/v1/tag/update", EntityKind::Tag, Action::Update);
        router.post("/v1/tag/delete", EntityKind::Tag, Action::Delete);
        assert(router@ =~= old(router)@ + Self::spec_routes());
    }
}

} // verus!
