//! The subspace module: the handlers of the subspaces and their routes.
//! Each handler says which statement the storage has to run; where rows
//! come back, its `_reply` twin turns them into the response.

use vstd::prelude::*;
use crate::crud::{
    create, found, get_list, get_list_by, get_one, listed, push_binding, remove, spec_create,
    spec_found, spec_get_list, spec_get_list_by, spec_get_one, spec_listed, spec_remove,
    spec_update_lookup, spec_update_merge, update_lookup, update_merge, valid_bindings, Binding,
};
use crate::entity::GutpSubspace;
use crate::model::{spec_fields, EntityKind};
use crate::request::{HandlerError, Request};
use crate::response::{
    response_result, statement_result, write_result, HandlerCRUD, Response, Write,
};
use crate::router::{spec_get, spec_post, Action, Filter, RouteView, Router};
use crate::sql::Statement;
use crate::value::SqlValue;

verus! {

/// The position of `title` among the fields.
pub const TITLE: usize = 2;

/// The position of `description` among the fields.
pub const DESCRIPTION: usize = 3;

/// The position of `banner` among the fields.
pub const BANNER: usize = 4;

/// The position of `is_public` among the fields.
pub const IS_PUBLIC: usize = 5;

/// The position of `owner_id` among the fields.
pub const OWNER_ID: usize = 8;

/// The position of `category` among the fields.
pub const CATEGORY: usize = 9;

/// The position of `app_id` among the fields.
pub const APP_ID: usize = 10;

/// The module of the subspaces.
#[derive(Clone, Copy, Debug, Default, PartialEq, Eq)]
pub struct GutpSubspaceModule;

impl GutpSubspaceModule {
    /// The parameters that a request may set, each with the position of
    /// its field and whether a create cannot do without it, in the order in
    /// which they are read.
    pub open spec fn spec_bindings() -> Seq<(Seq<char>, int, bool)> {
        seq![
            ("title"@, TITLE as int, true),
            ("description"@, DESCRIPTION as int, false),
            ("banner"@, BANNER as int, false),
            ("owner_id"@, OWNER_ID as int, true),
            ("profession"@, CATEGORY as int, false),
            ("appid"@, APP_ID as int, false),
            ("is_public"@, IS_PUBLIC as int, true),
        ]
    }

    /// The routes of the module, in the order of registration.
    pub open spec fn spec_routes() -> Seq<RouteView> {
        seq![
            spec_get("/v1/subspace"@, EntityKind::Subspace, Action::GetOne),
            spec_get("/v1/subspace/list"@, EntityKind::Subspace, Action::GetList),
            spec_get(
                "/v1/subspace/list_by_owner"@,
                EntityKind::Subspace,
                Action::ListBy(Filter::Owner),
            ),
            spec_get(
                "/v1/subspace/list_by_profession"@,
                EntityKind::Subspace,
                Action::ListBy(Filter::Profession),
            ),
            spec_get(
                "/v1/subspace/list_by_appid"@,
                EntityKind::Subspace,
                Action::ListBy(Filter::AppId),
            ),
            spec_post("/v1/subspace/create"@, EntityKind::Subspace, Action::Create),
            spec_post("/v1/subspace/update"@, EntityKind::Subspace, Action::Update),
            spec_post("/v1/subspace/delete"@, EntityKind::Subspace, Action::Delete),
        ]
    }

    /// Each position above is that of the field it is named after.
    pub proof fn lemma_positions()
        ensures
            spec_fields(EntityKind::Subspace)[TITLE as int].0 == "title"@,
            spec_fields(EntityKind::Subspace)[DESCRIPTION as int].0 == "description"@,
            spec_fields(EntityKind::Subspace)[BANNER as int].0 == "banner"@,
            spec_fields(EntityKind::Subspace)[IS_PUBLIC as int].0 == "is_public"@,
            spec_fields(EntityKind::Subspace)[OWNER_ID as int].0 == "owner_id"@,
            spec_fields(EntityKind::Subspace)[CATEGORY as int].0 == "category"@,
            spec_fields(EntityKind::Subspace)[APP_ID as int].0 == "app_id"@,
    {
    }

    /// The parameters that a request may set, each with the position of
    /// its field.
    pub fn bindings() -> (b: Vec<Binding>)
        ensures
            b.deep_view() == Self::spec_bindings(),
            valid_bindings(EntityKind::Subspace, b.deep_view()),
    {
        let mut b: Vec<Binding> = Vec::new();
        assert(b.deep_view() =~= Seq::empty());
        push_binding(&mut b, "title", TITLE, true);
        push_binding(&mut b, "description", DESCRIPTION, false);
        push_binding(&mut b, "banner", BANNER, false);
        push_binding(&mut b, "owner_id", OWNER_ID, true);
        push_binding(&mut b, "profession", CATEGORY, false);
        push_binding(&mut b, "appid", APP_ID, false);
        push_binding(&mut b, "is_public", IS_PUBLIC, true);
        b
    }

    /// Reads one subspace by the parameter `id`: the statement to run.
    pub fn get_one(req: &Request) -> (r: Result<Statement, HandlerError>)
        ensures
            statement_result(r) == spec_get_one(EntityKind::Subspace, req.params@),
    {
        get_one::<GutpSubspace>(req)
    }

    /// The response to `get_one` from the rows that came back: the subspace,
    /// or `NotFound` where there is no row.
    pub fn get_one_reply(rows: &Vec<Vec<SqlValue>>) -> (r: Result<
        Response<GutpSubspace>,
        HandlerError,
    >)
        ensures
            response_result(r) == spec_found(EntityKind::Subspace, rows.deep_view()),
    {
        found::<GutpSubspace>(rows)
    }

    /// Lists the subspaces, newest first, a page at a time: the statement
    /// to run.
    pub fn get_list(req: &Request) -> (r: Result<Statement, HandlerError>)
        ensures
            statement_result(r) == spec_get_list(EntityKind::Subspace, req.params@),
    {
        get_list::<GutpSubspace>(req)
    }

    /// The response to a listing, filtered or not, from the rows that came
    /// back: all of them, in their order.
    pub fn get_list_reply(rows: &Vec<Vec<SqlValue>>) -> (r: Result<
        Response<GutpSubspace>,
        HandlerError,
    >)
        ensures
            response_result(r) == spec_listed(
                EntityKind::Subspace,
                HandlerCRUD::List,
                rows.deep_view(),
            ),
    {
        listed::<GutpSubspace>(HandlerCRUD::List, rows)
    }

    /// Lists the subspaces of one owner,
    /// newest first, a page at a time: the statement to run. The value to
    /// compare with comes from the parameter `owner_id`.
    pub fn list_by_owner(req: &Request) -> (r: Result<Statement, HandlerError>)
        ensures
            statement_result(r) == spec_get_list_by(
                EntityKind::Subspace,
                "owner_id"@,
                OWNER_ID,
                req.params@,
            ),
    {
        get_list_by::<GutpSubspace>(req, "owner_id", OWNER_ID)
    }

    /// Lists the subspaces of one profession, which the model keeps as the category,
    /// newest first, a page at a time: the statement to run. The value to
    /// compare with comes from the parameter `profession`.
    pub fn list_by_profession(req: &Request) -> (r: Result<Statement, HandlerError>)
        ensures
            statement_result(r) == spec_get_list_by(
                EntityKind::Subspace,
                "profession"@,
                CATEGORY,
                req.params@,
            ),
    {
        get_list_by::<GutpSubspace>(req, "profession", CATEGORY)
    }

    /// Lists the subspaces of one application, which the model keeps as `app_id`,
    /// newest first, a page at a time: the statement to run. The value to
    /// compare with comes from the parameter `appid`.
    pub fn list_by_appid(req: &Request) -> (r: Result<Statement, HandlerError>)
        ensures
            statement_result(r) == spec_get_list_by(
                EntityKind::Subspace,
                "appid"@,
                APP_ID,
                req.params@,
            ),
    {
        get_list_by::<GutpSubspace>(req, "appid", APP_ID)
    }

    /// Creates a subspace from the bound parameters, of which the required
    /// ones must be there, with the identity and the creation time of the
    /// request's context: the insert to run and the response that follows it.
    pub fn new_one(req: &Request) -> (r: Result<Write<GutpSubspace>, HandlerError>)
        ensures
            write_result(r) == spec_create(
                EntityKind::Subspace,
                Self::spec_bindings(),
                req.params@,
                req.ext@,
            ),
    {
        let b = Self::bindings();
        create::<GutpSubspace>(req, &b)
    }

    /// Updates the subspace with the identity under `id`: the statement that
    /// fetches the stored row. The bound parameters are read first.
    pub fn update(req: &Request) -> (r: Result<Statement, HandlerError>)
        ensures
            statement_result(r) == spec_update_lookup(
                EntityKind::Subspace,
                Self::spec_bindings(),
                req.params@,
            ),
    {
        let b = Self::bindings();
        update_lookup::<GutpSubspace>(req, &b)
    }

    /// The second half of `update`, from the rows that the lookup gave: the
    /// bound parameters that the request carries replace their fields of the
    /// stored row, every other field stays. Gives the update to run and the
    /// response that follows it, or `NotFound` where there is no row.
    pub fn update_reply(req: &Request, rows: &Vec<Vec<SqlValue>>) -> (r: Result<
        Write<GutpSubspace>,
        HandlerError,
    >)
        ensures
            write_result(r) == spec_update_merge(
                EntityKind::Subspace,
                Self::spec_bindings(),
                req.params@,
                rows.deep_view(),
            ),
    {
        let b = Self::bindings();
        update_merge::<GutpSubspace>(req, &b, rows)
    }

    /// Deletes the subspace with the identity under `id`, whether it is stored
    /// or not: the delete to run and the response that follows it.
    pub fn delete(req: &Request) -> (r: Result<Write<GutpSubspace>, HandlerError>)
        ensures
            write_result(r) == spec_remove(EntityKind::Subspace, req.params@),
    {
        remove::<GutpSubspace>(req)
    }

    /// Registers the routes of the module.
    pub fn router(&self, router: &mut Router)
        ensures
            final(router)@ == old(router)@ + Self::spec_routes(),
    {
        router.get("/v1/subspace", EntityKind::Subspace, Action::GetOne);
        router.get("/v1/subspace/list", EntityKind::Subspace, Action::GetList);
        router.get(
            "/v1/subspace/list_by_owner",
            EntityKind::Subspace,
            Action::ListBy(Filter::Owner),
        );
        router.get(
            "/v1/subspace/list_by_profession",
            EntityKind::Subspace,
            Action::ListBy(Filter::Profession),
        );
        router.get(
            "/v1/subspace/list_by_appid",
            EntityKind::Subspace,
            Action::ListBy(Filter::AppId),
        );
        router.post("/v1/subspace/create", EntityKind::Subspace, Action::Create);
        router.post("/v1/subspace/update", EntityKind::Subspace, Action::Update);
        router.post("/v1/subspace/delete", EntityKind::Subspace, Action::Delete);
        assert(router@ =~= old(router)@ + Self::spec_routes());
    }
}

} // verus!
