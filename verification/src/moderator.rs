//! The moderator module: the handlers of the moderators and their routes.
//! Each handler says which statement the storage has to run; where rows
//! come back, its `_reply` twin turns them into the response.

use vstd::prelude::*;
use crate::crud::{
    create, found, get_list, get_list_by, get_one, listed, push_binding, remove, spec_create,
    spec_found, spec_get_list, spec_get_list_by, spec_get_one, spec_listed, spec_remove,
    spec_update_lookup, spec_update_merge, update_lookup, update_merge, valid_bindings, Binding,
};
use crate::entity::GutpModerator;
use crate::model::{spec_fields, EntityKind};
use crate::request::{HandlerError, Request};
use crate::response::{
    response_result, statement_result, write_result, HandlerCRUD, Response, Write,
};
use crate::router::{spec_get, spec_post, Action, Filter, RouteView, Router};
use crate::sql::Statement;
use crate::value::SqlValue;

verus! {

/// The position of `user_id` among the fields.
pub const USER_ID: usize = 1;

/// The position of `subspace_id` among the fields.
pub const SUBSPACE_ID: usize = 2;

/// The position of `is_subspace_moderator` among the fields.
pub const IS_SUBSPACE_MODERATOR: usize = 3;

/// The position of `tag_id` among the fields.
pub const TAG_ID: usize = 4;

/// The position of `permission_level` among the fields.
pub const PERMISSION_LEVEL: usize = 5;

/// The module of the moderators.
#[derive(Clone, Copy, Debug, Default, PartialEq, Eq)]
pub struct GutpModeratorModule;

impl GutpModeratorModule {
    /// The parameters that a request may set, each with the position of
    /// its field and whether a create cannot do without it, in the order in
    /// which they are read.
    pub open spec fn spec_bindings() -> Seq<(Seq<char>, int, bool)> {
        seq![
            ("user_id"@, USER_ID as int, true),
            ("is_smoderator"@, IS_SUBSPACE_MODERATOR as int, true),
            ("subspace_id"@, SUBSPACE_ID as int, true),
            ("tag_id"@, TAG_ID as int, true),
            ("permission_level"@, PERMISSION_LEVEL as int, true),
        ]
    }

    /// The routes of the module, in the order of registration.
    pub open spec fn spec_routes() -> Seq<RouteView> {
        seq![
            spec_get("/gutp/v1/moderator"@, EntityKind::Moderator, Action::GetOne),
            spec_get("/gutp/v1/moderator/list"@, EntityKind::Moderator, Action::GetList),
            spec_get(
                "/gutp/v1/moderator/list_by_subspace"@,
                EntityKind::Moderator,
                Action::ListBy(Filter::Subspace),
            ),
            spec_get(
                "/gutp/v1/moderator/list_by_user"@,
                EntityKind::Moderator,
                Action::ListBy(Filter::User),
            ),
            spec_get(
                "/gutp/v1/moderator/list_by_tag"@,
                EntityKind::Moderator,
                Action::ListBy(Filter::Tag),
            ),
            spec_post("/gutp/v1/moderator/create"@, EntityKind::Moderator, Action::Create),
            spec_post("/gutp/v1/moderator/update"@, EntityKind::Moderator, Action::Update),
            spec_post("/gutp/v1/moderator/delete"@, EntityKind::Moderator, Action::Delete),
        ]
    }

    /// Each position above is that of the field it is named after.
    pub proof fn lemma_positions()
        ensures
            spec_fields(EntityKind::Moderator)[USER_ID as int].0 == "user_id"@,
            spec_fields(EntityKind::Moderator)[SUBSPACE_ID as int].0 == "subspace_id"@,
            spec_fields(EntityKind::Moderator)[IS_SUBSPACE_MODERATOR as int].0 == "is_subspace_moderator"@,
            spec_fields(EntityKind::Moderator)[TAG_ID as int].0 == "tag_id"@,
            spec_fields(EntityKind::Moderator)[PERMISSION_LEVEL as int].0 == "permission_level"@,
    {
    }

    /// The parameters that a request may set, each with the position of
    /// its field.
    pub fn bindings() -> (b: Vec<Binding>)
        ensures
            b.deep_view() == Self::spec_bindings(),
            valid_bindings(EntityKind::Moderator, b.deep_view()),
    {
        let mut b: Vec<Binding> = Vec::new();
        assert(b.deep_view() =~= Seq::empty());
        push_binding(&mut b, "user_id", USER_ID, true);
        push_binding(&mut b, "is_smoderator", IS_SUBSPACE_MODERATOR, true);
        push_binding(&mut b, "subspace_id", SUBSPACE_ID, true);
        push_binding(&mut b, "tag_id", TAG_ID, true);
        push_binding(&mut b, "permission_level", PERMISSION_LEVEL, true);
        b
    }

    /// Reads one moderator by the parameter `id`: the statement to run.
    pub fn get_one(req: &Request) -> (r: Result<Statement, HandlerError>)
        ensures
            statement_result(r) == spec_get_one(EntityKind::Moderator, req.params@),
    {
        get_one::<GutpModerator>(req)
    }

    /// The response to `get_one` from the rows that came back: the moderator,
    /// or `NotFound` where there is no row.
    pub fn get_one_reply(rows: &Vec<Vec<SqlValue>>) -> (r: Result<
        Response<GutpModerator>,
        HandlerError,
    >)
        ensures
            response_result(r) == spec_found(EntityKind::Moderator, rows.deep_view()),
    {
        found::<GutpModerator>(rows)
    }

    /// Lists the moderators, newest first, a page at a time: the statement
    /// to run.
    pub fn get_list(req: &Request) -> (r: Result<Statement, HandlerError>)
        ensures
            statement_result(r) == spec_get_list(EntityKind::Moderator, req.params@),
    {
        get_list::<GutpModerator>(req)
    }

    /// The response to a listing, filtered or not, from the rows that came
    /// back: all of them, in their order.
    pub fn get_list_reply(rows: &Vec<Vec<SqlValue>>) -> (r: Result<
        Response<GutpModerator>,
        HandlerError,
    >)
        ensures
            response_result(r) == spec_listed(
                EntityKind::Moderator,
                HandlerCRUD::List,
                rows.deep_view(),
            ),
    {
        listed::<GutpModerator>(HandlerCRUD::List, rows)
    }

    /// Lists the moderators of one subspace,
    /// newest first, a page at a time: the statement to run. The value to
    /// compare with comes from the parameter `subspace_id`.
    pub fn list_by_subspace(req: &Request) -> (r: Result<Statement, HandlerError>)
        ensures
            statement_result(r) == spec_get_list_by(
                EntityKind::Moderator,
                "subspace_id"@,
                SUBSPACE_ID,
                req.params@,
            ),
    {
        get_list_by::<GutpModerator>(req, "subspace_id", SUBSPACE_ID)
    }

    /// Lists the moderators of one user,
    /// newest first, a page at a time: the statement to run. The value to
    /// compare with comes from the parameter `user_id`.
    pub fn list_by_user(req: &Request) -> (r: Result<Statement, HandlerError>)
        ensures
            statement_result(r) == spec_get_list_by(
                EntityKind::Moderator,
                "user_id"@,
                USER_ID,
                req.params@,
            ),
    {
        get_list_by::<GutpModerator>(req, "user_id", USER_ID)
    }

    /// Lists the moderators of one tag,
    /// newest first, a page at a time: the statement to run. The value to
    /// compare with comes from the parameter `tag_id`.
    pub fn list_by_tag(req: &Request) -> (r: Result<Statement, HandlerError>)
        ensures
            statement_result(r) == spec_get_list_by(
                EntityKind::Moderator,
                "tag_id"@,
                TAG_ID,
                req.params@,
            ),
    {
        get_list_by::<GutpModerator>(req, "tag_id", TAG_ID)
    }

    /// Creates a moderator from the bound parameters, of which the required
    /// ones must be there, with the identity and the creation time of the
    /// request's context: the insert to run and the response that follows it.
    pub fn new_one(req: &Request) -> (r: Result<Write<GutpModerator>, HandlerError>)
        ensures
            write_result(r) == spec_create(
                EntityKind::Moderator,
                Self::spec_bindings(),
                req.params@,
                req.ext@,
            ),
    {
        let b = Self::bindings();
        create::<GutpModerator>(req, &b)
    }

    /// Updates the moderator with the identity under `id`: the statement that
    /// fetches the stored row. The bound parameters are read first.
    pub fn update(req: &Request) -> (r: Result<Statement, HandlerError>)
        ensures
            statement_result(r) == spec_update_lookup(
                EntityKind::Moderator,
                Self::spec_bindings(),
                req.params@,
            ),
    {
        let b = Self::bindings();
        update_lookup::<GutpModerator>(req, &b)
    }

    /// The second half of `update`, from the rows that the lookup gave: the
    /// bound parameters that the request carries replace their fields of the
    /// stored row, every other field stays. Gives the update to run and the
    /// response that follows it, or `NotFound` where there is no row.
    pub fn update_reply(req: &Request, rows: &Vec<Vec<SqlValue>>) -> (r: Result<
        Write<GutpModerator>,
        HandlerError,
    >)
        ensures
            write_result(r) == spec_update_merge(
                EntityKind::Moderator,
                Self::spec_bindings(),
                req.params@,
                rows.deep_view(),
            ),
    {
        let b = Self::bindings();
        update_merge::<GutpModerator>(req, &b, rows)
    }

    /// Deletes the moderator with the identity under `id`, whether it is stored
    /// or not: the delete to run and the response that follows it.
    pub fn delete(req: &Request) -> (r: Result<Write<GutpModerator>, HandlerError>)
        ensures
            write_result(r) == spec_remove(EntityKind::Moderator, req.params@),
    {
        remove::<GutpModerator>(req)
    }

    /// Registers the routes of the module.
    pub fn router(&self, router: &mut Router)
        ensures
            final(router)@ == old(router)@ + Self::spec_routes(),
    {
        router.get("/gutp/v1/moderator", EntityKind::Moderator, Action::GetOne);
        router.get("/gutp/v1/moderator/list", EntityKind::Moderator, Action::GetList);
        router.get(
            "/gutp/v1/moderator/list_by_subspace",
            EntityKind::Moderator,
            Action::ListBy(Filter::Subspace),
        );
        router.get(
            "/gutp/v1/moderator/list_by_user",
            EntityKind::Moderator,
            Action::ListBy(Filter::User),
        );
        router.get(
            "/gutp/v1/moderator/list_by_tag",
            EntityKind::Moderator,
            Action::ListBy(Filter::Tag),
        );
        router.post("/gutp/v1/moderator/create", EntityKind::Moderator, Action::Create);
        router.post("/gutp/v1/moderator/update", EntityKind::Moderator, Action::Update);
        router.post("/gutp/v1/moderator/delete", EntityKind::Moderator, Action::Delete);
        assert(router@ =~= old(router)@ + Self::spec_routes());
    }
}

} // verus!
