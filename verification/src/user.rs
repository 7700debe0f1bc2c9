//! The user module: the handlers of the users and their routes.
//! Each handler says which statement the storage has to run; where rows
//! come back, its `_reply` twin turns them into the response.

use vstd::prelude::*;
use crate::crud::{
    create, found, get_list_by, get_one, listed, push_binding, remove, spec_create, spec_found,
    spec_get_list_by, spec_get_one, spec_listed, spec_remove, spec_update_lookup,
    spec_update_merge, update_lookup, update_merge, valid_bindings, Binding,
};
use crate::entity::GutpUser;
use crate::model::{spec_fields, EntityKind};
use crate::request::{HandlerError, Request};
use crate::response::{
    response_result, statement_result, write_result, HandlerCRUD, Response, Write,
};
use crate::router::{spec_get, spec_post, Action, Filter, RouteView, Router};
use crate::sql::Statement;
use crate::value::SqlValue;

verus! {

/// The position of `account` among the fields.
pub const ACCOUNT: usize = 1;

/// The position of `oauth_source` among the fields.
pub const OAUTH_SOURCE: usize = 2;

/// The position of `nickname` among the fields.
pub const NICKNAME: usize = 3;

/// The position of `avatar` among the fields.
pub const AVATAR: usize = 4;

/// The module of the users.
#[derive(Clone, Copy, Debug, Default, PartialEq, Eq)]
pub struct GutpUserModule;

impl GutpUserModule {
    /// The parameters that a request may set, each with the position of
    /// its field and whether a create cannot do without it, in the order in
    /// which they are read.
    pub open spec fn spec_bindings() -> Seq<(Seq<char>, int, bool)> {
        seq![
            ("account"@, ACCOUNT as int, true),
            ("oauth_source"@, OAUTH_SOURCE as int, true),
            ("nickname"@, NICKNAME as int, true),
            ("avatar"@, AVATAR as int, true),
        ]
    }

    /// The routes of the module, in the order of registration.
    pub open spec fn spec_routes() -> Seq<RouteView> {
        seq![
            spec_get("/v1/user"@, EntityKind::User, Action::GetOne),
            spec_get(
                "/v1/user/get_by_account"@,
                EntityKind::User,
                Action::ListBy(Filter::Account),
            ),
            spec_post("/v1/user/create"@, EntityKind::User, Action::Create),
            spec_post("/v1/user/update"@, EntityKind::User, Action::Update),
            spec_post("/v1/user/delete"@, EntityKind::User, Action::Delete),
        ]
    }

    /// Each position above is that of the field it is named after.
    pub proof fn lemma_positions()
        ensures
            spec_fields(EntityKind::User)[ACCOUNT as int].0 == "account"@,
            spec_fields(EntityKind::User)[OAUTH_SOURCE as int].0 == "oauth_source"@,
            spec_fields(EntityKind::User)[NICKNAME as int].0 == "nickname"@,
            spec_fields(EntityKind::User)[AVATAR as int].0 == "avatar"@,
    {
    }

    /// The parameters that a request may set, each with the position of
    /// its field.
    pub fn bindings() -> (b: Vec<Binding>)
        ensures
            b.deep_view() == Self::spec_bindings(),
            valid_bindings(EntityKind::User, b.deep_view()),
    {
        let mut b: Vec<Binding> = Vec::new();
        assert(b.deep_view() =~= Seq::empty());
        push_binding(&mut b, "account", ACCOUNT, true);
        push_binding(&mut b, "oauth_source", OAUTH_SOURCE, true);
        push_binding(&mut b, "nickname", NICKNAME, true);
        push_binding(&mut b, "avatar", AVATAR, true);
        b
    }

    /// Reads one user by the parameter `id`: the statement to run.
    pub fn get_one(req: &Request) -> (r: Result<Statement, HandlerError>)
        ensures
            statement_result(r) == spec_get_one(EntityKind::User, req.params@),
    {
        get_one::<GutpUser>(req)
    }

    /// The response to `get_one` from the rows that came back: the user,
    /// or `NotFound` where there is no row.
    pub fn get_one_reply(rows: &Vec<Vec<SqlValue>>) -> (r: Result<
        Response<GutpUser>,
        HandlerError,
    >)
        ensures
            response_result(r) == spec_found(EntityKind::User, rows.deep_view()),
    {
        found::<GutpUser>(rows)
    }

    /// Reads the users of one account, newest first, a page at a time: the
    /// statement to run. The account comes from the parameter `account`.
    pub fn get_by_account(req: &Request) -> (r: Result<Statement, HandlerError>)
        ensures
            statement_result(r) == spec_get_list_by(
                EntityKind::User,
                "account"@,
                ACCOUNT,
                req.params@,
            ),
    {
        get_list_by::<GutpUser>(req, "account", ACCOUNT)
    }

    /// The response to `get_by_account` from the rows that came back: all
    /// of them, under the operation `GetOne`.
    pub fn get_by_account_reply(rows: &Vec<Vec<SqlValue>>) -> (r: Result<
        Response<GutpUser>,
        HandlerError,
    >)
        ensures
            response_result(r) == spec_listed(
                EntityKind::User,
                HandlerCRUD::GetOne,
                rows.deep_view(),
            ),
    {
        listed::<GutpUser>(HandlerCRUD::GetOne, rows)
    }

    /// Creates a user from the bound parameters, of which the required
    /// ones must be there, with the identity and the creation time of the
    /// request's context: the insert to run and the response that follows it.
    pub fn new_user(req: &Request) -> (r: Result<Write<GutpUser>, HandlerError>)
        ensures
            write_result(r) == spec_create(
                EntityKind::User,
                Self::spec_bindings(),
                req.params@,
                req.ext@,
            ),
    {
        let b = Self::bindings();
        create::<GutpUser>(req, &b)
    }

    /// Updates the user with the identity under `id`: the statement that
    /// fetches the stored row. The bound parameters are read first.
    pub fn update(req: &Request) -> (r: Result<Statement, HandlerError>)
        ensures
            statement_result(r) == spec_update_lookup(
                EntityKind::User,
                Self::spec_bindings(),
                req.params@,
            ),
    {
        let b = Self::bindings();
        update_lookup::<GutpUser>(req, &b)
    }

    /// The second half of `update`, from the rows that the lookup gave: the
    /// bound parameters that the request carries replace their fields of the
    /// stored row, every other field stays. Gives the update to run and the
    /// response that follows it, or `NotFound` where there is no row.
    pub fn update_reply(req: &Request, rows: &Vec<Vec<SqlValue>>) -> (r: Result<
        Write<GutpUser>,
        HandlerError,
    >)
        ensures
            write_result(r) == spec_update_merge(
                EntityKind::User,
                Self::spec_bindings(),
                req.params@,
                rows.deep_view(),
            ),
    {
        let b = Self::bindings();
        update_merge::<GutpUser>(req, &b, rows)
    }

    /// Deletes the user with the identity under `id`, whether it is stored
    /// or not: the delete to run and the response that follows it.
    pub fn delete(req: &Request) -> (r: Result<Write<GutpUser>, HandlerError>)
        ensures
            write_result(r) == spec_remove(EntityKind::User, req.params@),
    {
        remove::<GutpUser>(req)
    }

    /// Registers the routes of the module.
    pub fn router(&self, router: &mut Router)
        ensures
            final(router)@ == old(router)@ + Self::spec_routes(),
    {
        router.get("/v1/user", EntityKind::User, Action::GetOne);
        router.get("/v1/user/get_by_account", EntityKind::User, Action::ListBy(Filter::Account));
        router.post("/v1/user/create", EntityKind::User, Action::Create);
        router.post("/v1/user/update", EntityKind::User, Action::Update);
        router.post("/v1/user/delete", EntityKind::User, Action::Delete);
        assert(router@ =~= old(router)@ + Self::spec_routes());
    }
}

} // verus!
