//! Entity mapping and CRUD query building for the forum backend: typed
//! entities, parameterized SQL, row decoding, request handling and routing.

pub mod text;
pub mod value;
pub mod model;
pub mod request;
pub mod sql;
pub mod entity;
pub mod response;
pub mod crud;
pub mod router;
pub mod moderator;
pub mod user;
pub mod subspace;
pub mod comment;
pub mod tag;
pub mod postdiff;
pub mod posttag;
pub mod post;
pub mod extobj;
pub mod store;

use vstd::prelude::*;
use crate::comment::GutpCommentModule;
use crate::extobj::GutpExtobjModule;
use crate::moderator::GutpModeratorModule;
use crate::post::GutpPostModule;
use crate::postdiff::GutpPostDiffModule;
use crate::posttag::GutpPostTagModule;
use crate::router::{RouteView, Router};
use crate::subspace::GutpSubspaceModule;
use crate::tag::GutpTagModule;
use crate::user::GutpUserModule;

verus! {

/// The routes of all modules, in the order in which `build_app` registers
/// them.
pub open spec fn spec_app_routes() -> Seq<RouteView> {
    GutpSubspaceModule::spec_routes() + GutpCommentModule::spec_routes()
        + GutpPostModule::spec_routes() + GutpUserModule::spec_routes()
        + GutpTagModule::spec_routes() + GutpPostTagModule::spec_routes()
        + GutpPostDiffModule::spec_routes() + GutpModeratorModule::spec_routes()
        + GutpExtobjModule::spec_routes()
}

/// Builds the route table of the backend: the module of every entity kind
/// registers its routes, once. The table is made at start and only read
/// afterwards.
pub fn build_app() -> (router: Router)
    ensures
        router@ == spec_app_routes(),
{
    let mut router = Router::new();
    GutpSubspaceModule.router(&mut router);
    GutpCommentModule.router(&mut router);
    GutpPostModule.router(&mut router);
    GutpUserModule.router(&mut router);
    GutpTagModule.router(&mut router);
    GutpPostTagModule.router(&mut router);
    GutpPostDiffModule.router(&mut router);
    GutpModeratorModule.router(&mut router);
    GutpExtobjModule.router(&mut router);
    assert(router@ =~= spec_app_routes());
    router
}

} // verus!
