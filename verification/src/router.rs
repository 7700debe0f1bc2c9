//! The route table: which handler answers which verb and path. Matching is
//! exact on both; there are no patterns and no prefixes.

use vstd::prelude::*;
use vstd::string::*;
use crate::model::EntityKind;
use crate::request::Method;
use crate::text::str_eq;

verus! {

/// The field that a filtered listing compares.
#[derive(Clone, Copy, Debug, PartialEq, Eq)]
pub enum Filter {
    Account,
    Owner,
    Profession,
    AppId,
    Post,
    Author,
    Creator,
    Subspace,
    User,
    Tag,
}

/// The handler of a module that a route leads to.
#[derive(Clone, Copy, Debug, PartialEq, Eq)]
pub enum Action {
    GetOne,
    GetList,
    ListBy(Filter),
    Create,
    Update,
    Delete,
}

/// One binding of a verb and a path to a handler.
#[derive(Clone, Debug, PartialEq, Eq)]
pub struct Route {
    pub method: Method,
    pub path: String,
    pub kind: EntityKind,
    pub action: Action,
}

/// The mathematical content of a [`Route`].
pub struct RouteView {
    pub method: Method,
    pub path: Seq<char>,
    pub kind: EntityKind,
    pub action: Action,
}

impl DeepView for Route {
    type V = RouteView;

    open spec fn deep_view(&self) -> RouteView {
        RouteView { method: self.method, path: self.path@, kind: self.kind, action: self.action }
    }
}

/// The routes that the modules registered, in the order of registration.
#[derive(Clone, Debug, PartialEq, Eq)]
pub struct Router {
    pub routes: Vec<Route>,
}

impl View for Router {
    type V = Seq<RouteView>;

    open spec fn view(&self) -> Seq<RouteView> {
        self.routes.deep_view()
    }
}

/// A route for `GET`.
pub open spec fn spec_get(path: Seq<char>, kind: EntityKind, action: Action) -> RouteView {
    RouteView { method: Method::Get, path, kind, action }
}

/// A route for `POST`.
pub open spec fn spec_post(path: Seq<char>, kind: EntityKind, action: Action) -> RouteView {
    RouteView { method: Method::Post, path, kind, action }
}

/// The handler that a table gives to a verb and a path: that of the first
/// route with exactly this verb and this path, if there is one.
pub open spec fn spec_resolve(routes: Seq<RouteView>, method: Method, path: Seq<char>) -> Option<
    (EntityKind, Action),
>
    decreases routes.len(),
{
    if routes.len() == 0 {
        None
    } else if routes[0].method == method && routes[0].path == path {
        Some((routes[0].kind, routes[0].action))
    } else {
        spec_resolve(routes.drop_first(), method, path)
    }
}

fn same_method(a: Method, b: Method) -> (r: bool)
    ensures
        r == (a == b),
{
    match (a, b) {
        (Method::Get, Method::Get) => true,
        (Method::Post, Method::Post) => true,
        _ => false,
    }
}

impl Router {
    /// A table without routes.
    pub fn new() -> (r: Router)
        ensures
            r@ == Seq::<RouteView>::empty(),
    {
        let r = Router { routes: Vec::new() };
        assert(r@ =~= Seq::empty());
        r
    }

    /// Registers a handler for `GET` on a path.
    pub fn get(&mut self, path: &str, kind: EntityKind, action: Action)
        ensures
            final(self)@ == old(self)@.push(spec_get(path@, kind, action)),
    {
        self.routes.push(Route { method: Method::Get, path: String::from_str(path), kind, action });
        assert(self@ =~= old(self)@.push(spec_get(path@, kind, action)));
    }

    /// Registers a handler for `POST` on a path.
    pub fn post(&mut self, path: &str, kind: EntityKind, action: Action)
        ensures
            final(self)@ == old(self)@.push(spec_post(path@, kind, action)),
    {
        self.routes.push(
            Route { method: Method::Post, path: String::from_str(path), kind, action },
        );
        assert(self@ =~= old(self)@.push(spec_post(path@, kind, action)));
    }

    /// Finds the handler of a verb and a path.
    pub fn resolve(&self, method: Method, path: &str) -> (r: Option<(EntityKind, Action)>)
        ensures
            r == spec_resolve(self@, method, path@),
    {
        let mut i: usize = 0;
        assert(self@.subrange(0, self@.len() as int) =~= self@);
        while i < self.routes.len()
            invariant
                i <= self.routes.len(),
                self@.len() == self.routes.len(),
                spec_resolve(self@, method, path@) == spec_resolve(
                    self@.subrange(i as int, self@.len() as int),
                    method,
                    path@,
                ),
            decreases self.routes.len() - i,
        {
            let ghost rest = self@.subrange(i as int, self@.len() as int);
            assert(rest[0] == self@[i as int]);
            assert(rest.drop_first() =~= self@.subrange(i + 1, self@.len() as int));
            let route = &self.routes[i];
            if same_method(route.method, method) && str_eq(route.path.as_str(), path) {
                return Some((route.kind, route.action));
            }
            i = i + 1;
        }
        assert(self@.subrange(i as int, self@.len() as int).len() == 0);
        None
    }
}

} // verus!
