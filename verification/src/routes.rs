//! The route table: routes grouped under path prefixes, all under one API
//! prefix. The handler of a route is carried as is.

use vstd::prelude::*;

verus! {

/// The request methods a route can be registered for.
#[derive(Clone, Copy, Debug, PartialEq, Eq, Structural)]
pub enum RequestMethod {
    GET,
    POST,
    PUT,
    DELETE,
    PATCH,
}

/// One route: a path, a method and its handler.
pub struct RouteItem<H> {
    pub path: &'static str,
    pub method: RequestMethod,
    pub handler: H,
}

/// Routes sharing a path prefix.
pub struct RouteGroup<H> {
    pub prefix: &'static str,
    pub routes: Vec<RouteItem<H>>,
}

/// The route table under an API prefix.
pub struct MetaRoute<H> {
    pub prefix: String,
    pub routes: Vec<RouteGroup<H>>,
}

/// Number of routes in `groups`.
pub open spec fn route_total<H>(groups: Seq<RouteGroup<H>>) -> nat
    decreases groups.len(),
{
    if groups.len() == 0 {
        0
    } else {
        route_total(groups.drop_last()) + groups.last().routes@.len()
    }
}

impl<H> RouteItem<H> {
    /// A route for `method` at `path`.
    pub fn new(path: &'static str, method: RequestMethod, handler: H) -> (r: Self)
        ensures
            r.path == path,
            r.method == method,
            r.handler == handler,
    {
        RouteItem { path, method, handler }
    }

    /// A `GET` route.
    pub fn get(path: &'static str, handler: H) -> (r: Self)
        ensures
            r.path == path,
            r.method == RequestMethod::GET,
            r.handler == handler,
    {
        Self::new(path, RequestMethod::GET, handler)
    }

    /// A `POST` route.
    pub fn post(path: &'static str, handler: H) -> (r: Self)
        ensures
            r.path == path,
            r.method == RequestMethod::POST,
            r.handler == handler,
    {
        Self::new(path, RequestMethod::POST, handler)
    }

    /// A `PUT` route.
    pub fn put(path: &'static str, handler: H) -> (r: Self)
        ensures
            r.path == path,
            r.method == RequestMethod::PUT,
            r.handler == handler,
    {
        Self::new(path, RequestMethod::PUT, handler)
    }

    /// A `DELETE` route.
    pub fn delete(path: &'static str, handler: H) -> (r: Self)
        ensures
            r.path == path,
            r.method == RequestMethod::DELETE,
            r.handler == handler,
    {
        Self::new(path, RequestMethod::DELETE, handler)
    }

    /// A `PATCH` route.
    pub fn patch(path: &'static str, handler: H) -> (r: Self)
        ensures
            r.path == path,
            r.method == RequestMethod::PATCH,
            r.handler == handler,
    {
        Self::new(path, RequestMethod::PATCH, handler)
    }
}

impl<H> RouteGroup<H> {
    /// An empty group under `prefix`.
    pub fn new(prefix: &'static str) -> (g: Self)
        ensures
            g.prefix == prefix,
            g.routes@.len() == 0,
    {
        RouteGroup { prefix, routes: Vec::new() }
    }

    /// Adds a route at the end of the group.
    pub fn add_route_item(&mut self, item: RouteItem<H>)
        ensures
            final(self).prefix == old(self).prefix,
            final(self).routes@ == old(self).routes@.push(item),
    {
        self.routes.push(item);
    }
}

impl<H> MetaRoute<H> {
    /// An empty table under `prefix`.
    pub fn new(prefix: String) -> (m: Self)
        ensures
            m.prefix@ == prefix@,
            m.routes@.len() == 0,
            route_total(m.routes@) == 0,
    {
        MetaRoute { prefix, routes: Vec::new() }
    }

    /// Adds a group at the end of the table.
    pub fn add_route_group(&mut self, group: RouteGroup<H>)
        ensures
            final(self).prefix == old(self).prefix,
            final(self).routes@ == old(self).routes@.push(group),
            route_total(final(self).routes@) == route_total(old(self).routes@) + group.routes@.len(),
    {
        let ghost before = self.routes@;
        let ghost added = group.routes@.len();
        self.routes.push(group);
        assert(self.routes@.drop_last() =~= before);
    }

    /// The number of routes in all groups.
    pub fn count(&self) -> (n: usize)
        requires
            route_total(self.routes@) <= usize::MAX,
        ensures
            n == route_total(self.routes@),
    {
        let mut n: usize = 0;
        let mut i: usize = 0;
        while i < self.routes.len()
            invariant
                i <= self.routes@.len(),
                n == route_total(self.routes@.subrange(0, i as int)),
                route_total(self.routes@) <= usize::MAX,
            decreases self.routes@.len() - i,
        {
            proof {
                lemma_route_total_prefix(self.routes@, i as int + 1);
                assert(self.routes@.subrange(0, i + 1).drop_last() =~= self.routes@.subrange(0, i as int));
            }
            n = n + self.routes[i].routes.len();
            i = i + 1;
        }
        assert(self.routes@.subrange(0, self.routes@.len() as int) =~= self.routes@);
        n
    }
}

/// Counting a prefix of the groups counts no more than all of them.
pub proof fn lemma_route_total_prefix<H>(groups: Seq<RouteGroup<H>>, k: int)
    requires
        0 <= k <= groups.len(),
    ensures
        route_total(groups.subrange(0, k)) <= route_total(groups),
    decreases groups.len() - k,
{
    if k < groups.len() {
        lemma_route_total_prefix(groups, k + 1);
        assert(groups.subrange(0, k + 1).drop_last() =~= groups.subrange(0, k));
    } else {
        assert(groups.subrange(0, k) =~= groups);
    }
}

} // verus!
