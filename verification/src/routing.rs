//! Tables of routes.
//!
//! A table says which endpoint answers which requests, and through which layers a request passes
//! on its way there.

use vstd::prelude::*;

verus! {

/// The requests that a route takes, by their method.
#[derive(Debug, Clone, Copy, PartialEq, Eq, Structural)]
pub enum Method {
    Get,
    Post,
    Put,
    Delete,
    /// Every request.
    Any,
}

/// A route.
#[derive(Debug, PartialEq, Eq)]
pub struct Route<E, L> {
    /// The paths that the route takes.
    pub path: String,
    pub method: Method,
    /// What answers the requests.
    pub endpoint: E,
    /// What a request passes on its way to the endpoint, from the innermost layer to the outermost.
    pub layers: Vec<L>,
}

/// A [`Route`] as contracts speak of it.
#[verifier::ext_equal]
pub struct RouteView<E, L> {
    pub path: Seq<char>,
    pub method: Method,
    pub endpoint: E,
    pub layers: Seq<L>,
}

impl<E, L> View for Route<E, L> {
    type V = RouteView<E, L>;

    open spec fn view(&self) -> RouteView<E, L> {
        RouteView {
            path: self.path@,
            method: self.method,
            endpoint: self.endpoint,
            layers: self.layers@,
        }
    }
}

impl<E, L> RouteView<E, L> {
    /// The route with one more layer around it.
    pub open spec fn within(self, layer: L) -> Self {
        RouteView { layers: self.layers.push(layer), ..self }
    }

    /// The route below a prefix.
    pub open spec fn below(self, prefix: Seq<char>) -> Self {
        RouteView { path: prefix + self.path, ..self }
    }
}

/// A route without layers.
pub open spec fn at<E, L>(path: Seq<char>, method: Method, endpoint: E) -> RouteView<E, L> {
    RouteView { path, method, endpoint, layers: Seq::empty() }
}

impl<E, L> Route<E, L> {
    /// A route without layers.
    pub fn new(path: &str, method: Method, endpoint: E) -> (r: Self)
        ensures
            r@ == at::<E, L>(path@, method, endpoint),
            r.path@ == path@,
            r.method == method,
            r.endpoint == endpoint,
            r.layers@.len() == 0,
    {
        Route { path: path.to_owned(), method, endpoint, layers: Vec::new() }
    }

    /// The route with one more layer around it.
    pub fn layer(self, layer: L) -> (r: Self)
        ensures
            r@ == self@.within(layer),
            r.path == self.path,
            r.method == self.method,
            r.endpoint == self.endpoint,
            r.layers@ == self.layers@ + seq![layer],
    {
        let mut layers = self.layers;
        layers.push(layer);
        Route { path: self.path, method: self.method, endpoint: self.endpoint, layers }
    }

    /// The route below a prefix.
    pub fn nest(self, prefix: &str) -> (r: Self)
        ensures
            r@ == self@.below(prefix@),
            r.path@ == prefix@ + self.path@,
            r.method == self.method,
            r.endpoint == self.endpoint,
            r.layers == self.layers,
    {
        Route {
            path: prefix.to_owned().concat(self.path.as_str()),
            method: self.method,
            endpoint: self.endpoint,
            layers: self.layers,
        }
    }
}

/// A table of routes.
#[derive(Debug, PartialEq, Eq)]
pub struct Router<E, L> {
    pub routes: Vec<Route<E, L>>,
    /// What a request passes that no route takes.
    pub fallback: Vec<L>,
}

/// A [`Router`] as contracts speak of it.
#[verifier::ext_equal]
pub struct RouterView<E, L> {
    pub routes: Seq<RouteView<E, L>>,
    pub fallback: Seq<L>,
}

impl<E, L> View for Router<E, L> {
    type V = RouterView<E, L>;

    open spec fn view(&self) -> RouterView<E, L> {
        RouterView {
            routes: self.routes@.map_values(|r: Route<E, L>| r@),
            fallback: self.fallback@,
        }
    }
}

/// A table without routes.
pub open spec fn no_routes<E, L>() -> RouterView<E, L> {
    RouterView { routes: Seq::empty(), fallback: Seq::empty() }
}

impl<E, L> RouterView<E, L> {
    /// The table with one more route.
    pub open spec fn with(self, route: RouteView<E, L>) -> Self {
        RouterView { routes: self.routes.push(route), ..self }
    }

    /// The table with one more layer around each route.
    pub open spec fn routes_within(self, layer: L) -> Self {
        RouterView { routes: self.routes.map_values(|r: RouteView<E, L>| r.within(layer)), ..self }
    }

    /// The table with one more layer around everything.
    pub open spec fn within(self, layer: L) -> Self {
        RouterView { fallback: self.fallback.push(layer), ..self.routes_within(layer) }
    }

    /// The table with the routes of another, which also tells what a request passes that no route
    /// takes.
    pub open spec fn merged(self, other: Self) -> Self {
        RouterView { routes: self.routes + other.routes, fallback: other.fallback }
    }

    /// The table with the routes of another below a prefix.
    pub open spec fn nested(self, prefix: Seq<char>, other: Self) -> Self {
        RouterView {
            routes: self.routes + other.routes.map_values(
                |r: RouteView<E, L>| r.below(prefix),
            ),
            ..self
        }
    }
}

impl<E, L: Copy> Router<E, L> {
    /// A table without routes.
    pub fn new() -> (r: Self)
        ensures
            r@ == no_routes::<E, L>(),
            r.routes@.len() == 0,
            r.fallback@.len() == 0,
    {
        let r = Router { routes: Vec::new(), fallback: Vec::new() };
        assert(r@ =~= no_routes::<E, L>());
        r
    }

    /// The table with one more route.
    pub fn route(self, route: Route<E, L>) -> (r: Self)
        ensures
            r@ == self@.with(route@),
            r.routes@ == self.routes@ + seq![route],
            r.fallback == self.fallback,
    {
        let mut routes = self.routes;
        routes.push(route);
        let r = Router { routes, fallback: self.fallback };
        assert(r@ =~= self@.with(route@));
        r
    }

    /// The table with one more layer around each route.
    pub fn route_layer(self, layer: L) -> (r: Self)
        ensures
            r@ == self@.routes_within(layer),
    {
        let ghost all = self.routes@;
        let mut rest = self.routes;
        let mut routes: Vec<Route<E, L>> = Vec::new();
        let ghost mut done = Seq::<Route<E, L>>::empty();
        while rest.len() > 0
            invariant
                done + rest@ == all,
                routes@.len() == done.len(),
                forall|i: int|
                    0 <= i < done.len() ==> (#[trigger] routes@[i])@ == done[i]@.within(layer),
            decreases rest.len(),
        {
            let ghost before = rest@;
            let route = rest.remove(0);
            assert(done.push(route) + rest@ =~= done + before);
            proof {
                done = done.push(route);
            }
            routes.push(route.layer(layer));
        }
        assert(done =~= all);
        let r = Router { routes, fallback: self.fallback };
        assert(r@.routes =~= self@.routes_within(layer).routes);
        r
    }

    /// The table with one more layer around everything.
    pub fn layer(self, layer: L) -> (r: Self)
        ensures
            r@ == self@.within(layer),
    {
        let inner = self.route_layer(layer);
        let mut fallback = inner.fallback;
        fallback.push(layer);
        Router { routes: inner.routes, fallback }
    }

    /// The table with the routes of another.
    pub fn merge(self, other: Self) -> (r: Self)
        ensures
            r@ == self@.merged(other@),
            r.routes@ == self.routes@ + other.routes@,
            r.fallback == other.fallback,
    {
        let mut routes = self.routes;
        let mut rest = other.routes;
        routes.append(&mut rest);
        let r = Router { routes, fallback: other.fallback };
        assert(r@.routes =~= self@.merged(other@).routes);
        r
    }

    /// The table with the routes of another below a prefix.
    pub fn nest(self, prefix: &str, other: Self) -> (r: Self)
        ensures
            r@ == self@.nested(prefix@, other@),
    {
        let ghost own = self.routes@;
        let ghost all = other.routes@;
        let mut rest = other.routes;
        let mut routes = self.routes;
        let ghost mut done = Seq::<Route<E, L>>::empty();
        while rest.len() > 0
            invariant
                done + rest@ == all,
                routes@.len() == own.len() + done.len(),
                forall|i: int| 0 <= i < own.len() ==> (#[trigger] routes@[i]) == own[i],
                forall|i: int|
                    own.len() <= i < routes@.len() ==> (#[trigger] routes@[i])@ == done[i
                        - own.len()]@.below(prefix@),
            decreases rest.len(),
        {
            let ghost before = rest@;
            let route = rest.remove(0);
            assert(done.push(route) + rest@ =~= done + before);
            proof {
                done = done.push(route);
            }
            routes.push(route.nest(prefix));
        }
        assert(done =~= all);
        let r = Router { routes, fallback: self.fallback };
        assert(r@.routes =~= self@.nested(prefix@, other@).routes);
        r
    }
}

/// Contracts see all of a route.
pub proof fn law_route_is_seen_whole<E, L>(route: Route<E, L>)
    ensures
        route@.path == route.path@,
        route@.method == route.method,
        route@.endpoint == route.endpoint,
        route@.layers == route.layers@,
{
}

/// Contracts see all of a table: each of its routes in its place, and what a request passes that
/// none of them takes.
pub proof fn law_table_is_seen_whole<E, L>(table: Router<E, L>, i: int)
    ensures
        table@.routes.len() == table.routes@.len(),
        0 <= i < table.routes@.len() ==> table@.routes[i] == table.routes@[i]@,
        table@.fallback == table.fallback@,
{
}

/// A layer goes around each route, outside of those that are there, and a route is otherwise as it
/// was. Only a layer around everything is also passed by a request that no route takes.
pub proof fn law_layer_goes_around_every_route<E, L>(table: RouterView<E, L>, layer: L, i: int)
    ensures
        table.routes_within(layer).routes.len() == table.routes.len(),
        table.routes_within(layer).fallback == table.fallback,
        table.within(layer).routes.len() == table.routes.len(),
        table.within(layer).fallback == table.fallback + seq![layer],
        0 <= i < table.routes.len() ==> ({
            let inner = table.routes[i];
            let route = table.routes_within(layer).routes[i];
            &&& route.layers == inner.layers + seq![layer]
            &&& route.path == inner.path
            &&& route.method == inner.method
            &&& route.endpoint == inner.endpoint
            &&& table.within(layer).routes[i] == route
        }),
{
    assert(table.within(layer).fallback =~= table.fallback + seq![layer]);
    if 0 <= i < table.routes.len() {
        assert(table.routes_within(layer).routes[i].layers =~= table.routes[i].layers
            + seq![layer]);
    }
}

/// A nested table leaves the routes in front of it as they are. Its own routes come after those, in
/// their order, each with the prefix before its path.
pub proof fn law_nested_routes_come_last<E, L>(
    table: RouterView<E, L>,
    prefix: Seq<char>,
    other: RouterView<E, L>,
    i: int,
)
    ensures
        table.nested(prefix, other).routes.len() == table.routes.len() + other.routes.len(),
        table.nested(prefix, other).fallback == table.fallback,
        0 <= i < table.routes.len() ==> table.nested(prefix, other).routes[i] == table.routes[i],
        0 <= i < other.routes.len() ==> ({
            let inner = other.routes[i];
            let route = table.nested(prefix, other).routes[table.routes.len() + i];
            &&& route.path == prefix + inner.path
            &&& route.method == inner.method
            &&& route.endpoint == inner.endpoint
            &&& route.layers == inner.layers
        }),
{
}

/// Tables are merged by putting the routes of one behind those of the other. The second also tells
/// what a request passes that no route takes.
pub proof fn law_merged_routes_come_last<E, L>(
    table: RouterView<E, L>,
    other: RouterView<E, L>,
    route: RouteView<E, L>,
)
    ensures
        table.merged(other).routes == table.routes + other.routes,
        table.merged(other).fallback == other.fallback,
        table.with(route).routes == table.routes + seq![route],
        table.with(route).fallback == table.fallback,
{
    assert(table.with(route).routes =~= table.routes + seq![route]);
}

} // verus!
