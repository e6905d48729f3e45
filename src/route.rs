use vstd::prelude::*;
use vstd::string::StringExecFns;

verus! {

/// A GET route with the response it always gives.
#[derive(Debug, Clone)]
pub struct Route {
    pub path: String,
    pub status: u16,
    pub content_type: String,
    pub body: String,
}

/// The characters of each part of a [`Route`].
pub struct RouteView {
    pub path: Seq<char>,
    pub status: u16,
    pub content_type: Seq<char>,
    pub body: Seq<char>,
}

impl View for Route {
    type V = RouteView;

    open spec fn view(&self) -> RouteView {
        RouteView {
            path: self.path@,
            status: self.status,
            content_type: self.content_type@,
            body: self.body@,
        }
    }
}

/// The views of a list of routes.
pub open spec fn routes_view(routes: Seq<Route>) -> Seq<RouteView> {
    routes.map_values(|r: Route| r@)
}

/// The route that answers a GET of `path`: the first in the table with that
/// path.
pub open spec fn route_for(table: Seq<RouteView>, path: Seq<char>) -> Option<RouteView>
    decreases table.len(),
{
    if table.len() == 0 {
        None
    } else if table[0].path == path {
        Some(table[0])
    } else {
        route_for(table.skip(1), path)
    }
}

/// No path of `a` is a path of `b`.
pub open spec fn paths_disjoint(a: Seq<RouteView>, b: Seq<RouteView>) -> bool {
    forall|i: int, j: int| 0 <= i < a.len() && 0 <= j < b.len() ==> #[trigger] a[i].path != #[trigger] b[j].path
}

proof fn lemma_route_for_found(table: Seq<RouteView>, path: Seq<char>)
    ensures
        route_for(table, path) matches Some(r) ==> exists|i: int|
            0 <= i < table.len() && #[trigger] table[i] == r && r.path == path,
    decreases table.len(),
{
    if table.len() > 0 && table[0].path != path {
        lemma_route_for_found(table.skip(1), path);
        if let Some(r) = route_for(table, path) {
            let i = choose|i: int| 0 <= i < table.skip(1).len() && #[trigger] table.skip(1)[i] == r && r.path == path;
            assert(table[i + 1] == r);
        }
    }
}

proof fn lemma_route_for_append(a: Seq<RouteView>, b: Seq<RouteView>, path: Seq<char>)
    ensures
        route_for(a + b, path) == (match route_for(a, path) {
            Some(r) => Some(r),
            None => route_for(b, path),
        }),
    decreases a.len(),
{
    if a.len() == 0 {
        assert(a + b =~= b);
    } else {
        assert((a + b)[0] == a[0]);
        assert((a + b).skip(1) =~= a.skip(1) + b);
        lemma_route_for_append(a.skip(1), b, path);
    }
}

/// Two route sets whose paths do not meet answer side by side as each does
/// alone, in whichever order they were mounted.
pub proof fn lemma_routes_independent(a: Seq<RouteView>, b: Seq<RouteView>, path: Seq<char>)
    requires
        paths_disjoint(a, b),
    ensures
        route_for(a + b, path) == route_for(b + a, path),
        route_for(a, path) is Some ==> route_for(a + b, path) == route_for(a, path),
        route_for(b, path) is Some ==> route_for(a + b, path) == route_for(b, path),
        route_for(a, path) is None && route_for(b, path) is None ==> route_for(a + b, path) is None,
{
    lemma_route_for_append(a, b, path);
    lemma_route_for_append(b, a, path);
    lemma_route_for_found(a, path);
    lemma_route_for_found(b, path);
}

/// Answers a GET of `path` from a route table: the route with that path, if
/// any. The table is only read, so asking again gives the same answer.
pub fn respond<'a>(routes: &'a Vec<Route>, path: &str) -> (r: Option<&'a Route>)
    ensures
        match r {
            Some(x) => route_for(routes_view(routes@), path@) == Some(x@),
            None => route_for(routes_view(routes@), path@) is None,
        },
{
    let wanted = String::from_str(path);
    let ghost table = routes_view(routes@);
    let mut i: usize = 0;
    assert(table.skip(0) =~= table);
    while i < routes.len()
        invariant
            0 <= i <= routes.len(),
            table == routes_view(routes@),
            wanted@ == path@,
            route_for(table, path@) == route_for(table.skip(i as int), path@),
        decreases routes.len() - i,
    {
        assert(table.skip(i as int)[0] == routes@[i as int]@);
        if routes[i].path == wanted {
            return Some(&routes[i]);
        }
        assert(table.skip(i as int).skip(1) =~= table.skip(i + 1));
        i += 1;
    }
    None
}

} // verus!
