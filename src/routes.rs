use vstd::prelude::*;

use crate::request::{FetchError, Style};

verus! {

/// The API layer a handler uses to reach the host's fetch capability.
#[derive(Clone, Copy, Debug, PartialEq, Eq, Structural)]
pub enum Surface {
    /// The high-level wrapper types.
    Ergonomic,
    /// The low-level bindings.
    Raw,
}

/// One entry of the route table: which surface and which construction style
/// the handler uses.
#[derive(Clone, Copy, Debug, PartialEq, Eq, Structural)]
pub struct Route {
    pub surface: Surface,
    pub style: Style,
}

/// The inbound path that selects `r`.
pub open spec fn route_path(r: Route) -> Seq<char> {
    match (r.surface, r.style) {
        (Surface::Ergonomic, Style::ByUrl) => "/ergonomic/by-url"@,
        (Surface::Ergonomic, Style::ByRequest) => "/ergonomic/by-request"@,
        (Surface::Ergonomic, Style::ByRequestWithInit) => "/ergonomic/by-request-with-init"@,
        (Surface::Raw, Style::ByUrl) => "/raw/by-url"@,
        (Surface::Raw, Style::ByRequest) => "/raw/by-request"@,
        (Surface::Raw, Style::ByRequestWithInit) => "/raw/by-request-with-init"@,
    }
}

/// The route whose path is exactly `p`, if any.
pub open spec fn route_of_path(p: Seq<char>) -> Option<Route> {
    if exists|r: Route| route_path(r) == p {
        Some(choose|r: Route| route_path(r) == p)
    } else {
        None
    }
}

/// Reveals the six path literals, which are pairwise distinct.
proof fn lemma_paths_distinct(r1: Route, r2: Route)
    ensures
        route_path(r1) == route_path(r2) ==> r1 == r2,
{
    reveal_strlit("/ergonomic/by-url");
    reveal_strlit("/ergonomic/by-request");
    reveal_strlit("/ergonomic/by-request-with-init");
    reveal_strlit("/raw/by-url");
    reveal_strlit("/raw/by-request");
    reveal_strlit("/raw/by-request-with-init");
    if route_path(r1) == route_path(r2) {
        assert(route_path(r1).len() == route_path(r2).len());
        assert(route_path(r1)[1] == route_path(r2)[1]);
        if route_path(r1).len() == route_path(r2).len() && route_path(r1).len() > 12 {
            assert(route_path(r1)[12] == route_path(r2)[12]);
        }
    }
}

/// Each route is found again from its own path, and only from it.
pub proof fn lemma_route_of_own_path(r: Route)
    ensures
        route_of_path(route_path(r)) == Some(r),
{
    let p = route_path(r);
    assert(exists|x: Route| route_path(x) == p);
    let c = choose|x: Route| route_path(x) == p;
    lemma_paths_distinct(c, r);
}

impl Route {
    /// The inbound path that selects this route.
    pub fn path(&self) -> (r: &'static str)
        ensures
            r@ == route_path(*self),
    {
        match (self.surface, self.style) {
            (Surface::Ergonomic, Style::ByUrl) => "/ergonomic/by-url",
            (Surface::Ergonomic, Style::ByRequest) => "/ergonomic/by-request",
            (Surface::Ergonomic, Style::ByRequestWithInit) => "/ergonomic/by-request-with-init",
            (Surface::Raw, Style::ByUrl) => "/raw/by-url",
            (Surface::Raw, Style::ByRequest) => "/raw/by-request",
            (Surface::Raw, Style::ByRequestWithInit) => "/raw/by-request-with-init",
        }
    }
}

/// Every route of the table, in the order they are tried.
pub fn all_routes() -> (r: Vec<Route>)
    ensures
        r@.len() == 6,
        forall|x: Route| r@.contains(x),
{
    let r = vec![
        Route { surface: Surface::Ergonomic, style: Style::ByUrl },
        Route { surface: Surface::Ergonomic, style: Style::ByRequest },
        Route { surface: Surface::Ergonomic, style: Style::ByRequestWithInit },
        Route { surface: Surface::Raw, style: Style::ByUrl },
        Route { surface: Surface::Raw, style: Style::ByRequest },
        Route { surface: Surface::Raw, style: Style::ByRequestWithInit },
    ];
    assert forall|x: Route| r@.contains(x) by {
        let i: int = match (x.surface, x.style) {
            (Surface::Ergonomic, Style::ByUrl) => 0,
            (Surface::Ergonomic, Style::ByRequest) => 1,
            (Surface::Ergonomic, Style::ByRequestWithInit) => 2,
            (Surface::Raw, Style::ByUrl) => 3,
            (Surface::Raw, Style::ByRequest) => 4,
            (Surface::Raw, Style::ByRequestWithInit) => 5,
        };
        assert(r@[i] == x);
    }
    r
}

/// Looks up the handler for an inbound path, by exact match; a path that is
/// not in the table yields `NotFound`.
pub fn dispatch(path: &str) -> (r: Result<Route, FetchError>)
    ensures
        r matches Ok(route) ==> route_of_path(path@) == Some(route),
        r is Err <==> route_of_path(path@) is None,
        r is Err ==> r == Err::<Route, FetchError>(FetchError::NotFound),
{
    let routes = all_routes();
    let wanted = path.to_owned();
    let mut i: usize = 0;
    while i < routes.len()
        invariant
            routes@.len() == 6,
            forall|x: Route| routes@.contains(x),
            wanted@ == path@,
            i <= routes@.len(),
            forall|j: int| 0 <= j < i ==> route_path(#[trigger] routes@[j]) != path@,
        decreases routes@.len() - i,
    {
        let candidate = routes[i];
        let candidate_path = candidate.path().to_owned();
        if candidate_path == wanted {
            proof {
                lemma_route_of_own_path(candidate);
            }
            return Ok(candidate);
        }
        i = i + 1;
    }
    proof {
        if exists|x: Route| route_path(x) == path@ {
            let x = choose|x: Route| route_path(x) == path@;
            assert(routes@.contains(x));
            let j = choose|j: int| 0 <= j < routes@.len() && routes@[j] == x;
            assert(route_path(routes@[j]) != path@);
        }
    }
    Err(FetchError::NotFound)
}

} // verus!
