//! Routing table: which local mock serves each external host.
//!
//! A route's source domain is either an exact host name or a wildcard
//! `*.X`, which covers every proper subdomain of `X` (not `X` itself). A
//! lookup prefers an exact match; among wildcard matches the highest
//! priority wins, then the longest pattern. Two patterns of one length that
//! both match a host are the same pattern, so the choice is never left open.

use vstd::prelude::*;
use crate::error::EngineError;

verus! {

/// One routing rule.
#[derive(Debug)]
pub struct Route {
    /// Source domain, exact (`api.openai.com`) or wildcard (`*.openai.com`).
    pub domain: String,
    /// Mock service URL, such as `http://localhost:8080`.
    pub target: String,
    /// Path prefix to put in front of forwarded paths.
    pub path_prefix: Option<String>,
    /// Higher priorities win among wildcard matches.
    pub priority: u32,
}

impl Clone for Route {
    fn clone(&self) -> (r: Self)
        ensures
            r == *self,
    {
        let path_prefix = match &self.path_prefix {
            Some(p) => Some(p.clone()),
            None => None,
        };
        Route {
            domain: self.domain.clone(),
            target: self.target.clone(),
            path_prefix,
            priority: self.priority,
        }
    }
}

impl Route {
    /// A route from `domain` to `target`, with no prefix and priority 0.
    pub fn new(domain: &str, target: &str) -> (r: Self)
        ensures
            r.domain@ == domain@,
            r.target@ == target@,
            r.path_prefix is None,
            r.priority == 0,
    {
        Route {
            domain: domain.to_string(),
            target: target.to_string(),
            path_prefix: None,
            priority: 0,
        }
    }

    pub fn with_prefix(self, prefix: &str) -> (r: Self)
        ensures
            r == (Route { path_prefix: r.path_prefix, ..self }),
            (r.path_prefix matches Some(p) && p@ == prefix@),
    {
        Route { path_prefix: Some(prefix.to_string()), ..self }
    }

    pub fn with_priority(self, priority: u32) -> (r: Self)
        ensures
            r == (Route { priority, ..self }),
    {
        Route { priority, ..self }
    }
}

/// `p` has the wildcard form `*.X`.
pub open spec fn is_wildcard(p: Seq<char>) -> bool {
    p.len() >= 2 && p[0] == '*' && p[1] == '.'
}

/// The wildcard `p` (`*.X`) matches `d`: `d` ends with `.X` and has more
/// in front of it.
pub open spec fn wildcard_matches(p: Seq<char>, d: Seq<char>) -> bool {
    is_wildcard(p) && d.len() > p.len() - 1 && d.subrange(d.len() - (p.len() - 1), d.len() as int)
        == p.subrange(1, p.len() as int)
}

/// Route `a` is preferred to route `b` among wildcard matches.
pub open spec fn outranks(a: Route, b: Route) -> bool {
    a.priority > b.priority || (a.priority == b.priority && a.domain@.len() > b.domain@.len())
}

/// No two routes share a source domain.
pub open spec fn domains_unique(routes: Seq<Route>) -> bool {
    forall|i: int, j: int|
        0 <= i < routes.len() && 0 <= j < routes.len() && i != j ==> (#[trigger] routes[i]).domain@
            != (#[trigger] routes[j]).domain@
}

pub open spec fn has_exact(routes: Seq<Route>, d: Seq<char>) -> bool {
    exists|k: int| 0 <= k < routes.len() && (#[trigger] routes[k]).domain@ == d
}

pub open spec fn has_wildcard(routes: Seq<Route>, d: Seq<char>) -> bool {
    exists|k: int| 0 <= k < routes.len() && wildcard_matches((#[trigger] routes[k]).domain@, d)
}

/// Route `k` is a wildcard match for `d` that no other match outranks.
pub open spec fn is_best_wildcard(routes: Seq<Route>, d: Seq<char>, k: int) -> bool {
    &&& 0 <= k < routes.len()
    &&& wildcard_matches(routes[k].domain@, d)
    &&& forall|j: int|
        0 <= j < routes.len() && wildcard_matches((#[trigger] routes[j]).domain@, d) ==> !outranks(
            routes[j],
            routes[k],
        )
}

/// `r` is the route that serves host `d`.
pub open spec fn resolves(routes: Seq<Route>, d: Seq<char>, r: Option<Route>) -> bool {
    if has_exact(routes, d) {
        exists|k: int| 0 <= k < routes.len() && (#[trigger] routes[k]).domain@ == d && r == Some(routes[k])
    } else if has_wildcard(routes, d) {
        exists|k: int| #[trigger] is_best_wildcard(routes, d, k) && r == Some(routes[k])
    } else {
        r is None
    }
}

/// Whether the wildcard `pattern` matches host `domain`.
pub fn wildcard_match(pattern: &str, domain: &str) -> (r: bool)
    ensures
        r == wildcard_matches(pattern@, domain@),
{
    let pl = pattern.unicode_len();
    let dl = domain.unicode_len();
    if pl < 2 || pattern.get_char(0) != '*' || pattern.get_char(1) != '.' {
        return false;
    }
    let sl = pl - 1;
    if dl <= sl {
        return false;
    }
    let off = dl - sl;
    let mut i: usize = 0;
    while i < sl
        invariant
            pl == pattern@.len(),
            dl == domain@.len(),
            sl == pl - 1,
            off == dl - sl,
            i <= sl,
            pattern@.subrange(1, 1 + i) == domain@.subrange(off as int, off + i),
        decreases sl - i,
    {
        if pattern.get_char(1 + i) != domain.get_char(off + i) {
            assert(domain@.subrange(off as int, dl as int)[i as int] != pattern@.subrange(
                1,
                pl as int,
            )[i as int]);
            return false;
        }
        assert(pattern@.subrange(1, 1 + i + 1) =~= domain@.subrange(off as int, off + i + 1)) by {
            assert(pattern@.subrange(1, 1 + i + 1) =~= pattern@.subrange(1, 1 + i).push(pattern@[1 + i]));
            assert(domain@.subrange(off as int, off + i + 1) =~= domain@.subrange(off as int, off + i).push(domain@[off + i]));
        }
        i = i + 1;
    }
    assert(domain@.subrange(off as int, dl as int) =~= pattern@.subrange(1, pl as int));
    true
}

/// Domain-to-route map.
pub struct RoutingTable {
    routes: Vec<Route>,
}

impl View for RoutingTable {
    type V = Seq<Route>;

    closed spec fn view(&self) -> Seq<Route> {
        self.routes@
    }
}

impl RoutingTable {
    pub closed spec fn wf(&self) -> bool {
        domains_unique(self.routes@)
    }

    /// A well-formed table has distinct source domains.
    pub proof fn lemma_unique(&self)
        requires
            self.wf(),
        ensures
            domains_unique(self@),
    {
    }

    /// An empty table.
    pub fn new() -> (r: Self)
        ensures
            r.wf(),
            r@.len() == 0,
    {
        RoutingTable { routes: Vec::new() }
    }

    /// The table with the default routes of the well-known APIs, each to
    /// its own local port from 8080 up.
    pub fn with_defaults() -> (r: Self)
        ensures
            r.wf(),
            r@.len() == 5,
            r@[0].domain@ == "api.openai.com"@ && r@[0].target@ == "http://localhost:8080"@,
            r@[1].domain@ == "api.anthropic.com"@ && r@[1].target@ == "http://localhost:8081"@,
            r@[2].domain@ == "api.stripe.com"@ && r@[2].target@ == "http://localhost:8082"@,
            r@[3].domain@ == "api.cohere.ai"@ && r@[3].target@ == "http://localhost:8083"@,
            r@[4].domain@ == "generativelanguage.googleapis.com"@ && r@[4].target@
                == "http://localhost:8084"@,
            forall|k: int| 0 <= k < 5 ==> (#[trigger] r@[k]).priority == 0 && r@[k].path_prefix is None,
    {
        proof {
            reveal_strlit("api.openai.com");
            reveal_strlit("api.anthropic.com");
            reveal_strlit("api.stripe.com");
            reveal_strlit("api.cohere.ai");
            reveal_strlit("generativelanguage.googleapis.com");
        }
        let mut routes: Vec<Route> = Vec::new();
        routes.push(Route::new("api.openai.com", "http://localhost:8080"));
        routes.push(Route::new("api.anthropic.com", "http://localhost:8081"));
        routes.push(Route::new("api.stripe.com", "http://localhost:8082"));
        routes.push(Route::new("api.cohere.ai", "http://localhost:8083"));
        routes.push(Route::new("generativelanguage.googleapis.com", "http://localhost:8084"));
        let r = RoutingTable { routes };
        assert(r.routes@[0].domain@ != r.routes@[1].domain@) by {
            assert(r.routes@[0].domain@[4] != r.routes@[1].domain@[4]);
        }
        assert(r.routes@[0].domain@ != r.routes@[2].domain@) by {
            assert(r.routes@[0].domain@[4] != r.routes@[2].domain@[4]);
        }
        assert(r.routes@[0].domain@ != r.routes@[3].domain@) by {
            assert(r.routes@[0].domain@.len() != r.routes@[3].domain@.len());
        }
        assert(r.routes@[1].domain@ != r.routes@[2].domain@) by {
            assert(r.routes@[1].domain@.len() != r.routes@[2].domain@.len());
        }
        assert(r.routes@[1].domain@ != r.routes@[3].domain@) by {
            assert(r.routes@[1].domain@.len() != r.routes@[3].domain@.len());
        }
        assert(r.routes@[2].domain@ != r.routes@[3].domain@) by {
            assert(r.routes@[2].domain@[4] != r.routes@[3].domain@[4]);
        }
        assert(r.routes@[0].domain@.len() != r.routes@[4].domain@.len());
        assert(r.routes@[1].domain@.len() != r.routes@[4].domain@.len());
        assert(r.routes@[2].domain@.len() != r.routes@[4].domain@.len());
        assert(r.routes@[3].domain@.len() != r.routes@[4].domain@.len());
        r
    }

    /// Adds `route`, replacing the route of the same source domain if any.
    pub fn add_route(&mut self, route: Route)
        requires
            old(self).wf(),
        ensures
            final(self).wf(),
            has_exact(old(self)@, route.domain@) ==> exists|k: int|
                0 <= k < old(self)@.len() && (#[trigger] old(self)@[k]).domain@ == route.domain@
                    && final(self)@ == old(self)@.update(k, route),
            !has_exact(old(self)@, route.domain@) ==> final(self)@ == old(self)@.push(route),
    {
        let mut k: usize = 0;
        while k < self.routes.len()
            invariant
                k <= self.routes@.len(),
                self.routes@ == old(self).routes@,
                domains_unique(self.routes@),
                forall|j: int| 0 <= j < k ==> (#[trigger] self.routes@[j]).domain@ != route.domain@,
            decreases self.routes@.len() - k,
        {
            if self.routes[k].domain == route.domain {
                let ghost before = self.routes@;
                self.routes.set(k, route);
                assert forall|i: int, j: int|
                    0 <= i < self.routes@.len() && 0 <= j < self.routes@.len() && i != j implies (
                    #[trigger] self.routes@[i]).domain@ != (#[trigger] self.routes@[j]).domain@ by {
                    assert(before[i].domain@ != before[j].domain@ || i == j);
                }
                return;
            }
            k = k + 1;
        }
        let ghost before = self.routes@;
        self.routes.push(route);
        assert forall|i: int, j: int|
            0 <= i < self.routes@.len() && 0 <= j < self.routes@.len() && i != j implies (
            #[trigger] self.routes@[i]).domain@ != (#[trigger] self.routes@[j]).domain@ by {
            if i < before.len() && j < before.len() {
                assert(before[i].domain@ != before[j].domain@);
            }
        }
    }

    /// Removes the route of source domain `domain`; without one, a
    /// `ConfigError`.
    pub fn remove_route(&mut self, domain: &str) -> (r: Result<(), EngineError>)
        requires
            old(self).wf(),
        ensures
            final(self).wf(),
            r is Ok <==> has_exact(old(self)@, domain@),
            r is Ok ==> exists|k: int|
                0 <= k < old(self)@.len() && (#[trigger] old(self)@[k]).domain@ == domain@
                    && final(self)@ == old(self)@.remove(k),
            r matches Err(e) ==> e is ConfigError && final(self)@ == old(self)@,
    {
        let wanted = domain.to_string();
        let mut k: usize = 0;
        while k < self.routes.len()
            invariant
                k <= self.routes@.len(),
                self.routes@ == old(self).routes@,
                domains_unique(self.routes@),
                wanted@ == domain@,
                forall|j: int| 0 <= j < k ==> (#[trigger] self.routes@[j]).domain@ != domain@,
            decreases self.routes@.len() - k,
        {
            if self.routes[k].domain == wanted {
                let ghost before = self.routes@;
                self.routes.remove(k);
                assert forall|i: int, j: int|
                    0 <= i < self.routes@.len() && 0 <= j < self.routes@.len() && i != j implies (
                    #[trigger] self.routes@[i]).domain@ != (#[trigger] self.routes@[j]).domain@ by {
                    let bi = if i < k { i } else { i + 1 };
                    let bj = if j < k { j } else { j + 1 };
                    assert(self.routes@[i] == before[bi]);
                    assert(self.routes@[j] == before[bj]);
                }
                return Ok(());
            }
            k = k + 1;
        }
        Err(EngineError::ConfigError("No route found for domain".to_string()))
    }

    /// The route that serves `domain`: an exact match if there is one,
    /// else the best-ranked wildcard match, else none.
    pub fn lookup(&self, domain: &str) -> (r: Option<Route>)
        requires
            self.wf(),
        ensures
            resolves(self@, domain@, r),
    {
        let wanted = domain.to_string();
        let mut k: usize = 0;
        while k < self.routes.len()
            invariant
                k <= self.routes@.len(),
                wanted@ == domain@,
                forall|j: int| 0 <= j < k ==> (#[trigger] self.routes@[j]).domain@ != domain@,
            decreases self.routes@.len() - k,
        {
            if self.routes[k].domain == wanted {
                return Some(self.routes[k].clone());
            }
            k = k + 1;
        }
        let mut best: Option<usize> = None;
        let mut i: usize = 0;
        while i < self.routes.len()
            invariant
                i <= self.routes@.len(),
                !has_exact(self.routes@, domain@),
                best is None ==> forall|j: int|
                    0 <= j < i ==> !wildcard_matches((#[trigger] self.routes@[j]).domain@, domain@),
                best matches Some(b) ==> b < i && wildcard_matches(self.routes@[b as int].domain@, domain@)
                    && forall|j: int|
                    0 <= j < i && wildcard_matches((#[trigger] self.routes@[j]).domain@, domain@)
                        ==> !outranks(self.routes@[j], self.routes@[b as int]),
            decreases self.routes@.len() - i,
        {
            if wildcard_match(self.routes[i].domain.as_str(), domain) {
                let better = match best {
                    None => true,
                    Some(b) => {
                        let rb = &self.routes[b];
                        let ri = &self.routes[i];
                        ri.priority > rb.priority || (ri.priority == rb.priority
                            && ri.domain.as_str().unicode_len() > rb.domain.as_str().unicode_len())
                    },
                };
                if better {
                    best = Some(i);
                }
            }
            i = i + 1;
        }
        match best {
            Some(b) => {
                assert(is_best_wildcard(self.routes@, domain@, b as int));
                Some(self.routes[b].clone())
            },
            None => None,
        }
    }

    /// Every route, in insertion order.
    pub fn get_routes(&self) -> (r: Vec<Route>)
        ensures
            r@ == self@,
    {
        let r = self.routes.clone();
        assert(r@ =~= self.routes@);
        r
    }

    /// Removes every route.
    pub fn clear_routes(&mut self)
        ensures
            final(self).wf(),
            final(self)@.len() == 0,
    {
        self.routes.clear();
    }

    /// The table as text: a header, then `domain -> target` per route.
    pub fn export_config(&self) -> (r: String)
        ensures
            r@ == export_text(self@),
    {
        let mut out = "# Sentra Lab Routing Table\n\n".to_string();
        let mut k: usize = 0;
        while k < self.routes.len()
            invariant
                k <= self.routes@.len(),
                out@ == export_text(self.routes@.subrange(0, k as int)),
            decreases self.routes@.len() - k,
        {
            let ghost s = self.routes@.subrange(0, k + 1);
            assert(s.drop_last() =~= self.routes@.subrange(0, k as int));
            out.append(self.routes[k].domain.as_str());
            out.append(" -> ");
            out.append(self.routes[k].target.as_str());
            out.append("\n");
            k = k + 1;
        }
        assert(self.routes@.subrange(0, self.routes@.len() as int) =~= self.routes@);
        out
    }
}

impl Default for RoutingTable {
    fn default() -> (r: Self)
        ensures
            r.wf(),
            r@.len() == 0,
    {
        RoutingTable::new()
    }
}

/// The exported text of a list of routes.
pub open spec fn export_text(routes: Seq<Route>) -> Seq<char>
    decreases routes.len(),
{
    if routes.len() == 0 {
        "# Sentra Lab Routing Table\n\n"@
    } else {
        export_text(routes.drop_last()) + routes.last().domain@ + " -> "@ + routes.last().target@
            + "\n"@
    }
}

/// The routing rules: an exact match wins over any wildcard; a wildcard
/// `*.X` matches exactly the hosts `w.X` with a non-empty `w`, so never `X`
/// itself; and with distinct source domains the route serving a host is
/// unique.
pub proof fn lemma_routing_rules(routes: Seq<Route>, d: Seq<char>, r1: Option<Route>, r2: Option<Route>)
    requires
        domains_unique(routes),
        resolves(routes, d, r1),
        resolves(routes, d, r2),
    ensures
        has_exact(routes, d) ==> (r1 matches Some(rt) && rt.domain@ == d),
        r1 == r2,
{
    if has_exact(routes, d) {
    } else if has_wildcard(routes, d) {
        let k1 = choose|k: int| #[trigger] is_best_wildcard(routes, d, k) && r1 == Some(routes[k]);
        let k2 = choose|k: int| #[trigger] is_best_wildcard(routes, d, k) && r2 == Some(routes[k]);
        assert(!outranks(routes[k1], routes[k2]));
        assert(!outranks(routes[k2], routes[k1]));
        let p1 = routes[k1].domain@;
        let p2 = routes[k2].domain@;
        assert(p1.len() == p2.len());
        assert(p1 =~= p2) by {
            assert forall|i: int| 0 <= i < p1.len() implies p1[i] == p2[i] by {
                if i >= 1 {
                    assert(p1.subrange(1, p1.len() as int)[i - 1] == p1[i]);
                    assert(p2.subrange(1, p2.len() as int)[i - 1] == p2[i]);
                }
            }
        }
        if k1 != k2 {
            assert(routes[k1].domain@ != routes[k2].domain@);
        }
    }
}

/// A wildcard `*.X` matches host `d` exactly when `d` is some non-empty
/// label sequence `w` followed by `.X`; in particular `X` itself is not
/// matched.
pub proof fn lemma_wildcard_scope(p: Seq<char>, d: Seq<char>)
    requires
        is_wildcard(p),
    ensures
        wildcard_matches(p, d) <==> exists|w: Seq<char>| w.len() > 0 && d == w + p.subrange(1, p.len() as int),
        !wildcard_matches(p, p.subrange(2, p.len() as int)),
{
    let s = p.subrange(1, p.len() as int);
    if wildcard_matches(p, d) {
        let w = d.subrange(0, d.len() - s.len());
        assert(d =~= w + s);
    }
    if exists|w: Seq<char>| w.len() > 0 && d == w + s {
        let w = choose|w: Seq<char>| w.len() > 0 && d == w + s;
        assert(d.subrange(d.len() - s.len(), d.len() as int) =~= s);
    }
}

} // verus!
