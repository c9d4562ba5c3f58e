//! The route table.
//!
//! An immutable, exact-match mapping from path to handler, built once at
//! startup, plus a single not-found fallback. Resolution is total: every
//! lookup yields exactly one handler — the registered one, or the fallback.

use crate::handlers::Handler;
use vstd::prelude::*;

verus! {

/// One registered route.
pub struct Route {
    pub path: String,
    pub handler: Handler,
}

/// No two routes share a path.
pub open spec fn spec_route_paths_unique(routes: Seq<Route>) -> bool {
    forall|i: int, j: int|
        0 <= i < j < routes.len() ==> routes[i].path@ != routes[j].path@
}

/// The handler the table yields for `path`: the first route whose path
/// matches exactly, or the fallback.
pub open spec fn spec_resolve_routes(routes: Seq<Route>, path: Seq<char>, not_found: Handler) -> Handler
    decreases routes.len(),
{
    if routes.len() == 0 {
        not_found
    } else if routes[0].path@ == path {
        routes[0].handler
    } else {
        spec_resolve_routes(routes.drop_first(), path, not_found)
    }
}

proof fn lemma_resolve_skip(routes: Seq<Route>, path: Seq<char>, not_found: Handler, i: int)
    requires
        0 <= i <= routes.len(),
        forall|k: int| 0 <= k < i ==> routes[k].path@ != path,
    ensures
        spec_resolve_routes(routes, path, not_found) == spec_resolve_routes(
            routes.skip(i),
            path,
            not_found,
        ),
    decreases i,
{
    if i > 0 {
        lemma_resolve_skip(routes, path, not_found, i - 1);
        assert(routes.skip(i - 1).drop_first() =~= routes.skip(i));
        assert(routes.skip(i - 1)[0] == routes[i - 1]);
    } else {
        assert(routes.skip(0) =~= routes);
    }
}

/// Registers `handler` under `path`, replacing any route already registered
/// there, as a map insertion would.
pub fn insert_route(routes: &mut Vec<Route>, path: String, handler: Handler)
    requires
        spec_route_paths_unique(old(routes)@),
    ensures
        spec_route_paths_unique(final(routes)@),
        final(routes)@.len() <= old(routes)@.len() + 1,
        forall|p: Seq<char>, nf: Handler|
            #[trigger] spec_resolve_routes(final(routes)@, p, nf) == if p == path@ {
                handler
            } else {
                spec_resolve_routes(old(routes)@, p, nf)
            },
{
    let n = routes.len();
    let mut i: usize = 0;
    while i < n
        invariant
            0 <= i <= n,
            n == routes@.len(),
            *routes == *old(routes),
            spec_route_paths_unique(routes@),
            forall|k: int| 0 <= k < i ==> routes@[k].path@ != path@,
        decreases n - i,
    {
        if routes[i].path == path {
            let ghost pre = routes@;
            routes.set(i, Route { path, handler });
            proof {
                lemma_insert_replace(pre, routes@, path@, i as int);
            }
            return ;
        }
        i += 1;
    }
    let ghost pre = routes@;
    routes.push(Route { path, handler });
    proof {
        lemma_insert_append(pre, routes@, path@);
    }
}

proof fn lemma_insert_replace(pre: Seq<Route>, post: Seq<Route>, path: Seq<char>, i: int)
    requires
        spec_route_paths_unique(pre),
        0 <= i < pre.len(),
        pre[i].path@ == path,
        post.len() == pre.len(),
        post[i].path@ == path,
        forall|k: int| 0 <= k < pre.len() && k != i ==> post[k] == pre[k],
    ensures
        spec_route_paths_unique(post),
        forall|p: Seq<char>, nf: Handler|
            #[trigger] spec_resolve_routes(post, p, nf) == if p == path {
                post[i].handler
            } else {
                spec_resolve_routes(pre, p, nf)
            },
    decreases i,
{
    assert forall|p: Seq<char>, nf: Handler|
        #[trigger] spec_resolve_routes(post, p, nf) == if p == path {
            post[i].handler
        } else {
            spec_resolve_routes(pre, p, nf)
        } by {
        lemma_resolve_prefix_update(pre, post, path, i, p, nf);
    }
}

proof fn lemma_resolve_prefix_update(
    pre: Seq<Route>,
    post: Seq<Route>,
    path: Seq<char>,
    i: int,
    p: Seq<char>,
    nf: Handler,
)
    requires
        spec_route_paths_unique(pre),
        0 <= i < pre.len(),
        pre[i].path@ == path,
        post.len() == pre.len(),
        post[i].path@ == path,
        forall|k: int| 0 <= k < pre.len() && k != i ==> post[k] == pre[k],
    ensures
        spec_resolve_routes(post, p, nf) == if p == path {
            post[i].handler
        } else {
            spec_resolve_routes(pre, p, nf)
        },
    decreases i,
{
    if i == 0 {
        if p == path {
        } else {
            assert(pre.drop_first() =~= post.drop_first());
        }
    } else {
        assert(pre[0] == post[0]);
        if pre[0].path@ == p {
        } else {
            lemma_resolve_prefix_update(
                pre.drop_first(),
                post.drop_first(),
                path,
                i - 1,
                p,
                nf,
            );
        }
    }
}

proof fn lemma_insert_append(pre: Seq<Route>, post: Seq<Route>, path: Seq<char>)
    requires
        spec_route_paths_unique(pre),
        forall|k: int| 0 <= k < pre.len() ==> pre[k].path@ != path,
        post.len() == pre.len() + 1,
        post[post.len() - 1].path@ == path,
        forall|k: int| 0 <= k < pre.len() ==> post[k] == pre[k],
    ensures
        spec_route_paths_unique(post),
        forall|p: Seq<char>, nf: Handler|
            #[trigger] spec_resolve_routes(post, p, nf) == if p == path {
                post[post.len() - 1].handler
            } else {
                spec_resolve_routes(pre, p, nf)
            },
    decreases pre.len(),
{
    assert forall|p: Seq<char>, nf: Handler|
        #[trigger] spec_resolve_routes(post, p, nf) == if p == path {
            post[post.len() - 1].handler
        } else {
            spec_resolve_routes(pre, p, nf)
        } by {
        lemma_resolve_append_one(pre, post, path, p, nf);
    }
}

proof fn lemma_resolve_append_one(
    pre: Seq<Route>,
    post: Seq<Route>,
    path: Seq<char>,
    p: Seq<char>,
    nf: Handler,
)
    requires
        forall|k: int| 0 <= k < pre.len() ==> pre[k].path@ != path,
        post.len() == pre.len() + 1,
        post[post.len() - 1].path@ == path,
        forall|k: int| 0 <= k < pre.len() ==> post[k] == pre[k],
    ensures
        spec_resolve_routes(post, p, nf) == if p == path {
            post[post.len() - 1].handler
        } else {
            spec_resolve_routes(pre, p, nf)
        },
    decreases pre.len(),
{
    if pre.len() == 0 {
        assert(post[0] == post[post.len() - 1]);
    } else {
        assert(post[0] == pre[0]);
        if pre[0].path@ == p {
        } else {
            assert(pre.drop_first().len() + 1 == post.drop_first().len());
            assert(forall|k: int|
                0 <= k < pre.drop_first().len() ==> post.drop_first()[k] == pre.drop_first()[k]);
            lemma_resolve_append_one(pre.drop_first(), post.drop_first(), path, p, nf);
        }
    }
}

/// The frozen path-to-handler mapping plus its single fallback.
pub struct RouteConfiguration {
    routes: Vec<Route>,
    not_found_handler: Handler,
}

impl RouteConfiguration {
    /// The registered routes, in registration order.
    pub closed spec fn spec_routes(&self) -> Seq<Route> {
        self.routes@
    }

    /// The fallback handler for unregistered paths.
    pub closed spec fn spec_not_found(&self) -> Handler {
        self.not_found_handler
    }

    /// The table is well formed: no two routes share a path.
    pub open spec fn wf(&self) -> bool {
        spec_route_paths_unique(self.spec_routes())
    }

    /// The handler this table yields for `path`.
    pub open spec fn spec_resolve(&self, path: Seq<char>) -> Handler {
        spec_resolve_routes(self.spec_routes(), path, self.spec_not_found())
    }

    /// Freezes a table from the given routes and fallback.
    pub fn new(routes: Vec<Route>, not_found_handler: Handler) -> (r: RouteConfiguration)
        requires
            spec_route_paths_unique(routes@),
        ensures
            r.wf(),
            r.spec_routes() == routes@,
            r.spec_not_found() == not_found_handler,
    {
        RouteConfiguration { routes, not_found_handler }
    }

    /// The registered routes.
    pub fn path_to_handler(&self) -> (r: &Vec<Route>)
        ensures
            r@ == self.spec_routes(),
    {
        &self.routes
    }

    /// The fallback handler.
    pub fn not_found_handler(&self) -> (r: &Handler)
        ensures
            *r == self.spec_not_found(),
    {
        &self.not_found_handler
    }

    /// Yields the handler registered for `path`, or the fallback where no
    /// route matches. Resolution never fails.
    pub fn resolve(&self, path: &String) -> (h: &Handler)
        ensures
            *h == self.spec_resolve(path@),
    {
        let n = self.routes.len();
        let mut i: usize = 0;
        while i < n
            invariant
                0 <= i <= n,
                n == self.routes@.len(),
                forall|k: int| 0 <= k < i ==> self.routes@[k].path@ != path@,
            decreases n - i,
        {
            if self.routes[i].path == *path {
                proof {
                    lemma_resolve_skip(self.routes@, path@, self.not_found_handler, i as int);
                    assert(self.routes@.skip(i as int)[0] == self.routes@[i as int]);
                }
                return &self.routes[i].handler;
            }
            i += 1;
        }
        proof {
            lemma_resolve_skip(self.routes@, path@, self.not_found_handler, n as int);
            assert(self.routes@.skip(n as int) =~= Seq::<Route>::empty());
        }
        &self.not_found_handler
    }
}

/// Every path registered in a well-formed table resolves to exactly the
/// handler registered for it.
pub proof fn lemma_resolve_registered(table: &RouteConfiguration, i: int)
    requires
        table.wf(),
        0 <= i < table.spec_routes().len(),
    ensures
        table.spec_resolve(table.spec_routes()[i].path@) == table.spec_routes()[i].handler,
{
    lemma_resolve_skip(
        table.spec_routes(),
        table.spec_routes()[i].path@,
        table.spec_not_found(),
        i,
    );
    assert(table.spec_routes().skip(i)[0] == table.spec_routes()[i]);
}

/// Every unregistered path resolves to the fallback handler.
pub proof fn lemma_resolve_unregistered(table: &RouteConfiguration, path: Seq<char>)
    requires
        forall|i: int|
            0 <= i < table.spec_routes().len() ==> table.spec_routes()[i].path@ != path,
    ensures
        table.spec_resolve(path) == table.spec_not_found(),
{
    lemma_resolve_skip(table.spec_routes(), path, table.spec_not_found(), table.spec_routes().len() as int);
    assert(table.spec_routes().skip(table.spec_routes().len() as int) =~= Seq::<Route>::empty());
}

} // verus!
