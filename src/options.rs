use vstd::prelude::*;
use crate::text::{join_with, joined_with};
use vstd::string::StringExecFns;

verus! {

/// A mounted route, as far as `OPTIONS` handling reads it.
pub struct RouteInfo {
    pub path: String,
    /// The method name, upper case (`GET`, `OPTIONS`, ...).
    pub method: String,
}

/// An `OPTIONS` route to add: a path and the methods already bound there.
pub struct OptionsRoute {
    pub path: String,
    pub methods: Vec<String>,
}

/// The distinct paths of the routes, in order of first appearance.
pub open spec fn distinct_paths(routes: Seq<RouteInfo>) -> Seq<Seq<char>>
    decreases routes.len(),
{
    if routes.len() == 0 {
        Seq::empty()
    } else {
        let before = distinct_paths(routes.drop_last());
        let p = routes.last().path@;
        if before.contains(p) {
            before
        } else {
            before.push(p)
        }
    }
}

/// The distinct methods bound at `path`, in order of first appearance.
pub open spec fn methods_at(routes: Seq<RouteInfo>, path: Seq<char>) -> Seq<Seq<char>>
    decreases routes.len(),
{
    if routes.len() == 0 {
        Seq::empty()
    } else {
        let before = methods_at(routes.drop_last(), path);
        let r = routes.last();
        if r.path@ == path && !before.contains(r.method@) {
            before.push(r.method@)
        } else {
            before
        }
    }
}

/// The paths among `paths` that have no `OPTIONS` route of their own.
pub open spec fn paths_without_options(routes: Seq<RouteInfo>, paths: Seq<Seq<char>>) -> Seq<Seq<char>>
    decreases paths.len(),
{
    if paths.len() == 0 {
        Seq::empty()
    } else {
        let before = paths_without_options(routes, paths.drop_last());
        if methods_at(routes, paths.last()).contains("OPTIONS"@) {
            before
        } else {
            before.push(paths.last())
        }
    }
}

/// The paths that get a generated `OPTIONS` route.
pub open spec fn options_paths(routes: Seq<RouteInfo>) -> Seq<Seq<char>> {
    paths_without_options(routes, distinct_paths(routes))
}

/// Whether `items` holds `s`.
pub fn contains_string(items: &Vec<String>, s: &String) -> (r: bool)
    ensures
        r == items.deep_view().contains(s@),
{
    let mut i: usize = 0;
    while i < items.len()
        invariant
            i <= items@.len(),
            forall|j: int| 0 <= j < i ==> items.deep_view()[j] != s@,
        decreases items@.len() - i,
    {
        if items[i] == *s {
            assert(items.deep_view()[i as int] == s@);
            return true;
        }
        i = i + 1;
    }
    false
}

/// The distinct methods bound at `path`.
pub fn methods_for_path(routes: &Vec<RouteInfo>, path: &String) -> (r: Vec<String>)
    ensures
        r.deep_view() == methods_at(routes@, path@),
{
    let mut out: Vec<String> = Vec::new();
    let mut i: usize = 0;
    while i < routes.len()
        invariant
            i <= routes@.len(),
            out.deep_view() == methods_at(routes@.take(i as int), path@),
        decreases routes@.len() - i,
    {
        proof {
            assert(routes@.take(i + 1).drop_last() =~= routes@.take(i as int));
        }
        if routes[i].path == *path && !contains_string(&out, &routes[i].method) {
            out.push(routes[i].method.clone());
            assert(out.deep_view() =~= methods_at(routes@.take(i + 1), path@));
        }
        i = i + 1;
    }
    assert(routes@.take(routes@.len() as int) =~= routes@);
    out
}

/// The distinct paths of the routes.
pub fn paths_of(routes: &Vec<RouteInfo>) -> (r: Vec<String>)
    ensures
        r.deep_view() == distinct_paths(routes@),
{
    let mut out: Vec<String> = Vec::new();
    let mut i: usize = 0;
    while i < routes.len()
        invariant
            i <= routes@.len(),
            out.deep_view() == distinct_paths(routes@.take(i as int)),
        decreases routes@.len() - i,
    {
        proof {
            assert(routes@.take(i + 1).drop_last() =~= routes@.take(i as int));
        }
        if !contains_string(&out, &routes[i].path) {
            out.push(routes[i].path.clone());
            assert(out.deep_view() =~= distinct_paths(routes@.take(i + 1)));
        }
        i = i + 1;
    }
    assert(routes@.take(routes@.len() as int) =~= routes@);
    out
}

/// The `OPTIONS` routes to add: one per path that has none, advertising the
/// methods bound there.
pub fn options_routes(routes: &Vec<RouteInfo>) -> (r: Vec<OptionsRoute>)
    ensures
        r@.len() == options_paths(routes@).len(),
        forall|i: int|
            0 <= i < r@.len() ==> {
                &&& (#[trigger] r@[i]).path@ == options_paths(routes@)[i]
                &&& r@[i].methods.deep_view() == methods_at(routes@, options_paths(routes@)[i])
            },
{
    let paths = paths_of(routes);
    let options = String::from_str("OPTIONS");
    proof {
        reveal_strlit("OPTIONS");
    }
    let mut out: Vec<OptionsRoute> = Vec::new();
    let mut i: usize = 0;
    while i < paths.len()
        invariant
            i <= paths@.len(),
            paths.deep_view() == distinct_paths(routes@),
            options@ == "OPTIONS"@,
            out@.len() == paths_without_options(routes@, paths.deep_view().take(i as int)).len(),
            forall|k: int|
                0 <= k < out@.len() ==> {
                    &&& (#[trigger] out@[k]).path@ == paths_without_options(
                        routes@,
                        paths.deep_view().take(i as int),
                    )[k]
                    &&& out@[k].methods.deep_view() == methods_at(
                        routes@,
                        paths_without_options(routes@, paths.deep_view().take(i as int))[k],
                    )
                },
        decreases paths@.len() - i,
    {
        let ghost prefix = paths.deep_view().take(i as int);
        let ghost next = paths.deep_view().take(i + 1);
        proof {
            assert(next.drop_last() =~= prefix);
            assert(next.last() == paths[i as int]@);
        }
        let methods = methods_for_path(routes, &paths[i]);
        if !contains_string(&methods, &options) {
            out.push(OptionsRoute { path: paths[i].clone(), methods });
        }
        i = i + 1;
    }
    proof {
        assert(paths.deep_view().take(paths@.len() as int) =~= paths.deep_view());
    }
    out
}

/// The value of `Access-Control-Allow-Methods` for the given methods.
pub fn allow_methods(methods: &Vec<String>) -> (r: String)
    ensures
        r@ == joined_with(methods.deep_view(), ", "@),
{
    join_with(methods, ", ")
}

} // verus!
