//! Dispatch of method and path to the service's routes.
use vstd::prelude::*;
use vstd::string::*;

verus! {

/// The routes of the service.
#[derive(PartialEq, Eq, Structural, Clone, Copy, Debug)]
pub enum RouteKind {
    Index,
    AppCss,
    AppJs,
    ListLabels,
    CreateLabel,
    GetLabel,
    UpdateLabel,
    NotFound,
}

/// A matched route; `label` is the label name for `GetLabel` and
/// `UpdateLabel`, empty otherwise.
pub struct Route {
    pub kind: RouteKind,
    pub label: String,
}

/// `k` is the index of the first `?` in `uri`.
pub open spec fn first_query_mark(uri: Seq<char>, k: int) -> bool {
    &&& 0 <= k < uri.len()
    &&& uri[k] == '?'
    &&& forall|j: int| 0 <= j < k ==> uri[j] != '?'
}

/// The path part of a URI: everything before the first `?`.
pub open spec fn path_of(uri: Seq<char>) -> Seq<char> {
    if exists|k: int| first_query_mark(uri, k) {
        uri.take(choose|k: int| first_query_mark(uri, k))
    } else {
        uri
    }
}

/// Prefix of the label routes.
pub open spec fn label_prefix() -> Seq<char> {
    "/api/labels/"@
}

/// `path` is a label route: the prefix followed by a non-empty name, which
/// may itself contain `/`.
pub open spec fn is_label_path(path: Seq<char>) -> bool {
    path.len() > label_prefix().len() && path.take(label_prefix().len() as int) == label_prefix()
}

/// The route for a method and a path, exact routes first.
pub open spec fn route_kind(method: Seq<char>, path: Seq<char>) -> RouteKind {
    if method == "GET"@ && path == "/"@ {
        RouteKind::Index
    } else if method == "GET"@ && path == "/app.css"@ {
        RouteKind::AppCss
    } else if method == "GET"@ && path == "/app.js"@ {
        RouteKind::AppJs
    } else if method == "GET"@ && path == "/api/labels"@ {
        RouteKind::ListLabels
    } else if method == "POST"@ && path == "/api/labels"@ {
        RouteKind::CreateLabel
    } else if method == "GET"@ && is_label_path(path) {
        RouteKind::GetLabel
    } else if method == "PUT"@ && is_label_path(path) {
        RouteKind::UpdateLabel
    } else {
        RouteKind::NotFound
    }
}

/// The label name that a route carries.
pub open spec fn route_label(method: Seq<char>, path: Seq<char>) -> Seq<char> {
    match route_kind(method, path) {
        RouteKind::GetLabel | RouteKind::UpdateLabel => path.skip(label_prefix().len() as int),
        _ => Seq::empty(),
    }
}

fn chars_of(s: &str) -> (r: Vec<char>)
    ensures
        r@ == s@,
{
    let mut r: Vec<char> = Vec::new();
    for c in it: s.chars()
        invariant
            it.seq() == s@,
            r@ == s@.take(it.index() as int),
    {
        proof {
            assert(s@.take(it.index() as int + 1) =~= r@.push(c));
        }
        r.push(c);
    }
    proof {
        assert(s@.take(s@.len() as int) =~= s@);
    }
    r
}

/// Whether `v[lo..hi]` equals `w`.
fn slice_is(v: &Vec<char>, lo: usize, hi: usize, w: &Vec<char>) -> (r: bool)
    requires
        lo <= hi <= v.len(),
    ensures
        r == (v@.subrange(lo as int, hi as int) == w@),
{
    if hi - lo != w.len() {
        return false;
    }
    let mut i: usize = 0;
    while i < w.len()
        invariant
            hi - lo == w.len(),
            lo <= hi <= v.len(),
            i <= w.len(),
            forall|j: int| 0 <= j < i ==> v@[lo + j] == w@[j],
        decreases w.len() - i,
    {
        if v[lo + i] != w[i] {
            return false;
        }
        i = i + 1;
    }
    proof {
        assert(v@.subrange(lo as int, hi as int) =~= w@);
    }
    true
}

/// Index of the first `?` in `v`, or its length if there is none.
fn query_start(v: &Vec<char>) -> (r: usize)
    ensures
        r <= v.len(),
        r < v.len() ==> first_query_mark(v@, r as int),
        r == v.len() ==> forall|j: int| 0 <= j < v.len() ==> v@[j] != '?',
{
    let mut i: usize = 0;
    while i < v.len()
        invariant
            i <= v.len(),
            forall|j: int| 0 <= j < i ==> v@[j] != '?',
        decreases v.len() - i,
    {
        if v[i] == '?' {
            return i;
        }
        i = i + 1;
    }
    i
}

/// Matches a request's method and URI to a route. The query string, from the
/// first `?` on, is not consulted.
pub fn route(method: &str, uri: &str) -> (r: Route)
    ensures
        r.kind == route_kind(method@, path_of(uri@)),
        r.label@ == route_label(method@, path_of(uri@)),
{
    let m = chars_of(method);
    let u = chars_of(uri);
    let end = query_start(&u);
    proof {
        if end < u.len() {
            assert(first_query_mark(u@, end as int));
            let k = choose|k: int| first_query_mark(u@, k);
            assert(k == end as int) by {
                if k < end {
                    assert(u@[k] != '?');
                } else if k > end {
                    assert(u@[end as int] != '?');
                }
            }
            assert(path_of(uri@) == u@.take(end as int));
        } else {
            assert(u@.take(end as int) =~= u@);
            assert(path_of(uri@) == u@.take(end as int));
        }
        assert(u@.subrange(0, end as int) =~= u@.take(end as int));
    }
    let ghost path = path_of(uri@);
    proof {
        reveal_strlit("GET");
        reveal_strlit("POST");
        reveal_strlit("PUT");
        reveal_strlit("/api/labels/");
    }
    let get = slice_is(&m, 0, m.len(), &chars_of("GET"));
    let post = slice_is(&m, 0, m.len(), &chars_of("POST"));
    let put = slice_is(&m, 0, m.len(), &chars_of("PUT"));
    proof {
        assert(m@.subrange(0, m.len() as int) =~= m@);
    }
    let kind = if get && slice_is(&u, 0, end, &chars_of("/")) {
        RouteKind::Index
    } else if get && slice_is(&u, 0, end, &chars_of("/app.css")) {
        RouteKind::AppCss
    } else if get && slice_is(&u, 0, end, &chars_of("/app.js")) {
        RouteKind::AppJs
    } else if get && slice_is(&u, 0, end, &chars_of("/api/labels")) {
        RouteKind::ListLabels
    } else if post && slice_is(&u, 0, end, &chars_of("/api/labels")) {
        RouteKind::CreateLabel
    } else {
        let prefix = chars_of("/api/labels/");
        let labelled = end > prefix.len() && slice_is(&u, 0, prefix.len(), &prefix);
        proof {
            if end > prefix.len() {
                assert(u@.subrange(0, prefix.len() as int) =~= path.take(prefix.len() as int));
            }
        }
        if get && labelled {
            RouteKind::GetLabel
        } else if put && labelled {
            RouteKind::UpdateLabel
        } else {
            RouteKind::NotFound
        }
    };
    let label = if kind == RouteKind::GetLabel || kind == RouteKind::UpdateLabel {
        let name = uri.substring_char(12, end);
        proof {
            assert(name@ =~= path.skip(label_prefix().len() as int));
        }
        name.to_owned()
    } else {
        String::new()
    };
    Route { kind, label }
}

} // verus!
