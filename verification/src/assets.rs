//! The static asset table.
//!
//! Assets are immutable byte blobs baked in at build time, each with a
//! declared content type and a flag saying whether the bytes are the gzip
//! variant of the asset. Routes map an exact request path to an asset; a
//! path that matches no route falls back to the first entry, the root
//! document.

use vstd::prelude::*;

verus! {

/// An immutable asset: payload bytes, a content-type value, and whether the
/// payload is the gzip-compressed variant.
pub struct StaticAsset {
    /// The bytes served as the response body, exactly as baked in.
    pub body: Vec<u8>,
    /// The value of the content-type header, e.g. `text/html`.
    pub content_type: Vec<u8>,
    /// True when `body` holds the gzip variant, announced in a
    /// content-encoding header.
    pub gzipped: bool,
}

impl StaticAsset {
    /// The content-type value is printable header material: nonempty, no
    /// carriage return, line feed, or space, so it cannot break the
    /// response framing.
    pub open spec fn wf(self) -> bool {
        &&& self.content_type@.len() > 0
        &&& forall|i: int|
            0 <= i < self.content_type@.len() ==> self.content_type@[i] != 13
                && self.content_type@[i] != 10 && self.content_type@[i] != 32
    }
}

/// One route: an exact path and the asset served for it.
pub struct Route {
    /// The request path matched exactly, beginning with `/`.
    pub path: Vec<u8>,
    /// The asset served on a match.
    pub asset: StaticAsset,
}

impl Route {
    /// The path is nonempty, starts with `/`, and holds no byte that could
    /// not appear in a request-target.
    pub open spec fn wf(self) -> bool {
        &&& self.path@.len() > 0
        &&& self.path@[0] == 47
        &&& forall|i: int|
            0 <= i < self.path@.len() ==> self.path@[i] != 13 && self.path@[i] != 10
                && self.path@[i] != 32
        &&& self.asset.wf()
    }
}

/// The ordered, fixed table of routes. Entry 0 is the root document and the
/// fallback for every unmatched path.
pub struct RouteTable {
    /// The routes, in match order.
    pub routes: Vec<Route>,
}

/// Index of the first route of `routes` at or after `i` whose path equals
/// `path` exactly.
pub open spec fn match_from(routes: Seq<Route>, path: Seq<u8>, i: int) -> Option<int>
    decreases routes.len() - i,
{
    if i < 0 || i >= routes.len() {
        None
    } else if routes[i].path@ == path {
        Some(i)
    } else {
        match_from(routes, path, i + 1)
    }
}

impl RouteTable {
    /// A usable table has at least the root entry, and every entry is
    /// well-formed.
    pub open spec fn wf(self) -> bool {
        &&& self.routes@.len() >= 1
        &&& forall|i: int| 0 <= i < self.routes@.len() ==> (#[trigger] self.routes@[i]).wf()
    }

    /// The entry served for `path`: the first exact match, or entry 0 when
    /// no route matches.
    pub open spec fn spec_route_index(self, path: Seq<u8>) -> int {
        match match_from(self.routes@, path, 0) {
            Some(i) => i,
            None => 0,
        }
    }

    /// There is a route whose path equals `path` exactly.
    pub open spec fn has_route(self, path: Seq<u8>) -> bool {
        exists|i: int| 0 <= i < self.routes@.len() && (#[trigger] self.routes@[i]).path@ == path
    }

    /// Looks up the entry served for a request path: the first route with
    /// that exact path, or entry 0 as the fallback.
    pub fn lookup(&self, path: &[u8]) -> (r: usize)
        requires
            self.wf(),
        ensures
            r < self.routes@.len(),
            r == self.spec_route_index(path@),
            self.has_route(path@) ==> self.routes@[r as int].path@ == path@,
            !self.has_route(path@) ==> r == 0,
    {
        let n = self.routes.len();
        let mut i: usize = 0;
        while i < n
            invariant
                self.wf(),
                n == self.routes@.len(),
                i <= n,
                forall|k: int| 0 <= k < i ==> (#[trigger] self.routes@[k]).path@ != path@,
            decreases n - i,
        {
            if bytes_eq(self.routes[i].path.as_slice(), path) {
                proof {
                    lemma_match_from_found(self.routes@, path@, 0, i as int);
                }
                return i;
            }
            i = i + 1;
        }
        proof {
            lemma_match_from_none(self.routes@, path@, 0);
        }
        0
    }
}

proof fn lemma_match_from_found(routes: Seq<Route>, path: Seq<u8>, from: int, j: int)
    requires
        0 <= from <= j < routes.len(),
        routes[j].path@ == path,
        forall|k: int| from <= k < j ==> (#[trigger] routes[k]).path@ != path,
    ensures
        match_from(routes, path, from) == Some(j),
    decreases j - from,
{
    if from < j {
        lemma_match_from_found(routes, path, from + 1, j);
    }
}

proof fn lemma_match_from_none(routes: Seq<Route>, path: Seq<u8>, from: int)
    requires
        0 <= from,
        forall|k: int| from <= k < routes.len() ==> (#[trigger] routes[k]).path@ != path,
    ensures
        match_from(routes, path, from) is None,
    decreases routes.len() - from,
{
    if from < routes.len() {
        lemma_match_from_none(routes, path, from + 1);
    }
}

/// A match found by `match_from` lies in range and matches exactly.
pub proof fn lemma_match_from_in_range(routes: Seq<Route>, path: Seq<u8>, from: int)
    requires
        0 <= from,
    ensures
        match_from(routes, path, from) matches Some(i) ==> from <= i < routes.len()
            && routes[i].path@ == path,
    decreases routes.len() - from,
{
    if from < routes.len() && routes[from].path@ != path {
        lemma_match_from_in_range(routes, path, from + 1);
    }
}

/// Where a matching route exists at or after `from`, `match_from` finds one.
pub proof fn lemma_match_from_finds(routes: Seq<Route>, path: Seq<u8>, from: int)
    requires
        0 <= from,
        exists|k: int| from <= k < routes.len() && (#[trigger] routes[k]).path@ == path,
    ensures
        match_from(routes, path, from) is Some,
    decreases routes.len() - from,
{
    let k = choose|k: int| from <= k < routes.len() && (#[trigger] routes[k]).path@ == path;
    if routes[from].path@ != path {
        assert(from + 1 <= k < routes.len() && routes[k].path@ == path);
        lemma_match_from_finds(routes, path, from + 1);
    }
}

impl RouteTable {
    /// The entry a path dispatches to is always inside the table.
    pub proof fn lemma_route_index_in_range(self, path: Seq<u8>)
        requires
            self.wf(),
        ensures
            0 <= self.spec_route_index(path) < self.routes@.len(),
    {
        lemma_match_from_in_range(self.routes@, path, 0);
    }

    /// Where some route's path equals `path`, the dispatched entry's path
    /// equals it too: exact matches are never served another route's asset.
    pub proof fn lemma_route_index_matches(self, path: Seq<u8>)
        requires
            self.wf(),
            self.has_route(path),
        ensures
            self.routes@[self.spec_route_index(path)].path@ == path,
    {
        lemma_match_from_finds(self.routes@, path, 0);
        lemma_match_from_in_range(self.routes@, path, 0);
    }

    /// Where no route's path equals `path`, dispatch falls back to entry 0.
    pub proof fn lemma_route_index_fallback(self, path: Seq<u8>)
        requires
            self.wf(),
            !self.has_route(path),
        ensures
            self.spec_route_index(path) == 0,
    {
        assert(forall|k: int|
            0 <= k < self.routes@.len() ==> (#[trigger] self.routes@[k]).path@ != path);
        lemma_match_from_none(self.routes@, path, 0);
    }
}

/// Byte-for-byte equality of two slices.
pub fn bytes_eq(a: &[u8], b: &[u8]) -> (r: bool)
    ensures
        r == (a@ == b@),
{
    if a.len() != b.len() {
        assert(a@ != b@) by {
            assert(a@.len() != b@.len());
        }
        return false;
    }
    let n = a.len();
    let mut i: usize = 0;
    while i < n
        invariant
            n == a@.len() == b@.len(),
            i <= n,
            forall|k: int| 0 <= k < i ==> a@[k] == b@[k],
        decreases n - i,
    {
        if a[i] != b[i] {
            return false;
        }
        i = i + 1;
    }
    proof {
        assert(a@ =~= b@);
    }
    true
}

/// The root document's path, `/`.
pub open spec fn root_path() -> Seq<u8> {
    seq![47u8]
}

/// The script route's path, `/web.js`.
pub open spec fn script_path() -> Seq<u8> {
    seq![47u8, 119u8, 101u8, 98u8, 46u8, 106u8, 115u8]
}

/// The application blob route's path, `/web_bg.wasm`.
pub open spec fn blob_path() -> Seq<u8> {
    seq![47u8, 119u8, 101u8, 98u8, 95u8, 98u8, 103u8, 46u8, 119u8, 97u8, 115u8, 109u8]
}

/// The content-type value `text/html`.
pub open spec fn html_content_type() -> Seq<u8> {
    seq![116u8, 101u8, 120u8, 116u8, 47u8, 104u8, 116u8, 109u8, 108u8]
}

/// The content-type value `text/javascript`.
pub open spec fn js_content_type() -> Seq<u8> {
    seq![
        116u8,
        101u8,
        120u8,
        116u8,
        47u8,
        106u8,
        97u8,
        118u8,
        97u8,
        115u8,
        99u8,
        114u8,
        105u8,
        112u8,
        116u8,
    ]
}

/// The content-type value `application/wasm`.
pub open spec fn wasm_content_type() -> Seq<u8> {
    seq![
        97u8,
        112u8,
        112u8,
        108u8,
        105u8,
        99u8,
        97u8,
        116u8,
        105u8,
        111u8,
        110u8,
        47u8,
        119u8,
        97u8,
        115u8,
        109u8,
    ]
}

/// Builds the site's fixed table: the root document under `/`, the script
/// under `/web.js`, and the application blob under `/web_bg.wasm`, each with
/// its content type and its gzip flag. The bodies are taken as baked in;
/// the table never changes afterwards.
/// Law: in the site's table each fixed route dispatches to its own entry —
/// the root document, the script and the application blob never shadow one
/// another.
pub proof fn lemma_site_routes_distinct(t: RouteTable)
    requires
        t.routes@.len() == 3,
        t.routes@[0].path@ == root_path(),
        t.routes@[1].path@ == script_path(),
        t.routes@[2].path@ == blob_path(),
    ensures
        t.spec_route_index(root_path()) == 0,
        t.spec_route_index(script_path()) == 1,
        t.spec_route_index(blob_path()) == 2,
{
    reveal_with_fuel(match_from, 4);
    assert(root_path().len() == 1);
    assert(script_path().len() == 7);
    assert(blob_path().len() == 12);
}

pub fn site_routes(
    index_body: Vec<u8>,
    index_gzipped: bool,
    script_body: Vec<u8>,
    script_gzipped: bool,
    blob_body: Vec<u8>,
    blob_gzipped: bool,
) -> (t: RouteTable)
    ensures
        t.wf(),
        t.routes@.len() == 3,
        t.routes@[0].path@ == root_path(),
        t.routes@[0].asset.content_type@ == html_content_type(),
        t.routes@[0].asset.body@ == index_body@,
        t.routes@[0].asset.gzipped == index_gzipped,
        t.routes@[1].path@ == script_path(),
        t.routes@[1].asset.content_type@ == js_content_type(),
        t.routes@[1].asset.body@ == script_body@,
        t.routes@[1].asset.gzipped == script_gzipped,
        t.routes@[2].path@ == blob_path(),
        t.routes@[2].asset.content_type@ == wasm_content_type(),
        t.routes@[2].asset.body@ == blob_body@,
        t.routes@[2].asset.gzipped == blob_gzipped,
{
    let mut routes: Vec<Route> = Vec::new();
    let mut root_p: Vec<u8> = Vec::new();
    root_p.push(47);
    assert(root_p@ =~= root_path());
    let mut root_ct: Vec<u8> = Vec::new();
    root_ct.push(116);
    root_ct.push(101);
    root_ct.push(120);
    root_ct.push(116);
    root_ct.push(47);
    root_ct.push(104);
    root_ct.push(116);
    root_ct.push(109);
    root_ct.push(108);
    assert(root_ct@ =~= html_content_type());
    routes.push(
        Route {
            path: root_p,
            asset: StaticAsset { body: index_body, content_type: root_ct, gzipped: index_gzipped },
        },
    );
    let mut script_p: Vec<u8> = Vec::new();
    script_p.push(47);
    script_p.push(119);
    script_p.push(101);
    script_p.push(98);
    script_p.push(46);
    script_p.push(106);
    script_p.push(115);
    assert(script_p@ =~= script_path());
    let mut script_ct: Vec<u8> = Vec::new();
    script_ct.push(116);
    script_ct.push(101);
    script_ct.push(120);
    script_ct.push(116);
    script_ct.push(47);
    script_ct.push(106);
    script_ct.push(97);
    script_ct.push(118);
    script_ct.push(97);
    script_ct.push(115);
    script_ct.push(99);
    script_ct.push(114);
    script_ct.push(105);
    script_ct.push(112);
    script_ct.push(116);
    assert(script_ct@ =~= js_content_type());
    routes.push(
        Route {
            path: script_p,
            asset: StaticAsset { body: script_body, content_type: script_ct, gzipped: script_gzipped },
        },
    );
    let mut blob_p: Vec<u8> = Vec::new();
    blob_p.push(47);
    blob_p.push(119);
    blob_p.push(101);
    blob_p.push(98);
    blob_p.push(95);
    blob_p.push(98);
    blob_p.push(103);
    blob_p.push(46);
    blob_p.push(119);
    blob_p.push(97);
    blob_p.push(115);
    blob_p.push(109);
    assert(blob_p@ =~= blob_path());
    let mut blob_ct: Vec<u8> = Vec::new();
    blob_ct.push(97);
    blob_ct.push(112);
    blob_ct.push(112);
    blob_ct.push(108);
    blob_ct.push(105);
    blob_ct.push(99);
    blob_ct.push(97);
    blob_ct.push(116);
    blob_ct.push(105);
    blob_ct.push(111);
    blob_ct.push(110);
    blob_ct.push(47);
    blob_ct.push(119);
    blob_ct.push(97);
    blob_ct.push(115);
    blob_ct.push(109);
    assert(blob_ct@ =~= wasm_content_type());
    routes.push(
        Route {
            path: blob_p,
            asset: StaticAsset { body: blob_body, content_type: blob_ct, gzipped: blob_gzipped },
        },
    );
    RouteTable { routes }
}

} // verus!
