//! The request/response boundary.
//!
//! Three endpoints: the index page, the favicon, and the metrics document.
//! Serving metrics counts as activity and reads the latest published
//! snapshot; every body goes through content negotiation; an unknown path
//! gets a plain-text not-found reply.  The HTTP transport itself is the
//! caller's: it hands in the request path and `Accept-Encoding` value as
//! bytes and sends out whatever comes back.

use vstd::prelude::*;
use vstd::slice::slice_to_vec;
use vstd::string::StrSliceExecFns;
use vstd::string::StringSliceAdditionalSpecFns;

use crate::activity::ActivityTracker;
use crate::activity::SharedTracker;
use crate::activity::touched;
use crate::cache::SharedCache;
use crate::cache::SnapshotCache;
use crate::negotiate::gzip_fast_of;
use crate::negotiate::negotiate;
use crate::negotiate::wants_gzip;

verus! {

/// Whether two byte slices hold the same bytes.
pub fn bytes_eq(a: &[u8], b: &[u8]) -> (r: bool)
    ensures
        r == (a@ == b@),
{
    if a.len() != b.len() {
        return false;
    }
    let n: usize = a.len();
    let mut i: usize = 0;
    while i < n
        invariant
            i <= n,
            n == a@.len(),
            n == b@.len(),
            forall|j: int| 0 <= j < i ==> a@[j] == b@[j],
        decreases n - i,
    {
        if a[i] != b[i] {
            return false;
        }
        i = i + 1;
    }
    proof {
        assert(a@ =~= b@);
    }
    true
}

/// The three endpoints, and everything else.
#[derive(Clone, Copy, PartialEq, Eq, Structural, Debug)]
pub enum Route {
    /// The static index document.
    Index,
    /// The static icon bytes.
    Favicon,
    /// The latest snapshot as JSON.
    Metrics,
    /// Any other path.
    NotFound,
}

/// Which endpoint a request path names.
pub open spec fn route_spec(p: Seq<u8>) -> Route {
    if p == "/favicon.ico".spec_bytes() {
        Route::Favicon
    } else if p == "/sysinfo.json".spec_bytes() {
        Route::Metrics
    } else if p == "/".spec_bytes() {
        Route::Index
    } else {
        Route::NotFound
    }
}

/// Resolves a request path to its endpoint.
pub fn route_of(path: &[u8]) -> (r: Route)
    ensures
        r == route_spec(path@),
{
    if bytes_eq(path, "/favicon.ico".as_bytes()) {
        Route::Favicon
    } else if bytes_eq(path, "/sysinfo.json".as_bytes()) {
        Route::Metrics
    } else if bytes_eq(path, "/".as_bytes()) {
        Route::Index
    } else {
        Route::NotFound
    }
}

/// What the body of a reply is.
#[derive(Clone, Copy, PartialEq, Eq, Structural, Debug)]
pub enum ContentKind {
    /// An HTML document.
    Html,
    /// An icon image.
    Icon,
    /// A JSON document.
    Json,
    /// Plain text.
    Plain,
}

/// A finished reply for the HTTP boundary to send.
pub struct HttpReply {
    /// The HTTP status code.
    pub status: u16,
    /// What the body is; the boundary maps it to a content-type value.
    pub kind: ContentKind,
    /// Whether a `Content-Encoding: gzip` header must accompany the body.
    pub gzipped: bool,
    /// The body bytes.
    pub body: Vec<u8>,
}

/// The status each endpoint answers with.
pub open spec fn status_spec(r: Route) -> u16 {
    if r is NotFound {
        404u16
    } else {
        200u16
    }
}

/// The content kind each endpoint answers with.
pub open spec fn kind_spec(r: Route) -> ContentKind {
    match r {
        Route::Index => ContentKind::Html,
        Route::Favicon => ContentKind::Icon,
        Route::Metrics => ContentKind::Json,
        Route::NotFound => ContentKind::Plain,
    }
}

/// The body text of a not-found reply.
pub open spec fn not_found_text() -> Seq<u8> {
    "you get a 404, and *you* get a 404...".spec_bytes()
}

/// The body text of a server-error reply.
pub open spec fn server_error_text() -> Seq<u8> {
    ":fire: this is fine".spec_bytes()
}

/// The payload an endpoint serves, before negotiation: the index document,
/// the icon, the current snapshot, or the not-found text.
pub open spec fn served_payload(
    r: Route,
    index_doc: Seq<u8>,
    favicon: Seq<u8>,
    snapshot: Seq<u8>,
) -> Seq<u8> {
    match r {
        Route::Index => index_doc,
        Route::Favicon => favicon,
        Route::Metrics => snapshot,
        Route::NotFound => not_found_text(),
    }
}

/// Answers one GET request.
///
/// The path picks the endpoint; a metrics request counts as activity at
/// instant `now` and serves the latest published snapshot; the body leaves
/// through content negotiation, except the not-found text, which is always
/// sent plain.
pub fn respond(
    path: &[u8],
    index_doc: &[u8],
    favicon: &[u8],
    cache: &SnapshotCache,
    tracker: &mut ActivityTracker,
    now: u64,
    accept_encoding: Option<&[u8]>,
) -> (r: HttpReply)
    requires
        cache.wf(),
    ensures
        ({
            let route = route_spec(path@);
            let payload = served_payload(route, index_doc@, favicon@, cache.current());
            &&& r.status == status_spec(route)
            &&& r.kind == kind_spec(route)
            &&& r.gzipped ==> r.body@ == gzip_fast_of(payload)
            &&& !r.gzipped ==> r.body@ == payload
            &&& r.gzipped == (wants_gzip(match accept_encoding {
                Some(h) => Some(h@),
                None => None,
            }) && !(route is NotFound))
            &&& route is Metrics ==> final(tracker).last_seen() == touched(
                old(tracker).last_seen(),
                now,
            )
            &&& !(route is Metrics) ==> *final(tracker) == *old(tracker)
        }),
{
    let route = route_of(path);
    match route {
        Route::Index => {
            let d = negotiate(accept_encoding, slice_to_vec(index_doc));
            HttpReply { status: 200, kind: ContentKind::Html, gzipped: d.gzipped, body: d.body }
        },
        Route::Favicon => {
            let d = negotiate(accept_encoding, slice_to_vec(favicon));
            HttpReply { status: 200, kind: ContentKind::Icon, gzipped: d.gzipped, body: d.body }
        },
        Route::Metrics => {
            tracker.touch(now);
            let payload = cache.read();
            let d = negotiate(accept_encoding, payload);
            HttpReply { status: 200, kind: ContentKind::Json, gzipped: d.gzipped, body: d.body }
        },
        Route::NotFound => {
            let body = "you get a 404, and *you* get a 404...".as_bytes_vec();
            HttpReply { status: 404, kind: ContentKind::Plain, gzipped: false, body }
        },
    }
}

/// Answers one GET request against the shared collaborators.
///
/// The same decisions as [`respond`], made under the two locks: a metrics
/// request touches the shared tracker at instant `now` and serves whatever
/// payload the shared slot holds — by the slot's invariant, the last entry
/// of some well-formed publication history, never a torn value.
pub fn handle_request(
    path: &[u8],
    index_doc: &[u8],
    favicon: &[u8],
    cache: &SharedCache,
    tracker: &SharedTracker,
    now: u64,
    accept_encoding: Option<&[u8]>,
) -> (r: HttpReply)
    requires
        cache.wf(),
        tracker.wf(),
    ensures
        ({
            let route = route_spec(path@);
            &&& r.status == status_spec(route)
            &&& r.kind == kind_spec(route)
            &&& r.gzipped == (wants_gzip(match accept_encoding {
                Some(h) => Some(h@),
                None => None,
            }) && !(route is NotFound))
            &&& route is Index ==> (if r.gzipped {
                r.body@ == gzip_fast_of(index_doc@)
            } else {
                r.body@ == index_doc@
            })
            &&& route is Favicon ==> (if r.gzipped {
                r.body@ == gzip_fast_of(favicon@)
            } else {
                r.body@ == favicon@
            })
            &&& route is Metrics ==> exists|c: SnapshotCache|
                {
                    &&& #[trigger] c.wf()
                    &&& (if r.gzipped {
                        r.body@ == gzip_fast_of(c.current())
                    } else {
                        r.body@ == c.current()
                    })
                }
            &&& route is NotFound ==> !r.gzipped && r.body@ == not_found_text()
        }),
{
    let route = route_of(path);
    match route {
        Route::Index => {
            let d = negotiate(accept_encoding, slice_to_vec(index_doc));
            HttpReply { status: 200, kind: ContentKind::Html, gzipped: d.gzipped, body: d.body }
        },
        Route::Favicon => {
            let d = negotiate(accept_encoding, slice_to_vec(favicon));
            HttpReply { status: 200, kind: ContentKind::Icon, gzipped: d.gzipped, body: d.body }
        },
        Route::Metrics => {
            tracker.touch(now);
            let payload = cache.read();
            let d = negotiate(accept_encoding, payload);
            HttpReply { status: 200, kind: ContentKind::Json, gzipped: d.gzipped, body: d.body }
        },
        Route::NotFound => {
            let body = "you get a 404, and *you* get a 404...".as_bytes_vec();
            HttpReply { status: 404, kind: ContentKind::Plain, gzipped: false, body }
        },
    }
}

/// Maps a boundary failure status to a reply, as far as this library owns
/// one: not-found and server-error get plain-text bodies, anything else is
/// left to the boundary.
pub fn error_reply(status: u16) -> (r: Option<HttpReply>)
    ensures
        status == 404 ==> (r matches Some(rep) && rep.status == 404 && rep.kind is Plain
            && !rep.gzipped && rep.body@ == not_found_text()),
        status == 500 ==> (r matches Some(rep) && rep.status == 500 && rep.kind is Plain
            && !rep.gzipped && rep.body@ == server_error_text()),
        status != 404 && status != 500 ==> r is None,
{
    if status == 404 {
        let body = "you get a 404, and *you* get a 404...".as_bytes_vec();
        Some(HttpReply { status: 404, kind: ContentKind::Plain, gzipped: false, body })
    } else if status == 500 {
        let body = ":fire: this is fine".as_bytes_vec();
        Some(HttpReply { status: 500, kind: ContentKind::Plain, gzipped: false, body })
    } else {
        None
    }
}

} // verus!
