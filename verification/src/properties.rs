//! Laws of the handler's decisions.
//!
//! Each proof function here states a guarantee that holds of every outcome
//! the handler can produce — over all roots, requests and filesystem
//! snapshots — and is proved from the handler's own contracts. The
//! traversal-containment law of the resolver itself lives beside the
//! resolver, as
//! [`lemma_traversal_containment`](crate::requested_path::lemma_traversal_containment).

use vstd::prelude::*;
use crate::errors::HandlerError;
use crate::http::{HttpRequest, Method, with_trailing_slash_spec};
use crate::requested_path::{has_trailing_slash, index_segment, resolved_path};
use crate::response::{Body, Response};
use crate::static_handler::{Static, handle_post, redirect_prefix};
use crate::vfs::{FileKind, Vfs, is_dir_at, is_file_at, stat_spec};

verus! {

/// A directory request missing its trailing slash, where an `index.html`
/// exists, is answered with a permanent redirect to the same URL plus
/// exactly one trailing slash — and both the `Location` header and the
/// body echo that exact URL.
pub proof fn lemma_redirect_on_missing_slash(
    st: Static,
    vfs: Vfs,
    req: HttpRequest,
    r: Result<Response, HandlerError>,
)
    requires
        handle_post(st, vfs.entries@, req, r),
        is_dir_at(vfs.entries@, resolved_path(st.root.deep_view(), req.path@)),
        is_file_at(
            vfs.entries@,
            resolved_path(st.root.deep_view(), req.path@).push(index_segment()),
        ),
        !has_trailing_slash(req.path@),
    ensures
        r matches Ok(resp) && {
            let target = with_trailing_slash_spec(req.effective_url());
            &&& resp.status == 301
            &&& (resp.headers.location matches Some(l) && l@ == target)
            &&& (resp.body matches Body::Text(t) && t@ == redirect_prefix() + target)
        },
{
}

/// A directory request with its trailing slash, where an `index.html`
/// exists, serves that file with status 200. The law is stated for an
/// unconditional GET: a conditional request may instead be answered
/// `304 Not Modified`, and a HEAD request carries no body.
pub proof fn lemma_index_served_with_slash(
    st: Static,
    vfs: Vfs,
    req: HttpRequest,
    r: Result<Response, HandlerError>,
)
    requires
        handle_post(st, vfs.entries@, req, r),
        is_dir_at(vfs.entries@, resolved_path(st.root.deep_view(), req.path@)),
        is_file_at(
            vfs.entries@,
            resolved_path(st.root.deep_view(), req.path@).push(index_segment()),
        ),
        has_trailing_slash(req.path@),
        req.if_modified_since is None,
        req.method != Method::Head,
    ensures
        r matches Ok(resp) && {
            &&& resp.status == 200
            &&& (resp.body matches Body::File(p) && p.deep_view() == resolved_path(
                st.root.deep_view(),
                req.path@,
            ).push(index_segment()))
        },
{
}

/// A request that matches neither a regular file nor a directory index is
/// answered 404. The outcome is an error carrying only a status and a
/// cause, so in particular no `Last-Modified` — or any other — header is
/// emitted.
pub proof fn lemma_not_found(
    st: Static,
    vfs: Vfs,
    req: HttpRequest,
    r: Result<Response, HandlerError>,
)
    requires
        handle_post(st, vfs.entries@, req, r),
        ({
            let full = resolved_path(st.root.deep_view(), req.path@);
            match stat_spec(vfs.entries@, full) {
                Err(k) => k == crate::vfs::IoErrorKind::NotFound,
                Ok(meta) => meta.kind != FileKind::Regular && !is_file_at(
                    vfs.entries@,
                    full.push(index_segment()),
                ),
            }
        }),
    ensures
        r matches Err(e) && e.status == 404,
{
}

/// Round trip: when serving with caching enabled yields a response, then
/// replaying that response's own `Last-Modified` value as the client's
/// `If-Modified-Since` — against an unchanged filesystem — yields
/// `304 Not Modified`.
pub proof fn lemma_not_modified_round_trip(
    st: Static,
    vfs: Vfs,
    req1: HttpRequest,
    r1: Result<Response, HandlerError>,
    req2: HttpRequest,
    r2: Result<Response, HandlerError>,
)
    requires
        handle_post(st, vfs.entries@, req1, r1),
        handle_post(st, vfs.entries@, req2, r2),
        st.cache is Some,
        req1.if_modified_since is None,
        (r1 matches Ok(resp1) && resp1.headers.last_modified matches Some(m)
            && req2.if_modified_since == Some(m)),
        req2.path@ == req1.path@,
    ensures
        r2 matches Ok(resp2) && resp2.status == 304 && resp2.body is Empty,
{
}

/// A client whose `If-Modified-Since` is older than the file's actual
/// modification time receives the full file again, with refreshed cache
/// headers. Stated for a GET of a path that resolves to a regular file.
pub proof fn lemma_stale_copy_served_fresh(
    st: Static,
    vfs: Vfs,
    req: HttpRequest,
    r: Result<Response, HandlerError>,
    c: crate::static_handler::Cache,
)
    requires
        handle_post(st, vfs.entries@, req, r),
        st.cache == Some(c),
        ({
            let full = resolved_path(st.root.deep_view(), req.path@);
            stat_spec(vfs.entries@, full) matches Ok(meta) && meta.kind == FileKind::Regular
                && (req.if_modified_since matches Some(t) && t < meta.modified)
        }),
        req.method != Method::Head,
    ensures
        r matches Ok(resp) && {
            let full = resolved_path(st.root.deep_view(), req.path@);
            let meta = stat_spec(vfs.entries@, full)->Ok_0;
            &&& resp.status == 200
            &&& (resp.body matches Body::File(p) && p.deep_view() == full)
            &&& resp.headers.cache_control == Some(
                crate::response::CacheControl { public: true, max_age: c.duration },
            )
            &&& resp.headers.last_modified == Some(meta.modified)
            &&& (resp.headers.etag matches Some(e) && e.weak)
        },
{
}

} // verus!
