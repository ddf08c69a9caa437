//! A handler that extends [`Static`](crate::static_handler::Static) with
//! conditional-request caching.
//!
//! If the client already holds a copy of the requested file and the file
//! has not been modified since, this handler answers `304 Not Modified`
//! instead of the file. Everything else defers to the plain static
//! handler, with fixed cache headers added to a successful response.

use vstd::prelude::*;
use crate::errors::{ErrorCause, FileError, HandlerError};
use crate::http::HttpRequest;
use crate::requested_path::{RequestedPath, get_file_spec, has_trailing_slash, resolved_path};
use crate::response::{Body, CacheControl, Headers, Response, empty_headers};
use crate::static_handler::{Static, handle_post};
use crate::vfs::{FileKind, Vfs, VfsEntry, stat_spec};

verus! {

/// The fixed freshness lifetime this handler advertises: one year, in
/// seconds.
pub const YEAR_SECS: u64 = 31536000;

/// Extends the `Static` handler with `304 Not Modified` caching.
pub struct StaticWithCache {
    /// The plain handler that resolution and serving defer to.
    pub static_handler: Static,
}

/// What deferring to the plain handler and stamping cache headers on its
/// response yields: an error is passed through unchanged; a successful
/// response is the deferred one with `Cache-Control: public, max-age=` of
/// one year and `Last-Modified` at `modified` set on it.
pub open spec fn defer_and_cache_post(
    st: Static,
    entries: Seq<VfsEntry>,
    req: HttpRequest,
    modified: u64,
    r: Result<Response, HandlerError>,
) -> bool {
    match r {
        Err(_) => handle_post(st, entries, req, r),
        Ok(resp) => exists|deferred: Response|
            {
                &&& #[trigger] handle_post(st, entries, req, Ok(deferred))
                &&& resp == (Response {
                    headers: Headers {
                        cache_control: Some(CacheControl { public: true, max_age: YEAR_SECS }),
                        last_modified: Some(modified),
                        ..deferred.headers
                    },
                    ..deferred
                })
            },
    }
}

/// The whole decision of [`StaticWithCache::call`]: where the request
/// resolves to a file (or directory index) whose metadata is readable, the
/// client's fresh copy is answered `304 Not Modified`, a stale or absent
/// copy gets the deferred response with cache headers, and a metadata
/// failure is an internal error; everything else is exactly the plain
/// handler's decision.
pub open spec fn call_post(
    h: StaticWithCache,
    entries: Seq<VfsEntry>,
    req: HttpRequest,
    r: Result<Response, HandlerError>,
) -> bool {
    let st = h.static_handler;
    let full = resolved_path(st.root.deep_view(), req.path@);
    match stat_spec(entries, full) {
        Err(_) => handle_post(st, entries, req, r),
        Ok(meta) => {
            if meta.kind == FileKind::Directory && !has_trailing_slash(req.path@) {
                handle_post(st, entries, req, r)
            } else {
                match get_file_spec(full, meta, entries) {
                    None => handle_post(st, entries, req, r),
                    Some(file) => match stat_spec(entries, file) {
                        Err(k) => (r matches Err(e) && e.status == 500 && e.cause
                            == ErrorCause::Io(FileError(k))),
                        Ok(fm) => match req.if_modified_since {
                            Some(t) => if fm.modified <= t {
                                r == Ok::<Response, HandlerError>(
                                    Response {
                                        status: 304u16,
                                        headers: empty_headers(),
                                        body: Body::Empty,
                                    },
                                )
                            } else {
                                defer_and_cache_post(st, entries, req, fm.modified, r)
                            },
                            None => defer_and_cache_post(st, entries, req, fm.modified, r),
                        },
                    },
                }
            }
        },
    }
}

impl StaticWithCache {
    /// Create a new instance of `StaticWithCache` with a given root path,
    /// handed in as segments. An empty segment list serves from the
    /// current directory.
    pub fn new(root_path: Vec<Vec<u8>>) -> (r: StaticWithCache)
        ensures
            r.static_handler.root == root_path,
            r.static_handler.cache is None,
    {
        StaticWithCache { static_handler: Static::new(root_path) }
    }

    // Defers to the static handler, but adds cache headers to the response.
    fn defer_and_cache(&self, vfs: &Vfs, request: &HttpRequest, modified: u64) -> (r: Result<
        Response,
        HandlerError,
    >)
        ensures
            defer_and_cache_post(self.static_handler, vfs.entries@, *request, modified, r),
    {
        match self.static_handler.handle(vfs, request) {
            Err(error) => Err(error),
            Ok(response) => {
                let ghost deferred = response;
                let mut response = response;
                response.headers.cache_control = Some(
                    CacheControl { public: true, max_age: YEAR_SECS },
                );
                response.headers.last_modified = Some(modified);
                proof {
                    assert(handle_post(
                        self.static_handler,
                        vfs.entries@,
                        *request,
                        Ok(deferred),
                    ));
                }
                Ok(response)
            },
        }
    }

    /// Decide one request: answer `304 Not Modified` when the client's
    /// copy of the resolved file is current, and defer to the plain
    /// handler — adding cache headers to a served file — otherwise.
    pub fn call(&self, vfs: &Vfs, request: &HttpRequest) -> (r: Result<Response, HandlerError>)
        ensures
            call_post(*self, vfs.entries@, *request, r),
    {
        let requested_path = RequestedPath::new(&self.static_handler.root, request);
        let metadata = match vfs.stat(&requested_path.path) {
            Err(_) => {
                return self.static_handler.handle(vfs, request);
            },
            Ok(metadata) => metadata,
        };
        if requested_path.should_redirect(&metadata, request) {
            return self.static_handler.handle(vfs, request);
        }
        match requested_path.get_file(&metadata, vfs) {
            Some(file) => {
                let last_modified_time = match vfs.stat(&file) {
                    Err(k) => {
                        return Err(HandlerError::from_io_with_status(k, 500));
                    },
                    Ok(file_stat) => file_stat.modified,
                };
                match request.if_modified_since {
                    None => self.defer_and_cache(vfs, request, last_modified_time),
                    Some(tm) => {
                        if last_modified_time <= tm {
                            Ok(Response::with_status(304))
                        } else {
                            self.defer_and_cache(vfs, request, last_modified_time)
                        }
                    },
                }
            },
            None => self.static_handler.handle(vfs, request),
        }
    }
}

} // verus!
