//! The static file-serving handler.
//!
//! [`Static`] serves files from a single root path. An incoming request is
//! mapped onto the filesystem by resolving its URL path below that root. If
//! the resolved path names a regular file, the handler serves it. If it
//! names a directory holding an `index.html`, the handler serves that — or,
//! when the URL lacks its trailing slash, redirects to the slash-terminated
//! URL so that relative links inside the page stay correct. Anything else
//! is a not-found outcome.
//!
//! With a [`Cache`] attached, a served file carries `Cache-Control`,
//! `Last-Modified` and a weak `ETag`, and a request whose
//! `If-Modified-Since` is at least the file's modification time is answered
//! with `304 Not Modified` and no body.

use vstd::prelude::*;
use crate::bytes::{append_bytes, clone_bytes, clone_path};
use crate::errors::{ErrorCause, FileError, HandlerError, status_for_io};
use crate::http::{HttpRequest, Method, with_trailing_slash, with_trailing_slash_spec};
use crate::requested_path::{
    RequestedPath, get_file_spec, has_trailing_slash, index_segment, index_segment_vec,
    resolved_path,
};
use crate::response::{Body, CacheControl, EntityTag, Response, empty_headers, etag_tag, text_plain};
use crate::vfs::{FileKind, Vfs, VfsEntry, is_file_at, stat_spec};

verus! {

/// Thrown if no file is found. It is always accompanied by a not-found
/// response.
#[derive(Debug)]
pub struct NoFile;

impl NoFile {
    /// The fixed description of this error.
    pub fn description(&self) -> (r: &'static str)
        ensures
            r@ == "File not found"@,
    {
        "File not found"
    }
}

/// The text `Redirecting to `, which opens a redirect response's body.
pub open spec fn redirect_prefix() -> Seq<u8> {
    seq![
        'R' as u8,
        'e' as u8,
        'd' as u8,
        'i' as u8,
        'r' as u8,
        'e' as u8,
        'c' as u8,
        't' as u8,
        'i' as u8,
        'n' as u8,
        'g' as u8,
        ' ' as u8,
        't' as u8,
        'o' as u8,
        ' ' as u8,
    ]
}

fn redirect_prefix_vec() -> (r: Vec<u8>)
    ensures
        r@ == redirect_prefix(),
{
    let mut r: Vec<u8> = Vec::new();
    r.push('R' as u8);
    r.push('e' as u8);
    r.push('d' as u8);
    r.push('i' as u8);
    r.push('r' as u8);
    r.push('e' as u8);
    r.push('c' as u8);
    r.push('t' as u8);
    r.push('i' as u8);
    r.push('n' as u8);
    r.push('g' as u8);
    r.push(' ' as u8);
    r.push('t' as u8);
    r.push('o' as u8);
    r.push(' ' as u8);
    proof {
        assert(r@ =~= redirect_prefix());
    }
    r
}

/// A modifier for [`Static`] to specify a response's `Cache-Control`.
#[derive(Clone, Copy, PartialEq, Eq, Structural, Debug)]
pub struct Cache {
    /// The advertised freshness lifetime of served files, in seconds.
    pub duration: u64,
}

/// The static file-serving handler: the root path files are served from,
/// and the optional caching policy.
#[derive(Clone)]
pub struct Static {
    /// The path this handler is serving files from, as segments.
    pub root: Vec<Vec<u8>>,
    /// The caching policy, when one is attached.
    pub cache: Option<Cache>,
}

/// The content type a HEAD response carries: the request's own, or
/// `text/plain` when the request named none.
pub open spec fn head_content_type(req: HttpRequest) -> Seq<u8> {
    match req.content_type {
        Some(ct) => ct@,
        None => text_plain(),
    }
}

/// What a full cached response holds, when `stat` of the served path gave
/// `meta`: status 200; `Cache-Control: public` with the policy's max-age;
/// `Last-Modified` at the file's modification time; a weak `ETag` built
/// from size and modification time; and, for a HEAD request, the content
/// length and type in place of a body.
pub open spec fn response_with_cache_post(
    c: Cache,
    entries: Seq<VfsEntry>,
    req: HttpRequest,
    path: Seq<Seq<u8>>,
    size: u64,
    modified: u64,
    r: Result<Response, HandlerError>,
) -> bool {
    match stat_spec(entries, path) {
        Err(k) => (r matches Err(e) && e.status == 500 && e.cause == ErrorCause::Io(FileError(k))),
        Ok(meta) => (r matches Ok(resp) && {
            &&& resp.status == 200
            &&& resp.headers.cache_control == Some(
                CacheControl { public: true, max_age: c.duration },
            )
            &&& resp.headers.last_modified == Some(modified)
            &&& (resp.headers.etag matches Some(e) && e.weak && e.tag@ == etag_tag(size, modified))
            &&& resp.headers.location is None
            &&& if req.method == Method::Head {
                &&& resp.body is Empty
                &&& resp.headers.content_length == Some(meta.len)
                &&& (resp.headers.content_type matches Some(ct) && ct@ == head_content_type(req))
            } else {
                &&& (resp.body matches Body::File(p) && p.deep_view() == path)
                &&& resp.headers.content_length is None
                &&& resp.headers.content_type is None
            }
        }),
    }
}

/// What serving the file at `path` under the policy `c` yields: an
/// internal error if its metadata cannot be read; `304 Not Modified` with
/// no headers and no body when the client's `If-Modified-Since` is at
/// least the file's modification time; the full cached response
/// otherwise.
pub open spec fn cache_handle_post(
    c: Cache,
    entries: Seq<VfsEntry>,
    req: HttpRequest,
    path: Seq<Seq<u8>>,
    r: Result<Response, HandlerError>,
) -> bool {
    match stat_spec(entries, path) {
        Err(k) => (r matches Err(e) && e.status == 500 && e.cause == ErrorCause::Io(FileError(k))),
        Ok(meta) => match req.if_modified_since {
            Some(t) => if meta.modified <= t {
                r matches Ok(resp) && resp == (Response {
                    status: 304u16,
                    headers: empty_headers(),
                    body: Body::Empty,
                })
            } else {
                response_with_cache_post(c, entries, req, path, meta.len, meta.modified, r)
            },
            None => response_with_cache_post(c, entries, req, path, meta.len, meta.modified, r),
        },
    }
}

/// What serving the file at `path` yields for the handler `st`: with no
/// cache attached, a plain 200 streaming the file with no headers; with
/// one, the cached outcome of [`cache_handle_post`].
pub open spec fn try_cache_post(
    st: Static,
    entries: Seq<VfsEntry>,
    req: HttpRequest,
    path: Seq<Seq<u8>>,
    r: Result<Response, HandlerError>,
) -> bool {
    match st.cache {
        None => (r matches Ok(resp) && {
            &&& resp.status == 200
            &&& resp.headers == empty_headers()
            &&& (resp.body matches Body::File(p) && p.deep_view() == path)
        }),
        Some(c) => cache_handle_post(c, entries, req, path, r),
    }
}

/// What a redirect response holds: status 301, a `Location` naming the
/// request's effective URL with one slash appended to its path, and a body
/// that spells the same target out for clients that do not follow
/// redirects.
pub open spec fn redirect_post(req: HttpRequest, resp: Response) -> bool {
    let target = with_trailing_slash_spec(req.effective_url());
    &&& resp.status == 301
    &&& (resp.headers.location matches Some(l) && l@ == target)
    &&& (resp.body matches Body::Text(t) && t@ == redirect_prefix() + target)
    &&& resp.headers.cache_control is None
    &&& resp.headers.last_modified is None
    &&& resp.headers.etag is None
    &&& resp.headers.content_length is None
    &&& resp.headers.content_type is None
}

/// The handler's whole decision for one request, as a relation between the
/// handler, the filesystem snapshot, the request and the outcome.
///
/// The request's URL path is resolved below the root. A failure to read
/// the resolved path's metadata maps to the error's HTTP status. A
/// directory asked for without a trailing slash is redirected when it
/// holds an index file, and a not-found outcome otherwise. Anything else
/// serves the resolved file or the directory's index through the caching
/// policy, or reports not-found when neither exists.
pub open spec fn handle_post(
    st: Static,
    entries: Seq<VfsEntry>,
    req: HttpRequest,
    r: Result<Response, HandlerError>,
) -> bool {
    let full = resolved_path(st.root.deep_view(), req.path@);
    match stat_spec(entries, full) {
        Err(k) => (r matches Err(e) && e.status == status_for_io(k) && e.cause == ErrorCause::Io(
            FileError(k),
        )),
        Ok(meta) => {
            if meta.kind == FileKind::Directory && !has_trailing_slash(req.path@) {
                if is_file_at(entries, full.push(index_segment())) {
                    r matches Ok(resp) && redirect_post(req, resp)
                } else {
                    r matches Err(e) && e.status == 404 && e.cause == ErrorCause::Missing(NoFile)
                }
            } else {
                match get_file_spec(full, meta, entries) {
                    None => (r matches Err(e) && e.status == 404 && e.cause
                        == ErrorCause::Missing(NoFile)),
                    Some(p) => try_cache_post(st, entries, req, p, r),
                }
            }
        },
    }
}

impl Cache {
    /// Create a new instance of `Cache` with a given duration, in seconds.
    pub fn new(duration: u64) -> (r: Cache)
        ensures
            r.duration == duration,
    {
        Cache { duration }
    }

    /// Serve the file at `path`, negotiating with the client's conditional
    /// header: `304 Not Modified` when the client's copy is fresh, the full
    /// response with cache headers otherwise.
    fn handle(&self, vfs: &Vfs, req: &HttpRequest, path: Vec<Vec<u8>>) -> (r: Result<
        Response,
        HandlerError,
    >)
        ensures
            cache_handle_post(*self, vfs.entries@, *req, path.deep_view(), r),
    {
        let (size, last_modified_time) = match vfs.stat(&path) {
            Err(k) => {
                return Err(HandlerError::from_io_with_status(k, 500));
            },
            Ok(metadata) => (metadata.len, metadata.modified),
        };
        let if_modified_since = match req.if_modified_since {
            None => {
                return self.response_with_cache(vfs, req, path, size, last_modified_time);
            },
            Some(t) => t,
        };
        if last_modified_time <= if_modified_since {
            Ok(Response::with_status(304))
        } else {
            self.response_with_cache(vfs, req, path, size, last_modified_time)
        }
    }

    /// Attach this policy to a handler.
    pub fn modify(self, static_handler: &mut Static)
        ensures
            final(static_handler).root == old(static_handler).root,
            final(static_handler).cache == Some(self),
    {
        static_handler.cache = Some(self);
    }

    fn response_with_cache(
        &self,
        vfs: &Vfs,
        req: &HttpRequest,
        path: Vec<Vec<u8>>,
        size: u64,
        modified: u64,
    ) -> (r: Result<Response, HandlerError>)
        ensures
            response_with_cache_post(
                *self,
                vfs.entries@,
                *req,
                path.deep_view(),
                size,
                modified,
                r,
            ),
    {
        let metadata = match vfs.stat(&path) {
            Err(k) => {
                return Err(HandlerError::from_io_with_status(k, 500));
            },
            Ok(m) => m,
        };
        let mut response = if req.method == Method::Head {
            let cont_type = match &req.content_type {
                None => crate::response::text_plain_vec(),
                Some(t) => clone_bytes(t),
            };
            let mut resp = Response::with_status(200);
            resp.headers.content_type = Some(cont_type);
            resp.headers.content_length = Some(metadata.len);
            resp
        } else {
            Response::with_file(200, path)
        };
        response.headers.cache_control = Some(
            CacheControl { public: true, max_age: self.duration },
        );
        response.headers.last_modified = Some(modified);
        response.headers.etag = Some(EntityTag::weak_for_file(size, modified));
        Ok(response)
    }
}

impl Static {
    /// Create a new instance of `Static` with a given root path, handed in
    /// as segments. An empty segment list serves from the current
    /// directory.
    pub fn new(root: Vec<Vec<u8>>) -> (r: Static)
        ensures
            r.root == root,
            r.cache is None,
    {
        Static { root, cache: None }
    }

    /// Specify the response's `Cache-Control` header with a given duration
    /// in seconds, by attaching a [`Cache`] to this handler.
    pub fn cache(self, duration: u64) -> (r: Static)
        ensures
            r.root == self.root,
            r.cache == Some(Cache { duration }),
    {
        let mut with_cache = self;
        Cache::new(duration).modify(&mut with_cache);
        with_cache
    }

    fn try_cache(&self, vfs: &Vfs, req: &HttpRequest, path: Vec<Vec<u8>>) -> (r: Result<
        Response,
        HandlerError,
    >)
        ensures
            try_cache_post(*self, vfs.entries@, *req, path.deep_view(), r),
    {
        match &self.cache {
            None => Ok(Response::with_file(200, path)),
            Some(cache) => cache.handle(vfs, req, path),
        }
    }

    /// Decide one request against the filesystem snapshot `vfs`: serve the
    /// resolved file or directory index, redirect a slash-less directory
    /// URL, answer `304 Not Modified`, or report the failure.
    pub fn handle(&self, vfs: &Vfs, req: &HttpRequest) -> (r: Result<Response, HandlerError>)
        ensures
            handle_post(*self, vfs.entries@, *req, r),
    {
        let requested_path = RequestedPath::new(&self.root, req);
        let metadata = match vfs.stat(&requested_path.path) {
            Ok(meta) => meta,
            Err(k) => {
                return Err(HandlerError::from_io(k));
            },
        };

        // If the URL ends in a slash, serve the file directly. Otherwise,
        // redirect to the directory equivalent of the URL — but only when
        // there is an index file to serve there; a directory with nothing
        // to serve is a not-found outcome either way.
        if requested_path.should_redirect(&metadata, req) {
            let mut index_path = clone_path(&requested_path.path);
            let ghost base = index_path.deep_view();
            index_path.push(index_segment_vec());
            proof {
                assert(index_path.deep_view() =~~= base.push(index_segment()));
            }
            let has_index = match vfs.stat(&index_path) {
                Ok(m) => m.is_file(),
                Err(_) => false,
            };
            if !has_index {
                return Err(HandlerError::no_file());
            }
            let base_url = match &req.original_url {
                None => &req.url,
                Some(original_url) => original_url,
            };
            let redirect_path = with_trailing_slash(base_url);
            let mut body = redirect_prefix_vec();
            append_bytes(&mut body, &redirect_path);
            let mut response = Response::with_text(301, body);
            response.headers.location = Some(redirect_path);
            return Ok(response);
        }
        match requested_path.get_file(&metadata, vfs) {
            // If no file is found, return a not-found outcome.
            None => Err(HandlerError::no_file()),
            Some(path) => self.try_cache(vfs, req, path),
        }
    }
}

} // verus!
