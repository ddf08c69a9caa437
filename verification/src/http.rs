//! The request data the handler decides on.
//!
//! A request reaches the handler already parsed by the embedding HTTP
//! layer: the method, the raw (still percent-encoded) URL path, the full
//! URL text for redirect echoes, and the conditional-request header, if
//! any, as whole seconds since the epoch. The helpers here pick the path
//! component out of a URL's text and build the slash-terminated URL a
//! directory redirect points at.

use vstd::prelude::*;
use crate::requested_path::SLASH;

verus! {

/// The byte value of `:`.
pub const COLON: u8 = 58;

/// The byte value of `?`.
pub const QUESTION: u8 = 63;

/// The byte value of `#`.
pub const HASH: u8 = 35;

/// An HTTP request method, as far as the handler distinguishes them.
#[derive(Clone, Copy, PartialEq, Eq, Structural, Debug)]
pub enum Method {
    /// A GET request.
    Get,
    /// A HEAD request: same headers as GET, no body.
    Head,
    /// Any other method.
    Other,
}

/// One incoming request, reduced to what the handler decides on.
pub struct HttpRequest {
    /// The request method.
    pub method: Method,
    /// The raw URL path, still percent-encoded, such as `/dir/file.html`.
    pub path: Vec<u8>,
    /// The full URL text as the embedding server received it.
    pub url: Vec<u8>,
    /// The original URL text from before an upstream collaborator rewrote
    /// the routed URL, where one did.
    pub original_url: Option<Vec<u8>>,
    /// The `If-Modified-Since` request header, parsed to whole seconds
    /// since the epoch.
    pub if_modified_since: Option<u64>,
    /// The request's `Content-Type` header, if any.
    pub content_type: Option<Vec<u8>>,
}

/// The smallest `j >= i` such that `u[j..j+3]` is `://`, if any.
pub open spec fn scheme_sep_from(u: Seq<u8>, i: int) -> Option<int>
    decreases u.len() - i,
{
    if i < 0 || i + 3 > u.len() {
        None
    } else if u[i] == COLON && u[i + 1] == SLASH && u[i + 2] == SLASH {
        Some(i)
    } else {
        scheme_sep_from(u, i + 1)
    }
}

/// The smallest `j >= i` where `u[j]` is `/`, `?` or `#`, or `u.len()`.
pub open spec fn path_delim_from(u: Seq<u8>, i: int) -> int
    decreases u.len() - i,
{
    if i < 0 || i >= u.len() {
        u.len() as int
    } else if u[i] == SLASH || u[i] == QUESTION || u[i] == HASH {
        i
    } else {
        path_delim_from(u, i + 1)
    }
}

/// The smallest `j >= i` where `u[j]` is `?` or `#`, or `u.len()`.
pub open spec fn query_delim_from(u: Seq<u8>, i: int) -> int
    decreases u.len() - i,
{
    if i < 0 || i >= u.len() {
        u.len() as int
    } else if u[i] == QUESTION || u[i] == HASH {
        i
    } else {
        query_delim_from(u, i + 1)
    }
}

/// Where the path component of the URL text `u` starts: right after the
/// authority when `u` has a scheme part, at the start otherwise.
pub open spec fn path_start(u: Seq<u8>) -> int {
    match scheme_sep_from(u, 0) {
        None => 0,
        Some(j) => path_delim_from(u, j + 3),
    }
}

/// Where the path component of the URL text `u` ends: at the query or
/// fragment if there is one, at the end otherwise.
pub open spec fn path_end(u: Seq<u8>) -> int {
    query_delim_from(u, path_start(u))
}

/// The path component of the URL text `u`. A URL without one gets the
/// path `/`, as URL serialization always writes at least that.
pub open spec fn url_path_spec(u: Seq<u8>) -> Seq<u8> {
    let p = u.subrange(path_start(u), path_end(u));
    if p.len() == 0 {
        seq![SLASH]
    } else {
        p
    }
}

/// The URL text `u` with one slash appended to its path component.
pub open spec fn with_trailing_slash_spec(u: Seq<u8>) -> Seq<u8> {
    u.take(path_end(u)) + seq![SLASH] + u.skip(path_end(u))
}

proof fn lemma_path_start_bounds(u: Seq<u8>)
    ensures
        0 <= path_start(u) <= u.len(),
        0 <= path_end(u) <= u.len(),
        path_start(u) <= path_end(u),
{
    lemma_scheme_sep_bounds(u, 0);
    match scheme_sep_from(u, 0) {
        None => {
            lemma_delim_bounds(u, 0);
        },
        Some(j) => {
            lemma_delim_bounds(u, j + 3);
            lemma_delim_bounds(u, path_start(u));
        },
    }
}

proof fn lemma_scheme_sep_bounds(u: Seq<u8>, i: int)
    requires
        0 <= i,
    ensures
        match scheme_sep_from(u, i) {
            None => true,
            Some(j) => i <= j && j + 3 <= u.len(),
        },
    decreases u.len() - i,
{
    if !(i + 3 > u.len()) && !(u[i] == COLON && u[i + 1] == SLASH && u[i + 2] == SLASH) {
        lemma_scheme_sep_bounds(u, i + 1);
    }
}

proof fn lemma_delim_bounds(u: Seq<u8>, i: int)
    requires
        0 <= i <= u.len(),
    ensures
        i <= path_delim_from(u, i) <= u.len(),
        i <= query_delim_from(u, i) <= u.len(),
        path_delim_from(u, i) <= query_delim_from(u, i),
    decreases u.len() - i,
{
    if i < u.len() {
        lemma_delim_bounds(u, i + 1);
    }
}

/// Find the `://` separating scheme from authority, if the URL has one.
fn find_scheme_sep(u: &Vec<u8>) -> (r: Option<usize>)
    ensures
        match r {
            None => scheme_sep_from(u@, 0) is None,
            Some(j) => scheme_sep_from(u@, 0) == Some(j as int) && j + 3 <= u@.len(),
        },
{
    let mut i: usize = 0;
    while i < u.len() && u.len() - i >= 3
        invariant
            0 <= i,
            i <= u.len() + 1,
            scheme_sep_from(u@, 0) == scheme_sep_from(u@, i as int),
        decreases u.len() - i,
    {
        if u[i] == COLON && u[i + 1] == SLASH && u[i + 2] == SLASH {
            proof {
                lemma_scheme_sep_bounds(u@, i as int);
            }
            return Some(i);
        }
        i = i + 1;
    }
    None
}

fn find_path_delim(u: &Vec<u8>, start: usize) -> (r: usize)
    requires
        start <= u@.len(),
    ensures
        r == path_delim_from(u@, start as int),
        start <= r <= u@.len(),
{
    let mut i: usize = start;
    while i < u.len()
        invariant
            start <= i <= u.len(),
            path_delim_from(u@, start as int) == path_delim_from(u@, i as int),
        decreases u.len() - i,
    {
        if u[i] == SLASH || u[i] == QUESTION || u[i] == HASH {
            return i;
        }
        i = i + 1;
    }
    i
}

fn find_query_delim(u: &Vec<u8>, start: usize) -> (r: usize)
    requires
        start <= u@.len(),
    ensures
        r == query_delim_from(u@, start as int),
        start <= r <= u@.len(),
{
    let mut i: usize = start;
    while i < u.len()
        invariant
            start <= i <= u.len(),
            query_delim_from(u@, start as int) == query_delim_from(u@, i as int),
        decreases u.len() - i,
    {
        if u[i] == QUESTION || u[i] == HASH {
            return i;
        }
        i = i + 1;
    }
    i
}

fn path_bounds(u: &Vec<u8>) -> (r: (usize, usize))
    ensures
        r.0 == path_start(u@),
        r.1 == path_end(u@),
        r.0 <= r.1 <= u@.len(),
{
    let ps: usize = match find_scheme_sep(u) {
        None => 0,
        Some(j) => {
            let n: usize = u.len();
            proof {
                assert(j + 3 <= n);
            }
            find_path_delim(u, j + 3)
        },
    };
    proof {
        lemma_path_start_bounds(u@);
    }
    let pe = find_query_delim(u, ps);
    (ps, pe)
}

/// Extract the path component of the URL text `u`.
pub fn url_path(u: &Vec<u8>) -> (r: Vec<u8>)
    ensures
        r@ == url_path_spec(u@),
{
    let (ps, pe) = path_bounds(u);
    if ps == pe {
        let mut r: Vec<u8> = Vec::new();
        r.push(SLASH);
        proof {
            assert(r@ =~= seq![SLASH]);
        }
        return r;
    }
    let mut r: Vec<u8> = Vec::new();
    let mut i: usize = ps;
    while i < pe
        invariant
            ps <= i <= pe,
            pe <= u@.len(),
            r@ == u@.subrange(ps as int, i as int),
        decreases pe - i,
    {
        proof {
            assert(u@.subrange(ps as int, i as int).push(u@[i as int]) =~= u@.subrange(
                ps as int,
                i as int + 1,
            ));
        }
        r.push(u[i]);
        i = i + 1;
    }
    r
}

/// The URL text `u` with one slash appended to its path component. This is
/// the location a request for a slash-less directory URL is redirected to.
pub fn with_trailing_slash(u: &Vec<u8>) -> (r: Vec<u8>)
    ensures
        r@ == with_trailing_slash_spec(u@),
{
    let (_, pe) = path_bounds(u);
    let mut r: Vec<u8> = Vec::new();
    let mut i: usize = 0;
    while i < pe
        invariant
            i <= pe,
            pe <= u@.len(),
            pe == path_end(u@),
            r@ == u@.subrange(0, i as int),
        decreases pe - i,
    {
        proof {
            assert(u@.subrange(0, i as int).push(u@[i as int]) =~= u@.subrange(0, i as int + 1));
        }
        r.push(u[i]);
        i = i + 1;
    }
    r.push(SLASH);
    let mut j: usize = pe;
    while j < u.len()
        invariant
            pe <= j <= u@.len(),
            pe == path_end(u@),
            r@ == u@.take(pe as int) + seq![SLASH] + u@.subrange(pe as int, j as int),
        decreases u.len() - j,
    {
        proof {
            assert((u@.take(pe as int) + seq![SLASH] + u@.subrange(pe as int, j as int)).push(
                u@[j as int],
            ) =~= u@.take(pe as int) + seq![SLASH] + u@.subrange(pe as int, j as int + 1));
        }
        r.push(u[j]);
        j = j + 1;
    }
    proof {
        assert(u@.subrange(pe as int, u@.len() as int) =~= u@.skip(pe as int));
        assert(r@ =~= with_trailing_slash_spec(u@));
    }
    r
}

impl HttpRequest {
    /// A plain GET request for `url`, as the embedding server would hand it
    /// in: the path is the URL's own path component, nothing was rewritten,
    /// and no conditional header came along.
    pub fn get(url: Vec<u8>) -> (r: HttpRequest)
        ensures
            r.method == Method::Get,
            r.path@ == url_path_spec(url@),
            r.url@ == url@,
            r.original_url is None,
            r.if_modified_since is None,
            r.content_type is None,
    {
        let path = url_path(&url);
        HttpRequest {
            method: Method::Get,
            path,
            url,
            original_url: None,
            if_modified_since: None,
            content_type: None,
        }
    }

    /// A plain HEAD request for `url`.
    pub fn head(url: Vec<u8>) -> (r: HttpRequest)
        ensures
            r.method == Method::Head,
            r.path@ == url_path_spec(url@),
            r.url@ == url@,
            r.original_url is None,
            r.if_modified_since is None,
            r.content_type is None,
    {
        let path = url_path(&url);
        HttpRequest {
            method: Method::Head,
            path,
            url,
            original_url: None,
            if_modified_since: None,
            content_type: None,
        }
    }

    /// The URL a redirect of this request must echo: the original URL from
    /// before any upstream rewriting where one is recorded, the routed URL
    /// otherwise.
    pub open spec fn effective_url(&self) -> Seq<u8> {
        match self.original_url {
            Some(orig) => orig@,
            None => self.url@,
        }
    }
}

} // verus!
