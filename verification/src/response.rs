//! The response decision the handler hands back.
//!
//! A [`Response`] is not a wire-format HTTP message: it is the decision the
//! embedding server transmits — a status code, the header values to emit,
//! and either the on-disk path whose content to stream, a short text body,
//! or no body. Header values that are text (the `ETag` validator, the
//! `Cache-Control` value, the `Last-Modified` date) are rendered here.

use vstd::prelude::*;
use crate::requested_path::DOT;

verus! {

/// The byte value of `-`.
pub const HYPHEN: u8 = 45;

/// A `Cache-Control` response header: whether the response is publicly
/// cacheable, and for how many seconds it stays fresh.
#[derive(Clone, Copy, PartialEq, Eq, Structural, Debug)]
pub struct CacheControl {
    /// Whether any cache may store the response.
    pub public: bool,
    /// The advertised freshness lifetime, in seconds.
    pub max_age: u64,
}

/// An `ETag` response header: an opaque validator naming one version of a
/// resource.
pub struct EntityTag {
    /// Whether the validator is weak.
    pub weak: bool,
    /// The validator text, without quotes.
    pub tag: Vec<u8>,
}

/// The decimal rendering of `n`, most significant digit first.
pub open spec fn dec_rep(n: nat) -> Seq<u8>
    decreases n,
{
    if n < 10 {
        seq![('0' as u8 + n) as u8]
    } else {
        dec_rep(n / 10).push(('0' as u8 + n % 10) as u8)
    }
}

/// The lower-case hexadecimal rendering of `n`, most significant digit
/// first, without a prefix.
pub open spec fn hex_rep(n: nat) -> Seq<u8>
    decreases n,
{
    if n < 16 {
        seq![hex_digit_char(n as u8)]
    } else {
        hex_rep(n / 16).push(hex_digit_char((n % 16) as u8))
    }
}

/// The lower-case hexadecimal digit for the value `d`, which is below 16.
pub open spec fn hex_digit_char(d: u8) -> u8 {
    if d < 10 {
        ('0' as u8 + d) as u8
    } else {
        ('a' as u8 + (d - 10)) as u8
    }
}

fn hex_digit_char_exec(d: u8) -> (r: u8)
    requires
        d < 16,
    ensures
        r == hex_digit_char(d),
{
    if d < 10 {
        '0' as u8 + d
    } else {
        'a' as u8 + (d - 10)
    }
}

/// Append the decimal rendering of `n` to `out`.
pub fn push_dec(n: u64, out: &mut Vec<u8>)
    ensures
        final(out)@ == old(out)@ + dec_rep(n as nat),
    decreases n,
{
    if n < 10 {
        out.push('0' as u8 + (n as u8));
        proof {
            assert(final(out)@ =~= old(out)@ + dec_rep(n as nat));
        }
    } else {
        push_dec(n / 10, out);
        out.push('0' as u8 + ((n % 10) as u8));
        proof {
            assert(final(out)@ =~= old(out)@ + dec_rep(n as nat));
        }
    }
}

/// Append the hexadecimal rendering of `n` to `out`.
pub fn push_hex(n: u64, out: &mut Vec<u8>)
    ensures
        final(out)@ == old(out)@ + hex_rep(n as nat),
    decreases n,
{
    if n < 16 {
        let d = hex_digit_char_exec(n as u8);
        out.push(d);
        proof {
            assert(final(out)@ =~= old(out)@ + hex_rep(n as nat));
        }
    } else {
        push_hex(n / 16, out);
        let d = hex_digit_char_exec((n % 16) as u8);
        out.push(d);
        proof {
            assert(final(out)@ =~= old(out)@ + hex_rep(n as nat));
        }
    }
}

/// The text `public, max-age=`.
pub open spec fn cache_control_prefix() -> Seq<u8> {
    seq![
        'p' as u8,
        'u' as u8,
        'b' as u8,
        'l' as u8,
        'i' as u8,
        'c' as u8,
        ',' as u8,
        ' ' as u8,
        'm' as u8,
        'a' as u8,
        'x' as u8,
        '-' as u8,
        'a' as u8,
        'g' as u8,
        'e' as u8,
        '=' as u8,
    ]
}

/// The text `max-age=`.
pub open spec fn max_age_prefix() -> Seq<u8> {
    seq!['m' as u8, 'a' as u8, 'x' as u8, '-' as u8, 'a' as u8, 'g' as u8, 'e' as u8, '=' as u8]
}

/// The rendered value of a `Cache-Control` header.
pub open spec fn cache_control_value(cc: CacheControl) -> Seq<u8> {
    if cc.public {
        cache_control_prefix() + dec_rep(cc.max_age as nat)
    } else {
        max_age_prefix() + dec_rep(cc.max_age as nat)
    }
}

impl CacheControl {
    /// Render this header's value, such as `public, max-age=2592000`.
    pub fn value_bytes(&self) -> (r: Vec<u8>)
        ensures
            r@ == cache_control_value(*self),
    {
        let mut r: Vec<u8> = Vec::new();
        if self.public {
            r.push('p' as u8);
            r.push('u' as u8);
            r.push('b' as u8);
            r.push('l' as u8);
            r.push('i' as u8);
            r.push('c' as u8);
            r.push(',' as u8);
            r.push(' ' as u8);
        }
        r.push('m' as u8);
        r.push('a' as u8);
        r.push('x' as u8);
        r.push('-' as u8);
        r.push('a' as u8);
        r.push('g' as u8);
        r.push('e' as u8);
        r.push('=' as u8);
        proof {
            if self.public {
                assert(r@ =~= cache_control_prefix());
            } else {
                assert(r@ =~= max_age_prefix());
            }
        }
        push_dec(self.max_age, &mut r);
        r
    }
}

/// The validator text of the weak entity tag for a file of `len` bytes
/// last modified at `modified`: the two values in hexadecimal, joined by a
/// hyphen, with the sub-second part — always zero at HTTP granularity —
/// in hexadecimal after a dot.
pub open spec fn etag_tag(len: u64, modified: u64) -> Seq<u8> {
    hex_rep(len as nat) + seq![HYPHEN] + hex_rep(modified as nat) + seq![DOT] + seq!['0' as u8]
}

impl EntityTag {
    /// The weak entity tag for a file of `len` bytes last modified at
    /// `modified` seconds since the epoch.
    pub fn weak_for_file(len: u64, modified: u64) -> (r: EntityTag)
        ensures
            r.weak,
            r.tag@ == etag_tag(len, modified),
    {
        let mut tag: Vec<u8> = Vec::new();
        push_hex(len, &mut tag);
        tag.push(HYPHEN);
        push_hex(modified, &mut tag);
        tag.push(DOT);
        tag.push('0' as u8);
        proof {
            assert(tag@ =~= etag_tag(len, modified));
        }
        EntityTag { weak: true, tag }
    }
}

/// The text `text/plain`: the content type a HEAD response falls back to
/// when the request named none.
pub open spec fn text_plain() -> Seq<u8> {
    seq![
        't' as u8,
        'e' as u8,
        'x' as u8,
        't' as u8,
        '/' as u8,
        'p' as u8,
        'l' as u8,
        'a' as u8,
        'i' as u8,
        'n' as u8,
    ]
}

/// The text `text/plain`, as a fresh byte string.
pub fn text_plain_vec() -> (r: Vec<u8>)
    ensures
        r@ == text_plain(),
{
    let mut r: Vec<u8> = Vec::new();
    r.push('t' as u8);
    r.push('e' as u8);
    r.push('x' as u8);
    r.push('t' as u8);
    r.push('/' as u8);
    r.push('p' as u8);
    r.push('l' as u8);
    r.push('a' as u8);
    r.push('i' as u8);
    r.push('n' as u8);
    proof {
        assert(r@ =~= text_plain());
    }
    r
}

/// What an `If-Modified-Since` date or a `Last-Modified` value renders to:
/// the fixed-format HTTP date of a moment given in whole seconds since the
/// epoch.
pub uninterp spec fn http_date_of(secs: u64) -> Seq<char>;

/// The last second the date formatter can place in a calendar date: the
/// end of the year 9999.
pub const MAX_HTTP_DATE_SECS: u64 = 253402300799;

/// Relies on time's `OffsetDateTime`: `from_unix_timestamp` accepts every
/// timestamp up to the end of the year 9999, and formatting a date is a
/// function of the timestamp alone — no clock, locale or environment is
/// read. The rendering follows the fixed HTTP date layout, such as
/// `Thu, 01 Jan 1970 00:00:00 GMT`.
#[verifier::external_body]
fn format_http_date(secs: u64) -> (r: String)
    requires
        secs <= MAX_HTTP_DATE_SECS,
    ensures
        r@ == http_date_of(secs),
{
    let date = time::OffsetDateTime::from_unix_timestamp(secs as i64).unwrap();
    let layout = time::format_description::parse(
        "[weekday repr:short], [day] [month repr:short] [year] [hour]:[minute]:[second] GMT",
    ).unwrap();
    date.format(&layout).unwrap()
}

/// Render `secs` as an HTTP date, if it lies within the formatter's range.
pub fn http_date_value(secs: u64) -> (r: Option<String>)
    ensures
        secs <= MAX_HTTP_DATE_SECS ==> (r matches Some(s) && s@ == http_date_of(secs)),
        secs > MAX_HTTP_DATE_SECS ==> r is None,
{
    if secs <= MAX_HTTP_DATE_SECS {
        Some(format_http_date(secs))
    } else {
        None
    }
}

/// The response headers the handler can set. `None` means the header is
/// not emitted.
pub struct Headers {
    /// The `Cache-Control` header.
    pub cache_control: Option<CacheControl>,
    /// The `Last-Modified` header, in whole seconds since the epoch.
    pub last_modified: Option<u64>,
    /// The `ETag` header.
    pub etag: Option<EntityTag>,
    /// The `Location` header of a redirect: the URL text to point at.
    pub location: Option<Vec<u8>>,
    /// The `Content-Length` header.
    pub content_length: Option<u64>,
    /// The `Content-Type` header.
    pub content_type: Option<Vec<u8>>,
}

/// Headers with nothing set.
pub open spec fn empty_headers() -> Headers {
    Headers {
        cache_control: None,
        last_modified: None,
        etag: None,
        location: None,
        content_length: None,
        content_type: None,
    }
}

impl Headers {
    /// Headers with nothing set.
    pub fn none() -> (h: Headers)
        ensures
            h == empty_headers(),
    {
        Headers {
            cache_control: None,
            last_modified: None,
            etag: None,
            location: None,
            content_length: None,
            content_type: None,
        }
    }
}

/// What the embedding server should transmit as the response body.
pub enum Body {
    /// Stream the content of the file at this resolved on-disk path.
    File(Vec<Vec<u8>>),
    /// Send this short text.
    Text(Vec<u8>),
    /// Send no body.
    Empty,
}

/// The handler's decision for one request: the status code, the headers to
/// emit, and the body.
pub struct Response {
    /// The HTTP status code.
    pub status: u16,
    /// The header values to emit.
    pub headers: Headers,
    /// The body to transmit.
    pub body: Body,
}

impl Response {
    /// A response that streams the file at `path`, with no headers set yet.
    pub fn with_file(status: u16, path: Vec<Vec<u8>>) -> (r: Response)
        ensures
            r.status == status,
            r.headers == empty_headers(),
            r.body == Body::File(path),
    {
        Response { status, headers: Headers::none(), body: Body::File(path) }
    }

    /// A response with a short text body and no headers set yet.
    pub fn with_text(status: u16, text: Vec<u8>) -> (r: Response)
        ensures
            r.status == status,
            r.headers == empty_headers(),
            r.body == Body::Text(text),
    {
        Response { status, headers: Headers::none(), body: Body::Text(text) }
    }

    /// A response with no body and no headers set.
    pub fn with_status(status: u16) -> (r: Response)
        ensures
            r.status == status,
            r.headers == empty_headers(),
            r.body == Body::Empty,
    {
        Response { status, headers: Headers::none(), body: Body::Empty }
    }
}

} // verus!
