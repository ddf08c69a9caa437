//! Rendering of header values and the path helpers, against exact
//! expected text.

use staticfile::http::{url_path, with_trailing_slash};
use staticfile::requested_path::decode_percents;
use staticfile::response::{
    CacheControl, EntityTag, MAX_HTTP_DATE_SECS, http_date_value, push_dec, push_hex,
};

fn re_bytes(s: &str) -> Vec<u8> {
    s.as_bytes().to_vec()
}

#[test]
fn decimal_rendering_is_exact() {
    let mut out: Vec<u8> = Vec::new();
    push_dec(0, &mut out);
    assert_eq!(out, re_bytes("0"));

    let mut out: Vec<u8> = Vec::new();
    push_dec(2592000, &mut out);
    assert_eq!(out, re_bytes("2592000"));

    let mut out: Vec<u8> = Vec::new();
    push_dec(u64::MAX, &mut out);
    assert_eq!(out, re_bytes("18446744073709551615"));
}

#[test]
fn hexadecimal_rendering_is_exact() {
    let mut out: Vec<u8> = Vec::new();
    push_hex(0, &mut out);
    assert_eq!(out, re_bytes("0"));

    let mut out: Vec<u8> = Vec::new();
    push_hex(1_700_000_000, &mut out);
    assert_eq!(out, re_bytes("6553f100"));

    let mut out: Vec<u8> = Vec::new();
    push_hex(u64::MAX, &mut out);
    assert_eq!(out, re_bytes("ffffffffffffffff"));
}

#[test]
fn entity_tag_matches_size_and_mtime() {
    let tag = EntityTag::weak_for_file(13, 1_700_000_000);
    assert!(tag.weak);
    assert_eq!(tag.tag, re_bytes("d-6553f100.0"));
}

#[test]
fn cache_control_value_renders_public_max_age() {
    let cc = CacheControl { public: true, max_age: 2592000 };
    assert_eq!(cc.value_bytes(), re_bytes("public, max-age=2592000"));
    let private = CacheControl { public: false, max_age: 60 };
    assert_eq!(private.value_bytes(), re_bytes("max-age=60"));
}

#[test]
fn http_date_renders_fixed_format() {
    assert_eq!(
        http_date_value(0).unwrap(),
        "Thu, 01 Jan 1970 00:00:00 GMT".to_string()
    );
    assert_eq!(
        http_date_value(784111777).unwrap(),
        "Sun, 06 Nov 1994 08:49:37 GMT".to_string()
    );
}

#[test]
fn http_date_range_is_honored() {
    assert!(http_date_value(MAX_HTTP_DATE_SECS).is_some());
    assert!(http_date_value(MAX_HTTP_DATE_SECS + 1).is_none());
}

#[test]
fn percent_decoding_handles_case_and_malformed_escapes() {
    assert_eq!(decode_percents(&re_bytes("%2f")), re_bytes("/"));
    assert_eq!(decode_percents(&re_bytes("%2F")), re_bytes("/"));
    assert_eq!(decode_percents(&re_bytes("has%20space")), re_bytes("has space"));
    assert_eq!(decode_percents(&re_bytes("100%zz")), re_bytes("100%zz"));
    assert_eq!(decode_percents(&re_bytes("%")), re_bytes("%"));
    assert_eq!(decode_percents(&re_bytes("a%2")), re_bytes("a%2"));
}

#[test]
fn url_path_extraction() {
    assert_eq!(url_path(&re_bytes("http://localhost:3000/dir/file")), re_bytes("/dir/file"));
    assert_eq!(url_path(&re_bytes("http://localhost:3000")), re_bytes("/"));
    assert_eq!(url_path(&re_bytes("http://h/p?q=1")), re_bytes("/p"));
    assert_eq!(url_path(&re_bytes("/bare/path")), re_bytes("/bare/path"));
}

#[test]
fn trailing_slash_lands_before_query() {
    assert_eq!(
        with_trailing_slash(&re_bytes("http://localhost:3000/dir")),
        re_bytes("http://localhost:3000/dir/")
    );
    assert_eq!(
        with_trailing_slash(&re_bytes("http://h/p?q=1")),
        re_bytes("http://h/p/?q=1")
    );
    assert_eq!(
        with_trailing_slash(&re_bytes("http://localhost:3000")),
        re_bytes("http://localhost:3000/")
    );
}
