//! End-to-end scenarios: percent-encoded names, HEAD requests, error
//! outcomes, the conditional-request round trip, and the caching variant.

use staticfile::Static;
use staticfile::cache_handler::StaticWithCache;
use staticfile::errors::ErrorCause;
use staticfile::http::HttpRequest;
use staticfile::requested_path::RequestedPath;
use staticfile::response::{Body, CacheControl};
use staticfile::vfs::{IoErrorKind, Vfs};

fn sc_seg(s: &str) -> Vec<u8> {
    s.as_bytes().to_vec()
}

fn sc_path(segs: &[&str]) -> Vec<Vec<u8>> {
    segs.iter().map(|s| sc_seg(s)).collect()
}

fn sc_get(url: &str) -> HttpRequest {
    HttpRequest::get(url.as_bytes().to_vec())
}

const SC_NOW: u64 = 1_700_000_000;

fn sc_vfs_with_file1() -> Vfs {
    let mut vfs = Vfs::new();
    vfs.add_dir(sc_path(&["example"]));
    vfs.add_file(sc_path(&["example", "file1.html"]), 13, SC_NOW);
    vfs
}

#[test]
fn serves_percent_encoded_space() {
    let mut vfs = Vfs::new();
    vfs.add_dir(sc_path(&["example"]));
    vfs.add_file(sc_path(&["example", "has space.html"]), 21, SC_NOW);

    let st = Static::new(sc_path(&["example"]));
    match st.handle(&vfs, &sc_get("http://localhost:3000/has%20space.html")) {
        Ok(res) => match res.body {
            Body::File(p) => assert_eq!(p, sc_path(&["example", "has space.html"])),
            _ => panic!("expected a file body"),
        },
        Err(e) => panic!("unexpected error status {}", e.status),
    }
}

#[test]
fn serves_index_content_with_trailing_slash() {
    let mut vfs = Vfs::new();
    vfs.add_dir(sc_path(&["example"]));
    vfs.add_dir(sc_path(&["example", "dir"]));
    vfs.add_file(sc_path(&["example", "dir", "index.html"]), 13, SC_NOW);

    let st = Static::new(sc_path(&["example"]));
    match st.handle(&vfs, &sc_get("http://localhost:3000/dir/")) {
        Ok(res) => {
            assert_eq!(res.status, 200);
            match res.body {
                Body::File(p) => assert_eq!(p, sc_path(&["example", "dir", "index.html"])),
                _ => panic!("expected a file body"),
            }
        },
        Err(e) => panic!("unexpected error status {}", e.status),
    }
}

#[test]
fn serves_without_cache_headers_when_no_cache_attached() {
    let vfs = sc_vfs_with_file1();
    let st = Static::new(sc_path(&["example"]));
    match st.handle(&vfs, &sc_get("http://localhost:3000/file1.html")) {
        Ok(res) => {
            assert_eq!(res.status, 200);
            assert!(res.headers.cache_control.is_none());
            assert!(res.headers.last_modified.is_none());
            assert!(res.headers.etag.is_none());
        },
        Err(e) => panic!("unexpected error status {}", e.status),
    }
}

#[test]
fn head_request_gets_headers_without_body() {
    let vfs = sc_vfs_with_file1();
    let st = Static::new(sc_path(&["example"])).cache(60);
    let req = HttpRequest::head("http://localhost:3000/file1.html".as_bytes().to_vec());
    match st.handle(&vfs, &req) {
        Ok(res) => {
            assert_eq!(res.status, 200);
            assert!(matches!(res.body, Body::Empty));
            assert_eq!(res.headers.content_length, Some(13));
            assert_eq!(res.headers.content_type, Some(sc_seg("text/plain")));
            assert!(res.headers.cache_control.is_some());
            assert!(res.headers.last_modified.is_some());
        },
        Err(e) => panic!("unexpected error status {}", e.status),
    }
}

#[test]
fn head_request_echoes_request_content_type() {
    let vfs = sc_vfs_with_file1();
    let st = Static::new(sc_path(&["example"])).cache(60);
    let mut req = HttpRequest::head("http://localhost:3000/file1.html".as_bytes().to_vec());
    req.content_type = Some(sc_seg("text/html"));
    match st.handle(&vfs, &req) {
        Ok(res) => assert_eq!(res.headers.content_type, Some(sc_seg("text/html"))),
        Err(e) => panic!("unexpected error status {}", e.status),
    }
}

#[test]
fn permission_denied_maps_to_403() {
    let mut vfs = Vfs::new();
    vfs.add_dir(sc_path(&["example"]));
    vfs.add_error(sc_path(&["example", "secret.html"]), IoErrorKind::PermissionDenied);

    let st = Static::new(sc_path(&["example"]));
    match st.handle(&vfs, &sc_get("http://localhost:3000/secret.html")) {
        Ok(res) => panic!("expected an error, got status {}", res.status),
        Err(e) => {
            assert_eq!(e.status, 403);
            match e.cause {
                ErrorCause::Io(file_error) => {
                    assert_eq!(file_error.0, IoErrorKind::PermissionDenied);
                    assert_eq!(file_error.name(), "permission denied");
                },
                _ => panic!("expected a filesystem error cause"),
            }
        },
    }
}

#[test]
fn other_io_failure_maps_to_500() {
    let mut vfs = Vfs::new();
    vfs.add_dir(sc_path(&["example"]));
    vfs.add_error(sc_path(&["example", "flaky.html"]), IoErrorKind::Other);

    let st = Static::new(sc_path(&["example"]));
    match st.handle(&vfs, &sc_get("http://localhost:3000/flaky.html")) {
        Ok(res) => panic!("expected an error, got status {}", res.status),
        Err(e) => {
            assert_eq!(e.status, 500);
            match e.cause {
                ErrorCause::Io(file_error) => {
                    assert_eq!(file_error.0, IoErrorKind::Other);
                    assert_eq!(file_error.name(), "other os error");
                },
                _ => panic!("expected a filesystem error cause"),
            }
        },
    }
}

#[test]
fn missing_file_reports_no_file_cause() {
    let mut vfs = Vfs::new();
    vfs.add_dir(sc_path(&["example"]));

    let st = Static::new(sc_path(&["example"]));
    match st.handle(&vfs, &sc_get("http://localhost:3000/")) {
        Ok(res) => panic!("expected an error, got status {}", res.status),
        Err(e) => {
            assert_eq!(e.status, 404);
            match e.cause {
                ErrorCause::Missing(no_file) => {
                    assert_eq!(no_file.description(), "File not found");
                },
                _ => panic!("expected a no-file cause"),
            }
        },
    }
}

#[test]
fn replayed_last_modified_yields_304() {
    let vfs = sc_vfs_with_file1();
    let st = Static::new(sc_path(&["example"])).cache(30 * 24 * 60 * 60);

    let first = match st.handle(&vfs, &sc_get("http://localhost:3000/file1.html")) {
        Ok(res) => res,
        Err(e) => panic!("unexpected error status {}", e.status),
    };
    assert_eq!(first.status, 200);
    let last_modified = first.headers.last_modified.expect("cache headers should be set");

    let mut replay = sc_get("http://localhost:3000/file1.html");
    replay.if_modified_since = Some(last_modified);
    match st.handle(&vfs, &replay) {
        Ok(res) => {
            assert_eq!(res.status, 304);
            assert!(matches!(res.body, Body::Empty));
        },
        Err(e) => panic!("unexpected error status {}", e.status),
    }
}

#[test]
fn stale_copy_gets_refreshed_headers() {
    let vfs = sc_vfs_with_file1();
    let st = Static::new(sc_path(&["example"])).cache(60);

    let mut req = sc_get("http://localhost:3000/file1.html");
    req.if_modified_since = Some(SC_NOW - 1);
    match st.handle(&vfs, &req) {
        Ok(res) => {
            assert_eq!(res.status, 200);
            assert_eq!(res.headers.cache_control, Some(CacheControl { public: true, max_age: 60 }));
            assert_eq!(res.headers.last_modified, Some(SC_NOW));
            assert!(res.headers.etag.is_some());
        },
        Err(e) => panic!("unexpected error status {}", e.status),
    }
}

#[test]
fn original_url_wins_in_redirect() {
    let mut vfs = Vfs::new();
    vfs.add_dir(sc_path(&["example"]));
    vfs.add_dir(sc_path(&["example", "dir"]));
    vfs.add_file(sc_path(&["example", "dir", "index.html"]), 13, SC_NOW);

    let st = Static::new(sc_path(&["example"]));
    let mut req = sc_get("http://localhost:3000/dir");
    req.original_url = Some(sc_seg("http://localhost:3000/mounted/dir"));
    match st.handle(&vfs, &req) {
        Ok(res) => {
            assert_eq!(res.status, 301);
            assert_eq!(
                res.headers.location,
                Some(sc_seg("http://localhost:3000/mounted/dir/"))
            );
            match res.body {
                Body::Text(t) => assert_eq!(
                    t,
                    sc_seg("Redirecting to http://localhost:3000/mounted/dir/")
                ),
                _ => panic!("expected a text body"),
            }
        },
        Err(e) => panic!("unexpected error status {}", e.status),
    }
}

#[test]
fn directory_without_index_is_not_found() {
    let mut vfs = Vfs::new();
    vfs.add_dir(sc_path(&["example"]));
    vfs.add_dir(sc_path(&["example", "empty"]));

    let st = Static::new(sc_path(&["example"]));
    match st.handle(&vfs, &sc_get("http://localhost:3000/empty")) {
        Ok(res) => panic!("expected an error, got status {}", res.status),
        Err(e) => assert_eq!(e.status, 404),
    }
    match st.handle(&vfs, &sc_get("http://localhost:3000/empty/")) {
        Ok(res) => panic!("expected an error, got status {}", res.status),
        Err(e) => assert_eq!(e.status, 404),
    }
}

#[test]
fn requested_path_stays_inside_root() {
    let st_root = sc_path(&["example"]);
    let req = sc_get("http://localhost:3000/../..%2f../x");
    let resolved = RequestedPath::new(&st_root, &req);
    assert_eq!(resolved.path, sc_path(&["example", "x"]));
}

#[test]
fn following_a_redirect_serves_the_index() {
    let mut vfs = Vfs::new();
    vfs.add_dir(sc_path(&["example"]));
    vfs.add_dir(sc_path(&["example", "dir"]));
    vfs.add_file(sc_path(&["example", "dir", "index.html"]), 13, SC_NOW);
    let st = Static::new(sc_path(&["example"]));

    let location = match st.handle(&vfs, &sc_get("http://localhost:3000/dir")) {
        Ok(res) => {
            assert_eq!(res.status, 301);
            res.headers.location.expect("a redirect carries a location")
        },
        Err(e) => panic!("unexpected error status {}", e.status),
    };

    let follow_up = HttpRequest::get(location);
    match st.handle(&vfs, &follow_up) {
        Ok(res) => {
            assert_eq!(res.status, 200);
            match res.body {
                Body::File(p) => assert_eq!(p, sc_path(&["example", "dir", "index.html"])),
                _ => panic!("expected a file body"),
            }
        },
        Err(e) => panic!("unexpected error status {}", e.status),
    }
}

#[test]
fn cache_variant_returns_304_for_fresh_copy() {
    let vfs = sc_vfs_with_file1();
    let handler = StaticWithCache::new(sc_path(&["example"]));

    let mut req = sc_get("http://localhost:3000/file1.html");
    req.if_modified_since = Some(SC_NOW);
    match handler.call(&vfs, &req) {
        Ok(res) => assert_eq!(res.status, 304),
        Err(e) => panic!("unexpected error status {}", e.status),
    }
}

#[test]
fn cache_variant_stamps_fixed_cache_headers() {
    let vfs = sc_vfs_with_file1();
    let handler = StaticWithCache::new(sc_path(&["example"]));

    match handler.call(&vfs, &sc_get("http://localhost:3000/file1.html")) {
        Ok(res) => {
            assert_eq!(res.status, 200);
            assert_eq!(
                res.headers.cache_control,
                Some(CacheControl { public: true, max_age: 31536000 })
            );
            assert_eq!(res.headers.last_modified, Some(SC_NOW));
        },
        Err(e) => panic!("unexpected error status {}", e.status),
    }
}

#[test]
fn cache_variant_defers_missing_file_to_404() {
    let mut vfs = Vfs::new();
    vfs.add_dir(sc_path(&["example"]));
    let handler = StaticWithCache::new(sc_path(&["example"]));

    match handler.call(&vfs, &sc_get("http://localhost:3000/gone.html")) {
        Ok(res) => panic!("expected an error, got status {}", res.status),
        Err(e) => assert_eq!(e.status, 404),
    }
}
