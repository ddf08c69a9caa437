//! Conditional-request behavior of `Static` with a `Cache` attached.

use staticfile::Static;
use staticfile::http::HttpRequest;
use staticfile::response::CacheControl;
use staticfile::vfs::Vfs;

fn ca_seg(s: &str) -> Vec<u8> {
    s.as_bytes().to_vec()
}

fn ca_path(segs: &[&str]) -> Vec<Vec<u8>> {
    segs.iter().map(|s| ca_seg(s)).collect()
}

fn ca_get(url: &str) -> HttpRequest {
    HttpRequest::get(url.as_bytes().to_vec())
}

/// The moment the test's files were last written, standing in for "now".
const NOW: u64 = 1_700_000_000;

fn ca_vfs_with_file1() -> Vfs {
    let mut vfs = Vfs::new();
    vfs.add_dir(ca_path(&["example"]));
    vfs.add_file(ca_path(&["example", "file1.html"]), 13, NOW);
    vfs
}

#[test]
fn it_should_return_cache_headers() {
    let vfs = ca_vfs_with_file1();
    let st = Static::new(ca_path(&["example"])).cache(30 * 24 * 60 * 60);
    match st.handle(&vfs, &ca_get("http://localhost:3000/file1.html")) {
        Ok(res) => {
            assert!(res.headers.cache_control.is_some());
            assert!(res.headers.last_modified.is_some());
            assert!(res.headers.etag.is_some());
            let cache = res.headers.cache_control.unwrap();
            assert_eq!(cache, CacheControl { public: true, max_age: 2592000 });
        },
        Err(e) => panic!("unexpected error status {}", e.status),
    }
}

#[test]
fn it_should_return_the_file_if_client_sends_no_modified_time() {
    let vfs = ca_vfs_with_file1();
    let st = Static::new(ca_path(&["example"])).cache(30 * 24 * 60 * 60);
    match st.handle(&vfs, &ca_get("http://localhost:3000/file1.html")) {
        Ok(res) => assert_eq!(res.status, 200),
        Err(e) => panic!("unexpected error status {}", e.status),
    }
}

#[test]
fn it_should_return_the_file_if_client_has_old_version() {
    let vfs = ca_vfs_with_file1();
    let st = Static::new(ca_path(&["example"])).cache(30 * 24 * 60 * 60);

    let one_hour_ago = NOW - 3600;
    let mut req = ca_get("http://localhost:3000/file1.html");
    req.if_modified_since = Some(one_hour_ago);
    match st.handle(&vfs, &req) {
        Ok(res) => assert_eq!(res.status, 200),
        Err(e) => panic!("unexpected error status {}", e.status),
    }
}

#[test]
fn it_should_return_304_if_client_has_file_cached() {
    let vfs = ca_vfs_with_file1();
    let st = Static::new(ca_path(&["example"])).cache(30 * 24 * 60 * 60);

    let mut req = ca_get("http://localhost:3000/file1.html");
    req.if_modified_since = Some(NOW);
    match st.handle(&vfs, &req) {
        Ok(res) => assert_eq!(res.status, 304),
        Err(e) => panic!("unexpected error status {}", e.status),
    }
}

#[test]
fn it_should_cache_index_html_for_directory_path() {
    let mut vfs = Vfs::new();
    vfs.add_dir(ca_path(&["example"]));
    vfs.add_dir(ca_path(&["example", "dir"]));
    vfs.add_file(ca_path(&["example", "dir", "index.html"]), 13, NOW);
    let st = Static::new(ca_path(&["example"])).cache(30 * 24 * 60 * 60);

    let mut req = ca_get("http://localhost:3000/dir/");
    req.if_modified_since = Some(NOW);
    match st.handle(&vfs, &req) {
        Ok(res) => assert_eq!(res.status, 304),
        Err(e) => panic!("unexpected error status {}", e.status),
    }
}

#[test]
fn it_should_defer_to_static_handler_if_directory_misses_trailing_slash() {
    let mut vfs = Vfs::new();
    vfs.add_dir(ca_path(&["example"]));
    vfs.add_dir(ca_path(&["example", "dir"]));
    vfs.add_file(ca_path(&["example", "dir", "index.html"]), 13, NOW);
    let st = Static::new(ca_path(&["example"])).cache(30 * 24 * 60 * 60);

    let mut req = ca_get("http://localhost:3000/dir");
    req.if_modified_since = Some(NOW);
    match st.handle(&vfs, &req) {
        Ok(res) => {
            assert_eq!(res.status, 301);
            assert!(res.headers.last_modified.is_none());
        },
        Err(e) => panic!("unexpected error status {}", e.status),
    }
}
