//! Serving behavior at the root URL.

use staticfile::Static;
use staticfile::http::HttpRequest;
use staticfile::response::Body;
use staticfile::vfs::Vfs;

fn st_seg(s: &str) -> Vec<u8> {
    s.as_bytes().to_vec()
}

fn st_path(segs: &[&str]) -> Vec<Vec<u8>> {
    segs.iter().map(|s| st_seg(s)).collect()
}

fn st_get(url: &str) -> HttpRequest {
    HttpRequest::get(url.as_bytes().to_vec())
}

fn st_served_content<'a>(files: &'a [(Vec<Vec<u8>>, &'a str)], body: &Body) -> &'a str {
    match body {
        Body::File(p) => {
            for (path, content) in files {
                if path == p {
                    return content;
                }
            }
            panic!("decision names a path that holds no file");
        },
        _ => panic!("decision serves no file"),
    }
}

#[test]
fn static_tests_serves_non_default_file_from_absolute_root_path() {
    let files = vec![(st_path(&["example", "file1.html"]), "this is file1")];
    let mut vfs = Vfs::new();
    vfs.add_dir(st_path(&["example"]));
    vfs.add_file(st_path(&["example", "file1.html"]), 13, 1_700_000_000);

    let st = Static::new(st_path(&["example"]));
    match st.handle(&vfs, &st_get("http://localhost:3000/file1.html")) {
        Ok(res) => {
            assert_eq!(st_served_content(&files, &res.body), "this is file1");
        },
        Err(e) => panic!("unexpected error status {}", e.status),
    }
}

#[test]
fn static_tests_serves_default_file_from_absolute_root_path() {
    let files = vec![(st_path(&["example", "index.html"]), "this is index")];
    let mut vfs = Vfs::new();
    vfs.add_dir(st_path(&["example"]));
    vfs.add_file(st_path(&["example", "index.html"]), 13, 1_700_000_000);

    let st = Static::new(st_path(&["example"]));
    match st.handle(&vfs, &st_get("http://localhost:3000")) {
        Ok(res) => {
            assert_eq!(st_served_content(&files, &res.body), "this is index");
        },
        Err(e) => panic!("unexpected error status {}", e.status),
    }
}
