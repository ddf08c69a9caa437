//! Translation of a requested URL path into a safe on-disk path.
//!
//! The requested path arrives still percent-encoded. It is decoded first,
//! then split into segments on `/`, and the segments are normalized: empty
//! segments and `.` are dropped, and `..` removes the preceding segment but
//! can never climb above the serving root. The resolved path therefore
//! always stays inside the root's subtree.

use vstd::prelude::*;
use crate::http::HttpRequest;
use crate::bytes::{clone_bytes, clone_path};
use crate::vfs::{FileKind, FileMetadata, Vfs, is_file_at};

verus! {

/// The byte value of `/`.
pub const SLASH: u8 = 47;

/// The byte value of `%`.
pub const PERCENT: u8 = 37;

/// The byte value of `.`.
pub const DOT: u8 = 46;

/// Whether `b` is an ASCII hexadecimal digit.
pub open spec fn is_hex_digit(b: u8) -> bool {
    ('0' as u8 <= b && b <= '9' as u8) || ('A' as u8 <= b && b <= 'F' as u8) || ('a' as u8 <= b
        && b <= 'f' as u8)
}

/// The numeric value of the ASCII hexadecimal digit `b`.
pub open spec fn hex_value(b: u8) -> u8 {
    if b <= '9' as u8 {
        (b - '0' as u8) as u8
    } else if b <= 'F' as u8 {
        (b - 'A' as u8 + 10) as u8
    } else {
        (b - 'a' as u8 + 10) as u8
    }
}

/// `s` with every `%XY` escape (`X`, `Y` hexadecimal digits of either case)
/// replaced by the byte it names. A `%` that does not open a well-formed
/// escape stays as it is.
pub open spec fn percent_decoded(s: Seq<u8>) -> Seq<u8>
    decreases s.len(),
{
    if s.len() == 0 {
        seq![]
    } else if s[0] == PERCENT && s.len() >= 3 && is_hex_digit(s[1]) && is_hex_digit(s[2]) {
        seq![(hex_value(s[1]) * 16 + hex_value(s[2])) as u8] + percent_decoded(s.skip(3))
    } else {
        seq![s[0]] + percent_decoded(s.skip(1))
    }
}

fn hex_digit_value(b: u8) -> (v: u8)
    requires
        is_hex_digit(b),
    ensures
        v == hex_value(b),
{
    if b <= '9' as u8 {
        b - '0' as u8
    } else if b <= 'F' as u8 {
        b - 'A' as u8 + 10
    } else {
        b - 'a' as u8 + 10
    }
}

fn is_hex_digit_byte(b: u8) -> (r: bool)
    ensures
        r == is_hex_digit(b),
{
    ('0' as u8 <= b && b <= '9' as u8) || ('A' as u8 <= b && b <= 'F' as u8) || ('a' as u8 <= b
        && b <= 'f' as u8)
}

/// Percent-decode `s`, leaving malformed escapes untouched.
pub fn decode_percents(s: &Vec<u8>) -> (r: Vec<u8>)
    ensures
        r@ == percent_decoded(s@),
{
    let mut r: Vec<u8> = Vec::new();
    let mut i: usize = 0;
    proof {
        assert(s@.skip(0) =~= s@);
        assert(Seq::<u8>::empty() + percent_decoded(s@) =~= percent_decoded(s@));
    }
    while i < s.len()
        invariant
            i <= s.len(),
            percent_decoded(s@) == r@ + percent_decoded(s@.skip(i as int)),
        decreases s.len() - i,
    {
        if s[i] == PERCENT && s.len() - i > 2 && is_hex_digit_byte(s[i + 1]) && is_hex_digit_byte(
            s[i + 2],
        ) {
            let v = hex_digit_value(s[i + 1]) * 16 + hex_digit_value(s[i + 2]);
            proof {
                assert(s@.skip(i as int).skip(3) =~= s@.skip(i as int + 3));
            }
            r.push(v);
            i = i + 3;
        } else {
            proof {
                assert(s@.skip(i as int).skip(1) =~= s@.skip(i as int + 1));
            }
            r.push(s[i]);
            i = i + 1;
        }
    }
    proof {
        assert(s@.skip(s@.len() as int) =~= Seq::<u8>::empty());
    }
    r
}

/// The single segment `.`.
pub open spec fn dot_segment() -> Seq<u8> {
    seq![DOT]
}

/// The single segment `..`.
pub open spec fn dot_dot_segment() -> Seq<u8> {
    seq![DOT, DOT]
}

/// `s` split on `/`: every slash opens a new segment, so the result is
/// never empty, and an empty `s` yields one empty segment.
pub open spec fn split_segments(s: Seq<u8>) -> Seq<Seq<u8>>
    decreases s.len(),
{
    if s.len() == 0 {
        seq![Seq::<u8>::empty()]
    } else if s.last() == SLASH {
        split_segments(s.drop_last()).push(Seq::<u8>::empty())
    } else {
        let r = split_segments(s.drop_last());
        r.update(r.len() - 1, r.last().push(s.last()))
    }
}

pub proof fn lemma_split_segments_nonempty(s: Seq<u8>)
    ensures
        split_segments(s).len() >= 1,
    decreases s.len(),
{
    if s.len() > 0 {
        lemma_split_segments_nonempty(s.drop_last());
    }
}

/// Whether `s` contains no slash.
pub open spec fn seg_has_no_slash(s: Seq<u8>) -> bool {
    forall|j: int| 0 <= j < s.len() ==> s[j] != SLASH
}

/// No segment produced by splitting contains a slash.
pub proof fn lemma_split_segments_no_slash(s: Seq<u8>)
    ensures
        forall|i: int|
            0 <= i < split_segments(s).len() ==> seg_has_no_slash(#[trigger] split_segments(s)[i]),
    decreases s.len(),
{
    if s.len() > 0 {
        lemma_split_segments_no_slash(s.drop_last());
        lemma_split_segments_nonempty(s.drop_last());
        let r = split_segments(s.drop_last());
        if s.last() != SLASH {
            assert(seg_has_no_slash(r.last().push(s.last())));
        }
    }
}

/// Split `s` on `/`.
pub fn split_on_slash(s: &Vec<u8>) -> (segs: Vec<Vec<u8>>)
    ensures
        segs.deep_view() == split_segments(s@),
{
    let mut done: Vec<Vec<u8>> = Vec::new();
    let mut cur: Vec<u8> = Vec::new();
    let mut i: usize = 0;
    proof {
        assert(s@.take(0) =~= Seq::<u8>::empty());
        assert(done.deep_view().push(cur@) =~~= split_segments(s@.take(0)));
    }
    while i < s.len()
        invariant
            i <= s.len(),
            done.deep_view().push(cur@) == split_segments(s@.take(i as int)),
        decreases s.len() - i,
    {
        proof {
            assert(s@.take(i as int + 1).drop_last() =~= s@.take(i as int));
            assert(s@.take(i as int + 1).last() == s@[i as int]);
        }
        let ghost prev = split_segments(s@.take(i as int));
        if s[i] == SLASH {
            done.push(cur);
            cur = Vec::new();
            proof {
                assert(done.deep_view().push(cur@) =~~= prev.push(Seq::<u8>::empty()));
            }
        } else {
            let ghost old_cur = cur@;
            cur.push(s[i]);
            proof {
                assert(prev.last() == old_cur);
                assert(done.deep_view().push(cur@) =~~= prev.update(
                    prev.len() - 1,
                    old_cur.push(s@[i as int]),
                ));
            }
        }
        i = i + 1;
    }
    proof {
        assert(s@.take(s@.len() as int) =~= s@);
    }
    let ghost pre = done.deep_view().push(cur@);
    done.push(cur);
    proof {
        assert(done.deep_view() =~~= pre);
    }
    done
}

/// The segments of a request path after normalization: empty segments and
/// `.` are dropped, and `..` removes the segment before it. A `..` with
/// nothing left before it is dropped: the path can never climb above the
/// root it will be joined onto.
pub open spec fn normalized_segments(segs: Seq<Seq<u8>>) -> Seq<Seq<u8>>
    decreases segs.len(),
{
    if segs.len() == 0 {
        seq![]
    } else {
        let prev = normalized_segments(segs.drop_last());
        let last = segs.last();
        if last == Seq::<u8>::empty() || last == dot_segment() {
            prev
        } else if last == dot_dot_segment() {
            if prev.len() > 0 {
                prev.drop_last()
            } else {
                prev
            }
        } else {
            prev.push(last)
        }
    }
}

/// A segment that names a real directory entry: non-empty, not a dot
/// segment, and free of slashes.
pub open spec fn is_normal_segment(s: Seq<u8>) -> bool {
    &&& s.len() > 0
    &&& s != dot_segment()
    &&& s != dot_dot_segment()
    &&& seg_has_no_slash(s)
}

/// Normalization keeps only normal segments, provided no input segment
/// contains a slash.
pub proof fn lemma_normalized_segments_normal(segs: Seq<Seq<u8>>)
    requires
        forall|i: int| 0 <= i < segs.len() ==> seg_has_no_slash(#[trigger] segs[i]),
    ensures
        forall|i: int|
            0 <= i < normalized_segments(segs).len() ==> is_normal_segment(
                #[trigger] normalized_segments(segs)[i],
            ),
    decreases segs.len(),
{
    if segs.len() > 0 {
        assert forall|i: int|
            0 <= i < segs.drop_last().len() implies seg_has_no_slash(
            #[trigger] segs.drop_last()[i],
        ) by {
            assert(segs.drop_last()[i] == segs[i]);
        }
        lemma_normalized_segments_normal(segs.drop_last());
        let prev = normalized_segments(segs.drop_last());
        let last = segs.last();
        if last != Seq::<u8>::empty() && last != dot_segment() && last != dot_dot_segment() {
            assert(last == segs[segs.len() - 1]);
            assert(seg_has_no_slash(segs[segs.len() - 1]));
            if last.len() == 0 {
                assert(last =~= Seq::<u8>::empty());
            }
            assert(is_normal_segment(last));
        }
        assert forall|i: int|
            0 <= i < normalized_segments(segs).len() implies is_normal_segment(
            #[trigger] normalized_segments(segs)[i],
        ) by {
            if i < prev.len() && normalized_segments(segs)[i] == prev[i] {
                assert(is_normal_segment(prev[i]));
            }
        }
    }
}

fn seg_is_empty_or_dot(seg: &Vec<u8>) -> (r: bool)
    ensures
        r == (seg@ == Seq::<u8>::empty() || seg@ == dot_segment()),
{
    if seg.len() == 0 {
        proof {
            assert(seg@ =~= Seq::<u8>::empty());
        }
        true
    } else if seg.len() == 1 && seg[0] == DOT {
        proof {
            assert(seg@ =~= dot_segment());
        }
        true
    } else {
        proof {
            assert(seg@ != Seq::<u8>::empty() && seg@ != dot_segment());
        }
        false
    }
}

fn seg_is_dot_dot(seg: &Vec<u8>) -> (r: bool)
    ensures
        r == (seg@ == dot_dot_segment()),
{
    if seg.len() == 2 && seg[0] == DOT && seg[1] == DOT {
        proof {
            assert(seg@ =~= dot_dot_segment());
        }
        true
    } else {
        proof {
            assert(seg@ != dot_dot_segment());
        }
        false
    }
}

/// Normalize already-split segments.
pub fn normalize_segments_vec(segs: Vec<Vec<u8>>) -> (out: Vec<Vec<u8>>)
    ensures
        out.deep_view() == normalized_segments(segs.deep_view()),
{
    let mut out: Vec<Vec<u8>> = Vec::new();
    let mut i: usize = 0;
    proof {
        assert(segs.deep_view().take(0) =~= Seq::<Seq<u8>>::empty());
        assert(out.deep_view() =~~= normalized_segments(segs.deep_view().take(0)));
    }
    while i < segs.len()
        invariant
            i <= segs.len(),
            out.deep_view() == normalized_segments(segs.deep_view().take(i as int)),
        decreases segs.len() - i,
    {
        proof {
            assert(segs.deep_view().take(i as int + 1).drop_last() =~= segs.deep_view().take(
                i as int,
            ));
            assert(segs.deep_view().take(i as int + 1).last() == segs.deep_view()[i as int]);
            assert(segs.deep_view()[i as int] =~= segs@[i as int]@);
        }
        let ghost prev = normalized_segments(segs.deep_view().take(i as int));
        if seg_is_empty_or_dot(&segs[i]) {
        } else if seg_is_dot_dot(&segs[i]) {
            if out.len() > 0 {
                out.pop();
                proof {
                    assert(out.deep_view() =~~= prev.drop_last());
                }
            }
        } else {
            out.push(segs[i].clone());
            proof {
                assert(out.deep_view() =~~= prev.push(segs.deep_view()[i as int]));
            }
        }
        i = i + 1;
    }
    proof {
        assert(segs.deep_view().take(segs@.len() as int) =~= segs.deep_view());
    }
    out
}

/// The resolved path of a raw request path, relative to the root: decode,
/// split, normalize.
pub open spec fn resolved_relative(path: Seq<u8>) -> Seq<Seq<u8>> {
    normalized_segments(split_segments(percent_decoded(path)))
}

/// The resolved on-disk path: the root's segments followed by the resolved
/// relative segments of the request path.
pub open spec fn resolved_path(root: Seq<Seq<u8>>, path: Seq<u8>) -> Seq<Seq<u8>> {
    root + resolved_relative(path)
}

/// Traversal containment: whatever the request path holds, the resolved
/// on-disk path starts with the root's own segments, and everything after
/// them is a normal segment. No request can name anything outside the
/// root's subtree.
pub proof fn lemma_traversal_containment(root: Seq<Seq<u8>>, path: Seq<u8>)
    ensures
        resolved_path(root, path).len() >= root.len(),
        resolved_path(root, path).take(root.len() as int) == root,
        forall|i: int|
            root.len() <= i < resolved_path(root, path).len() ==> is_normal_segment(
                #[trigger] resolved_path(root, path)[i],
            ),
{
    lemma_split_segments_no_slash(percent_decoded(path));
    lemma_normalized_segments_normal(split_segments(percent_decoded(path)));
    assert(resolved_path(root, path).take(root.len() as int) =~= root);
}

proof fn lemma_decode_push_slash(s: Seq<u8>)
    ensures
        percent_decoded(s.push(SLASH)) == percent_decoded(s).push(SLASH),
    decreases s.len(),
{
    let t = s.push(SLASH);
    if s.len() == 0 {
        assert(t.skip(1) =~= Seq::<u8>::empty());
        assert(percent_decoded(Seq::<u8>::empty()) =~= Seq::<u8>::empty());
        assert(t[0] == SLASH);
        assert(percent_decoded(t) =~= percent_decoded(s).push(SLASH));
    } else {
        assert(t[0] == s[0]);
        if s[0] == PERCENT && s.len() >= 3 && is_hex_digit(s[1]) && is_hex_digit(s[2]) {
            assert(t.skip(3) =~= s.skip(3).push(SLASH));
            lemma_decode_push_slash(s.skip(3));
            assert(percent_decoded(t) =~= percent_decoded(s).push(SLASH));
        } else {
            // A slash is not a hexadecimal digit, so appending one cannot
            // complete an escape that was malformed before.
            assert(!is_hex_digit(SLASH));
            assert(t.skip(1) =~= s.skip(1).push(SLASH));
            lemma_decode_push_slash(s.skip(1));
            assert(percent_decoded(t) =~= percent_decoded(s).push(SLASH));
        }
    }
}

/// Appending the one slash of a directory redirect changes nothing about
/// where a path resolves: the slash decodes to itself, splitting turns it
/// into one empty segment, and normalization drops that segment. Together
/// with the redirect law this closes the loop: the URL a directory
/// redirect points at serves exactly what the slashed form serves.
pub proof fn lemma_trailing_slash_resolves_same(root: Seq<Seq<u8>>, path: Seq<u8>)
    ensures
        resolved_path(root, path.push(SLASH)) == resolved_path(root, path),
{
    lemma_decode_push_slash(path);
    let d = percent_decoded(path);
    assert(d.push(SLASH).drop_last() =~= d);
    assert(split_segments(d.push(SLASH)) == split_segments(d).push(Seq::<u8>::empty()));
    assert(split_segments(d).push(Seq::<u8>::empty()).drop_last() =~= split_segments(d));
    assert(normalized_segments(split_segments(d).push(Seq::<u8>::empty()))
        == normalized_segments(split_segments(d)));
}

/// Whether the raw (still percent-encoded) request path ends in a slash.
pub open spec fn has_trailing_slash(path: Seq<u8>) -> bool {
    path.len() > 0 && path.last() == SLASH
}

/// The name of a directory's index file: `index.html`.
pub open spec fn index_segment() -> Seq<u8> {
    seq![
        'i' as u8,
        'n' as u8,
        'd' as u8,
        'e' as u8,
        'x' as u8,
        '.' as u8,
        'h' as u8,
        't' as u8,
        'm' as u8,
        'l' as u8,
    ]
}

/// The name of a directory's index file, as a fresh segment.
pub fn index_segment_vec() -> (r: Vec<u8>)
    ensures
        r@ == index_segment(),
{
    let mut r: Vec<u8> = Vec::new();
    r.push('i' as u8);
    r.push('n' as u8);
    r.push('d' as u8);
    r.push('e' as u8);
    r.push('x' as u8);
    r.push('.' as u8);
    r.push('h' as u8);
    r.push('t' as u8);
    r.push('m' as u8);
    r.push('l' as u8);
    proof {
        assert(r@ =~= index_segment());
    }
    r
}

/// What a resolved path serves, given its metadata and the filesystem
/// snapshot: the path itself when it is a regular file; its `index.html`
/// when it is a directory holding one as a regular file; nothing
/// otherwise.
pub open spec fn get_file_spec(
    path: Seq<Seq<u8>>,
    metadata: FileMetadata,
    entries: Seq<crate::vfs::VfsEntry>,
) -> Option<Seq<Seq<u8>>> {
    if metadata.kind == FileKind::Regular {
        Some(path)
    } else {
        let idx = path.push(index_segment());
        if is_file_at(entries, idx) {
            Some(idx)
        } else {
            None
        }
    }
}

/// One request's path, resolved onto the serving root.
pub struct RequestedPath {
    /// The resolved on-disk path: the root's segments, then the request's
    /// decoded and normalized segments.
    pub path: Vec<Vec<u8>>,
}

impl RequestedPath {
    /// Resolve `request`'s URL path onto `root_path`: percent-decode it,
    /// split it on slashes, normalize the segments, and append them to the
    /// root's own segments.
    pub fn new(root_path: &Vec<Vec<u8>>, request: &HttpRequest) -> (r: RequestedPath)
        ensures
            r.path.deep_view() == resolved_path(root_path.deep_view(), request.path@),
    {
        let decoded = decode_percents(&request.path);
        let segs = split_on_slash(&decoded);
        let rel = normalize_segments_vec(segs);
        let mut path = clone_path(root_path);
        let mut i: usize = 0;
        proof {
            assert(path.deep_view() =~~= root_path.deep_view() + rel.deep_view().take(0));
        }
        while i < rel.len()
            invariant
                i <= rel.len(),
                path@.len() == root_path@.len() + i,
                path.deep_view() == root_path.deep_view() + rel.deep_view().take(i as int),
            decreases rel.len() - i,
        {
            let seg = clone_bytes(&rel[i]);
            let ghost sv = seg@;
            let ghost pre_vec = path@;
            let ghost pre_dv = path.deep_view();
            path.push(seg);
            proof {
                let dv_new = path.deep_view();
                let rhs = root_path.deep_view() + rel.deep_view().take(i as int + 1);
                assert(dv_new.len() == rhs.len());
                assert forall|k: int| 0 <= k < dv_new.len() implies dv_new[k] == rhs[k] by {
                    if k < pre_vec.len() {
                        assert(path@[k] == pre_vec[k]);
                        assert(dv_new[k] == pre_vec[k].deep_view());
                        assert(pre_dv[k] == pre_vec[k].deep_view());
                        assert(pre_dv[k] == (root_path.deep_view() + rel.deep_view().take(
                            i as int,
                        ))[k]);
                        if k >= root_path@.len() {
                            assert(rel.deep_view().take(i as int + 1)[k - root_path@.len()]
                                == rel.deep_view().take(i as int)[k - root_path@.len()]);
                        }
                    } else {
                        assert(path@[k]@ == sv);
                        assert(sv == rel@[i as int]@);
                        assert(dv_new[k] =~= rel.deep_view()[i as int]);
                        assert(rhs[k] == rel.deep_view().take(i as int + 1)[i as int]);
                    }
                }
                assert(dv_new =~= rhs);
            }
            i = i + 1;
        }
        proof {
            assert(rel.deep_view().take(rel@.len() as int) =~~= rel.deep_view());
        }
        RequestedPath { path }
    }

    /// Whether the request must be redirected to the slash-terminated form
    /// of its URL: it resolved to a directory, but the URL's path does not
    /// end in a slash. A request with an empty path counts as slash-less.
    pub fn should_redirect(&self, metadata: &FileMetadata, request: &HttpRequest) -> (r: bool)
        ensures
            r == (metadata.kind == FileKind::Directory && !has_trailing_slash(request.path@)),
    {
        let n = request.path.len();
        let has_slash = n > 0 && request.path[n - 1] == SLASH;
        metadata.is_dir() && !has_slash
    }

    /// The file this resolved path serves, if any: the path itself when it
    /// names a regular file, else the directory's `index.html` when the
    /// snapshot shows one as a regular file.
    pub fn get_file(self, metadata: &FileMetadata, vfs: &Vfs) -> (r: Option<Vec<Vec<u8>>>)
        ensures
            ({
                let decided = get_file_spec(self.path.deep_view(), *metadata, vfs.entries@);
                match r {
                    Some(p) => decided == Some(p.deep_view()),
                    None => decided is None,
                }
            }),
    {
        if metadata.is_file() {
            return Some(self.path);
        }
        let mut index_path = self.path;
        let ghost base = index_path.deep_view();
        index_path.push(index_segment_vec());
        proof {
            assert(index_path.deep_view() =~~= base.push(index_segment()));
        }
        match vfs.stat(&index_path) {
            Ok(m) => {
                if m.is_file() {
                    Some(index_path)
                } else {
                    None
                }
            },
            Err(_) => None,
        }
    }
}

} // verus!
