//! The filesystem as the handler sees it: metadata only.
//!
//! The handler never touches a disk. The embedding server reads the metadata
//! of the few paths a request can name — the resolved path and its
//! `index.html` — and hands them in as a [`Vfs`] value: a table from on-disk
//! paths to the outcome a metadata query (a stat) would have. Every decision
//! the handler makes is a pure function of this table, so a single `Vfs`
//! value stands for one consistent snapshot of the filesystem.

use vstd::prelude::*;
use crate::bytes::path_eq;

verus! {

/// What kind of object a path names.
#[derive(Clone, Copy, PartialEq, Eq, Structural, Debug)]
pub enum FileKind {
    /// A regular file.
    Regular,
    /// A directory.
    Directory,
}

/// Why a metadata query failed.
#[derive(Clone, Copy, PartialEq, Eq, Structural, Debug)]
pub enum IoErrorKind {
    /// The path names nothing.
    NotFound,
    /// The filesystem refused access.
    PermissionDenied,
    /// Any other filesystem failure.
    Other,
}

/// The metadata of one path: its kind, its size in bytes, and its
/// last-modification time in whole seconds since the epoch (sub-second
/// precision is discarded to match HTTP date granularity).
#[derive(Clone, Copy, PartialEq, Eq, Structural, Debug)]
pub struct FileMetadata {
    /// Regular file or directory.
    pub kind: FileKind,
    /// The size in bytes.
    pub len: u64,
    /// The last-modification time, in whole seconds since the epoch.
    pub modified: u64,
}

impl FileMetadata {
    /// Whether this metadata describes a regular file.
    pub fn is_file(&self) -> (r: bool)
        ensures
            r == (self.kind == FileKind::Regular),
    {
        self.kind == FileKind::Regular
    }

    /// Whether this metadata describes a directory.
    pub fn is_dir(&self) -> (r: bool)
        ensures
            r == (self.kind == FileKind::Directory),
    {
        self.kind == FileKind::Directory
    }
}

/// One path and the outcome of querying its metadata.
pub struct VfsEntry {
    /// The on-disk path, as a sequence of segments.
    pub path: Vec<Vec<u8>>,
    /// What querying this path's metadata yields.
    pub stat: Result<FileMetadata, IoErrorKind>,
}

/// A snapshot of filesystem metadata: a table from paths to stat outcomes.
/// A path with no entry names nothing.
pub struct Vfs {
    /// The known paths, earliest entry first; the first match wins.
    pub entries: Vec<VfsEntry>,
}

/// The outcome of querying the metadata of `path` in the snapshot
/// `entries`: the first matching entry's outcome, or not-found.
pub open spec fn stat_spec(entries: Seq<VfsEntry>, path: Seq<Seq<u8>>) -> Result<
    FileMetadata,
    IoErrorKind,
>
    decreases entries.len(),
{
    if entries.len() == 0 {
        Err(IoErrorKind::NotFound)
    } else if entries[0].path.deep_view() == path {
        entries[0].stat
    } else {
        stat_spec(entries.skip(1), path)
    }
}

/// Whether `path` names a regular file in the snapshot `entries`; if so,
/// its metadata is `stat_spec(entries, path).unwrap()`.
pub open spec fn is_file_at(entries: Seq<VfsEntry>, path: Seq<Seq<u8>>) -> bool {
    match stat_spec(entries, path) {
        Ok(m) => m.kind == FileKind::Regular,
        Err(_) => false,
    }
}

/// Whether `path` names a directory in the snapshot `entries`.
pub open spec fn is_dir_at(entries: Seq<VfsEntry>, path: Seq<Seq<u8>>) -> bool {
    match stat_spec(entries, path) {
        Ok(m) => m.kind == FileKind::Directory,
        Err(_) => false,
    }
}

impl Vfs {
    /// An empty snapshot: every path names nothing.
    pub fn new() -> (r: Vfs)
        ensures
            r.entries@ =~= Seq::<VfsEntry>::empty(),
    {
        Vfs { entries: Vec::new() }
    }

    /// Record that `path` names a regular file of `len` bytes last modified
    /// at `modified` seconds since the epoch.
    pub fn add_file(&mut self, path: Vec<Vec<u8>>, len: u64, modified: u64)
        ensures
            final(self).entries@ == old(self).entries@.push(
                VfsEntry {
                    path,
                    stat: Ok(FileMetadata { kind: FileKind::Regular, len, modified }),
                },
            ),
    {
        self.entries.push(
            VfsEntry { path, stat: Ok(FileMetadata { kind: FileKind::Regular, len, modified }) },
        );
    }

    /// Record that `path` names a directory.
    pub fn add_dir(&mut self, path: Vec<Vec<u8>>)
        ensures
            final(self).entries@ == old(self).entries@.push(
                VfsEntry {
                    path,
                    stat: Ok(FileMetadata { kind: FileKind::Directory, len: 0, modified: 0 }),
                },
            ),
    {
        self.entries.push(
            VfsEntry {
                path,
                stat: Ok(FileMetadata { kind: FileKind::Directory, len: 0, modified: 0 }),
            },
        );
    }

    /// Record that querying `path` fails with the filesystem error `kind`.
    pub fn add_error(&mut self, path: Vec<Vec<u8>>, kind: IoErrorKind)
        ensures
            final(self).entries@ == old(self).entries@.push(VfsEntry { path, stat: Err(kind) }),
    {
        self.entries.push(VfsEntry { path, stat: Err(kind) });
    }

    /// Query the metadata of `path` in this snapshot.
    pub fn stat(&self, path: &Vec<Vec<u8>>) -> (r: Result<FileMetadata, IoErrorKind>)
        ensures
            r == stat_spec(self.entries@, path.deep_view()),
    {
        let mut i: usize = 0;
        proof {
            assert(self.entries@.skip(0) =~= self.entries@);
        }
        while i < self.entries.len()
            invariant
                i <= self.entries@.len(),
                stat_spec(self.entries@, path.deep_view()) == stat_spec(
                    self.entries@.skip(i as int),
                    path.deep_view(),
                ),
            decreases self.entries@.len() - i,
        {
            proof {
                assert(self.entries@.skip(i as int).skip(1) =~= self.entries@.skip(i as int + 1));
                assert(self.entries@.skip(i as int)[0] == self.entries@[i as int]);
            }
            if path_eq(&self.entries[i].path, path) {
                return self.entries[i].stat;
            }
            i = i + 1;
        }
        proof {
            assert(self.entries@.skip(self.entries@.len() as int) =~= Seq::<VfsEntry>::empty());
        }
        Err(IoErrorKind::NotFound)
    }
}

} // verus!
