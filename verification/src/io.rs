//! The filesystem work that the operations ask of their caller, the caller's
//! replies, and the progress of an operation.

use vstd::prelude::*;
use crate::path::{bases_are_nested, file_name, parent, path_starts_with};
use crate::types::{Capability, Error, ErrorView, IoFailure, SubvolumeOp};

verus! {

/// What `stat` tells of a file.
#[derive(Clone, Copy, Debug, PartialEq, Eq, Structural)]
pub struct FileMeta {
    pub is_dir: bool,
    pub is_file: bool,
    pub is_symlink: bool,
    pub dev: u64,
    pub ino: u64,
    pub nlink: u64,
    pub uid: u32,
    pub gid: u32,
    pub mode: u32,
    pub times: Timestamps,
}

/// Access and modification times.
#[derive(Clone, Copy, Debug, PartialEq, Eq, Structural)]
pub struct Timestamps {
    pub atime: i64,
    pub atime_nsec: i64,
    pub mtime: i64,
    pub mtime_nsec: i64,
}

/// One piece of filesystem work.
#[derive(Debug)]
pub enum Request {
    /// Resolve a path to its canonical absolute form.
    Canonicalize(Vec<u8>),
    /// Read the metadata of a path, following symbolic links.
    Metadata(Vec<u8>),
    /// Read the metadata of a path itself, without following a final link.
    SymlinkMetadata(Vec<u8>),
    /// Read the filesystem type number (`statfs`) of a path.
    FilesystemType(Vec<u8>),
    /// Read the filesystem type name (`statfs`) of a path.
    FilesystemName(Vec<u8>),
    /// Read the Btrfs filesystem id of a path.
    FilesystemId(Vec<u8>),
    /// Create one directory.
    CreateDir(Vec<u8>),
    /// Remove a directory and everything below it.
    RemoveDirAll(Vec<u8>),
    /// Remove an empty directory.
    RemoveDir(Vec<u8>),
    /// Remove a file.
    RemoveFile(Vec<u8>),
    /// Open a file for reading and hold it for the requests that follow.
    OpenFile(Vec<u8>),
    /// A Btrfs subvolume operation on the entry `name` of the directory
    /// `parent`, the entry that `path` names; a snapshot takes the held file
    /// as its source.
    Subvolume { op: SubvolumeOp, path: Vec<u8>, parent: Vec<u8>, name: Vec<u8> },
    /// Read the subvolume flags of the held file.
    SubvolumeFlags,
    /// Write the subvolume flags of the held file.
    SetSubvolumeFlags(u64),
    /// Clone a whole tree with `clonefile`.
    CloneTree { from: Vec<u8>, to: Vec<u8> },
    /// Create a new file that must not exist and write `contents` to it.
    CreateFile { path: Vec<u8>, contents: Vec<u8> },
    /// Create the new file `to` sharing the data of `from`.
    ReflinkFile { from: Vec<u8>, to: Vec<u8> },
    /// Whether a path exists, following links; any failure counts as absent.
    PathExists(Vec<u8>),
    /// Begin walking the tree below a directory, the directory itself
    /// excluded, without following links, each directory before its entries.
    OpenWalk(Vec<u8>),
    /// The next entry of the walk.
    NextWalkEntry,
    /// Begin listing a directory.
    OpenDirectory(Vec<u8>),
    /// The next entry of the listing.
    NextDirectoryEntry,
    /// Create the hard link `link` to `original`.
    HardLink { original: Vec<u8>, link: Vec<u8> },
    /// Read the target of a symbolic link.
    ReadLink(Vec<u8>),
    /// Create the symbolic link `link` pointing at `target`.
    Symlink { target: Vec<u8>, link: Vec<u8> },
    /// Set owner and group, without following a final link.
    SetOwner { path: Vec<u8>, uid: u32, gid: u32 },
    /// Set the permission bits.
    SetMode { path: Vec<u8>, mode: u32 },
    /// The names of the extended attributes, each followed by a zero byte.
    ListXattrs(Vec<u8>),
    /// The value of one extended attribute.
    GetXattr { path: Vec<u8>, name: Vec<u8> },
    /// Set one extended attribute.
    SetXattr { path: Vec<u8>, name: Vec<u8>, value: Vec<u8> },
    /// Set access and modification times, without following a final link.
    SetTimes { path: Vec<u8>, times: Timestamps },
    /// The process id and a number not handed out before in this process.
    ProbeIdentity,
}

pub enum RequestView {
    Canonicalize(Seq<u8>),
    Metadata(Seq<u8>),
    SymlinkMetadata(Seq<u8>),
    FilesystemType(Seq<u8>),
    FilesystemName(Seq<u8>),
    FilesystemId(Seq<u8>),
    CreateDir(Seq<u8>),
    RemoveDirAll(Seq<u8>),
    RemoveDir(Seq<u8>),
    RemoveFile(Seq<u8>),
    OpenFile(Seq<u8>),
    Subvolume { op: SubvolumeOp, path: Seq<u8>, parent: Seq<u8>, name: Seq<u8> },
    SubvolumeFlags,
    SetSubvolumeFlags(u64),
    CloneTree { from: Seq<u8>, to: Seq<u8> },
    CreateFile { path: Seq<u8>, contents: Seq<u8> },
    ReflinkFile { from: Seq<u8>, to: Seq<u8> },
    PathExists(Seq<u8>),
    OpenWalk(Seq<u8>),
    NextWalkEntry,
    OpenDirectory(Seq<u8>),
    NextDirectoryEntry,
    HardLink { original: Seq<u8>, link: Seq<u8> },
    ReadLink(Seq<u8>),
    Symlink { target: Seq<u8>, link: Seq<u8> },
    SetOwner { path: Seq<u8>, uid: u32, gid: u32 },
    SetMode { path: Seq<u8>, mode: u32 },
    ListXattrs(Seq<u8>),
    GetXattr { path: Seq<u8>, name: Seq<u8> },
    SetXattr { path: Seq<u8>, name: Seq<u8>, value: Seq<u8> },
    SetTimes { path: Seq<u8>, times: Timestamps },
    ProbeIdentity,
}

impl View for Request {
    type V = RequestView;

    open spec fn view(&self) -> RequestView {
        match self {
            Request::Canonicalize(p) => RequestView::Canonicalize(p@),
            Request::Metadata(p) => RequestView::Metadata(p@),
            Request::SymlinkMetadata(p) => RequestView::SymlinkMetadata(p@),
            Request::FilesystemType(p) => RequestView::FilesystemType(p@),
            Request::FilesystemName(p) => RequestView::FilesystemName(p@),
            Request::FilesystemId(p) => RequestView::FilesystemId(p@),
            Request::CreateDir(p) => RequestView::CreateDir(p@),
            Request::RemoveDirAll(p) => RequestView::RemoveDirAll(p@),
            Request::RemoveDir(p) => RequestView::RemoveDir(p@),
            Request::RemoveFile(p) => RequestView::RemoveFile(p@),
            Request::OpenFile(p) => RequestView::OpenFile(p@),
            Request::Subvolume { op, path, parent, name } => RequestView::Subvolume {
                op: *op,
                path: path@,
                parent: parent@,
                name: name@,
            },
            Request::SubvolumeFlags => RequestView::SubvolumeFlags,
            Request::SetSubvolumeFlags(f) => RequestView::SetSubvolumeFlags(*f),
            Request::CloneTree { from, to } => RequestView::CloneTree { from: from@, to: to@ },
            Request::CreateFile { path, contents } => RequestView::CreateFile {
                path: path@,
                contents: contents@,
            },
            Request::ReflinkFile { from, to } => RequestView::ReflinkFile { from: from@, to: to@ },
            Request::PathExists(p) => RequestView::PathExists(p@),
            Request::OpenWalk(p) => RequestView::OpenWalk(p@),
            Request::NextWalkEntry => RequestView::NextWalkEntry,
            Request::OpenDirectory(p) => RequestView::OpenDirectory(p@),
            Request::NextDirectoryEntry => RequestView::NextDirectoryEntry,
            Request::HardLink { original, link } => RequestView::HardLink {
                original: original@,
                link: link@,
            },
            Request::ReadLink(p) => RequestView::ReadLink(p@),
            Request::Symlink { target, link } => RequestView::Symlink {
                target: target@,
                link: link@,
            },
            Request::SetOwner { path, uid, gid } => RequestView::SetOwner {
                path: path@,
                uid: *uid,
                gid: *gid,
            },
            Request::SetMode { path, mode } => RequestView::SetMode { path: path@, mode: *mode },
            Request::ListXattrs(p) => RequestView::ListXattrs(p@),
            Request::GetXattr { path, name } => RequestView::GetXattr {
                path: path@,
                name: name@,
            },
            Request::SetXattr { path, name, value } => RequestView::SetXattr {
                path: path@,
                name: name@,
                value: value@,
            },
            Request::SetTimes { path, times } => RequestView::SetTimes {
                path: path@,
                times: *times,
            },
            Request::ProbeIdentity => RequestView::ProbeIdentity,
        }
    }
}

/// The caller's answer to a request.
#[derive(Debug)]
pub enum Reply {
    /// The work was done.
    Done,
    /// An I/O operation failed.
    Failed(IoFailure),
    /// A copy-on-write system call (`clonefile`, a reflink, a subvolume
    /// operation) reported failure.
    Refused(IoFailure),
    Path(Vec<u8>),
    Meta(FileMeta),
    FsType(i64),
    FsId(u128),
    Flags(u64),
    Exists(bool),
    Bytes(Vec<u8>),
    WalkEntry(Vec<u8>),
    DirEntry { path: Vec<u8>, is_dir: bool },
    /// The walk or listing has no more entries.
    End,
    Identity { pid: u32, id: u64 },
}

pub enum ReplyView {
    Done,
    Failed(IoFailure),
    Refused(IoFailure),
    Path(Seq<u8>),
    Meta(FileMeta),
    FsType(i64),
    FsId(u128),
    Flags(u64),
    Exists(bool),
    Bytes(Seq<u8>),
    WalkEntry(Seq<u8>),
    DirEntry { path: Seq<u8>, is_dir: bool },
    End,
    Identity { pid: u32, id: u64 },
}

impl View for Reply {
    type V = ReplyView;

    open spec fn view(&self) -> ReplyView {
        match self {
            Reply::Done => ReplyView::Done,
            Reply::Failed(f) => ReplyView::Failed(*f),
            Reply::Refused(f) => ReplyView::Refused(*f),
            Reply::Path(p) => ReplyView::Path(p@),
            Reply::Meta(m) => ReplyView::Meta(*m),
            Reply::FsType(t) => ReplyView::FsType(*t),
            Reply::FsId(i) => ReplyView::FsId(*i),
            Reply::Flags(f) => ReplyView::Flags(*f),
            Reply::Exists(b) => ReplyView::Exists(*b),
            Reply::Bytes(b) => ReplyView::Bytes(b@),
            Reply::WalkEntry(p) => ReplyView::WalkEntry(p@),
            Reply::DirEntry { path, is_dir } => ReplyView::DirEntry { path: path@, is_dir: *is_dir },
            Reply::End => ReplyView::End,
            Reply::Identity { pid, id } => ReplyView::Identity { pid: *pid, id: *id },
        }
    }
}

/// Where an operation stands: waiting for the reply to its machine's
/// request, or finished.
pub enum Progress<M, T> {
    Ask(M),
    Finish(Result<T, Error>),
}

pub enum ProgressView<M, T> {
    Ask(M),
    Finish(Result<T, ErrorView>),
}

pub open spec fn result_view<T: View>(r: Result<T, Error>) -> Result<T::V, ErrorView> {
    match r {
        Ok(v) => Ok(v@),
        Err(e) => Err(e@),
    }
}

impl<M: View, T: View> View for Progress<M, T> {
    type V = ProgressView<M::V, T::V>;

    open spec fn view(&self) -> ProgressView<M::V, T::V> {
        match self {
            Progress::Ask(m) => ProgressView::Ask(m@),
            Progress::Finish(r) => ProgressView::Finish(result_view(*r)),
        }
    }
}

impl View for Capability {
    type V = Capability;

    open spec fn view(&self) -> Capability {
        *self
    }
}

/// The requests that change the filesystem; all others only read it.
pub open spec fn changes_filesystem(r: RequestView) -> bool {
    match r {
        RequestView::CreateDir(_) => true,
        RequestView::RemoveDirAll(_) => true,
        RequestView::RemoveDir(_) => true,
        RequestView::RemoveFile(_) => true,
        RequestView::Subvolume { .. } => true,
        RequestView::SetSubvolumeFlags(_) => true,
        RequestView::CloneTree { .. } => true,
        RequestView::CreateFile { .. } => true,
        RequestView::ReflinkFile { .. } => true,
        RequestView::HardLink { .. } => true,
        RequestView::Symlink { .. } => true,
        RequestView::SetOwner { .. } => true,
        RequestView::SetMode { .. } => true,
        RequestView::SetXattr { .. } => true,
        RequestView::SetTimes { .. } => true,
        _ => false,
    }
}

/// A request that changes nothing, or changes only `dest` or what lies
/// below it. A subvolume operation counts when the path it names lies there
/// and it works on the entry that this path names.
pub open spec fn changes_only_below(r: RequestView, dest: Seq<u8>) -> bool {
    match r {
        RequestView::CreateDir(p) => path_starts_with(p, dest),
        RequestView::RemoveDirAll(p) => path_starts_with(p, dest),
        RequestView::RemoveDir(p) => path_starts_with(p, dest),
        RequestView::RemoveFile(p) => path_starts_with(p, dest),
        RequestView::Subvolume { path, parent: dir, name, .. } => path_starts_with(path, dest)
            && parent(path) == Some(dir) && file_name(path) == Some(name),
        RequestView::SetSubvolumeFlags(_) => false,
        RequestView::CloneTree { to, .. } => path_starts_with(to, dest),
        RequestView::CreateFile { path, .. } => path_starts_with(path, dest),
        RequestView::ReflinkFile { to, .. } => path_starts_with(to, dest),
        RequestView::HardLink { link, .. } => path_starts_with(link, dest),
        RequestView::Symlink { link, .. } => path_starts_with(link, dest),
        RequestView::SetOwner { path, .. } => path_starts_with(path, dest),
        RequestView::SetMode { path, .. } => path_starts_with(path, dest),
        RequestView::SetXattr { path, .. } => path_starts_with(path, dest),
        RequestView::SetTimes { path, .. } => path_starts_with(path, dest),
        _ => true,
    }
}

/// The entry that a request changing the filesystem creates, removes or
/// alters: for a subvolume operation, the path it names; for a
/// reflink, hard link or symlink, the new entry. A change of subvolume flags
/// works on the file opened before it and names no path.
pub open spec fn changed_path(r: RequestView) -> Option<Seq<u8>> {
    match r {
        RequestView::CreateDir(p) => Some(p),
        RequestView::RemoveDirAll(p) => Some(p),
        RequestView::RemoveDir(p) => Some(p),
        RequestView::RemoveFile(p) => Some(p),
        RequestView::Subvolume { path, .. } => Some(path),
        RequestView::CloneTree { to, .. } => Some(to),
        RequestView::CreateFile { path, .. } => Some(path),
        RequestView::ReflinkFile { to, .. } => Some(to),
        RequestView::HardLink { link, .. } => Some(link),
        RequestView::Symlink { link, .. } => Some(link),
        RequestView::SetOwner { path, .. } => Some(path),
        RequestView::SetMode { path, .. } => Some(path),
        RequestView::SetXattr { path, .. } => Some(path),
        RequestView::SetTimes { path, .. } => Some(path),
        _ => None,
    }
}

/// A request that changes nothing at or below `base`: it only reads, or
/// the entry it changes lies outside `base`.
pub open spec fn leaves_untouched(r: RequestView, base: Seq<u8>) -> bool {
    changes_filesystem(r) ==> (changed_path(r) matches Some(p) && !path_starts_with(p, base))
}

/// A request that changes only what lies at or below `dest` leaves alone
/// everything at or below a `base` that neither lies in `dest` nor holds it.
pub proof fn changes_below_spare_others(r: RequestView, dest: Seq<u8>, base: Seq<u8>)
    requires
        changes_only_below(r, dest),
        !path_starts_with(dest, base),
        !path_starts_with(base, dest),
    ensures
        leaves_untouched(r, base),
{
    if let Some(p) = changed_path(r) {
        if path_starts_with(p, base) {
            bases_are_nested(p, dest, base);
        }
    }
}

} // verus!
