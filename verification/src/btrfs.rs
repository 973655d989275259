//! Btrfs: recognising the filesystem and its subvolumes, subvolume
//! operations, read-only flags, and removing a snapshot subvolume.

use vstd::prelude::*;
use crate::io::{changes_only_below, FileMeta, Progress, ProgressView, Reply, ReplyView, Request, RequestView};
use crate::path::{
    contains_nul, copy_bytes, file_name, file_name_bytes, file_name_is_plain, join, join_bytes,
    join_names_the_child, parent, parent_bytes, path_starts_with, starts_with_itself,
};
use crate::types::{
    Error, ErrorView, IoFailure, IoKind, PathIssue, PathIssueView, SubvolumeOp, Unavailability,
    UnavailabilityView,
};

verus! {

/// The `statfs` type number of Btrfs.
pub const BTRFS_SUPER_MAGIC: i64 = 0x9123_683e;

/// The inode number of the root directory of every Btrfs subvolume.
pub const SUBVOLUME_ROOT_INODE: u64 = 256;

/// The read-only bit of the subvolume flags.
pub const SUBVOL_RDONLY: u64 = 2;

/// The room for a name in the Btrfs volume arguments, its final zero included.
pub const SUBVOLUME_NAME_ROOM: usize = 4088;

// ---------------------------------------------------------------------------
// Read-only flags.

/// `flags` with the read-only bit set to `read_only` and every other bit kept.
pub open spec fn spec_with_read_only(flags: u64, read_only: bool) -> u64 {
    if read_only {
        flags | SUBVOL_RDONLY
    } else {
        flags & !SUBVOL_RDONLY
    }
}

/// Whether subvolume flags mark the subvolume read-only.
pub open spec fn spec_is_read_only(flags: u64) -> bool {
    flags & SUBVOL_RDONLY != 0
}

pub fn with_read_only(flags: u64, read_only: bool) -> (r: u64)
    ensures
        r == spec_with_read_only(flags, read_only),
{
    if read_only {
        flags | SUBVOL_RDONLY
    } else {
        flags & !SUBVOL_RDONLY
    }
}

pub fn is_read_only(flags: u64) -> (r: bool)
    ensures
        r == spec_is_read_only(flags),
{
    flags & SUBVOL_RDONLY != 0
}

/// Setting the read-only bit and reading it back gives what was set, and no
/// other flag changes.
pub proof fn read_only_flag_round_trip(flags: u64, read_only: bool)
    ensures
        spec_is_read_only(spec_with_read_only(flags, read_only)) == read_only,
        spec_with_read_only(flags, read_only) & !SUBVOL_RDONLY == flags & !SUBVOL_RDONLY,
{
    if read_only {
        assert((flags | 2u64) & 2u64 != 0) by (bit_vector);
        assert((flags | 2u64) & !2u64 == flags & !2u64) by (bit_vector);
    } else {
        assert((flags & !2u64) & 2u64 == 0) by (bit_vector);
        assert((flags & !2u64) & !2u64 == flags & !2u64) by (bit_vector);
    }
}

// ---------------------------------------------------------------------------
// Is a path on Btrfs?

/// Whether the reply to `FilesystemType` says Btrfs.
pub open spec fn fs_type_answer(reply: ReplyView) -> Option<Result<bool, ErrorView>> {
    match reply {
        ReplyView::FsType(t) => Some(Ok(t == BTRFS_SUPER_MAGIC)),
        ReplyView::Failed(f) => Some(Err(ErrorView::Io(f))),
        _ => None,
    }
}

/// Asking whether a path lies on Btrfs.
pub struct FilesystemCheck {
    pub path: Vec<u8>,
}

pub struct FilesystemCheckView {
    pub path: Seq<u8>,
}

impl View for FilesystemCheck {
    type V = FilesystemCheckView;

    open spec fn view(&self) -> FilesystemCheckView {
        FilesystemCheckView { path: self.path@ }
    }
}

/// A path holding a zero byte cannot be handed to the system.
pub open spec fn filesystem_check_start(path: Seq<u8>) -> ProgressView<FilesystemCheckView, bool> {
    if path.contains(0u8) {
        ProgressView::Finish(Err(ErrorView::InvalidPath(PathIssueView::NulByte(path))))
    } else {
        ProgressView::Ask(FilesystemCheckView { path })
    }
}

impl FilesystemCheckView {
    pub open spec fn pending(self) -> RequestView {
        RequestView::FilesystemType(self.path)
    }

    pub open spec fn resume(self, reply: ReplyView) -> ProgressView<FilesystemCheckView, bool> {
        match fs_type_answer(reply) {
            Some(Ok(b)) => ProgressView::Finish(Ok(b)),
            Some(Err(e)) => ProgressView::Finish(Err(e)),
            None => ProgressView::Ask(self),
        }
    }
}

impl FilesystemCheck {
    pub fn start(path: Vec<u8>) -> (r: Progress<FilesystemCheck, bool>)
        ensures
            r@ == filesystem_check_start(path@),
    {
        if contains_nul(&path) {
            Progress::Finish(Err(Error::InvalidPath(PathIssue::NulByte(path))))
        } else {
            Progress::Ask(FilesystemCheck { path })
        }
    }

    pub fn request(&self) -> (r: Request)
        ensures
            r@ == self@.pending(),
    {
        Request::FilesystemType(copy_bytes(&self.path))
    }

    pub fn resume(self, reply: Reply) -> (r: Progress<FilesystemCheck, bool>)
        ensures
            r@ == self@.resume(reply@),
    {
        match reply {
            Reply::FsType(t) => Progress::Finish(Ok(t == BTRFS_SUPER_MAGIC)),
            Reply::Failed(f) => Progress::Finish(Err(Error::Io(f))),
            _ => Progress::Ask(self),
        }
    }
}

// ---------------------------------------------------------------------------
// Is a path a subvolume?

/// Asking whether a path is the root of a Btrfs subvolume: it lies on Btrfs
/// and its inode is the subvolume root inode.
pub enum SubvolumeCheck {
    AwaitType { path: Vec<u8> },
    AwaitInode { path: Vec<u8> },
}

pub enum SubvolumeCheckView {
    AwaitType { path: Seq<u8> },
    AwaitInode { path: Seq<u8> },
}

impl View for SubvolumeCheck {
    type V = SubvolumeCheckView;

    open spec fn view(&self) -> SubvolumeCheckView {
        match self {
            SubvolumeCheck::AwaitType { path } => SubvolumeCheckView::AwaitType { path: path@ },
            SubvolumeCheck::AwaitInode { path } => SubvolumeCheckView::AwaitInode { path: path@ },
        }
    }
}

pub open spec fn subvolume_check_start(path: Seq<u8>) -> ProgressView<SubvolumeCheckView, bool> {
    if path.contains(0u8) {
        ProgressView::Finish(Err(ErrorView::InvalidPath(PathIssueView::NulByte(path))))
    } else {
        ProgressView::Ask(SubvolumeCheckView::AwaitType { path })
    }
}

impl SubvolumeCheckView {
    pub open spec fn pending(self) -> RequestView {
        match self {
            SubvolumeCheckView::AwaitType { path } => RequestView::FilesystemType(path),
            SubvolumeCheckView::AwaitInode { path } => RequestView::Metadata(path),
        }
    }

    pub open spec fn resume(self, reply: ReplyView) -> ProgressView<SubvolumeCheckView, bool> {
        match self {
            SubvolumeCheckView::AwaitType { path } => match fs_type_answer(reply) {
                Some(Ok(true)) => ProgressView::Ask(SubvolumeCheckView::AwaitInode { path }),
                Some(Ok(false)) => ProgressView::Finish(Ok(false)),
                Some(Err(e)) => ProgressView::Finish(Err(e)),
                None => ProgressView::Ask(self),
            },
            SubvolumeCheckView::AwaitInode { path } => match reply {
                ReplyView::Meta(m) => ProgressView::Finish(Ok(m.ino == SUBVOLUME_ROOT_INODE)),
                ReplyView::Failed(f) => ProgressView::Finish(Err(ErrorView::Io(f))),
                _ => ProgressView::Ask(self),
            },
        }
    }
}

impl SubvolumeCheck {
    pub fn start(path: Vec<u8>) -> (r: Progress<SubvolumeCheck, bool>)
        ensures
            r@ == subvolume_check_start(path@),
    {
        if contains_nul(&path) {
            Progress::Finish(Err(Error::InvalidPath(PathIssue::NulByte(path))))
        } else {
            Progress::Ask(SubvolumeCheck::AwaitType { path })
        }
    }

    pub fn request(&self) -> (r: Request)
        ensures
            r@ == self@.pending(),
    {
        match self {
            SubvolumeCheck::AwaitType { path } => Request::FilesystemType(copy_bytes(path)),
            SubvolumeCheck::AwaitInode { path } => Request::Metadata(copy_bytes(path)),
        }
    }

    pub fn resume(self, reply: Reply) -> (r: Progress<SubvolumeCheck, bool>)
        ensures
            r@ == self@.resume(reply@),
    {
        match self {
            SubvolumeCheck::AwaitType { path } => match reply {
                Reply::FsType(t) => if t == BTRFS_SUPER_MAGIC {
                    Progress::Ask(SubvolumeCheck::AwaitInode { path })
                } else {
                    Progress::Finish(Ok(false))
                },
                Reply::Failed(f) => Progress::Finish(Err(Error::Io(f))),
                _ => Progress::Ask(SubvolumeCheck::AwaitType { path }),
            },
            SubvolumeCheck::AwaitInode { path } => match reply {
                Reply::Meta(m) => Progress::Finish(Ok(m.ino == SUBVOLUME_ROOT_INODE)),
                Reply::Failed(f) => Progress::Finish(Err(Error::Io(f))),
                _ => Progress::Ask(SubvolumeCheck::AwaitInode { path }),
            },
        }
    }
}

// ---------------------------------------------------------------------------
// Subvolume operations.

/// A name that the Btrfs volume arguments can carry: not empty, leaving room
/// for the final zero, and holding no zero byte.
pub open spec fn valid_subvolume_name(name: Seq<u8>) -> bool {
    name.len() > 0 && name.len() < SUBVOLUME_NAME_ROOM && !name.contains(0u8)
}

pub fn is_valid_subvolume_name(name: &Vec<u8>) -> (r: bool)
    ensures
        r == valid_subvolume_name(name@),
{
    name.len() > 0 && name.len() < SUBVOLUME_NAME_ROOM && !contains_nul(name)
}

/// One subvolume operation on the entry `name` of the directory `parent`,
/// where `path` is the entry's full path.
pub struct SubvolumeCall {
    pub op: SubvolumeOp,
    pub path: Vec<u8>,
    pub parent: Vec<u8>,
    pub name: Vec<u8>,
}

pub struct SubvolumeCallView {
    pub op: SubvolumeOp,
    pub path: Seq<u8>,
    pub parent: Seq<u8>,
    pub name: Seq<u8>,
}

impl View for SubvolumeCall {
    type V = SubvolumeCallView;

    open spec fn view(&self) -> SubvolumeCallView {
        SubvolumeCallView {
            op: self.op,
            path: self.path@,
            parent: self.parent@,
            name: self.name@,
        }
    }
}

/// The path must have a parent and a final name that a subvolume can have.
pub open spec fn subvolume_call_start(path: Seq<u8>, op: SubvolumeOp) -> ProgressView<
    SubvolumeCallView,
    (),
> {
    match parent(path) {
        None => ProgressView::Finish(Err(ErrorView::InvalidPath(PathIssueView::NoParent(path)))),
        Some(par) => match file_name(path) {
            None => ProgressView::Finish(Err(ErrorView::InvalidPath(PathIssueView::NoName(path)))),
            Some(name) => if valid_subvolume_name(name) {
                ProgressView::Ask(SubvolumeCallView { op, path, parent: par, name })
            } else {
                ProgressView::Finish(Err(ErrorView::InvalidPath(PathIssueView::SubvolumeName(path))))
            },
        },
    }
}

impl SubvolumeCallView {
    pub open spec fn pending(self) -> RequestView {
        RequestView::Subvolume { op: self.op, path: self.path, parent: self.parent, name: self.name }
    }

    /// Failing to open the parent is an I/O error; a refused operation is an
    /// I/O error when destroying and unavailability otherwise.
    pub open spec fn resume(self, reply: ReplyView) -> ProgressView<SubvolumeCallView, ()> {
        match reply {
            ReplyView::Done => ProgressView::Finish(Ok(())),
            ReplyView::Failed(f) => ProgressView::Finish(Err(ErrorView::Io(f))),
            ReplyView::Refused(f) => if self.op == SubvolumeOp::DestroySnapshot {
                ProgressView::Finish(Err(ErrorView::Io(f)))
            } else {
                ProgressView::Finish(
                    Err(
                        ErrorView::Unavailable(
                            UnavailabilityView::SubvolumeFailed { op: self.op, path: self.path, error: f },
                        ),
                    ),
                )
            },
            _ => ProgressView::Ask(self),
        }
    }
}

impl SubvolumeCall {
    pub fn start(path: Vec<u8>, op: SubvolumeOp) -> (r: Progress<SubvolumeCall, ()>)
        ensures
            r@ == subvolume_call_start(path@, op),
    {
        match parent_bytes(&path) {
            None => Progress::Finish(Err(Error::InvalidPath(PathIssue::NoParent(path)))),
            Some(par) => match file_name_bytes(&path) {
                None => Progress::Finish(Err(Error::InvalidPath(PathIssue::NoName(path)))),
                Some(name) => if is_valid_subvolume_name(&name) {
                    Progress::Ask(SubvolumeCall { op, path, parent: par, name })
                } else {
                    Progress::Finish(Err(Error::InvalidPath(PathIssue::SubvolumeName(path))))
                },
            },
        }
    }

    pub fn request(&self) -> (r: Request)
        ensures
            r@ == self@.pending(),
    {
        Request::Subvolume {
            op: self.op,
            path: copy_bytes(&self.path),
            parent: copy_bytes(&self.parent),
            name: copy_bytes(&self.name),
        }
    }

    pub fn resume(self, reply: Reply) -> (r: Progress<SubvolumeCall, ()>)
        ensures
            r@ == self@.resume(reply@),
    {
        match reply {
            Reply::Done => Progress::Finish(Ok(())),
            Reply::Failed(f) => Progress::Finish(Err(Error::Io(f))),
            Reply::Refused(f) => if self.op == SubvolumeOp::DestroySnapshot {
                Progress::Finish(Err(Error::Io(f)))
            } else {
                Progress::Finish(
                    Err(
                        Error::Unavailable(
                            Unavailability::SubvolumeFailed { op: self.op, path: self.path, error: f },
                        ),
                    ),
                )
            },
            _ => Progress::Ask(self),
        }
    }
}

// ---------------------------------------------------------------------------
// Snapshotting a subvolume.

/// Snapshotting the subvolume `from` as `to`: `from` must be a subvolume; it
/// is opened and handed to the snapshot operation.
pub enum BtrfsSnapshot {
    Check { from: Vec<u8>, to: Vec<u8>, check: SubvolumeCheck },
    Open { from: Vec<u8>, to: Vec<u8> },
    Call { call: SubvolumeCall },
}

pub enum BtrfsSnapshotView {
    Check { from: Seq<u8>, to: Seq<u8>, check: SubvolumeCheckView },
    Open { from: Seq<u8>, to: Seq<u8> },
    Call { call: SubvolumeCallView },
}

impl View for BtrfsSnapshot {
    type V = BtrfsSnapshotView;

    open spec fn view(&self) -> BtrfsSnapshotView {
        match self {
            BtrfsSnapshot::Check { from, to, check } => BtrfsSnapshotView::Check {
                from: from@,
                to: to@,
                check: check@,
            },
            BtrfsSnapshot::Open { from, to } => BtrfsSnapshotView::Open { from: from@, to: to@ },
            BtrfsSnapshot::Call { call } => BtrfsSnapshotView::Call { call: call@ },
        }
    }
}

pub open spec fn btrfs_snapshot_after_check(
    from: Seq<u8>,
    to: Seq<u8>,
    p: ProgressView<SubvolumeCheckView, bool>,
) -> ProgressView<BtrfsSnapshotView, ()> {
    match p {
        ProgressView::Ask(check) => ProgressView::Ask(BtrfsSnapshotView::Check { from, to, check }),
        ProgressView::Finish(Ok(true)) => ProgressView::Ask(BtrfsSnapshotView::Open { from, to }),
        ProgressView::Finish(Ok(false)) => ProgressView::Finish(
            Err(ErrorView::Unavailable(UnavailabilityView::NotSubvolume(from))),
        ),
        ProgressView::Finish(Err(e)) => ProgressView::Finish(Err(e)),
    }
}

pub open spec fn btrfs_snapshot_after_call(p: ProgressView<SubvolumeCallView, ()>) -> ProgressView<
    BtrfsSnapshotView,
    (),
> {
    match p {
        ProgressView::Ask(call) => ProgressView::Ask(BtrfsSnapshotView::Call { call }),
        ProgressView::Finish(r) => ProgressView::Finish(r),
    }
}

pub open spec fn btrfs_snapshot_start(from: Seq<u8>, to: Seq<u8>) -> ProgressView<
    BtrfsSnapshotView,
    (),
> {
    btrfs_snapshot_after_check(from, to, subvolume_check_start(from))
}

impl BtrfsSnapshotView {
    pub open spec fn pending(self) -> RequestView {
        match self {
            BtrfsSnapshotView::Check { check, .. } => check.pending(),
            BtrfsSnapshotView::Open { from, .. } => RequestView::OpenFile(from),
            BtrfsSnapshotView::Call { call } => call.pending(),
        }
    }

    pub open spec fn resume(self, reply: ReplyView) -> ProgressView<BtrfsSnapshotView, ()> {
        match self {
            BtrfsSnapshotView::Check { from, to, check } => btrfs_snapshot_after_check(
                from,
                to,
                check.resume(reply),
            ),
            BtrfsSnapshotView::Open { from, to } => match reply {
                ReplyView::Done => btrfs_snapshot_after_call(
                    subvolume_call_start(to, SubvolumeOp::CreateSnapshot),
                ),
                ReplyView::Failed(f) => ProgressView::Finish(Err(ErrorView::Io(f))),
                _ => ProgressView::Ask(self),
            },
            BtrfsSnapshotView::Call { call } => btrfs_snapshot_after_call(call.resume(reply)),
        }
    }
}

impl BtrfsSnapshot {
    fn after_check(from: Vec<u8>, to: Vec<u8>, p: Progress<SubvolumeCheck, bool>) -> (r: Progress<
        BtrfsSnapshot,
        (),
    >)
        ensures
            r@ == btrfs_snapshot_after_check(from@, to@, p@),
    {
        match p {
            Progress::Ask(check) => Progress::Ask(BtrfsSnapshot::Check { from, to, check }),
            Progress::Finish(Ok(true)) => Progress::Ask(BtrfsSnapshot::Open { from, to }),
            Progress::Finish(Ok(false)) => Progress::Finish(
                Err(Error::Unavailable(Unavailability::NotSubvolume(from))),
            ),
            Progress::Finish(Err(e)) => Progress::Finish(Err(e)),
        }
    }

    fn after_call(p: Progress<SubvolumeCall, ()>) -> (r: Progress<BtrfsSnapshot, ()>)
        ensures
            r@ == btrfs_snapshot_after_call(p@),
    {
        match p {
            Progress::Ask(call) => Progress::Ask(BtrfsSnapshot::Call { call }),
            Progress::Finish(r) => Progress::Finish(r),
        }
    }

    pub fn start(from: Vec<u8>, to: Vec<u8>) -> (r: Progress<BtrfsSnapshot, ()>)
        ensures
            r@ == btrfs_snapshot_start(from@, to@),
    {
        let check = SubvolumeCheck::start(copy_bytes(&from));
        BtrfsSnapshot::after_check(from, to, check)
    }

    pub fn request(&self) -> (r: Request)
        ensures
            r@ == self@.pending(),
    {
        match self {
            BtrfsSnapshot::Check { check, .. } => check.request(),
            BtrfsSnapshot::Open { from, .. } => Request::OpenFile(copy_bytes(from)),
            BtrfsSnapshot::Call { call } => call.request(),
        }
    }

    pub fn resume(self, reply: Reply) -> (r: Progress<BtrfsSnapshot, ()>)
        ensures
            r@ == self@.resume(reply@),
    {
        match self {
            BtrfsSnapshot::Check { from, to, check } => BtrfsSnapshot::after_check(
                from,
                to,
                check.resume(reply),
            ),
            BtrfsSnapshot::Open { from, to } => match reply {
                Reply::Done => BtrfsSnapshot::after_call(
                    SubvolumeCall::start(to, SubvolumeOp::CreateSnapshot),
                ),
                Reply::Failed(f) => Progress::Finish(Err(Error::Io(f))),
                _ => Progress::Ask(BtrfsSnapshot::Open { from, to }),
            },
            BtrfsSnapshot::Call { call } => BtrfsSnapshot::after_call(call.resume(reply)),
        }
    }
}

// ---------------------------------------------------------------------------
// Removing a snapshot subvolume.

/// Emptying a subvolume entry by entry (directories with all they hold,
/// other entries as files) and then removing it as a directory. Each entry
/// the listing names is removed as the child of the subvolume with the
/// listed entry's final name; an entry without a final name is refused.
pub enum EmptySubvolumeRemoval {
    Open { path: Vec<u8> },
    Next { path: Vec<u8> },
    Entry { path: Vec<u8>, entry: Vec<u8>, is_dir: bool },
    RemoveSelf { path: Vec<u8> },
}

pub enum EmptySubvolumeRemovalView {
    Open { path: Seq<u8> },
    Next { path: Seq<u8> },
    Entry { path: Seq<u8>, entry: Seq<u8>, is_dir: bool },
    RemoveSelf { path: Seq<u8> },
}

impl View for EmptySubvolumeRemoval {
    type V = EmptySubvolumeRemovalView;

    open spec fn view(&self) -> EmptySubvolumeRemovalView {
        match self {
            EmptySubvolumeRemoval::Open { path } => EmptySubvolumeRemovalView::Open { path: path@ },
            EmptySubvolumeRemoval::Next { path } => EmptySubvolumeRemovalView::Next { path: path@ },
            EmptySubvolumeRemoval::Entry { path, entry, is_dir } =>
                EmptySubvolumeRemovalView::Entry { path: path@, entry: entry@, is_dir: *is_dir },
            EmptySubvolumeRemoval::RemoveSelf { path } => EmptySubvolumeRemovalView::RemoveSelf {
                path: path@,
            },
        }
    }
}

impl EmptySubvolumeRemovalView {
    pub open spec fn pending(self) -> RequestView {
        match self {
            EmptySubvolumeRemovalView::Open { path } => RequestView::OpenDirectory(path),
            EmptySubvolumeRemovalView::Next { .. } => RequestView::NextDirectoryEntry,
            EmptySubvolumeRemovalView::Entry { entry, is_dir, .. } => if is_dir {
                RequestView::RemoveDirAll(entry)
            } else {
                RequestView::RemoveFile(entry)
            },
            EmptySubvolumeRemovalView::RemoveSelf { path } => RequestView::RemoveDir(path),
        }
    }

    pub open spec fn resume(self, reply: ReplyView) -> ProgressView<EmptySubvolumeRemovalView, ()> {
        match reply {
            ReplyView::Failed(f) => ProgressView::Finish(Err(ErrorView::Io(f))),
            _ => match self {
                EmptySubvolumeRemovalView::Open { path } => match reply {
                    ReplyView::Done => ProgressView::Ask(EmptySubvolumeRemovalView::Next { path }),
                    _ => ProgressView::Ask(self),
                },
                EmptySubvolumeRemovalView::Next { path } => match reply {
                    ReplyView::DirEntry { path: entry, is_dir } => match file_name(entry) {
                        Some(name) => ProgressView::Ask(
                            EmptySubvolumeRemovalView::Entry { path, entry: join(path, name), is_dir },
                        ),
                        None => ProgressView::Finish(
                            Err(ErrorView::InvalidPath(PathIssueView::NoName(entry))),
                        ),
                    },
                    ReplyView::End => ProgressView::Ask(
                        EmptySubvolumeRemovalView::RemoveSelf { path },
                    ),
                    _ => ProgressView::Ask(self),
                },
                EmptySubvolumeRemovalView::Entry { path, .. } => match reply {
                    ReplyView::Done => ProgressView::Ask(EmptySubvolumeRemovalView::Next { path }),
                    _ => ProgressView::Ask(self),
                },
                EmptySubvolumeRemovalView::RemoveSelf { .. } => match reply {
                    ReplyView::Done => ProgressView::Finish(Ok(())),
                    _ => ProgressView::Ask(self),
                },
            },
        }
    }
}

impl EmptySubvolumeRemoval {
    pub fn request(&self) -> (r: Request)
        ensures
            r@ == self@.pending(),
    {
        match self {
            EmptySubvolumeRemoval::Open { path } => Request::OpenDirectory(copy_bytes(path)),
            EmptySubvolumeRemoval::Next { .. } => Request::NextDirectoryEntry,
            EmptySubvolumeRemoval::Entry { entry, is_dir, .. } => if *is_dir {
                Request::RemoveDirAll(copy_bytes(entry))
            } else {
                Request::RemoveFile(copy_bytes(entry))
            },
            EmptySubvolumeRemoval::RemoveSelf { path } => Request::RemoveDir(copy_bytes(path)),
        }
    }

    pub fn resume(self, reply: Reply) -> (r: Progress<EmptySubvolumeRemoval, ()>)
        ensures
            r@ == self@.resume(reply@),
    {
        match reply {
            Reply::Failed(f) => Progress::Finish(Err(Error::Io(f))),
            reply => match self {
                EmptySubvolumeRemoval::Open { path } => match reply {
                    Reply::Done => Progress::Ask(EmptySubvolumeRemoval::Next { path }),
                    _ => Progress::Ask(EmptySubvolumeRemoval::Open { path }),
                },
                EmptySubvolumeRemoval::Next { path } => match reply {
                    Reply::DirEntry { path: entry, is_dir } => match file_name_bytes(&entry) {
                        Some(name) => {
                            let child = join_bytes(&path, &name);
                            Progress::Ask(EmptySubvolumeRemoval::Entry { path, entry: child, is_dir })
                        },
                        None => Progress::Finish(
                            Err(Error::InvalidPath(PathIssue::NoName(entry))),
                        ),
                    },
                    Reply::End => Progress::Ask(EmptySubvolumeRemoval::RemoveSelf { path }),
                    _ => Progress::Ask(EmptySubvolumeRemoval::Next { path }),
                },
                EmptySubvolumeRemoval::Entry { path, entry, is_dir } => match reply {
                    Reply::Done => Progress::Ask(EmptySubvolumeRemoval::Next { path }),
                    _ => Progress::Ask(EmptySubvolumeRemoval::Entry { path, entry, is_dir }),
                },
                EmptySubvolumeRemoval::RemoveSelf { path } => match reply {
                    Reply::Done => Progress::Finish(Ok(())),
                    _ => Progress::Ask(EmptySubvolumeRemoval::RemoveSelf { path }),
                },
            },
        }
    }
}

/// Destroying a snapshot subvolume; where the system denies the operation or
/// does not support it, the subvolume is emptied and removed instead.
pub enum BtrfsRemove {
    Destroy { call: SubvolumeCall },
    Fallback { removal: EmptySubvolumeRemoval },
}

pub enum BtrfsRemoveView {
    Destroy { call: SubvolumeCallView },
    Fallback { removal: EmptySubvolumeRemovalView },
}

impl View for BtrfsRemove {
    type V = BtrfsRemoveView;

    open spec fn view(&self) -> BtrfsRemoveView {
        match self {
            BtrfsRemove::Destroy { call } => BtrfsRemoveView::Destroy { call: call@ },
            BtrfsRemove::Fallback { removal } => BtrfsRemoveView::Fallback { removal: removal@ },
        }
    }
}

/// The failures after which a subvolume is removed entry by entry.
pub open spec fn falls_back_to_removal(kind: IoKind) -> bool {
    kind == IoKind::PermissionDenied || kind == IoKind::Unsupported
}

pub open spec fn btrfs_remove_after_destroy(path: Seq<u8>, p: ProgressView<SubvolumeCallView, ()>) -> ProgressView<
    BtrfsRemoveView,
    (),
> {
    match p {
        ProgressView::Ask(call) => ProgressView::Ask(BtrfsRemoveView::Destroy { call }),
        ProgressView::Finish(Ok(())) => ProgressView::Finish(Ok(())),
        ProgressView::Finish(Err(e)) => match e {
            ErrorView::Io(f) => if falls_back_to_removal(f.kind) {
                ProgressView::Ask(
                    BtrfsRemoveView::Fallback {
                        removal: EmptySubvolumeRemovalView::Open { path },
                    },
                )
            } else {
                ProgressView::Finish(Err(ErrorView::Io(f)))
            },
            _ => ProgressView::Finish(Err(e)),
        },
    }
}

pub open spec fn btrfs_remove_after_fallback(p: ProgressView<EmptySubvolumeRemovalView, ()>) -> ProgressView<
    BtrfsRemoveView,
    (),
> {
    match p {
        ProgressView::Ask(removal) => ProgressView::Ask(BtrfsRemoveView::Fallback { removal }),
        ProgressView::Finish(r) => ProgressView::Finish(r),
    }
}

pub open spec fn btrfs_remove_start(path: Seq<u8>) -> ProgressView<BtrfsRemoveView, ()> {
    btrfs_remove_after_destroy(path, subvolume_call_start(path, SubvolumeOp::DestroySnapshot))
}

impl BtrfsRemoveView {
    pub open spec fn pending(self) -> RequestView {
        match self {
            BtrfsRemoveView::Destroy { call } => call.pending(),
            BtrfsRemoveView::Fallback { removal } => removal.pending(),
        }
    }

    pub open spec fn resume(self, reply: ReplyView) -> ProgressView<BtrfsRemoveView, ()> {
        match self {
            BtrfsRemoveView::Destroy { call } => btrfs_remove_after_destroy(
                call.path,
                call.resume(reply),
            ),
            BtrfsRemoveView::Fallback { removal } => btrfs_remove_after_fallback(
                removal.resume(reply),
            ),
        }
    }
}

impl BtrfsRemove {
    fn after_destroy(path: Vec<u8>, p: Progress<SubvolumeCall, ()>) -> (r: Progress<BtrfsRemove, ()>)
        ensures
            r@ == btrfs_remove_after_destroy(path@, p@),
    {
        match p {
            Progress::Ask(call) => Progress::Ask(BtrfsRemove::Destroy { call }),
            Progress::Finish(Ok(())) => Progress::Finish(Ok(())),
            Progress::Finish(Err(e)) => match e {
                Error::Io(f) => if f.kind == IoKind::PermissionDenied || f.kind
                    == IoKind::Unsupported {
                    Progress::Ask(
                        BtrfsRemove::Fallback { removal: EmptySubvolumeRemoval::Open { path } },
                    )
                } else {
                    Progress::Finish(Err(Error::Io(f)))
                },
                e => Progress::Finish(Err(e)),
            },
        }
    }

    fn after_fallback(p: Progress<EmptySubvolumeRemoval, ()>) -> (r: Progress<BtrfsRemove, ()>)
        ensures
            r@ == btrfs_remove_after_fallback(p@),
    {
        match p {
            Progress::Ask(removal) => Progress::Ask(BtrfsRemove::Fallback { removal }),
            Progress::Finish(r) => Progress::Finish(r),
        }
    }

    pub fn start(path: Vec<u8>) -> (r: Progress<BtrfsRemove, ()>)
        ensures
            r@ == btrfs_remove_start(path@),
    {
        let call = SubvolumeCall::start(copy_bytes(&path), SubvolumeOp::DestroySnapshot);
        BtrfsRemove::after_destroy(path, call)
    }

    pub fn request(&self) -> (r: Request)
        ensures
            r@ == self@.pending(),
    {
        match self {
            BtrfsRemove::Destroy { call } => call.request(),
            BtrfsRemove::Fallback { removal } => removal.request(),
        }
    }

    pub fn resume(self, reply: Reply) -> (r: Progress<BtrfsRemove, ()>)
        ensures
            r@ == self@.resume(reply@),
    {
        match self {
            BtrfsRemove::Destroy { call } => {
                let path = copy_bytes(&call.path);
                BtrfsRemove::after_destroy(path, call.resume(reply))
            },
            BtrfsRemove::Fallback { removal } => BtrfsRemove::after_fallback(removal.resume(reply)),
        }
    }
}

// ---------------------------------------------------------------------------
// Laws.

/// A subvolume operation works on the entry that its path names.
pub open spec fn subvolume_call_names_path(c: SubvolumeCallView) -> bool {
    parent(c.path) == Some(c.parent) && file_name(c.path) == Some(c.name)
}

/// The snapshot that a Btrfs snapshot creates.
pub open spec fn btrfs_snapshot_target(s: BtrfsSnapshotView) -> Seq<u8> {
    match s {
        BtrfsSnapshotView::Check { to, .. } => to,
        BtrfsSnapshotView::Open { to, .. } => to,
        BtrfsSnapshotView::Call { call } => call.path,
    }
}

pub open spec fn btrfs_snapshot_ok(s: BtrfsSnapshotView) -> bool {
    match s {
        BtrfsSnapshotView::Call { call } => subvolume_call_names_path(call),
        _ => true,
    }
}

/// A Btrfs snapshot begins aimed at its destination.
pub proof fn btrfs_snapshot_begins_ok(from: Seq<u8>, to: Seq<u8>)
    ensures
        btrfs_snapshot_start(from, to) matches ProgressView::Ask(s) ==> btrfs_snapshot_ok(s)
            && btrfs_snapshot_target(s) == to,
{
}

/// A Btrfs snapshot changes nothing but the entry it creates.
pub proof fn btrfs_snapshot_changes_only_target(s: BtrfsSnapshotView, reply: ReplyView)
    requires
        btrfs_snapshot_ok(s),
    ensures
        changes_only_below(s.pending(), btrfs_snapshot_target(s)),
        s.resume(reply) matches ProgressView::Ask(t) ==> btrfs_snapshot_ok(t)
            && btrfs_snapshot_target(t) == btrfs_snapshot_target(s),
{
}

/// An emptying of `target` that removes only `target` and what lies below it.
pub open spec fn empty_removal_ok(r: EmptySubvolumeRemovalView, target: Seq<u8>) -> bool {
    match r {
        EmptySubvolumeRemovalView::Open { path } => path == target,
        EmptySubvolumeRemovalView::Next { path } => path == target,
        EmptySubvolumeRemovalView::Entry { path, entry, .. } => path == target && path_starts_with(
            entry,
            target,
        ),
        EmptySubvolumeRemovalView::RemoveSelf { path } => path == target,
    }
}

/// A removal of the snapshot subvolume `target`.
pub open spec fn btrfs_remove_ok(r: BtrfsRemoveView, target: Seq<u8>) -> bool {
    match r {
        BtrfsRemoveView::Destroy { call } => subvolume_call_names_path(call) && call.path == target,
        BtrfsRemoveView::Fallback { removal } => empty_removal_ok(removal, target),
    }
}

/// Removing a snapshot subvolume begins aimed at it.
pub proof fn btrfs_remove_begins_ok(path: Seq<u8>)
    ensures
        btrfs_remove_start(path) matches ProgressView::Ask(r) ==> btrfs_remove_ok(r, path),
{
}

/// Removing a snapshot subvolume changes nothing but the subvolume and what
/// lies below it, whether it is destroyed or emptied entry by entry.
pub proof fn btrfs_remove_changes_only_target(r: BtrfsRemoveView, target: Seq<u8>, reply: ReplyView)
    requires
        btrfs_remove_ok(r, target),
    ensures
        changes_only_below(r.pending(), target),
        r.resume(reply) matches ProgressView::Ask(t) ==> btrfs_remove_ok(t, target),
{
    starts_with_itself(target);
    if let BtrfsRemoveView::Fallback { removal } = r {
        if let EmptySubvolumeRemovalView::Next { path } = removal {
            if let ReplyView::DirEntry { path: entry, .. } = reply {
                if let Some(name) = file_name(entry) {
                    file_name_is_plain(entry);
                    join_names_the_child(path, name);
                }
            }
        }
    }
}

/// Emptying a subvolume removes each listed entry as the child of the
/// subvolume with the listed entry's final name: a directory with all it
/// holds, anything else as a file; once the listing ends, the subvolume
/// itself is removed as a directory.
pub proof fn empty_removal_removes_each_entry_by_its_kind(
    path: Seq<u8>,
    listed: Seq<u8>,
    is_dir: bool,
)
    requires
        file_name(listed) is Some,
    ensures
        (EmptySubvolumeRemovalView::Next { path }).resume(ReplyView::DirEntry { path: listed, is_dir })
            matches ProgressView::Ask(e) && (is_dir ==> e.pending() == RequestView::RemoveDirAll(
            join(path, file_name(listed)->0),
        )) && (!is_dir ==> e.pending() == RequestView::RemoveFile(join(path, file_name(listed)->0)))
            && e.resume(ReplyView::Done) == ProgressView::<EmptySubvolumeRemovalView, ()>::Ask(
            EmptySubvolumeRemovalView::Next { path },
        ),
        (EmptySubvolumeRemovalView::Next { path }).pending() == RequestView::NextDirectoryEntry,
        (EmptySubvolumeRemovalView::Next { path }).resume(ReplyView::End) matches ProgressView::Ask(r)
            && r.pending() == RequestView::RemoveDir(path) && r.resume(ReplyView::Done)
            == ProgressView::<EmptySubvolumeRemovalView, ()>::Finish(Ok(())),
{
}

/// A path is a subvolume exactly when it lies on Btrfs and its inode is the
/// subvolume root inode: the check asks for the filesystem type, and only on
/// Btrfs for the inode.
pub proof fn subvolume_check_answers(path: Seq<u8>, fs_type: i64, m: FileMeta)
    ensures
        (SubvolumeCheckView::AwaitType { path }).pending() == RequestView::FilesystemType(path),
        fs_type != BTRFS_SUPER_MAGIC ==> (SubvolumeCheckView::AwaitType { path }).resume(
            ReplyView::FsType(fs_type),
        ) == ProgressView::<SubvolumeCheckView, bool>::Finish(Ok(false)),
        fs_type == BTRFS_SUPER_MAGIC ==> (SubvolumeCheckView::AwaitType { path }).resume(
            ReplyView::FsType(fs_type),
        ) == ProgressView::<SubvolumeCheckView, bool>::Ask(SubvolumeCheckView::AwaitInode { path }),
        (SubvolumeCheckView::AwaitInode { path }).pending() == RequestView::Metadata(path),
        (SubvolumeCheckView::AwaitInode { path }).resume(ReplyView::Meta(m)) == ProgressView::<
            SubvolumeCheckView,
            bool,
        >::Finish(Ok(m.ino == SUBVOLUME_ROOT_INODE)),
{
}

/// A Btrfs snapshot is taken only of a subvolume: a source that is not one
/// is refused as unavailable; of one, the source is opened and a snapshot of
/// it is created at exactly the destination.
pub proof fn btrfs_snapshot_needs_a_subvolume(from: Seq<u8>, to: Seq<u8>, m: FileMeta)
    ensures
        m.ino != SUBVOLUME_ROOT_INODE ==> (BtrfsSnapshotView::Check {
            from,
            to,
            check: SubvolumeCheckView::AwaitInode { path: from },
        }).resume(ReplyView::Meta(m)) == ProgressView::<BtrfsSnapshotView, ()>::Finish(
            Err(ErrorView::Unavailable(UnavailabilityView::NotSubvolume(from))),
        ),
        m.ino == SUBVOLUME_ROOT_INODE ==> (BtrfsSnapshotView::Check {
            from,
            to,
            check: SubvolumeCheckView::AwaitInode { path: from },
        }).resume(ReplyView::Meta(m)) == ProgressView::<BtrfsSnapshotView, ()>::Ask(
            BtrfsSnapshotView::Open { from, to },
        ),
        (BtrfsSnapshotView::Open { from, to }).pending() == RequestView::OpenFile(from),
        subvolume_call_start(to, SubvolumeOp::CreateSnapshot) matches ProgressView::Ask(c) ==> (
        c.pending() matches RequestView::Subvolume { op: SubvolumeOp::CreateSnapshot, path: p, .. }
            && p == to && (BtrfsSnapshotView::Open { from, to }).resume(ReplyView::Done)
            == ProgressView::<BtrfsSnapshotView, ()>::Ask(BtrfsSnapshotView::Call { call: c })),
{
}

/// Destroying a snapshot subvolume: success removes it; a destroy denied
/// or not supported falls back to emptying and removing it as a directory;
/// any other failure is the removal's error.
pub proof fn btrfs_remove_falls_back_only_when_denied(call: SubvolumeCallView, f: IoFailure)
    requires
        call.op == SubvolumeOp::DestroySnapshot,
    ensures
        (BtrfsRemoveView::Destroy { call }).resume(ReplyView::Done) == ProgressView::<
            BtrfsRemoveView,
            (),
        >::Finish(Ok(())),
        (f.kind == IoKind::PermissionDenied || f.kind == IoKind::Unsupported) ==> ((
        BtrfsRemoveView::Destroy { call }).resume(ReplyView::Failed(f)) matches ProgressView::Ask(r)
            && r.pending() == RequestView::OpenDirectory(call.path)),
        !(f.kind == IoKind::PermissionDenied || f.kind == IoKind::Unsupported) ==> (
        BtrfsRemoveView::Destroy { call }).resume(ReplyView::Failed(f)) == ProgressView::<
            BtrfsRemoveView,
            (),
        >::Finish(Err(ErrorView::Io(f))),
        (f.kind == IoKind::PermissionDenied || f.kind == IoKind::Unsupported) ==> ((
        BtrfsRemoveView::Destroy { call }).resume(ReplyView::Refused(f)) matches ProgressView::Ask(r)
            && r.pending() == RequestView::OpenDirectory(call.path)),
{
}

/// A subvolume operation needs a path with a parent and a final name that
/// a subvolume can have: not empty, shorter than the room the system gives
/// it, and without a zero byte; it then works on that name in that parent.
pub proof fn subvolume_call_checks_the_name(path: Seq<u8>, op: SubvolumeOp)
    ensures
        parent(path) is None ==> subvolume_call_start(path, op) == ProgressView::<SubvolumeCallView, ()>::Finish(
            Err(ErrorView::InvalidPath(PathIssueView::NoParent(path))),
        ),
        parent(path) is Some && file_name(path) is Some ==> (subvolume_call_start(path, op) is Ask <==> (
        file_name(path)->0.len() < SUBVOLUME_NAME_ROOM && !file_name(path)->0.contains(0u8))),
        parent(path) is Some && file_name(path) is Some && !(file_name(path)->0.len()
            < SUBVOLUME_NAME_ROOM && !file_name(path)->0.contains(0u8)) ==> subvolume_call_start(
            path,
            op,
        ) == ProgressView::<SubvolumeCallView, ()>::Finish(
            Err(ErrorView::InvalidPath(PathIssueView::SubvolumeName(path))),
        ),
        subvolume_call_start(path, op) matches ProgressView::Ask(c) ==> c.pending() == (RequestView::Subvolume {
            op,
            path,
            parent: parent(path)->0,
            name: file_name(path)->0,
        }),
{
    if file_name(path) is Some {
        file_name_is_plain(path);
    }
}

} // verus!
