//! Linux: choosing between a Btrfs snapshot and a per-file reflink tree, and
//! proving that reflinks work in the destination root.

use vstd::prelude::*;
use crate::btrfs::{
    btrfs_remove_begins_ok, btrfs_remove_changes_only_target, btrfs_remove_ok, btrfs_remove_start, filesystem_check_start, is_read_only, spec_is_read_only,
    spec_with_read_only, subvolume_call_start, subvolume_check_start, with_read_only, BtrfsRemove,
    BtrfsRemoveView, FilesystemCheck, FilesystemCheckView, SubvolumeCall, SubvolumeCallView,
    SubvolumeCheck, SubvolumeCheckView,
};
use crate::digits::{decimal, decimal_is_digits, decimal_is_injective, push_decimal};
use crate::io::{
    changes_filesystem, changes_only_below, leaves_untouched, Progress, ProgressView, Reply, ReplyView, Request, RequestView, result_view,
};
use crate::path::{copy_bytes, has_root, join, SEP, join_bytes, parent, parent_bytes, path_starts_with, starts_with_bytes,
    starts_with_itself};
use crate::types::{
    already_exists_error, already_exists_failure, Backend, Capability, Error, ErrorView, IoFailure,
    IoKind, PathIssue, PathIssueView, SubvolumeOp, Unavailability, UnavailabilityView,
};

verus! {

// ---------------------------------------------------------------------------
// Probe files.

/// `.greppy-cow-probe-`
pub open spec fn probe_prefix() -> Seq<u8> {
    seq![46u8, 103u8, 114u8, 101u8, 112u8, 112u8, 121u8, 45u8, 99u8, 111u8, 119u8, 45u8, 112u8, 114u8, 111u8, 98u8, 101u8, 45u8]
}

/// `-clone`
pub open spec fn clone_suffix() -> Seq<u8> {
    seq![45u8, 99u8, 108u8, 111u8, 110u8, 101u8]
}

/// `greppy-cow-probe`, what a probe file holds.
pub open spec fn probe_contents() -> Seq<u8> {
    seq![103u8, 114u8, 101u8, 112u8, 112u8, 121u8, 45u8, 99u8, 111u8, 119u8, 45u8, 112u8, 114u8, 111u8, 98u8, 101u8]
}

/// The name of the probe file of process `pid` with number `id`.
pub open spec fn probe_stem(pid: u32, id: u64) -> Seq<u8> {
    probe_prefix() + decimal(pid as nat) + seq![45u8] + decimal(id as nat)
}

/// The probe file that is written.
pub open spec fn probe_source(root: Seq<u8>, pid: u32, id: u64) -> Seq<u8> {
    join(root, probe_stem(pid, id))
}

/// The probe file that is reflinked from it.
pub open spec fn probe_clone(root: Seq<u8>, pid: u32, id: u64) -> Seq<u8> {
    join(root, probe_stem(pid, id) + clone_suffix())
}

fn probe_stem_bytes(pid: u32, id: u64) -> (r: Vec<u8>)
    ensures
        r@ == probe_stem(pid, id),
{
    let mut r: Vec<u8> = vec![46u8, 103u8, 114u8, 101u8, 112u8, 112u8, 121u8, 45u8, 99u8, 111u8, 119u8, 45u8, 112u8, 114u8, 111u8, 98u8, 101u8, 45u8];
    assert(r@ =~= probe_prefix());
    push_decimal(&mut r, pid as u64);
    r.push(45u8);
    push_decimal(&mut r, id);
    assert(r@ =~= probe_stem(pid, id));
    r
}

fn probe_contents_bytes() -> (r: Vec<u8>)
    ensures
        r@ == probe_contents(),
{
    let r: Vec<u8> = vec![103u8, 114u8, 101u8, 112u8, 112u8, 121u8, 45u8, 99u8, 111u8, 119u8, 45u8, 112u8, 114u8, 111u8, 98u8, 101u8];
    assert(r@ =~= probe_contents());
    r
}

/// The outcome of the probe itself, followed by the outcome of its cleanup:
/// the first failure wins.
pub open spec fn then_cleanup(outcome: Result<(), ErrorView>, cleanup: Result<(), ErrorView>) -> Result<
    (),
    ErrorView,
> {
    match outcome {
        Err(e) => Err(e),
        Ok(()) => cleanup,
    }
}

fn then_cleanup_exec(outcome: Result<(), Error>, failure: IoFailure) -> (r: Result<(), Error>)
    ensures
        result_view(r) == then_cleanup(result_view(outcome), Err(ErrorView::Io(failure))),
{
    match outcome {
        Err(e) => Err(e),
        Ok(()) => Err(Error::Io(failure)),
    }
}

/// Proving that the destination root takes reflinks: a new probe file is
/// written and reflinked; then whichever of the clone and the probe file
/// exists is removed, the clone first. A probe file that would lie at or
/// below `keep` (the snapshot source) is never written: the check ends with
/// the I/O failure of kind `AlreadyExists` that creating a new file there
/// meets.
pub enum ProbeFileCheck {
    Identity { root: Vec<u8>, keep: Vec<u8> },
    Create { source: Vec<u8>, clone: Vec<u8> },
    Reflink { source: Vec<u8>, clone: Vec<u8> },
    CheckClone { source: Vec<u8>, clone: Vec<u8>, outcome: Result<(), Error> },
    RemoveClone { source: Vec<u8>, clone: Vec<u8>, outcome: Result<(), Error> },
    CheckSource { source: Vec<u8>, outcome: Result<(), Error> },
    RemoveSource { source: Vec<u8>, outcome: Result<(), Error> },
}

pub enum ProbeFileCheckView {
    Identity { root: Seq<u8>, keep: Seq<u8> },
    Create { source: Seq<u8>, clone: Seq<u8> },
    Reflink { source: Seq<u8>, clone: Seq<u8> },
    CheckClone { source: Seq<u8>, clone: Seq<u8>, outcome: Result<(), ErrorView> },
    RemoveClone { source: Seq<u8>, clone: Seq<u8>, outcome: Result<(), ErrorView> },
    CheckSource { source: Seq<u8>, outcome: Result<(), ErrorView> },
    RemoveSource { source: Seq<u8>, outcome: Result<(), ErrorView> },
}

impl View for ProbeFileCheck {
    type V = ProbeFileCheckView;

    open spec fn view(&self) -> ProbeFileCheckView {
        match self {
            ProbeFileCheck::Identity { root, keep } => ProbeFileCheckView::Identity {
                root: root@,
                keep: keep@,
            },
            ProbeFileCheck::Create { source, clone } => ProbeFileCheckView::Create {
                source: source@,
                clone: clone@,
            },
            ProbeFileCheck::Reflink { source, clone } => ProbeFileCheckView::Reflink {
                source: source@,
                clone: clone@,
            },
            ProbeFileCheck::CheckClone { source, clone, outcome } => ProbeFileCheckView::CheckClone {
                source: source@,
                clone: clone@,
                outcome: result_view(*outcome),
            },
            ProbeFileCheck::RemoveClone { source, clone, outcome } =>
                ProbeFileCheckView::RemoveClone {
                source: source@,
                clone: clone@,
                outcome: result_view(*outcome),
            },
            ProbeFileCheck::CheckSource { source, outcome } => ProbeFileCheckView::CheckSource {
                source: source@,
                outcome: result_view(*outcome),
            },
            ProbeFileCheck::RemoveSource { source, outcome } => ProbeFileCheckView::RemoveSource {
                source: source@,
                outcome: result_view(*outcome),
            },
        }
    }
}

pub open spec fn probe_file_check_start(root: Seq<u8>, keep: Seq<u8>) -> ProgressView<
    ProbeFileCheckView,
    (),
> {
    ProgressView::Ask(ProbeFileCheckView::Identity { root, keep })
}

/// The probe files of process `pid` with number `id` in `root`, unless one
/// of them would lie at or below `keep`: only the source itself can be met
/// there, which exists, so the check fails as creating it would.
pub open spec fn probe_files_chosen(root: Seq<u8>, keep: Seq<u8>, pid: u32, id: u64) -> ProgressView<
    ProbeFileCheckView,
    (),
> {
    let source = probe_source(root, pid, id);
    let clone = probe_clone(root, pid, id);
    if path_starts_with(source, keep) || path_starts_with(clone, keep) {
        ProgressView::Finish(Err(ErrorView::Io(already_exists_failure())))
    } else {
        ProgressView::Ask(ProbeFileCheckView::Create { source, clone })
    }
}

impl ProbeFileCheckView {
    pub open spec fn pending(self) -> RequestView {
        match self {
            ProbeFileCheckView::Identity { .. } => RequestView::ProbeIdentity,
            ProbeFileCheckView::Create { source, .. } => RequestView::CreateFile {
                path: source,
                contents: probe_contents(),
            },
            ProbeFileCheckView::Reflink { source, clone } => RequestView::ReflinkFile {
                from: source,
                to: clone,
            },
            ProbeFileCheckView::CheckClone { clone, .. } => RequestView::PathExists(clone),
            ProbeFileCheckView::RemoveClone { clone, .. } => RequestView::RemoveFile(clone),
            ProbeFileCheckView::CheckSource { source, .. } => RequestView::PathExists(source),
            ProbeFileCheckView::RemoveSource { source, .. } => RequestView::RemoveFile(source),
        }
    }

    pub open spec fn resume(self, reply: ReplyView) -> ProgressView<ProbeFileCheckView, ()> {
        match self {
            ProbeFileCheckView::Identity { root, keep } => match reply {
                ReplyView::Identity { pid, id } => probe_files_chosen(root, keep, pid, id),
                _ => ProgressView::Ask(self),
            },
            ProbeFileCheckView::Create { source, clone } => match reply {
                ReplyView::Done => ProgressView::Ask(ProbeFileCheckView::Reflink { source, clone }),
                ReplyView::Failed(f) => ProgressView::Ask(
                    ProbeFileCheckView::CheckClone { source, clone, outcome: Err(ErrorView::Io(f)) },
                ),
                _ => ProgressView::Ask(self),
            },
            ProbeFileCheckView::Reflink { source, clone } => match reply {
                ReplyView::Done => ProgressView::Ask(
                    ProbeFileCheckView::CheckClone { source, clone, outcome: Ok(()) },
                ),
                ReplyView::Failed(f) => ProgressView::Ask(
                    ProbeFileCheckView::CheckClone { source, clone, outcome: Err(ErrorView::Io(f)) },
                ),
                ReplyView::Refused(f) => ProgressView::Ask(
                    ProbeFileCheckView::CheckClone {
                        source,
                        clone,
                        outcome: Err(
                            ErrorView::Unavailable(
                                UnavailabilityView::ReflinkFailed { from: source, error: f },
                            ),
                        ),
                    },
                ),
                _ => ProgressView::Ask(self),
            },
            ProbeFileCheckView::CheckClone { source, clone, outcome } => match reply {
                ReplyView::Exists(true) => ProgressView::Ask(
                    ProbeFileCheckView::RemoveClone { source, clone, outcome },
                ),
                ReplyView::Exists(false) => ProgressView::Ask(
                    ProbeFileCheckView::CheckSource { source, outcome },
                ),
                _ => ProgressView::Ask(self),
            },
            ProbeFileCheckView::RemoveClone { source, clone, outcome } => match reply {
                ReplyView::Done => ProgressView::Ask(
                    ProbeFileCheckView::CheckSource { source, outcome },
                ),
                ReplyView::Failed(f) => ProgressView::Finish(
                    then_cleanup(outcome, Err(ErrorView::Io(f))),
                ),
                _ => ProgressView::Ask(self),
            },
            ProbeFileCheckView::CheckSource { source, outcome } => match reply {
                ReplyView::Exists(true) => ProgressView::Ask(
                    ProbeFileCheckView::RemoveSource { source, outcome },
                ),
                ReplyView::Exists(false) => ProgressView::Finish(outcome),
                _ => ProgressView::Ask(self),
            },
            ProbeFileCheckView::RemoveSource { source, outcome } => match reply {
                ReplyView::Done => ProgressView::Finish(outcome),
                ReplyView::Failed(f) => ProgressView::Finish(
                    then_cleanup(outcome, Err(ErrorView::Io(f))),
                ),
                _ => ProgressView::Ask(self),
            },
        }
    }
}

impl ProbeFileCheck {
    pub fn start(root: Vec<u8>, keep: Vec<u8>) -> (r: Progress<ProbeFileCheck, ()>)
        ensures
            r@ == probe_file_check_start(root@, keep@),
    {
        Progress::Ask(ProbeFileCheck::Identity { root, keep })
    }

    pub fn request(&self) -> (r: Request)
        ensures
            r@ == self@.pending(),
    {
        match self {
            ProbeFileCheck::Identity { .. } => Request::ProbeIdentity,
            ProbeFileCheck::Create { source, .. } => Request::CreateFile {
                path: copy_bytes(source),
                contents: probe_contents_bytes(),
            },
            ProbeFileCheck::Reflink { source, clone } => Request::ReflinkFile {
                from: copy_bytes(source),
                to: copy_bytes(clone),
            },
            ProbeFileCheck::CheckClone { clone, .. } => Request::PathExists(copy_bytes(clone)),
            ProbeFileCheck::RemoveClone { clone, .. } => Request::RemoveFile(copy_bytes(clone)),
            ProbeFileCheck::CheckSource { source, .. } => Request::PathExists(copy_bytes(source)),
            ProbeFileCheck::RemoveSource { source, .. } => Request::RemoveFile(copy_bytes(source)),
        }
    }

    pub fn resume(self, reply: Reply) -> (r: Progress<ProbeFileCheck, ()>)
        ensures
            r@ == self@.resume(reply@),
    {
        match self {
            ProbeFileCheck::Identity { root, keep } => match reply {
                Reply::Identity { pid, id } => {
                    let stem = probe_stem_bytes(pid, id);
                    let source = join_bytes(&root, &stem);
                    let mut clone_name = copy_bytes(&stem);
                    clone_name.push(45u8);
                    clone_name.push(99u8);
                    clone_name.push(108u8);
                    clone_name.push(111u8);
                    clone_name.push(110u8);
                    clone_name.push(101u8);
                    assert(clone_name@ =~= probe_stem(pid, id) + clone_suffix());
                    let clone = join_bytes(&root, &clone_name);
                    if starts_with_bytes(&source, &keep) || starts_with_bytes(&clone, &keep) {
                        let error = already_exists_error(IoKind::AlreadyExists);
                        Progress::Finish(
                            Err(Error::Io(IoFailure { kind: IoKind::AlreadyExists, error })),
                        )
                    } else {
                        Progress::Ask(ProbeFileCheck::Create { source, clone })
                    }
                },
                _ => Progress::Ask(ProbeFileCheck::Identity { root, keep }),
            },
            ProbeFileCheck::Create { source, clone } => match reply {
                Reply::Done => Progress::Ask(ProbeFileCheck::Reflink { source, clone }),
                Reply::Failed(f) => Progress::Ask(
                    ProbeFileCheck::CheckClone { source, clone, outcome: Err(Error::Io(f)) },
                ),
                _ => Progress::Ask(ProbeFileCheck::Create { source, clone }),
            },
            ProbeFileCheck::Reflink { source, clone } => match reply {
                Reply::Done => Progress::Ask(
                    ProbeFileCheck::CheckClone { source, clone, outcome: Ok(()) },
                ),
                Reply::Failed(f) => Progress::Ask(
                    ProbeFileCheck::CheckClone { source, clone, outcome: Err(Error::Io(f)) },
                ),
                Reply::Refused(f) => {
                    let from = copy_bytes(&source);
                    Progress::Ask(
                        ProbeFileCheck::CheckClone {
                            source,
                            clone,
                            outcome: Err(
                                Error::Unavailable(Unavailability::ReflinkFailed { from, error: f }),
                            ),
                        },
                    )
                },
                _ => Progress::Ask(ProbeFileCheck::Reflink { source, clone }),
            },
            ProbeFileCheck::CheckClone { source, clone, outcome } => match reply {
                Reply::Exists(true) => Progress::Ask(
                    ProbeFileCheck::RemoveClone { source, clone, outcome },
                ),
                Reply::Exists(false) => Progress::Ask(ProbeFileCheck::CheckSource { source, outcome }),
                _ => Progress::Ask(ProbeFileCheck::CheckClone { source, clone, outcome }),
            },
            ProbeFileCheck::RemoveClone { source, clone, outcome } => match reply {
                Reply::Done => Progress::Ask(ProbeFileCheck::CheckSource { source, outcome }),
                Reply::Failed(f) => Progress::Finish(then_cleanup_exec(outcome, f)),
                _ => Progress::Ask(ProbeFileCheck::RemoveClone { source, clone, outcome }),
            },
            ProbeFileCheck::CheckSource { source, outcome } => match reply {
                Reply::Exists(true) => Progress::Ask(ProbeFileCheck::RemoveSource { source, outcome }),
                Reply::Exists(false) => Progress::Finish(outcome),
                _ => Progress::Ask(ProbeFileCheck::CheckSource { source, outcome }),
            },
            ProbeFileCheck::RemoveSource { source, outcome } => match reply {
                Reply::Done => Progress::Finish(outcome),
                Reply::Failed(f) => Progress::Finish(then_cleanup_exec(outcome, f)),
                _ => Progress::Ask(ProbeFileCheck::RemoveSource { source, outcome }),
            },
        }
    }
}

// ---------------------------------------------------------------------------
// Probing for a backend.

/// The capability of a Btrfs subvolume source: a snapshot that does not walk
/// the tree.
pub open spec fn btrfs_capability() -> Capability {
    Capability { backend: Backend::BtrfsSnapshot, constant_time_metadata: true }
}

/// The capability of a reflink tree: every entry is walked.
pub open spec fn reflink_capability() -> Capability {
    Capability { backend: Backend::LinuxReflinkTree, constant_time_metadata: false }
}

/// Choosing the Linux backend for a source and a destination root. They must
/// lie on one filesystem: on Btrfs (if either is) both must be on Btrfs with
/// one filesystem id; otherwise both must be on one device. A source that is
/// a subvolume is snapshotted; any other needs reflinks to work in the root.
pub enum LinuxProbe {
    SourceType { source: Vec<u8>, root: Vec<u8>, check: FilesystemCheck },
    RootType { source: Vec<u8>, root: Vec<u8>, source_btrfs: bool, check: FilesystemCheck },
    SourceId { source: Vec<u8>, root: Vec<u8> },
    RootId { source: Vec<u8>, root: Vec<u8>, source_id: u128 },
    SourceDev { source: Vec<u8>, root: Vec<u8> },
    RootDev { source: Vec<u8>, root: Vec<u8>, source_dev: u64 },
    Subvolume { source: Vec<u8>, root: Vec<u8>, check: SubvolumeCheck },
    Verify { source: Vec<u8>, root: Vec<u8>, check: ProbeFileCheck },
}

pub enum LinuxProbeView {
    SourceType { source: Seq<u8>, root: Seq<u8>, check: FilesystemCheckView },
    RootType { source: Seq<u8>, root: Seq<u8>, source_btrfs: bool, check: FilesystemCheckView },
    SourceId { source: Seq<u8>, root: Seq<u8> },
    RootId { source: Seq<u8>, root: Seq<u8>, source_id: u128 },
    SourceDev { source: Seq<u8>, root: Seq<u8> },
    RootDev { source: Seq<u8>, root: Seq<u8>, source_dev: u64 },
    Subvolume { source: Seq<u8>, root: Seq<u8>, check: SubvolumeCheckView },
    Verify { source: Seq<u8>, root: Seq<u8>, check: ProbeFileCheckView },
}

impl View for LinuxProbe {
    type V = LinuxProbeView;

    open spec fn view(&self) -> LinuxProbeView {
        match self {
            LinuxProbe::SourceType { source, root, check } => LinuxProbeView::SourceType {
                source: source@,
                root: root@,
                check: check@,
            },
            LinuxProbe::RootType { source, root, source_btrfs, check } => LinuxProbeView::RootType {
                source: source@,
                root: root@,
                source_btrfs: *source_btrfs,
                check: check@,
            },
            LinuxProbe::SourceId { source, root } => LinuxProbeView::SourceId {
                source: source@,
                root: root@,
            },
            LinuxProbe::RootId { source, root, source_id } => LinuxProbeView::RootId {
                source: source@,
                root: root@,
                source_id: *source_id,
            },
            LinuxProbe::SourceDev { source, root } => LinuxProbeView::SourceDev {
                source: source@,
                root: root@,
            },
            LinuxProbe::RootDev { source, root, source_dev } => LinuxProbeView::RootDev {
                source: source@,
                root: root@,
                source_dev: *source_dev,
            },
            LinuxProbe::Subvolume { source, root, check } => LinuxProbeView::Subvolume {
                source: source@,
                root: root@,
                check: check@,
            },
            LinuxProbe::Verify { source, root, check } => LinuxProbeView::Verify {
                source: source@,
                root: root@,
                check: check@,
            },
        }
    }
}

pub open spec fn linux_probe_after_verify(
    source: Seq<u8>,
    root: Seq<u8>,
    p: ProgressView<ProbeFileCheckView, ()>,
) -> ProgressView<LinuxProbeView, Capability> {
    match p {
        ProgressView::Ask(check) => ProgressView::Ask(LinuxProbeView::Verify { source, root, check }),
        ProgressView::Finish(Ok(())) => ProgressView::Finish(Ok(reflink_capability())),
        ProgressView::Finish(Err(e)) => ProgressView::Finish(Err(e)),
    }
}

/// A source that is not a subvolume needs the reflink check, which writes
/// in the destination root; a root at or below the source is refused, so
/// that probing never writes into the source.
pub open spec fn linux_probe_after_subvolume(
    source: Seq<u8>,
    root: Seq<u8>,
    p: ProgressView<SubvolumeCheckView, bool>,
) -> ProgressView<LinuxProbeView, Capability> {
    match p {
        ProgressView::Ask(check) => ProgressView::Ask(LinuxProbeView::Subvolume { source, root, check }),
        ProgressView::Finish(Ok(true)) => ProgressView::Finish(Ok(btrfs_capability())),
        ProgressView::Finish(Ok(false)) => if path_starts_with(root, source) {
            ProgressView::Finish(Err(ErrorView::DestinationInsideSource(root)))
        } else {
            linux_probe_after_verify(source, root, probe_file_check_start(root, source))
        },
        ProgressView::Finish(Err(e)) => ProgressView::Finish(Err(e)),
    }
}

pub open spec fn linux_probe_decide(source: Seq<u8>, root: Seq<u8>, same: bool) -> ProgressView<
    LinuxProbeView,
    Capability,
> {
    if !same {
        ProgressView::Finish(
            Err(ErrorView::Unavailable(UnavailabilityView::DifferentFilesystem(root))),
        )
    } else {
        linux_probe_after_subvolume(source, root, subvolume_check_start(source))
    }
}

pub open spec fn linux_probe_after_root_type(
    source: Seq<u8>,
    root: Seq<u8>,
    source_btrfs: bool,
    p: ProgressView<FilesystemCheckView, bool>,
) -> ProgressView<LinuxProbeView, Capability> {
    match p {
        ProgressView::Ask(check) => ProgressView::Ask(
            LinuxProbeView::RootType { source, root, source_btrfs, check },
        ),
        ProgressView::Finish(Ok(root_btrfs)) => if source_btrfs || root_btrfs {
            if source_btrfs && root_btrfs {
                ProgressView::Ask(LinuxProbeView::SourceId { source, root })
            } else {
                linux_probe_decide(source, root, false)
            }
        } else {
            ProgressView::Ask(LinuxProbeView::SourceDev { source, root })
        },
        ProgressView::Finish(Err(e)) => ProgressView::Finish(Err(e)),
    }
}

pub open spec fn linux_probe_after_source_type(
    source: Seq<u8>,
    root: Seq<u8>,
    p: ProgressView<FilesystemCheckView, bool>,
) -> ProgressView<LinuxProbeView, Capability> {
    match p {
        ProgressView::Ask(check) => ProgressView::Ask(
            LinuxProbeView::SourceType { source, root, check },
        ),
        ProgressView::Finish(Ok(source_btrfs)) => linux_probe_after_root_type(
            source,
            root,
            source_btrfs,
            filesystem_check_start(root),
        ),
        ProgressView::Finish(Err(e)) => ProgressView::Finish(Err(e)),
    }
}

pub open spec fn linux_probe_start(source: Seq<u8>, root: Seq<u8>) -> ProgressView<
    LinuxProbeView,
    Capability,
> {
    linux_probe_after_source_type(source, root, filesystem_check_start(source))
}

impl LinuxProbeView {
    pub open spec fn pending(self) -> RequestView {
        match self {
            LinuxProbeView::SourceType { check, .. } => check.pending(),
            LinuxProbeView::RootType { check, .. } => check.pending(),
            LinuxProbeView::SourceId { source, .. } => RequestView::FilesystemId(source),
            LinuxProbeView::RootId { root, .. } => RequestView::FilesystemId(root),
            LinuxProbeView::SourceDev { source, .. } => RequestView::Metadata(source),
            LinuxProbeView::RootDev { root, .. } => RequestView::Metadata(root),
            LinuxProbeView::Subvolume { check, .. } => check.pending(),
            LinuxProbeView::Verify { check, .. } => check.pending(),
        }
    }

    pub open spec fn resume(self, reply: ReplyView) -> ProgressView<LinuxProbeView, Capability> {
        match self {
            LinuxProbeView::SourceType { source, root, check } => linux_probe_after_source_type(
                source,
                root,
                check.resume(reply),
            ),
            LinuxProbeView::RootType { source, root, source_btrfs, check } =>
                linux_probe_after_root_type(source, root, source_btrfs, check.resume(reply)),
            LinuxProbeView::SourceId { source, root } => match reply {
                ReplyView::FsId(a) => ProgressView::Ask(
                    LinuxProbeView::RootId { source, root, source_id: a },
                ),
                ReplyView::Failed(f) => ProgressView::Finish(Err(ErrorView::Io(f))),
                _ => ProgressView::Ask(self),
            },
            LinuxProbeView::RootId { source, root, source_id } => match reply {
                ReplyView::FsId(b) => linux_probe_decide(source, root, source_id == b),
                ReplyView::Failed(f) => ProgressView::Finish(Err(ErrorView::Io(f))),
                _ => ProgressView::Ask(self),
            },
            LinuxProbeView::SourceDev { source, root } => match reply {
                ReplyView::Meta(m) => ProgressView::Ask(
                    LinuxProbeView::RootDev { source, root, source_dev: m.dev },
                ),
                ReplyView::Failed(f) => ProgressView::Finish(Err(ErrorView::Io(f))),
                _ => ProgressView::Ask(self),
            },
            LinuxProbeView::RootDev { source, root, source_dev } => match reply {
                ReplyView::Meta(m) => linux_probe_decide(source, root, source_dev == m.dev),
                ReplyView::Failed(f) => ProgressView::Finish(Err(ErrorView::Io(f))),
                _ => ProgressView::Ask(self),
            },
            LinuxProbeView::Subvolume { source, root, check } => linux_probe_after_subvolume(
                source,
                root,
                check.resume(reply),
            ),
            LinuxProbeView::Verify { source, root, check } => linux_probe_after_verify(
                source,
                root,
                check.resume(reply),
            ),
        }
    }
}

impl LinuxProbe {
    fn after_verify(source: Vec<u8>, root: Vec<u8>, p: Progress<ProbeFileCheck, ()>) -> (r: Progress<
        LinuxProbe,
        Capability,
    >)
        ensures
            r@ == linux_probe_after_verify(source@, root@, p@),
    {
        match p {
            Progress::Ask(check) => Progress::Ask(LinuxProbe::Verify { source, root, check }),
            Progress::Finish(Ok(())) => Progress::Finish(
                Ok(Capability { backend: Backend::LinuxReflinkTree, constant_time_metadata: false }),
            ),
            Progress::Finish(Err(e)) => Progress::Finish(Err(e)),
        }
    }

    fn after_subvolume(source: Vec<u8>, root: Vec<u8>, p: Progress<SubvolumeCheck, bool>) -> (r:
        Progress<LinuxProbe, Capability>)
        ensures
            r@ == linux_probe_after_subvolume(source@, root@, p@),
    {
        match p {
            Progress::Ask(check) => Progress::Ask(LinuxProbe::Subvolume { source, root, check }),
            Progress::Finish(Ok(true)) => Progress::Finish(
                Ok(Capability { backend: Backend::BtrfsSnapshot, constant_time_metadata: true }),
            ),
            Progress::Finish(Ok(false)) => {
                if starts_with_bytes(&root, &source) {
                    Progress::Finish(Err(Error::DestinationInsideSource(root)))
                } else {
                    let check = ProbeFileCheck::start(copy_bytes(&root), copy_bytes(&source));
                    LinuxProbe::after_verify(source, root, check)
                }
            },
            Progress::Finish(Err(e)) => Progress::Finish(Err(e)),
        }
    }

    fn decide(source: Vec<u8>, root: Vec<u8>, same: bool) -> (r: Progress<LinuxProbe, Capability>)
        ensures
            r@ == linux_probe_decide(source@, root@, same),
    {
        if !same {
            Progress::Finish(Err(Error::Unavailable(Unavailability::DifferentFilesystem(root))))
        } else {
            let check = SubvolumeCheck::start(copy_bytes(&source));
            LinuxProbe::after_subvolume(source, root, check)
        }
    }

    fn after_root_type(
        source: Vec<u8>,
        root: Vec<u8>,
        source_btrfs: bool,
        p: Progress<FilesystemCheck, bool>,
    ) -> (r: Progress<LinuxProbe, Capability>)
        ensures
            r@ == linux_probe_after_root_type(source@, root@, source_btrfs, p@),
    {
        match p {
            Progress::Ask(check) => Progress::Ask(
                LinuxProbe::RootType { source, root, source_btrfs, check },
            ),
            Progress::Finish(Ok(root_btrfs)) => if source_btrfs || root_btrfs {
                if source_btrfs && root_btrfs {
                    Progress::Ask(LinuxProbe::SourceId { source, root })
                } else {
                    LinuxProbe::decide(source, root, false)
                }
            } else {
                Progress::Ask(LinuxProbe::SourceDev { source, root })
            },
            Progress::Finish(Err(e)) => Progress::Finish(Err(e)),
        }
    }

    fn after_source_type(source: Vec<u8>, root: Vec<u8>, p: Progress<FilesystemCheck, bool>) -> (r:
        Progress<LinuxProbe, Capability>)
        ensures
            r@ == linux_probe_after_source_type(source@, root@, p@),
    {
        match p {
            Progress::Ask(check) => Progress::Ask(LinuxProbe::SourceType { source, root, check }),
            Progress::Finish(Ok(source_btrfs)) => {
                let check = FilesystemCheck::start(copy_bytes(&root));
                LinuxProbe::after_root_type(source, root, source_btrfs, check)
            },
            Progress::Finish(Err(e)) => Progress::Finish(Err(e)),
        }
    }

    pub fn start(source: Vec<u8>, root: Vec<u8>) -> (r: Progress<LinuxProbe, Capability>)
        ensures
            r@ == linux_probe_start(source@, root@),
    {
        let check = FilesystemCheck::start(copy_bytes(&source));
        LinuxProbe::after_source_type(source, root, check)
    }

    pub fn request(&self) -> (r: Request)
        ensures
            r@ == self@.pending(),
    {
        match self {
            LinuxProbe::SourceType { check, .. } => check.request(),
            LinuxProbe::RootType { check, .. } => check.request(),
            LinuxProbe::SourceId { source, .. } => Request::FilesystemId(copy_bytes(source)),
            LinuxProbe::RootId { root, .. } => Request::FilesystemId(copy_bytes(root)),
            LinuxProbe::SourceDev { source, .. } => Request::Metadata(copy_bytes(source)),
            LinuxProbe::RootDev { root, .. } => Request::Metadata(copy_bytes(root)),
            LinuxProbe::Subvolume { check, .. } => check.request(),
            LinuxProbe::Verify { check, .. } => check.request(),
        }
    }

    pub fn resume(self, reply: Reply) -> (r: Progress<LinuxProbe, Capability>)
        ensures
            r@ == self@.resume(reply@),
    {
        match self {
            LinuxProbe::SourceType { source, root, check } => LinuxProbe::after_source_type(
                source,
                root,
                check.resume(reply),
            ),
            LinuxProbe::RootType { source, root, source_btrfs, check } =>
                LinuxProbe::after_root_type(source, root, source_btrfs, check.resume(reply)),
            LinuxProbe::SourceId { source, root } => match reply {
                Reply::FsId(a) => Progress::Ask(LinuxProbe::RootId { source, root, source_id: a }),
                Reply::Failed(f) => Progress::Finish(Err(Error::Io(f))),
                _ => Progress::Ask(LinuxProbe::SourceId { source, root }),
            },
            LinuxProbe::RootId { source, root, source_id } => match reply {
                Reply::FsId(b) => LinuxProbe::decide(source, root, source_id == b),
                Reply::Failed(f) => Progress::Finish(Err(Error::Io(f))),
                _ => Progress::Ask(LinuxProbe::RootId { source, root, source_id }),
            },
            LinuxProbe::SourceDev { source, root } => match reply {
                Reply::Meta(m) => Progress::Ask(
                    LinuxProbe::RootDev { source, root, source_dev: m.dev },
                ),
                Reply::Failed(f) => Progress::Finish(Err(Error::Io(f))),
                _ => Progress::Ask(LinuxProbe::SourceDev { source, root }),
            },
            LinuxProbe::RootDev { source, root, source_dev } => match reply {
                Reply::Meta(m) => LinuxProbe::decide(source, root, source_dev == m.dev),
                Reply::Failed(f) => Progress::Finish(Err(Error::Io(f))),
                _ => Progress::Ask(LinuxProbe::RootDev { source, root, source_dev }),
            },
            LinuxProbe::Subvolume { source, root, check } => LinuxProbe::after_subvolume(
                source,
                root,
                check.resume(reply),
            ),
            LinuxProbe::Verify { source, root, check } => LinuxProbe::after_verify(
                source,
                root,
                check.resume(reply),
            ),
        }
    }
}

// ---------------------------------------------------------------------------
// Removing a snapshot.

/// Removing a snapshot: a subvolume is destroyed as a subvolume, anything
/// else is removed with all it holds.
pub enum LinuxRemove {
    Check { path: Vec<u8>, check: SubvolumeCheck },
    Btrfs { removal: BtrfsRemove },
    RemoveAll { path: Vec<u8> },
}

pub enum LinuxRemoveView {
    Check { path: Seq<u8>, check: SubvolumeCheckView },
    Btrfs { removal: BtrfsRemoveView },
    RemoveAll { path: Seq<u8> },
}

impl View for LinuxRemove {
    type V = LinuxRemoveView;

    open spec fn view(&self) -> LinuxRemoveView {
        match self {
            LinuxRemove::Check { path, check } => LinuxRemoveView::Check {
                path: path@,
                check: check@,
            },
            LinuxRemove::Btrfs { removal } => LinuxRemoveView::Btrfs { removal: removal@ },
            LinuxRemove::RemoveAll { path } => LinuxRemoveView::RemoveAll { path: path@ },
        }
    }
}

pub open spec fn linux_remove_after_btrfs(p: ProgressView<BtrfsRemoveView, ()>) -> ProgressView<
    LinuxRemoveView,
    (),
> {
    match p {
        ProgressView::Ask(removal) => ProgressView::Ask(LinuxRemoveView::Btrfs { removal }),
        ProgressView::Finish(r) => ProgressView::Finish(r),
    }
}

pub open spec fn linux_remove_after_check(path: Seq<u8>, p: ProgressView<SubvolumeCheckView, bool>) -> ProgressView<
    LinuxRemoveView,
    (),
> {
    match p {
        ProgressView::Ask(check) => ProgressView::Ask(LinuxRemoveView::Check { path, check }),
        ProgressView::Finish(Ok(true)) => linux_remove_after_btrfs(btrfs_remove_start(path)),
        ProgressView::Finish(Ok(false)) => ProgressView::Ask(LinuxRemoveView::RemoveAll { path }),
        ProgressView::Finish(Err(e)) => ProgressView::Finish(Err(e)),
    }
}

pub open spec fn linux_remove_start(path: Seq<u8>) -> ProgressView<LinuxRemoveView, ()> {
    linux_remove_after_check(path, subvolume_check_start(path))
}

impl LinuxRemoveView {
    pub open spec fn pending(self) -> RequestView {
        match self {
            LinuxRemoveView::Check { check, .. } => check.pending(),
            LinuxRemoveView::Btrfs { removal } => removal.pending(),
            LinuxRemoveView::RemoveAll { path } => RequestView::RemoveDirAll(path),
        }
    }

    pub open spec fn resume(self, reply: ReplyView) -> ProgressView<LinuxRemoveView, ()> {
        match self {
            LinuxRemoveView::Check { path, check } => linux_remove_after_check(
                path,
                check.resume(reply),
            ),
            LinuxRemoveView::Btrfs { removal } => linux_remove_after_btrfs(removal.resume(reply)),
            LinuxRemoveView::RemoveAll { .. } => match reply {
                ReplyView::Done => ProgressView::Finish(Ok(())),
                ReplyView::Failed(f) => ProgressView::Finish(Err(ErrorView::Io(f))),
                _ => ProgressView::Ask(self),
            },
        }
    }
}

impl LinuxRemove {
    fn after_btrfs(p: Progress<BtrfsRemove, ()>) -> (r: Progress<LinuxRemove, ()>)
        ensures
            r@ == linux_remove_after_btrfs(p@),
    {
        match p {
            Progress::Ask(removal) => Progress::Ask(LinuxRemove::Btrfs { removal }),
            Progress::Finish(r) => Progress::Finish(r),
        }
    }

    fn after_check(path: Vec<u8>, p: Progress<SubvolumeCheck, bool>) -> (r: Progress<LinuxRemove, ()>)
        ensures
            r@ == linux_remove_after_check(path@, p@),
    {
        match p {
            Progress::Ask(check) => Progress::Ask(LinuxRemove::Check { path, check }),
            Progress::Finish(Ok(true)) => LinuxRemove::after_btrfs(BtrfsRemove::start(path)),
            Progress::Finish(Ok(false)) => Progress::Ask(LinuxRemove::RemoveAll { path }),
            Progress::Finish(Err(e)) => Progress::Finish(Err(e)),
        }
    }

    pub fn start(path: Vec<u8>) -> (r: Progress<LinuxRemove, ()>)
        ensures
            r@ == linux_remove_start(path@),
    {
        let check = SubvolumeCheck::start(copy_bytes(&path));
        LinuxRemove::after_check(path, check)
    }

    pub fn request(&self) -> (r: Request)
        ensures
            r@ == self@.pending(),
    {
        match self {
            LinuxRemove::Check { check, .. } => check.request(),
            LinuxRemove::Btrfs { removal } => removal.request(),
            LinuxRemove::RemoveAll { path } => Request::RemoveDirAll(copy_bytes(path)),
        }
    }

    pub fn resume(self, reply: Reply) -> (r: Progress<LinuxRemove, ()>)
        ensures
            r@ == self@.resume(reply@),
    {
        match self {
            LinuxRemove::Check { path, check } => LinuxRemove::after_check(path, check.resume(reply)),
            LinuxRemove::Btrfs { removal } => LinuxRemove::after_btrfs(removal.resume(reply)),
            LinuxRemove::RemoveAll { path } => match reply {
                Reply::Done => Progress::Finish(Ok(())),
                Reply::Failed(f) => Progress::Finish(Err(Error::Io(f))),
                _ => Progress::Ask(LinuxRemove::RemoveAll { path }),
            },
        }
    }
}

// ---------------------------------------------------------------------------
// Preparing an empty snapshot source.

/// Creating an empty snapshot source: a subvolume when the parent lies on
/// Btrfs, a plain directory otherwise.
pub enum LinuxPrepare {
    ParentType { path: Vec<u8>, check: FilesystemCheck },
    Subvolume { call: SubvolumeCall },
    CreateDir { path: Vec<u8> },
}

pub enum LinuxPrepareView {
    ParentType { path: Seq<u8>, check: FilesystemCheckView },
    Subvolume { call: SubvolumeCallView },
    CreateDir { path: Seq<u8> },
}

impl View for LinuxPrepare {
    type V = LinuxPrepareView;

    open spec fn view(&self) -> LinuxPrepareView {
        match self {
            LinuxPrepare::ParentType { path, check } => LinuxPrepareView::ParentType {
                path: path@,
                check: check@,
            },
            LinuxPrepare::Subvolume { call } => LinuxPrepareView::Subvolume { call: call@ },
            LinuxPrepare::CreateDir { path } => LinuxPrepareView::CreateDir { path: path@ },
        }
    }
}

pub open spec fn linux_prepare_after_call(p: ProgressView<SubvolumeCallView, ()>) -> ProgressView<
    LinuxPrepareView,
    (),
> {
    match p {
        ProgressView::Ask(call) => ProgressView::Ask(LinuxPrepareView::Subvolume { call }),
        ProgressView::Finish(r) => ProgressView::Finish(r),
    }
}

pub open spec fn linux_prepare_after_type(path: Seq<u8>, p: ProgressView<FilesystemCheckView, bool>) -> ProgressView<
    LinuxPrepareView,
    (),
> {
    match p {
        ProgressView::Ask(check) => ProgressView::Ask(LinuxPrepareView::ParentType { path, check }),
        ProgressView::Finish(Ok(true)) => linux_prepare_after_call(
            subvolume_call_start(path, SubvolumeOp::CreateSubvolume),
        ),
        ProgressView::Finish(Ok(false)) => ProgressView::Ask(LinuxPrepareView::CreateDir { path }),
        ProgressView::Finish(Err(e)) => ProgressView::Finish(Err(e)),
    }
}

pub open spec fn linux_prepare_start(path: Seq<u8>) -> ProgressView<LinuxPrepareView, ()> {
    match parent(path) {
        None => ProgressView::Finish(Err(ErrorView::InvalidPath(PathIssueView::NoParent(path)))),
        Some(par) => linux_prepare_after_type(path, filesystem_check_start(par)),
    }
}

impl LinuxPrepareView {
    pub open spec fn pending(self) -> RequestView {
        match self {
            LinuxPrepareView::ParentType { check, .. } => check.pending(),
            LinuxPrepareView::Subvolume { call } => call.pending(),
            LinuxPrepareView::CreateDir { path } => RequestView::CreateDir(path),
        }
    }

    pub open spec fn resume(self, reply: ReplyView) -> ProgressView<LinuxPrepareView, ()> {
        match self {
            LinuxPrepareView::ParentType { path, check } => linux_prepare_after_type(
                path,
                check.resume(reply),
            ),
            LinuxPrepareView::Subvolume { call } => linux_prepare_after_call(call.resume(reply)),
            LinuxPrepareView::CreateDir { .. } => match reply {
                ReplyView::Done => ProgressView::Finish(Ok(())),
                ReplyView::Failed(f) => ProgressView::Finish(Err(ErrorView::Io(f))),
                _ => ProgressView::Ask(self),
            },
        }
    }
}

impl LinuxPrepare {
    fn after_call(p: Progress<SubvolumeCall, ()>) -> (r: Progress<LinuxPrepare, ()>)
        ensures
            r@ == linux_prepare_after_call(p@),
    {
        match p {
            Progress::Ask(call) => Progress::Ask(LinuxPrepare::Subvolume { call }),
            Progress::Finish(r) => Progress::Finish(r),
        }
    }

    fn after_type(path: Vec<u8>, p: Progress<FilesystemCheck, bool>) -> (r: Progress<LinuxPrepare, ()>)
        ensures
            r@ == linux_prepare_after_type(path@, p@),
    {
        match p {
            Progress::Ask(check) => Progress::Ask(LinuxPrepare::ParentType { path, check }),
            Progress::Finish(Ok(true)) => LinuxPrepare::after_call(
                SubvolumeCall::start(path, SubvolumeOp::CreateSubvolume),
            ),
            Progress::Finish(Ok(false)) => Progress::Ask(LinuxPrepare::CreateDir { path }),
            Progress::Finish(Err(e)) => Progress::Finish(Err(e)),
        }
    }

    pub fn start(path: Vec<u8>) -> (r: Progress<LinuxPrepare, ()>)
        ensures
            r@ == linux_prepare_start(path@),
    {
        match parent_bytes(&path) {
            None => Progress::Finish(Err(Error::InvalidPath(PathIssue::NoParent(path)))),
            Some(par) => LinuxPrepare::after_type(path, FilesystemCheck::start(par)),
        }
    }

    pub fn request(&self) -> (r: Request)
        ensures
            r@ == self@.pending(),
    {
        match self {
            LinuxPrepare::ParentType { check, .. } => check.request(),
            LinuxPrepare::Subvolume { call } => call.request(),
            LinuxPrepare::CreateDir { path } => Request::CreateDir(copy_bytes(path)),
        }
    }

    pub fn resume(self, reply: Reply) -> (r: Progress<LinuxPrepare, ()>)
        ensures
            r@ == self@.resume(reply@),
    {
        match self {
            LinuxPrepare::ParentType { path, check } => LinuxPrepare::after_type(
                path,
                check.resume(reply),
            ),
            LinuxPrepare::Subvolume { call } => LinuxPrepare::after_call(call.resume(reply)),
            LinuxPrepare::CreateDir { path } => match reply {
                Reply::Done => Progress::Finish(Ok(())),
                Reply::Failed(f) => Progress::Finish(Err(Error::Io(f))),
                _ => Progress::Ask(LinuxPrepare::CreateDir { path }),
            },
        }
    }
}

// ---------------------------------------------------------------------------
// Making a snapshot source read-only or writable.

/// Setting the read-only flag of a snapshot source that is a subvolume,
/// keeping every other flag, and reading the flag back. A source that is not
/// a subvolume is left alone and reported writable.
pub enum SetSourceImmutable {
    Check { path: Vec<u8>, immutable: bool, check: SubvolumeCheck },
    OpenForWrite { path: Vec<u8>, immutable: bool },
    ReadFlags { path: Vec<u8>, immutable: bool },
    WriteFlags { path: Vec<u8>, flags: u64 },
    OpenForRead { path: Vec<u8> },
    ReadBack { path: Vec<u8> },
}

pub enum SetSourceImmutableView {
    Check { path: Seq<u8>, immutable: bool, check: SubvolumeCheckView },
    OpenForWrite { path: Seq<u8>, immutable: bool },
    ReadFlags { path: Seq<u8>, immutable: bool },
    WriteFlags { path: Seq<u8>, flags: u64 },
    OpenForRead { path: Seq<u8> },
    ReadBack { path: Seq<u8> },
}

impl View for SetSourceImmutable {
    type V = SetSourceImmutableView;

    open spec fn view(&self) -> SetSourceImmutableView {
        match self {
            SetSourceImmutable::Check { path, immutable, check } => SetSourceImmutableView::Check {
                path: path@,
                immutable: *immutable,
                check: check@,
            },
            SetSourceImmutable::OpenForWrite { path, immutable } =>
                SetSourceImmutableView::OpenForWrite { path: path@, immutable: *immutable },
            SetSourceImmutable::ReadFlags { path, immutable } => SetSourceImmutableView::ReadFlags {
                path: path@,
                immutable: *immutable,
            },
            SetSourceImmutable::WriteFlags { path, flags } => SetSourceImmutableView::WriteFlags {
                path: path@,
                flags: *flags,
            },
            SetSourceImmutable::OpenForRead { path } => SetSourceImmutableView::OpenForRead {
                path: path@,
            },
            SetSourceImmutable::ReadBack { path } => SetSourceImmutableView::ReadBack { path: path@ },
        }
    }
}

pub open spec fn set_immutable_after_check(
    path: Seq<u8>,
    immutable: bool,
    p: ProgressView<SubvolumeCheckView, bool>,
) -> ProgressView<SetSourceImmutableView, bool> {
    match p {
        ProgressView::Ask(check) => ProgressView::Ask(
            SetSourceImmutableView::Check { path, immutable, check },
        ),
        ProgressView::Finish(Ok(true)) => ProgressView::Ask(
            SetSourceImmutableView::OpenForWrite { path, immutable },
        ),
        ProgressView::Finish(Ok(false)) => ProgressView::Finish(Ok(false)),
        ProgressView::Finish(Err(e)) => ProgressView::Finish(Err(e)),
    }
}

pub open spec fn set_snapshot_source_immutable_start(path: Seq<u8>, immutable: bool) -> ProgressView<
    SetSourceImmutableView,
    bool,
> {
    set_immutable_after_check(path, immutable, subvolume_check_start(path))
}

impl SetSourceImmutableView {
    pub open spec fn pending(self) -> RequestView {
        match self {
            SetSourceImmutableView::Check { check, .. } => check.pending(),
            SetSourceImmutableView::OpenForWrite { path, .. } => RequestView::OpenFile(path),
            SetSourceImmutableView::ReadFlags { .. } => RequestView::SubvolumeFlags,
            SetSourceImmutableView::WriteFlags { flags, .. } => RequestView::SetSubvolumeFlags(flags),
            SetSourceImmutableView::OpenForRead { path } => RequestView::OpenFile(path),
            SetSourceImmutableView::ReadBack { .. } => RequestView::SubvolumeFlags,
        }
    }

    pub open spec fn resume(self, reply: ReplyView) -> ProgressView<SetSourceImmutableView, bool> {
        match self {
            SetSourceImmutableView::Check { path, immutable, check } => set_immutable_after_check(
                path,
                immutable,
                check.resume(reply),
            ),
            _ => match reply {
                ReplyView::Failed(f) => ProgressView::Finish(Err(ErrorView::Io(f))),
                _ => match self {
                    SetSourceImmutableView::OpenForWrite { path, immutable } => match reply {
                        ReplyView::Done => ProgressView::Ask(
                            SetSourceImmutableView::ReadFlags { path, immutable },
                        ),
                        _ => ProgressView::Ask(self),
                    },
                    SetSourceImmutableView::ReadFlags { path, immutable } => match reply {
                        ReplyView::Flags(f) => ProgressView::Ask(
                            SetSourceImmutableView::WriteFlags {
                                path,
                                flags: spec_with_read_only(f, immutable),
                            },
                        ),
                        _ => ProgressView::Ask(self),
                    },
                    SetSourceImmutableView::WriteFlags { path, .. } => match reply {
                        ReplyView::Done => ProgressView::Ask(
                            SetSourceImmutableView::OpenForRead { path },
                        ),
                        _ => ProgressView::Ask(self),
                    },
                    SetSourceImmutableView::OpenForRead { path } => match reply {
                        ReplyView::Done => ProgressView::Ask(SetSourceImmutableView::ReadBack { path }),
                        _ => ProgressView::Ask(self),
                    },
                    SetSourceImmutableView::ReadBack { .. } => match reply {
                        ReplyView::Flags(g) => ProgressView::Finish(Ok(spec_is_read_only(g))),
                        _ => ProgressView::Ask(self),
                    },
                    SetSourceImmutableView::Check { .. } => ProgressView::Ask(self),
                },
            },
        }
    }
}

impl SetSourceImmutable {
    fn after_check(path: Vec<u8>, immutable: bool, p: Progress<SubvolumeCheck, bool>) -> (r: Progress<
        SetSourceImmutable,
        bool,
    >)
        ensures
            r@ == set_immutable_after_check(path@, immutable, p@),
    {
        match p {
            Progress::Ask(check) => Progress::Ask(
                SetSourceImmutable::Check { path, immutable, check },
            ),
            Progress::Finish(Ok(true)) => Progress::Ask(
                SetSourceImmutable::OpenForWrite { path, immutable },
            ),
            Progress::Finish(Ok(false)) => Progress::Finish(Ok(false)),
            Progress::Finish(Err(e)) => Progress::Finish(Err(e)),
        }
    }

    pub fn request(&self) -> (r: Request)
        ensures
            r@ == self@.pending(),
    {
        match self {
            SetSourceImmutable::Check { check, .. } => check.request(),
            SetSourceImmutable::OpenForWrite { path, .. } => Request::OpenFile(copy_bytes(path)),
            SetSourceImmutable::ReadFlags { .. } => Request::SubvolumeFlags,
            SetSourceImmutable::WriteFlags { flags, .. } => Request::SetSubvolumeFlags(*flags),
            SetSourceImmutable::OpenForRead { path } => Request::OpenFile(copy_bytes(path)),
            SetSourceImmutable::ReadBack { .. } => Request::SubvolumeFlags,
        }
    }

    pub fn resume(self, reply: Reply) -> (r: Progress<SetSourceImmutable, bool>)
        ensures
            r@ == self@.resume(reply@),
    {
        match self {
            SetSourceImmutable::Check { path, immutable, check } => SetSourceImmutable::after_check(
                path,
                immutable,
                check.resume(reply),
            ),
            state => match reply {
                Reply::Failed(f) => Progress::Finish(Err(Error::Io(f))),
                reply => match state {
                    SetSourceImmutable::OpenForWrite { path, immutable } => match reply {
                        Reply::Done => Progress::Ask(SetSourceImmutable::ReadFlags { path, immutable }),
                        _ => Progress::Ask(SetSourceImmutable::OpenForWrite { path, immutable }),
                    },
                    SetSourceImmutable::ReadFlags { path, immutable } => match reply {
                        Reply::Flags(f) => Progress::Ask(
                            SetSourceImmutable::WriteFlags { path, flags: with_read_only(f, immutable) },
                        ),
                        _ => Progress::Ask(SetSourceImmutable::ReadFlags { path, immutable }),
                    },
                    SetSourceImmutable::WriteFlags { path, flags } => match reply {
                        Reply::Done => Progress::Ask(SetSourceImmutable::OpenForRead { path }),
                        _ => Progress::Ask(SetSourceImmutable::WriteFlags { path, flags }),
                    },
                    SetSourceImmutable::OpenForRead { path } => match reply {
                        Reply::Done => Progress::Ask(SetSourceImmutable::ReadBack { path }),
                        _ => Progress::Ask(SetSourceImmutable::OpenForRead { path }),
                    },
                    SetSourceImmutable::ReadBack { path } => match reply {
                        Reply::Flags(g) => Progress::Finish(Ok(is_read_only(g))),
                        _ => Progress::Ask(SetSourceImmutable::ReadBack { path }),
                    },
                    SetSourceImmutable::Check { path, immutable, check } => Progress::Ask(
                        SetSourceImmutable::Check { path, immutable, check },
                    ),
                },
            },
        }
    }
}

/// Setting the read-only flag of the snapshot source `path` to `immutable`;
/// the result is the flag as read back, or `false` when `path` is not a
/// subvolume.
pub fn set_snapshot_source_immutable(path: Vec<u8>, immutable: bool) -> (r: Progress<
    SetSourceImmutable,
    bool,
>)
    ensures
        r@ == set_snapshot_source_immutable_start(path@, immutable),
{
    let check = SubvolumeCheck::start(copy_bytes(&path));
    SetSourceImmutable::after_check(path, immutable, check)
}

// ---------------------------------------------------------------------------
// Laws.

pub open spec fn is_probe_source(root: Seq<u8>, p: Seq<u8>) -> bool {
    exists|pid: u32, id: u64| #[trigger] probe_source(root, pid, id) == p
}

pub open spec fn is_probe_clone(root: Seq<u8>, p: Seq<u8>) -> bool {
    exists|pid: u32, id: u64| #[trigger] probe_clone(root, pid, id) == p
}

pub open spec fn is_probe_pair(root: Seq<u8>, source: Seq<u8>, clone: Seq<u8>) -> bool {
    exists|pid: u32, id: u64|
        #[trigger] probe_source(root, pid, id) == source && probe_clone(root, pid, id) == clone
}

/// A request that leaves the filesystem as it is, or that writes, reflinks or
/// removes one of the probe files of `root`.
pub open spec fn probe_file_request(root: Seq<u8>, req: RequestView) -> bool {
    match req {
        RequestView::CreateFile { path, .. } => is_probe_source(root, path),
        RequestView::ReflinkFile { from, to } => is_probe_pair(root, from, to),
        RequestView::RemoveFile(p) => is_probe_source(root, p) || is_probe_clone(root, p),
        _ => !changes_filesystem(req),
    }
}

/// Two probe files that lie outside `keep`.
pub open spec fn probe_pair_outside(source: Seq<u8>, clone: Seq<u8>, keep: Seq<u8>) -> bool {
    !path_starts_with(source, keep) && !path_starts_with(clone, keep)
}

/// A probe-file check for `root` that works on the probe files of `root`,
/// none of them at or below `keep`.
pub open spec fn probe_file_check_ok(root: Seq<u8>, keep: Seq<u8>, c: ProbeFileCheckView) -> bool {
    match c {
        ProbeFileCheckView::Identity { root: r, keep: k } => r == root && k == keep,
        ProbeFileCheckView::Create { source, clone } => is_probe_pair(root, source, clone)
            && probe_pair_outside(source, clone, keep),
        ProbeFileCheckView::Reflink { source, clone } => is_probe_pair(root, source, clone)
            && probe_pair_outside(source, clone, keep),
        ProbeFileCheckView::CheckClone { source, clone, .. } => is_probe_pair(root, source, clone)
            && probe_pair_outside(source, clone, keep),
        ProbeFileCheckView::RemoveClone { source, clone, .. } => is_probe_pair(root, source, clone)
            && probe_pair_outside(source, clone, keep),
        ProbeFileCheckView::CheckSource { source, .. } => is_probe_source(root, source)
            && !path_starts_with(source, keep),
        ProbeFileCheckView::RemoveSource { source, .. } => is_probe_source(root, source)
            && !path_starts_with(source, keep),
    }
}

/// Checking reflinks in a root changes nothing but the root's two probe
/// files, and nothing at or below `keep`.
pub proof fn probe_file_check_touches_only_probe_files(
    root: Seq<u8>,
    keep: Seq<u8>,
    c: ProbeFileCheckView,
    reply: ReplyView,
)
    requires
        probe_file_check_ok(root, keep, c),
    ensures
        probe_file_request(root, c.pending()),
        leaves_untouched(c.pending(), keep),
        c.resume(reply) matches ProgressView::Ask(d) ==> probe_file_check_ok(root, keep, d),
{
    match c {
        ProbeFileCheckView::Identity { .. } => {
            if let ReplyView::Identity { pid, id } = reply {
                assert(probe_source(root, pid, id) == probe_source(root, pid, id));
            }
        },
        ProbeFileCheckView::Create { source, clone } => {
            let (pid, id) = choose|pid: u32, id: u64|
                #[trigger] probe_source(root, pid, id) == source && probe_clone(root, pid, id) == clone;
            assert(probe_source(root, pid, id) == source);
        },
        ProbeFileCheckView::RemoveClone { source, clone, .. } => {
            let (pid, id) = choose|pid: u32, id: u64|
                #[trigger] probe_source(root, pid, id) == source && probe_clone(root, pid, id) == clone;
            assert(probe_source(root, pid, id) == source);
            assert(probe_clone(root, pid, id) == clone);
        },
        ProbeFileCheckView::CheckClone { source, clone, .. } => {
            let (pid, id) = choose|pid: u32, id: u64|
                #[trigger] probe_source(root, pid, id) == source && probe_clone(root, pid, id) == clone;
            assert(probe_source(root, pid, id) == source);
        },
        _ => {},
    }
}

/// The destination root that a Linux probe works in.
pub open spec fn linux_probe_root(s: LinuxProbeView) -> Seq<u8> {
    match s {
        LinuxProbeView::SourceType { root, .. } => root,
        LinuxProbeView::RootType { root, .. } => root,
        LinuxProbeView::SourceId { root, .. } => root,
        LinuxProbeView::RootId { root, .. } => root,
        LinuxProbeView::SourceDev { root, .. } => root,
        LinuxProbeView::RootDev { root, .. } => root,
        LinuxProbeView::Subvolume { root, .. } => root,
        LinuxProbeView::Verify { root, .. } => root,
    }
}

/// The source that a Linux probe looks at.
pub open spec fn linux_probe_source(s: LinuxProbeView) -> Seq<u8> {
    match s {
        LinuxProbeView::SourceType { source, .. } => source,
        LinuxProbeView::RootType { source, .. } => source,
        LinuxProbeView::SourceId { source, .. } => source,
        LinuxProbeView::RootId { source, .. } => source,
        LinuxProbeView::SourceDev { source, .. } => source,
        LinuxProbeView::RootDev { source, .. } => source,
        LinuxProbeView::Subvolume { source, .. } => source,
        LinuxProbeView::Verify { source, .. } => source,
    }
}

pub open spec fn linux_probe_ok(s: LinuxProbeView) -> bool {
    match s {
        LinuxProbeView::Verify { source, root, check } => probe_file_check_ok(root, source, check),
        _ => true,
    }
}

/// A Linux probe begins with the source and destination root it was given.
pub proof fn linux_probe_begins_ok(source: Seq<u8>, root: Seq<u8>)
    ensures
        linux_probe_start(source, root) matches ProgressView::Ask(s) ==> linux_probe_ok(s)
            && linux_probe_root(s) == root && linux_probe_source(s) == source,
{
}

/// A Linux probe changes nothing but the probe files of its destination root,
/// never anything at or below its source, and keeps working with that source
/// and root.
pub proof fn linux_probe_touches_only_probe_files(s: LinuxProbeView, reply: ReplyView)
    requires
        linux_probe_ok(s),
    ensures
        probe_file_request(linux_probe_root(s), s.pending()),
        leaves_untouched(s.pending(), linux_probe_source(s)),
        s.resume(reply) matches ProgressView::Ask(t) ==> linux_probe_ok(t) && linux_probe_root(t)
            == linux_probe_root(s) && linux_probe_source(t) == linux_probe_source(s),
{
    if let LinuxProbeView::Verify { source, root, check } = s {
        probe_file_check_touches_only_probe_files(root, source, check, reply);
    }
}

/// The capability a Linux probe reports claims constant-time metadata exactly
/// for a Btrfs snapshot.
pub proof fn linux_probe_capability_is_honest(s: LinuxProbeView, reply: ReplyView)
    ensures
        s.resume(reply) matches ProgressView::Finish(Ok(c)) ==> c.constant_time_metadata == (
        c.backend == Backend::BtrfsSnapshot),
{
}

/// The read-only flag that a snapshot source is left with is the one asked
/// for, when the filesystem keeps the flags it is given.
pub proof fn source_flag_is_read_back(path: Seq<u8>, immutable: bool, flags: u64)
    ensures
        ({
            let written = spec_with_read_only(flags, immutable);
            &&& (SetSourceImmutableView::ReadFlags { path, immutable }).resume(
                ReplyView::Flags(flags),
            ) == ProgressView::<SetSourceImmutableView, bool>::Ask(
                SetSourceImmutableView::WriteFlags { path, flags: written },
            )
            &&& (SetSourceImmutableView::ReadBack { path }).resume(ReplyView::Flags(written))
                == ProgressView::<SetSourceImmutableView, bool>::Finish(Ok(immutable))
        }),
{
    crate::btrfs::read_only_flag_round_trip(flags, immutable);
}

/// A removal of `target` that works on `target` alone.
pub open spec fn linux_remove_ok(r: LinuxRemoveView, target: Seq<u8>) -> bool {
    match r {
        LinuxRemoveView::Check { path, .. } => path == target,
        LinuxRemoveView::Btrfs { removal } => btrfs_remove_ok(removal, target),
        LinuxRemoveView::RemoveAll { path } => path == target,
    }
}

/// Removing a snapshot on Linux begins aimed at it.
pub proof fn linux_remove_begins_ok(path: Seq<u8>)
    ensures
        linux_remove_start(path) matches ProgressView::Ask(r) ==> linux_remove_ok(r, path),
{
}

/// Removing a snapshot on Linux changes nothing but the snapshot and what
/// lies below it.
pub proof fn linux_remove_changes_only_target(r: LinuxRemoveView, target: Seq<u8>, reply: ReplyView)
    requires
        linux_remove_ok(r, target),
    ensures
        changes_only_below(r.pending(), target),
        r.resume(reply) matches ProgressView::Ask(t) ==> linux_remove_ok(t, target),
{
    starts_with_itself(target);
    match r {
        LinuxRemoveView::Check { path, check } => {
            btrfs_remove_begins_ok(path);
        },
        LinuxRemoveView::Btrfs { removal } => {
            btrfs_remove_changes_only_target(removal, target, reply);
        },
        _ => {},
    }
}

/// What comes apart at the first `-`: two runs without `-` followed by `-`
/// and a rest are equal only when the runs and the rests are.
proof fn lemma_split_at_dash(x1: Seq<u8>, y1: Seq<u8>, x2: Seq<u8>, y2: Seq<u8>)
    requires
        forall|i: int| 0 <= i < x1.len() ==> x1[i] != 45u8,
        forall|i: int| 0 <= i < x2.len() ==> x2[i] != 45u8,
        x1 + seq![45u8] + y1 == x2 + seq![45u8] + y2,
    ensures
        x1 == x2,
        y1 == y2,
{
    let l = x1 + seq![45u8] + y1;
    let r = x2 + seq![45u8] + y2;
    if x1.len() < x2.len() {
        assert(l[x1.len() as int] == 45u8);
        assert(r[x1.len() as int] == x2[x1.len() as int]);
    } else if x2.len() < x1.len() {
        assert(r[x2.len() as int] == 45u8);
        assert(l[x2.len() as int] == x1[x2.len() as int]);
    }
    assert(x1 =~= l.subrange(0, x1.len() as int));
    assert(x2 =~= r.subrange(0, x2.len() as int));
    assert(y1 =~= l.subrange(x1.len() as int + 1, l.len() as int));
    assert(y2 =~= r.subrange(x2.len() as int + 1, r.len() as int));
}

proof fn lemma_decimal_has_no_dash(n: nat)
    ensures
        forall|i: int| 0 <= i < decimal(n).len() ==> decimal(n)[i] != 45u8,
{
    decimal_is_digits(n);
}

/// The part of a probe file's name after the common prefix.
proof fn lemma_stem_tail(pid: u32, id: u64, t: Seq<u8>)
    ensures
        (probe_stem(pid, id) + t).subrange(probe_prefix().len() as int, (probe_stem(pid, id) + t).len() as int)
            =~= decimal(pid as nat) + seq![45u8] + (decimal(id as nat) + t),
        !has_root(probe_stem(pid, id) + t),
{
    assert((probe_stem(pid, id) + t)[0] == 46u8);
}

/// Joining two names that are not absolute to one directory gives one path
/// only for one name.
proof fn lemma_join_one_dir(dir: Seq<u8>, n1: Seq<u8>, n2: Seq<u8>)
    requires
        !has_root(n1),
        !has_root(n2),
        join(dir, n1) == join(dir, n2),
    ensures
        n1 == n2,
{
    let pre = if dir.len() > 0 && dir.last() != SEP {
        dir.push(SEP)
    } else {
        dir
    };
    assert(join(dir, n1) == pre + n1);
    assert(join(dir, n2) == pre + n2);
    assert(n1 =~= (pre + n1).subrange(pre.len() as int, (pre + n1).len() as int));
    assert(n2 =~= (pre + n2).subrange(pre.len() as int, (pre + n2).len() as int));
}

/// Probe files of distinct calls are distinct: a probe file's name tells the
/// process id and the number it was made with, and a clone is never the
/// probe file of any call. Concurrent probes with distinct numbers never
/// share a file.
pub proof fn probe_files_are_unique(root: Seq<u8>, pid1: u32, id1: u64, pid2: u32, id2: u64)
    ensures
        probe_source(root, pid1, id1) == probe_source(root, pid2, id2) ==> pid1 == pid2 && id1
            == id2,
        probe_clone(root, pid1, id1) == probe_clone(root, pid2, id2) ==> pid1 == pid2 && id1 == id2,
        probe_clone(root, pid1, id1) != probe_source(root, pid2, id2),
{
    let e = Seq::<u8>::empty();
    let c = clone_suffix();
    lemma_decimal_has_no_dash(pid1 as nat);
    lemma_decimal_has_no_dash(pid2 as nat);
    lemma_decimal_has_no_dash(id1 as nat);
    lemma_decimal_has_no_dash(id2 as nat);
    lemma_stem_tail(pid1, id1, e);
    lemma_stem_tail(pid2, id2, e);
    lemma_stem_tail(pid1, id1, c);
    lemma_stem_tail(pid2, id2, c);
    assert(probe_stem(pid1, id1) + e =~= probe_stem(pid1, id1));
    assert(probe_stem(pid2, id2) + e =~= probe_stem(pid2, id2));
    assert(decimal(id1 as nat) + e =~= decimal(id1 as nat));
    assert(decimal(id2 as nat) + e =~= decimal(id2 as nat));
    if probe_source(root, pid1, id1) == probe_source(root, pid2, id2) {
        lemma_join_one_dir(root, probe_stem(pid1, id1), probe_stem(pid2, id2));
        lemma_split_at_dash(
            decimal(pid1 as nat),
            decimal(id1 as nat),
            decimal(pid2 as nat),
            decimal(id2 as nat),
        );
        decimal_is_injective(pid1 as nat, pid2 as nat);
        decimal_is_injective(id1 as nat, id2 as nat);
    }
    if probe_clone(root, pid1, id1) == probe_clone(root, pid2, id2) {
        lemma_join_one_dir(root, probe_stem(pid1, id1) + c, probe_stem(pid2, id2) + c);
        lemma_split_at_dash(
            decimal(pid1 as nat),
            decimal(id1 as nat) + c,
            decimal(pid2 as nat),
            decimal(id2 as nat) + c,
        );
        let a = decimal(id1 as nat) + c;
        let b = decimal(id2 as nat) + c;
        assert(decimal(id1 as nat) =~= a.subrange(0, a.len() - 6));
        assert(decimal(id2 as nat) =~= b.subrange(0, b.len() - 6));
        decimal_is_injective(pid1 as nat, pid2 as nat);
        decimal_is_injective(id1 as nat, id2 as nat);
    }
    if probe_clone(root, pid1, id1) == probe_source(root, pid2, id2) {
        lemma_join_one_dir(root, probe_stem(pid1, id1) + c, probe_stem(pid2, id2) + e);
        lemma_split_at_dash(
            decimal(pid1 as nat),
            decimal(id1 as nat) + c,
            decimal(pid2 as nat),
            decimal(id2 as nat) + e,
        );
        let a = decimal(id1 as nat) + c;
        assert(a[decimal(id1 as nat).len() as int] == 45u8);
        assert(decimal(id2 as nat)[decimal(id1 as nat).len() as int] != 45u8);
    }
}

/// The state a Linux probe reaches after the given replies, or how it
/// finished.
pub open spec fn linux_probe_run(s: LinuxProbeView, replies: Seq<ReplyView>) -> ProgressView<
    LinuxProbeView,
    Capability,
>
    decreases replies.len(),
{
    if replies.len() == 0 {
        ProgressView::Ask(s)
    } else {
        match s.resume(replies[0]) {
            ProgressView::Ask(t) => linux_probe_run(t, replies.drop_first()),
            ProgressView::Finish(r) => ProgressView::Finish(r),
        }
    }
}

/// A Linux probe of a source that the system reports as a Btrfs subvolume
/// root, against a root on the same Btrfs filesystem, reports a Btrfs
/// snapshot.
pub proof fn linux_probe_reports_a_subvolume(
    path: Seq<u8>,
    dir: Seq<u8>,
    fsid: u128,
    meta: crate::io::FileMeta,
)
    requires
        !path.contains(0u8),
        !dir.contains(0u8),
        meta.ino == crate::btrfs::SUBVOLUME_ROOT_INODE,
    ensures
        linux_probe_start(path, dir) matches ProgressView::Ask(s) && linux_probe_run(
            s,
            seq![
                ReplyView::FsType(crate::btrfs::BTRFS_SUPER_MAGIC),
                ReplyView::FsType(crate::btrfs::BTRFS_SUPER_MAGIC),
                ReplyView::FsId(fsid),
                ReplyView::FsId(fsid),
                ReplyView::FsType(crate::btrfs::BTRFS_SUPER_MAGIC),
                ReplyView::Meta(meta),
            ],
        ) == ProgressView::<LinuxProbeView, Capability>::Finish(Ok(btrfs_capability())),
{
    let t = ReplyView::FsType(crate::btrfs::BTRFS_SUPER_MAGIC);
    let replies = seq![t, t, ReplyView::FsId(fsid), ReplyView::FsId(fsid), t, ReplyView::Meta(meta)];
    let s0 = LinuxProbeView::SourceType { source: path, root: dir, check: FilesystemCheckView { path } };
    let s1 = LinuxProbeView::RootType {
        source: path,
        root: dir,
        source_btrfs: true,
        check: FilesystemCheckView { path: dir },
    };
    let s2 = LinuxProbeView::SourceId { source: path, root: dir };
    let s3 = LinuxProbeView::RootId { source: path, root: dir, source_id: fsid };
    let s4 = LinuxProbeView::Subvolume {
        source: path,
        root: dir,
        check: SubvolumeCheckView::AwaitType { path },
    };
    let s5 = LinuxProbeView::Subvolume {
        source: path,
        root: dir,
        check: SubvolumeCheckView::AwaitInode { path },
    };
    assert(linux_probe_start(path, dir) == ProgressView::<LinuxProbeView, Capability>::Ask(s0));
    assert(s0.resume(t) == ProgressView::<LinuxProbeView, Capability>::Ask(s1));
    assert(s1.resume(t) == ProgressView::<LinuxProbeView, Capability>::Ask(s2));
    assert(s2.resume(ReplyView::FsId(fsid)) == ProgressView::<LinuxProbeView, Capability>::Ask(s3));
    assert(s3.resume(ReplyView::FsId(fsid)) == ProgressView::<LinuxProbeView, Capability>::Ask(s4));
    assert(s4.resume(t) == ProgressView::<LinuxProbeView, Capability>::Ask(s5));
    assert(s5.resume(ReplyView::Meta(meta)) == ProgressView::<LinuxProbeView, Capability>::Finish(
        Ok(btrfs_capability()),
    ));
    let r5 = replies.drop_first().drop_first().drop_first().drop_first().drop_first();
    assert(r5 =~= seq![ReplyView::Meta(meta)]);
    assert(linux_probe_run(s5, r5) == ProgressView::<LinuxProbeView, Capability>::Finish(
        Ok(btrfs_capability()),
    ));
    let r4 = replies.drop_first().drop_first().drop_first().drop_first();
    assert(r4 =~= seq![t, ReplyView::Meta(meta)]);
    assert(r4.drop_first() =~= r5);
    let r3 = replies.drop_first().drop_first().drop_first();
    assert(r3 =~= seq![ReplyView::FsId(fsid), t, ReplyView::Meta(meta)]);
    assert(r3.drop_first() =~= r4);
    let r2 = replies.drop_first().drop_first();
    assert(r2.drop_first() =~= r3);
    assert(r2[0] == ReplyView::FsId(fsid));
    let r1 = replies.drop_first();
    assert(r1.drop_first() =~= r2);
    assert(r1[0] == t);
    assert(replies.drop_first() =~= r1);
    assert(replies[0] == t);
    let done = ProgressView::<LinuxProbeView, Capability>::Finish(Ok(btrfs_capability()));
    assert(r4[0] == t);
    assert(linux_probe_run(s4, r4) == done);
    assert(r3[0] == ReplyView::FsId(fsid));
    assert(linux_probe_run(s3, r3) == done);
    assert(linux_probe_run(s2, r2) == done);
    assert(linux_probe_run(s1, r1) == done);
    assert(linux_probe_run(s0, replies) == done);
}

/// A snapshot source prepared on Btrfs is ready for constant-time
/// snapshots: preparing it in a directory on Btrfs asks to create a
/// subvolume at exactly that path, and probing it against that directory
/// reports a Btrfs snapshot once the system answers, as it does for a new
/// subvolume, that both lie on Btrfs with one filesystem id and that the
/// source is a subvolume root.
pub proof fn prepared_btrfs_source_is_snapshot_ready(
    path: Seq<u8>,
    dir: Seq<u8>,
    fsid: u128,
    meta: crate::io::FileMeta,
)
    requires
        parent(path) == Some(dir),
        !path.contains(0u8),
        !dir.contains(0u8),
        meta.ino == crate::btrfs::SUBVOLUME_ROOT_INODE,
    ensures
        linux_prepare_start(path) matches ProgressView::Ask(s) && s.resume(
            ReplyView::FsType(crate::btrfs::BTRFS_SUPER_MAGIC),
        ) matches ProgressView::Ask(t) ==> t.pending() matches RequestView::Subvolume {
            op: SubvolumeOp::CreateSubvolume,
            path: p,
            ..
        } && p == path,
        linux_probe_start(path, dir) matches ProgressView::Ask(s) && linux_probe_run(
            s,
            seq![
                ReplyView::FsType(crate::btrfs::BTRFS_SUPER_MAGIC),
                ReplyView::FsType(crate::btrfs::BTRFS_SUPER_MAGIC),
                ReplyView::FsId(fsid),
                ReplyView::FsId(fsid),
                ReplyView::FsType(crate::btrfs::BTRFS_SUPER_MAGIC),
                ReplyView::Meta(meta),
            ],
        ) == ProgressView::<LinuxProbeView, Capability>::Finish(Ok(btrfs_capability())),
{
    linux_probe_reports_a_subvolume(path, dir, fsid, meta);
}

/// The state a change of the source's read-only flag reaches after the
/// given replies, or how it finished.
pub open spec fn set_immutable_run(s: SetSourceImmutableView, replies: Seq<ReplyView>) -> ProgressView<
    SetSourceImmutableView,
    bool,
>
    decreases replies.len(),
{
    if replies.len() == 0 {
        ProgressView::Ask(s)
    } else {
        match s.resume(replies[0]) {
            ProgressView::Ask(t) => set_immutable_run(t, replies.drop_first()),
            ProgressView::Finish(r) => ProgressView::Finish(r),
        }
    }
}

/// Setting a subvolume source immutable or not changes nothing but the
/// subvolume's flags.
pub proof fn setting_immutability_changes_only_flags(s: SetSourceImmutableView)
    ensures
        changes_filesystem(s.pending()) ==> s is WriteFlags,
{
}

/// A whole run of `set_snapshot_source_immutable` on a Btrfs subvolume root
/// whose flags read `flags`: it writes back those flags with the read-only
/// bit set as asked and every other bit kept, and, when the filesystem
/// keeps what it is given, reports the asked state. A second call with the
/// same request reads those flags and writes them back unchanged, and
/// reports the same.
pub proof fn source_immutability_round_trip(
    path: Seq<u8>,
    immutable: bool,
    flags: u64,
    meta: crate::io::FileMeta,
)
    requires
        !path.contains(0u8),
        meta.ino == crate::btrfs::SUBVOLUME_ROOT_INODE,
    ensures
        ({
            let written = spec_with_read_only(flags, immutable);
            let btrfs = ReplyView::FsType(crate::btrfs::BTRFS_SUPER_MAGIC);
            &&& set_snapshot_source_immutable_start(path, immutable) matches ProgressView::Ask(s)
                && set_immutable_run(
                s,
                seq![btrfs, ReplyView::Meta(meta), ReplyView::Done, ReplyView::Flags(flags)],
            ) matches ProgressView::Ask(t) && t.pending() == RequestView::SetSubvolumeFlags(written)
                && set_immutable_run(
                s,
                seq![
                    btrfs,
                    ReplyView::Meta(meta),
                    ReplyView::Done,
                    ReplyView::Flags(flags),
                    ReplyView::Done,
                    ReplyView::Done,
                    ReplyView::Flags(written),
                ],
            ) == ProgressView::<SetSourceImmutableView, bool>::Finish(Ok(immutable))
            &&& written & !crate::btrfs::SUBVOL_RDONLY == flags & !crate::btrfs::SUBVOL_RDONLY
            &&& spec_is_read_only(written) == immutable
            &&& spec_with_read_only(written, immutable) == written
        }),
{
    crate::btrfs::read_only_flag_round_trip(flags, immutable);
    let written = spec_with_read_only(flags, immutable);
    if immutable {
        assert((flags | 2u64) | 2u64 == flags | 2u64) by (bit_vector);
    } else {
        assert((flags & !2u64) & !2u64 == flags & !2u64) by (bit_vector);
    }
    let btrfs = ReplyView::FsType(crate::btrfs::BTRFS_SUPER_MAGIC);
    let s0 = SetSourceImmutableView::Check {
        path,
        immutable,
        check: SubvolumeCheckView::AwaitType { path },
    };
    let s1 = SetSourceImmutableView::Check {
        path,
        immutable,
        check: SubvolumeCheckView::AwaitInode { path },
    };
    let s2 = SetSourceImmutableView::OpenForWrite { path, immutable };
    let s3 = SetSourceImmutableView::ReadFlags { path, immutable };
    let s4 = SetSourceImmutableView::WriteFlags { path, flags: written };
    let s5 = SetSourceImmutableView::OpenForRead { path };
    let s6 = SetSourceImmutableView::ReadBack { path };
    lemma_immutability_steps(path, immutable, flags, meta);
    let a = seq![btrfs, ReplyView::Meta(meta), ReplyView::Done, ReplyView::Flags(flags)];
    assert(a.drop_first().drop_first().drop_first().drop_first() =~= Seq::<ReplyView>::empty());
    assert(a.drop_first().drop_first().drop_first() =~= seq![ReplyView::Flags(flags)]);
    assert(set_immutable_run(s4, Seq::empty()) == ProgressView::<SetSourceImmutableView, bool>::Ask(s4));
    assert(set_immutable_run(s3, seq![ReplyView::Flags(flags)]) == ProgressView::<
        SetSourceImmutableView,
        bool,
    >::Ask(s4));
    assert(a.drop_first().drop_first() =~= seq![ReplyView::Done, ReplyView::Flags(flags)]);
    assert(set_immutable_run(s2, a.drop_first().drop_first()) == set_immutable_run(s3, seq![ReplyView::Flags(flags)]));
    assert(set_immutable_run(s1, a.drop_first()) == set_immutable_run(s2, a.drop_first().drop_first()));
    assert(set_immutable_run(s0, a) == set_immutable_run(s1, a.drop_first()));
    let b = seq![
        btrfs,
        ReplyView::Meta(meta),
        ReplyView::Done,
        ReplyView::Flags(flags),
        ReplyView::Done,
        ReplyView::Done,
        ReplyView::Flags(written),
    ];
    let fin = ProgressView::<SetSourceImmutableView, bool>::Finish(Ok(immutable));
    let b6 = b.drop_first().drop_first().drop_first().drop_first().drop_first().drop_first();
    assert(b6 =~= seq![ReplyView::Flags(written)]);
    assert(set_immutable_run(s6, b6) == fin);
    let b5 = b.drop_first().drop_first().drop_first().drop_first().drop_first();
    assert(b5 =~= seq![ReplyView::Done, ReplyView::Flags(written)]);
    assert(b5.drop_first() =~= b6);
    assert(set_immutable_run(s5, b5) == fin);
    let b4 = b.drop_first().drop_first().drop_first().drop_first();
    assert(b4.drop_first() =~= b5);
    assert(b4[0] == ReplyView::Done);
    assert(set_immutable_run(s4, b4) == fin);
    let b3 = b.drop_first().drop_first().drop_first();
    assert(b3.drop_first() =~= b4);
    assert(b3[0] == ReplyView::Flags(flags));
    assert(set_immutable_run(s3, b3) == fin);
    let b2 = b.drop_first().drop_first();
    assert(b2.drop_first() =~= b3);
    assert(b2[0] == ReplyView::Done);
    assert(set_immutable_run(s2, b2) == fin);
    let b1 = b.drop_first();
    assert(b1.drop_first() =~= b2);
    assert(b1[0] == ReplyView::Meta(meta));
    assert(set_immutable_run(s1, b1) == fin);
    assert(b[0] == btrfs);
    assert(set_immutable_run(s0, b) == fin);
}

/// The steps of a change of the read-only flag on a subvolume root.
proof fn lemma_immutability_steps(path: Seq<u8>, immutable: bool, flags: u64, meta: crate::io::FileMeta)
    requires
        !path.contains(0u8),
        meta.ino == crate::btrfs::SUBVOLUME_ROOT_INODE,
    ensures
        set_snapshot_source_immutable_start(path, immutable) == ProgressView::<
            SetSourceImmutableView,
            bool,
        >::Ask(SetSourceImmutableView::Check { path, immutable, check: SubvolumeCheckView::AwaitType { path } }),
        (SetSourceImmutableView::Check { path, immutable, check: SubvolumeCheckView::AwaitType { path } }).resume(
            ReplyView::FsType(crate::btrfs::BTRFS_SUPER_MAGIC),
        ) == ProgressView::<SetSourceImmutableView, bool>::Ask(
            SetSourceImmutableView::Check { path, immutable, check: SubvolumeCheckView::AwaitInode { path } },
        ),
        (SetSourceImmutableView::Check { path, immutable, check: SubvolumeCheckView::AwaitInode { path } }).resume(
            ReplyView::Meta(meta),
        ) == ProgressView::<SetSourceImmutableView, bool>::Ask(
            SetSourceImmutableView::OpenForWrite { path, immutable },
        ),
        (SetSourceImmutableView::OpenForWrite { path, immutable }).resume(ReplyView::Done)
            == ProgressView::<SetSourceImmutableView, bool>::Ask(
            SetSourceImmutableView::ReadFlags { path, immutable },
        ),
        (SetSourceImmutableView::ReadFlags { path, immutable }).resume(ReplyView::Flags(flags))
            == ProgressView::<SetSourceImmutableView, bool>::Ask(
            SetSourceImmutableView::WriteFlags { path, flags: spec_with_read_only(flags, immutable) },
        ),
{
}

/// Source and destination root must lie on one filesystem. Where both lie
/// on Btrfs they must report one filesystem id; where neither does, they
/// must lie on one device; where only one does, they cannot be one. Every
/// mismatch fails the probe, reporting the destination root as lying on
/// another filesystem; a match goes on to ask whether the source is a
/// subvolume.
pub proof fn linux_probe_requires_one_filesystem(
    source: Seq<u8>,
    root: Seq<u8>,
    source_btrfs: bool,
    root_type: i64,
    source_id: u128,
    root_id: u128,
    source_dev: u64,
    m: crate::io::FileMeta,
)
    requires
        !source.contains(0u8),
    ensures
        ({
            let different = ProgressView::<LinuxProbeView, Capability>::Finish(
                Err(ErrorView::Unavailable(UnavailabilityView::DifferentFilesystem(root))),
            );
            let next = ProgressView::<LinuxProbeView, Capability>::Ask(
                LinuxProbeView::Subvolume {
                    source,
                    root,
                    check: SubvolumeCheckView::AwaitType { path: source },
                },
            );
            let root_btrfs = root_type == crate::btrfs::BTRFS_SUPER_MAGIC;
            let typed = (LinuxProbeView::RootType {
                source,
                root,
                source_btrfs,
                check: FilesystemCheckView { path: root },
            }).resume(ReplyView::FsType(root_type));
            &&& source_btrfs != root_btrfs ==> typed == different
            &&& source_btrfs && root_btrfs ==> typed == ProgressView::<LinuxProbeView, Capability>::Ask(
                LinuxProbeView::SourceId { source, root },
            )
            &&& !source_btrfs && !root_btrfs ==> typed == ProgressView::<LinuxProbeView, Capability>::Ask(
                LinuxProbeView::SourceDev { source, root },
            )
            &&& (LinuxProbeView::SourceId { source, root }).resume(ReplyView::FsId(source_id))
                == ProgressView::<LinuxProbeView, Capability>::Ask(
                LinuxProbeView::RootId { source, root, source_id },
            )
            &&& root_id != source_id ==> (LinuxProbeView::RootId { source, root, source_id }).resume(
                ReplyView::FsId(root_id),
            ) == different
            &&& root_id == source_id ==> (LinuxProbeView::RootId { source, root, source_id }).resume(
                ReplyView::FsId(root_id),
            ) == next
            &&& m.dev != source_dev ==> (LinuxProbeView::RootDev { source, root, source_dev }).resume(
                ReplyView::Meta(m),
            ) == different
            &&& m.dev == source_dev ==> (LinuxProbeView::RootDev { source, root, source_dev }).resume(
                ReplyView::Meta(m),
            ) == next
        }),
{
}

/// On Linux, a snapshot source whose parent does not lie on Btrfs is
/// prepared as a plain new directory at the path, and the preparation
/// succeeds exactly when creating it does.
pub proof fn linux_prepare_off_btrfs_creates_a_directory(
    path: Seq<u8>,
    parent_dir: Seq<u8>,
    fs_type: i64,
    f: IoFailure,
)
    requires
        fs_type != crate::btrfs::BTRFS_SUPER_MAGIC,
    ensures
        (LinuxPrepareView::ParentType { path, check: FilesystemCheckView { path: parent_dir } }).resume(
            ReplyView::FsType(fs_type),
        ) matches ProgressView::Ask(c) && c.pending() == RequestView::CreateDir(path) && c.resume(
            ReplyView::Done,
        ) == ProgressView::<LinuxPrepareView, ()>::Finish(Ok(())) && c.resume(ReplyView::Failed(f))
            == ProgressView::<LinuxPrepareView, ()>::Finish(Err(ErrorView::Io(f))),
{
}

/// The backend follows the source: a subvolume source gets a Btrfs
/// snapshot; any other source needs reflinks to work in the destination
/// root, checked with a new probe file, and then gets a reflink tree; a root
/// at or below such a source is refused.
pub proof fn linux_probe_chooses_by_source(
    source: Seq<u8>,
    root: Seq<u8>,
    m: crate::io::FileMeta,
    check: ProbeFileCheckView,
)
    ensures
        ({
            let asked = (LinuxProbeView::Subvolume {
                source,
                root,
                check: SubvolumeCheckView::AwaitInode { path: source },
            }).resume(ReplyView::Meta(m));
            &&& m.ino == crate::btrfs::SUBVOLUME_ROOT_INODE ==> asked == ProgressView::<
                LinuxProbeView,
                Capability,
            >::Finish(
                Ok(Capability { backend: Backend::BtrfsSnapshot, constant_time_metadata: true }),
            )
            &&& m.ino != crate::btrfs::SUBVOLUME_ROOT_INODE && path_starts_with(root, source)
                ==> asked == ProgressView::<LinuxProbeView, Capability>::Finish(
                Err(ErrorView::DestinationInsideSource(root)),
            )
            &&& m.ino != crate::btrfs::SUBVOLUME_ROOT_INODE && !path_starts_with(root, source) ==> (
            asked matches ProgressView::Ask(v) && v.pending() == RequestView::ProbeIdentity)
            &&& check.resume(ReplyView::Done) == ProgressView::<ProbeFileCheckView, ()>::Finish(
                Ok(()),
            ) ==> (LinuxProbeView::Verify { source, root, check }).resume(ReplyView::Done)
                == ProgressView::<LinuxProbeView, Capability>::Finish(
                Ok(Capability { backend: Backend::LinuxReflinkTree, constant_time_metadata: false }),
            )
        }),
{
}

/// A snapshot is removed by its kind: a subvolume is destroyed as a
/// subvolume at exactly its path; anything else, on Btrfs or not, is removed
/// with all it holds, and the removal succeeds exactly when that does.
pub proof fn linux_remove_by_kind(path: Seq<u8>, fs_type: i64, m: crate::io::FileMeta, f: IoFailure)
    ensures
        ({
            let all = LinuxRemoveView::RemoveAll { path };
            &&& all.pending() == RequestView::RemoveDirAll(path)
            &&& all.resume(ReplyView::Done) == ProgressView::<LinuxRemoveView, ()>::Finish(Ok(()))
            &&& all.resume(ReplyView::Failed(f)) == ProgressView::<LinuxRemoveView, ()>::Finish(
                Err(ErrorView::Io(f)),
            )
            &&& fs_type != crate::btrfs::BTRFS_SUPER_MAGIC ==> (LinuxRemoveView::Check {
                path,
                check: SubvolumeCheckView::AwaitType { path },
            }).resume(ReplyView::FsType(fs_type)) == ProgressView::<LinuxRemoveView, ()>::Ask(all)
            &&& m.ino != crate::btrfs::SUBVOLUME_ROOT_INODE ==> (LinuxRemoveView::Check {
                path,
                check: SubvolumeCheckView::AwaitInode { path },
            }).resume(ReplyView::Meta(m)) == ProgressView::<LinuxRemoveView, ()>::Ask(all)
            &&& m.ino == crate::btrfs::SUBVOLUME_ROOT_INODE && subvolume_call_start(
                path,
                SubvolumeOp::DestroySnapshot,
            ) is Ask ==> ((LinuxRemoveView::Check {
                path,
                check: SubvolumeCheckView::AwaitInode { path },
            }).resume(ReplyView::Meta(m)) matches ProgressView::Ask(r) && r.pending() matches RequestView::Subvolume {
                op: SubvolumeOp::DestroySnapshot,
                path: p,
                ..
            } && p == path)
        }),
{
}

/// A probe file check succeeds only when the probe file was written and
/// reflinked; a failure of either is its outcome, kept through the cleanup;
/// when nothing is left to clean up the outcome is the result, and a failed
/// cleanup fails a check that had succeeded.
pub proof fn probe_file_check_outcome(
    source: Seq<u8>,
    clone: Seq<u8>,
    f: IoFailure,
    outcome: Result<(), ErrorView>,
)
    ensures
        (ProbeFileCheckView::Create { source, clone }).resume(ReplyView::Done) == ProgressView::<
            ProbeFileCheckView,
            (),
        >::Ask(ProbeFileCheckView::Reflink { source, clone }),
        (ProbeFileCheckView::Create { source, clone }).resume(ReplyView::Failed(f)) == ProgressView::<
            ProbeFileCheckView,
            (),
        >::Ask(ProbeFileCheckView::CheckClone { source, clone, outcome: Err(ErrorView::Io(f)) }),
        (ProbeFileCheckView::Reflink { source, clone }).resume(ReplyView::Done) == ProgressView::<
            ProbeFileCheckView,
            (),
        >::Ask(ProbeFileCheckView::CheckClone { source, clone, outcome: Ok(()) }),
        (ProbeFileCheckView::Reflink { source, clone }).resume(ReplyView::Refused(f)) == ProgressView::<
            ProbeFileCheckView,
            (),
        >::Ask(
            ProbeFileCheckView::CheckClone {
                source,
                clone,
                outcome: Err(
                    ErrorView::Unavailable(UnavailabilityView::ReflinkFailed { from: source, error: f }),
                ),
            },
        ),
        (ProbeFileCheckView::CheckSource { source, outcome }).resume(ReplyView::Exists(false))
            == ProgressView::<ProbeFileCheckView, ()>::Finish(outcome),
        (ProbeFileCheckView::RemoveSource { source, outcome }).resume(ReplyView::Done)
            == ProgressView::<ProbeFileCheckView, ()>::Finish(outcome),
        outcome is Ok ==> (ProbeFileCheckView::RemoveSource { source, outcome }).resume(
            ReplyView::Failed(f),
        ) == ProgressView::<ProbeFileCheckView, ()>::Finish(Err(ErrorView::Io(f))),
        outcome is Err ==> (ProbeFileCheckView::RemoveSource { source, outcome }).resume(
            ReplyView::Failed(f),
        ) == ProgressView::<ProbeFileCheckView, ()>::Finish(outcome),
{
}

} // verus!
