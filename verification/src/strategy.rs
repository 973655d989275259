//! The platform's strategy for probing, snapshotting, removing and preparing.

use vstd::prelude::*;
use crate::apfs::{apfs_clone_start, apfs_probe_start, ApfsClone, ApfsCloneView, ApfsProbe, ApfsProbeView};
use crate::btrfs::{
    btrfs_snapshot_begins_ok, btrfs_snapshot_changes_only_target, btrfs_snapshot_ok,
    btrfs_snapshot_start, btrfs_snapshot_target, BtrfsSnapshot, BtrfsSnapshotView,
};
use crate::io::{changes_only_below, Progress, ProgressView, Reply, ReplyView, Request, RequestView};
use crate::linux::{
    linux_prepare_start, linux_probe_start, linux_remove_begins_ok, linux_remove_changes_only_target,
    linux_remove_ok, linux_remove_start, LinuxPrepare, LinuxPrepareView,
    LinuxProbe, LinuxProbeView, LinuxRemove, LinuxRemoveView,
};
use crate::path::{copy_bytes, starts_with_itself};
use crate::tree::{
    tree_copy_begins_ok, tree_copy_changes_only_destination, tree_copy_start, tree_ok, tree_to,
    TreeCopy, TreeCopyView,
};
use crate::types::{
    Backend, Capability, Error, ErrorView, Platform, Unavailability, UnavailabilityView,
};

verus! {

// ---------------------------------------------------------------------------
// Probe.

/// Probing with the platform's backend: APFS on macOS, Btrfs or reflinks on
/// Linux; no other platform is supported.
pub enum StrategyProbe {
    Linux { probe: LinuxProbe },
    MacOs { probe: ApfsProbe },
}

pub enum StrategyProbeView {
    Linux { probe: LinuxProbeView },
    MacOs { probe: ApfsProbeView },
}

impl View for StrategyProbe {
    type V = StrategyProbeView;

    open spec fn view(&self) -> StrategyProbeView {
        match self {
            StrategyProbe::Linux { probe } => StrategyProbeView::Linux { probe: probe@ },
            StrategyProbe::MacOs { probe } => StrategyProbeView::MacOs { probe: probe@ },
        }
    }
}

pub open spec fn strategy_probe_linux(p: ProgressView<LinuxProbeView, Capability>) -> ProgressView<
    StrategyProbeView,
    Capability,
> {
    match p {
        ProgressView::Ask(probe) => ProgressView::Ask(StrategyProbeView::Linux { probe }),
        ProgressView::Finish(r) => ProgressView::Finish(r),
    }
}

pub open spec fn strategy_probe_macos(p: ProgressView<ApfsProbeView, Capability>) -> ProgressView<
    StrategyProbeView,
    Capability,
> {
    match p {
        ProgressView::Ask(probe) => ProgressView::Ask(StrategyProbeView::MacOs { probe }),
        ProgressView::Finish(r) => ProgressView::Finish(r),
    }
}

pub open spec fn strategy_probe_start(platform: Platform, source: Seq<u8>, root: Seq<u8>) -> ProgressView<
    StrategyProbeView,
    Capability,
> {
    match platform {
        Platform::Linux => strategy_probe_linux(linux_probe_start(source, root)),
        Platform::MacOs => strategy_probe_macos(apfs_probe_start(source, root)),
        Platform::Other => ProgressView::Finish(
            Err(ErrorView::Unavailable(UnavailabilityView::UnsupportedPlatform)),
        ),
    }
}

impl StrategyProbeView {
    pub open spec fn pending(self) -> RequestView {
        match self {
            StrategyProbeView::Linux { probe } => probe.pending(),
            StrategyProbeView::MacOs { probe } => probe.pending(),
        }
    }

    pub open spec fn resume(self, reply: ReplyView) -> ProgressView<StrategyProbeView, Capability> {
        match self {
            StrategyProbeView::Linux { probe } => strategy_probe_linux(probe.resume(reply)),
            StrategyProbeView::MacOs { probe } => strategy_probe_macos(probe.resume(reply)),
        }
    }
}

impl StrategyProbe {
    fn linux(p: Progress<LinuxProbe, Capability>) -> (r: Progress<StrategyProbe, Capability>)
        ensures
            r@ == strategy_probe_linux(p@),
    {
        match p {
            Progress::Ask(probe) => Progress::Ask(StrategyProbe::Linux { probe }),
            Progress::Finish(r) => Progress::Finish(r),
        }
    }

    fn macos(p: Progress<ApfsProbe, Capability>) -> (r: Progress<StrategyProbe, Capability>)
        ensures
            r@ == strategy_probe_macos(p@),
    {
        match p {
            Progress::Ask(probe) => Progress::Ask(StrategyProbe::MacOs { probe }),
            Progress::Finish(r) => Progress::Finish(r),
        }
    }

    pub fn start(platform: Platform, source: Vec<u8>, root: Vec<u8>) -> (r: Progress<
        StrategyProbe,
        Capability,
    >)
        ensures
            r@ == strategy_probe_start(platform, source@, root@),
    {
        match platform {
            Platform::Linux => StrategyProbe::linux(LinuxProbe::start(source, root)),
            Platform::MacOs => StrategyProbe::macos(ApfsProbe::start(source, root)),
            Platform::Other => Progress::Finish(
                Err(Error::Unavailable(Unavailability::UnsupportedPlatform)),
            ),
        }
    }

    pub fn request(&self) -> (r: Request)
        ensures
            r@ == self@.pending(),
    {
        match self {
            StrategyProbe::Linux { probe } => probe.request(),
            StrategyProbe::MacOs { probe } => probe.request(),
        }
    }

    pub fn resume(self, reply: Reply) -> (r: Progress<StrategyProbe, Capability>)
        ensures
            r@ == self@.resume(reply@),
    {
        match self {
            StrategyProbe::Linux { probe } => StrategyProbe::linux(probe.resume(reply)),
            StrategyProbe::MacOs { probe } => StrategyProbe::macos(probe.resume(reply)),
        }
    }
}

// ---------------------------------------------------------------------------
// Snapshot.

/// Snapshotting with the chosen backend, where the platform offers it.
pub enum StrategySnapshot {
    Btrfs { snapshot: BtrfsSnapshot },
    Tree { copy: TreeCopy },
    Apfs { clone: ApfsClone },
}

pub enum StrategySnapshotView {
    Btrfs { snapshot: BtrfsSnapshotView },
    Tree { copy: TreeCopyView },
    Apfs { clone: ApfsCloneView },
}

impl View for StrategySnapshot {
    type V = StrategySnapshotView;

    open spec fn view(&self) -> StrategySnapshotView {
        match self {
            StrategySnapshot::Btrfs { snapshot } => StrategySnapshotView::Btrfs {
                snapshot: snapshot@,
            },
            StrategySnapshot::Tree { copy } => StrategySnapshotView::Tree { copy: copy@ },
            StrategySnapshot::Apfs { clone } => StrategySnapshotView::Apfs { clone: clone@ },
        }
    }
}

pub open spec fn strategy_snapshot_btrfs(p: ProgressView<BtrfsSnapshotView, ()>) -> ProgressView<
    StrategySnapshotView,
    (),
> {
    match p {
        ProgressView::Ask(snapshot) => ProgressView::Ask(StrategySnapshotView::Btrfs { snapshot }),
        ProgressView::Finish(r) => ProgressView::Finish(r),
    }
}

pub open spec fn strategy_snapshot_tree(p: ProgressView<TreeCopyView, ()>) -> ProgressView<
    StrategySnapshotView,
    (),
> {
    match p {
        ProgressView::Ask(copy) => ProgressView::Ask(StrategySnapshotView::Tree { copy }),
        ProgressView::Finish(r) => ProgressView::Finish(r),
    }
}

pub open spec fn strategy_snapshot_apfs(p: ProgressView<ApfsCloneView, ()>) -> ProgressView<
    StrategySnapshotView,
    (),
> {
    match p {
        ProgressView::Ask(clone) => ProgressView::Ask(StrategySnapshotView::Apfs { clone }),
        ProgressView::Finish(r) => ProgressView::Finish(r),
    }
}

pub open spec fn strategy_snapshot_start(
    platform: Platform,
    from: Seq<u8>,
    to: Seq<u8>,
    backend: Backend,
) -> ProgressView<StrategySnapshotView, ()> {
    match platform {
        Platform::Linux => match backend {
            Backend::BtrfsSnapshot => strategy_snapshot_btrfs(btrfs_snapshot_start(from, to)),
            Backend::LinuxReflinkTree => strategy_snapshot_tree(tree_copy_start(from, to)),
            Backend::ApfsClonefile => ProgressView::Finish(
                Err(ErrorView::Unavailable(UnavailabilityView::ApfsOnLinux)),
            ),
        },
        Platform::MacOs => match backend {
            Backend::ApfsClonefile => strategy_snapshot_apfs(apfs_clone_start(from, to)),
            _ => ProgressView::Finish(
                Err(ErrorView::Unavailable(UnavailabilityView::BackendNotOnMacOs(backend))),
            ),
        },
        Platform::Other => ProgressView::Finish(
            Err(ErrorView::Unavailable(UnavailabilityView::BackendNotOnPlatform(backend))),
        ),
    }
}

impl StrategySnapshotView {
    pub open spec fn pending(self) -> RequestView {
        match self {
            StrategySnapshotView::Btrfs { snapshot } => snapshot.pending(),
            StrategySnapshotView::Tree { copy } => copy.pending(),
            StrategySnapshotView::Apfs { clone } => clone.pending(),
        }
    }

    pub open spec fn resume(self, reply: ReplyView) -> ProgressView<StrategySnapshotView, ()> {
        match self {
            StrategySnapshotView::Btrfs { snapshot } => strategy_snapshot_btrfs(
                snapshot.resume(reply),
            ),
            StrategySnapshotView::Tree { copy } => strategy_snapshot_tree(copy.resume(reply)),
            StrategySnapshotView::Apfs { clone } => strategy_snapshot_apfs(clone.resume(reply)),
        }
    }
}

impl StrategySnapshot {
    fn btrfs(p: Progress<BtrfsSnapshot, ()>) -> (r: Progress<StrategySnapshot, ()>)
        ensures
            r@ == strategy_snapshot_btrfs(p@),
    {
        match p {
            Progress::Ask(snapshot) => Progress::Ask(StrategySnapshot::Btrfs { snapshot }),
            Progress::Finish(r) => Progress::Finish(r),
        }
    }

    fn tree(p: Progress<TreeCopy, ()>) -> (r: Progress<StrategySnapshot, ()>)
        ensures
            r@ == strategy_snapshot_tree(p@),
    {
        match p {
            Progress::Ask(copy) => Progress::Ask(StrategySnapshot::Tree { copy }),
            Progress::Finish(r) => Progress::Finish(r),
        }
    }

    fn apfs(p: Progress<ApfsClone, ()>) -> (r: Progress<StrategySnapshot, ()>)
        ensures
            r@ == strategy_snapshot_apfs(p@),
    {
        match p {
            Progress::Ask(clone) => Progress::Ask(StrategySnapshot::Apfs { clone }),
            Progress::Finish(r) => Progress::Finish(r),
        }
    }

    pub fn start(platform: Platform, from: Vec<u8>, to: Vec<u8>, backend: Backend) -> (r: Progress<
        StrategySnapshot,
        (),
    >)
        ensures
            r@ == strategy_snapshot_start(platform, from@, to@, backend),
    {
        match platform {
            Platform::Linux => match backend {
                Backend::BtrfsSnapshot => StrategySnapshot::btrfs(BtrfsSnapshot::start(from, to)),
                Backend::LinuxReflinkTree => StrategySnapshot::tree(TreeCopy::start(from, to)),
                Backend::ApfsClonefile => Progress::Finish(
                    Err(Error::Unavailable(Unavailability::ApfsOnLinux)),
                ),
            },
            Platform::MacOs => match backend {
                Backend::ApfsClonefile => StrategySnapshot::apfs(ApfsClone::start(from, to)),
                _ => Progress::Finish(
                    Err(Error::Unavailable(Unavailability::BackendNotOnMacOs(backend))),
                ),
            },
            Platform::Other => Progress::Finish(
                Err(Error::Unavailable(Unavailability::BackendNotOnPlatform(backend))),
            ),
        }
    }

    pub fn request(&self) -> (r: Request)
        ensures
            r@ == self@.pending(),
    {
        match self {
            StrategySnapshot::Btrfs { snapshot } => snapshot.request(),
            StrategySnapshot::Tree { copy } => copy.request(),
            StrategySnapshot::Apfs { clone } => clone.request(),
        }
    }

    pub fn resume(self, reply: Reply) -> (r: Progress<StrategySnapshot, ()>)
        ensures
            r@ == self@.resume(reply@),
    {
        match self {
            StrategySnapshot::Btrfs { snapshot } => StrategySnapshot::btrfs(snapshot.resume(reply)),
            StrategySnapshot::Tree { copy } => StrategySnapshot::tree(copy.resume(reply)),
            StrategySnapshot::Apfs { clone } => StrategySnapshot::apfs(clone.resume(reply)),
        }
    }
}

// ---------------------------------------------------------------------------
// Removal.

/// Removing a snapshot: on Linux as a subvolume or a tree, on macOS as a tree;
/// no other platform is supported.
pub enum StrategyRemove {
    Linux { removal: LinuxRemove },
    RemoveAll { path: Vec<u8> },
}

pub enum StrategyRemoveView {
    Linux { removal: LinuxRemoveView },
    RemoveAll { path: Seq<u8> },
}

impl View for StrategyRemove {
    type V = StrategyRemoveView;

    open spec fn view(&self) -> StrategyRemoveView {
        match self {
            StrategyRemove::Linux { removal } => StrategyRemoveView::Linux { removal: removal@ },
            StrategyRemove::RemoveAll { path } => StrategyRemoveView::RemoveAll { path: path@ },
        }
    }
}

pub open spec fn strategy_remove_linux(p: ProgressView<LinuxRemoveView, ()>) -> ProgressView<
    StrategyRemoveView,
    (),
> {
    match p {
        ProgressView::Ask(removal) => ProgressView::Ask(StrategyRemoveView::Linux { removal }),
        ProgressView::Finish(r) => ProgressView::Finish(r),
    }
}

pub open spec fn strategy_remove_start(platform: Platform, path: Seq<u8>) -> ProgressView<
    StrategyRemoveView,
    (),
> {
    match platform {
        Platform::Linux => strategy_remove_linux(linux_remove_start(path)),
        Platform::MacOs => ProgressView::Ask(StrategyRemoveView::RemoveAll { path }),
        Platform::Other => ProgressView::Finish(
            Err(ErrorView::Unavailable(UnavailabilityView::RemovalUnsupported)),
        ),
    }
}

impl StrategyRemoveView {
    pub open spec fn pending(self) -> RequestView {
        match self {
            StrategyRemoveView::Linux { removal } => removal.pending(),
            StrategyRemoveView::RemoveAll { path } => RequestView::RemoveDirAll(path),
        }
    }

    pub open spec fn resume(self, reply: ReplyView) -> ProgressView<StrategyRemoveView, ()> {
        match self {
            StrategyRemoveView::Linux { removal } => strategy_remove_linux(removal.resume(reply)),
            StrategyRemoveView::RemoveAll { .. } => match reply {
                ReplyView::Done => ProgressView::Finish(Ok(())),
                ReplyView::Failed(f) => ProgressView::Finish(Err(ErrorView::Io(f))),
                _ => ProgressView::Ask(self),
            },
        }
    }
}

impl StrategyRemove {
    fn linux(p: Progress<LinuxRemove, ()>) -> (r: Progress<StrategyRemove, ()>)
        ensures
            r@ == strategy_remove_linux(p@),
    {
        match p {
            Progress::Ask(removal) => Progress::Ask(StrategyRemove::Linux { removal }),
            Progress::Finish(r) => Progress::Finish(r),
        }
    }

    pub fn start(platform: Platform, path: Vec<u8>) -> (r: Progress<StrategyRemove, ()>)
        ensures
            r@ == strategy_remove_start(platform, path@),
    {
        match platform {
            Platform::Linux => StrategyRemove::linux(LinuxRemove::start(path)),
            Platform::MacOs => Progress::Ask(StrategyRemove::RemoveAll { path }),
            Platform::Other => Progress::Finish(
                Err(Error::Unavailable(Unavailability::RemovalUnsupported)),
            ),
        }
    }

    pub fn request(&self) -> (r: Request)
        ensures
            r@ == self@.pending(),
    {
        match self {
            StrategyRemove::Linux { removal } => removal.request(),
            StrategyRemove::RemoveAll { path } => Request::RemoveDirAll(copy_bytes(path)),
        }
    }

    pub fn resume(self, reply: Reply) -> (r: Progress<StrategyRemove, ()>)
        ensures
            r@ == self@.resume(reply@),
    {
        match self {
            StrategyRemove::Linux { removal } => StrategyRemove::linux(removal.resume(reply)),
            StrategyRemove::RemoveAll { path } => match reply {
                Reply::Done => Progress::Finish(Ok(())),
                Reply::Failed(f) => Progress::Finish(Err(Error::Io(f))),
                _ => Progress::Ask(StrategyRemove::RemoveAll { path }),
            },
        }
    }
}

// ---------------------------------------------------------------------------
// Preparing a snapshot source.

/// Creating an empty snapshot source: on Linux a subvolume where the parent
/// lies on Btrfs; everywhere else a plain directory.
pub enum StrategyPrepare {
    Linux { prepare: LinuxPrepare },
    CreateDir { path: Vec<u8> },
}

pub enum StrategyPrepareView {
    Linux { prepare: LinuxPrepareView },
    CreateDir { path: Seq<u8> },
}

impl View for StrategyPrepare {
    type V = StrategyPrepareView;

    open spec fn view(&self) -> StrategyPrepareView {
        match self {
            StrategyPrepare::Linux { prepare } => StrategyPrepareView::Linux { prepare: prepare@ },
            StrategyPrepare::CreateDir { path } => StrategyPrepareView::CreateDir { path: path@ },
        }
    }
}

pub open spec fn strategy_prepare_linux(p: ProgressView<LinuxPrepareView, ()>) -> ProgressView<
    StrategyPrepareView,
    (),
> {
    match p {
        ProgressView::Ask(prepare) => ProgressView::Ask(StrategyPrepareView::Linux { prepare }),
        ProgressView::Finish(r) => ProgressView::Finish(r),
    }
}

pub open spec fn strategy_prepare_start(platform: Platform, path: Seq<u8>) -> ProgressView<
    StrategyPrepareView,
    (),
> {
    match platform {
        Platform::Linux => strategy_prepare_linux(linux_prepare_start(path)),
        _ => ProgressView::Ask(StrategyPrepareView::CreateDir { path }),
    }
}

impl StrategyPrepareView {
    pub open spec fn pending(self) -> RequestView {
        match self {
            StrategyPrepareView::Linux { prepare } => prepare.pending(),
            StrategyPrepareView::CreateDir { path } => RequestView::CreateDir(path),
        }
    }

    pub open spec fn resume(self, reply: ReplyView) -> ProgressView<StrategyPrepareView, ()> {
        match self {
            StrategyPrepareView::Linux { prepare } => strategy_prepare_linux(prepare.resume(reply)),
            StrategyPrepareView::CreateDir { .. } => match reply {
                ReplyView::Done => ProgressView::Finish(Ok(())),
                ReplyView::Failed(f) => ProgressView::Finish(Err(ErrorView::Io(f))),
                _ => ProgressView::Ask(self),
            },
        }
    }
}

impl StrategyPrepare {
    fn linux(p: Progress<LinuxPrepare, ()>) -> (r: Progress<StrategyPrepare, ()>)
        ensures
            r@ == strategy_prepare_linux(p@),
    {
        match p {
            Progress::Ask(prepare) => Progress::Ask(StrategyPrepare::Linux { prepare }),
            Progress::Finish(r) => Progress::Finish(r),
        }
    }

    pub fn start(platform: Platform, path: Vec<u8>) -> (r: Progress<StrategyPrepare, ()>)
        ensures
            r@ == strategy_prepare_start(platform, path@),
    {
        match platform {
            Platform::Linux => StrategyPrepare::linux(LinuxPrepare::start(path)),
            _ => Progress::Ask(StrategyPrepare::CreateDir { path }),
        }
    }

    pub fn request(&self) -> (r: Request)
        ensures
            r@ == self@.pending(),
    {
        match self {
            StrategyPrepare::Linux { prepare } => prepare.request(),
            StrategyPrepare::CreateDir { path } => Request::CreateDir(copy_bytes(path)),
        }
    }

    pub fn resume(self, reply: Reply) -> (r: Progress<StrategyPrepare, ()>)
        ensures
            r@ == self@.resume(reply@),
    {
        match self {
            StrategyPrepare::Linux { prepare } => StrategyPrepare::linux(prepare.resume(reply)),
            StrategyPrepare::CreateDir { path } => match reply {
                Reply::Done => Progress::Finish(Ok(())),
                Reply::Failed(f) => Progress::Finish(Err(Error::Io(f))),
                _ => Progress::Ask(StrategyPrepare::CreateDir { path }),
            },
        }
    }
}

// ---------------------------------------------------------------------------
// Laws.

/// The destination that a backend's snapshot creates.
pub open spec fn strategy_snapshot_target(s: StrategySnapshotView) -> Seq<u8> {
    match s {
        StrategySnapshotView::Btrfs { snapshot } => btrfs_snapshot_target(snapshot),
        StrategySnapshotView::Tree { copy } => tree_to(copy),
        StrategySnapshotView::Apfs { clone } => clone.to,
    }
}

pub open spec fn strategy_snapshot_ok(s: StrategySnapshotView) -> bool {
    match s {
        StrategySnapshotView::Btrfs { snapshot } => btrfs_snapshot_ok(snapshot),
        StrategySnapshotView::Tree { copy } => tree_ok(copy),
        StrategySnapshotView::Apfs { .. } => true,
    }
}

/// A backend's snapshot of a nonempty source begins aimed at its destination.
pub proof fn strategy_snapshot_begins_ok(
    platform: Platform,
    from: Seq<u8>,
    to: Seq<u8>,
    backend: Backend,
)
    requires
        from.len() > 0,
    ensures
        strategy_snapshot_start(platform, from, to, backend) matches ProgressView::Ask(s)
            ==> strategy_snapshot_ok(s) && strategy_snapshot_target(s) == to,
{
    btrfs_snapshot_begins_ok(from, to);
    tree_copy_begins_ok(from, to);
}

/// A backend's snapshot changes nothing outside its destination.
pub proof fn strategy_snapshot_changes_only_destination(s: StrategySnapshotView, reply: ReplyView)
    requires
        strategy_snapshot_ok(s),
    ensures
        changes_only_below(s.pending(), strategy_snapshot_target(s)),
        s.resume(reply) matches ProgressView::Ask(t) ==> strategy_snapshot_ok(t)
            && strategy_snapshot_target(t) == strategy_snapshot_target(s),
{
    match s {
        StrategySnapshotView::Btrfs { snapshot } => {
            btrfs_snapshot_changes_only_target(snapshot, reply);
        },
        StrategySnapshotView::Tree { copy } => {
            tree_copy_changes_only_destination(copy, reply);
        },
        StrategySnapshotView::Apfs { clone } => {
            starts_with_itself(clone.to);
        },
    }
}

/// A removal of `target` that works on `target` alone.
pub open spec fn strategy_remove_ok(r: StrategyRemoveView, target: Seq<u8>) -> bool {
    match r {
        StrategyRemoveView::Linux { removal } => linux_remove_ok(removal, target),
        StrategyRemoveView::RemoveAll { path } => path == target,
    }
}

/// Removing a snapshot begins aimed at it.
pub proof fn strategy_remove_begins_ok(platform: Platform, path: Seq<u8>)
    ensures
        strategy_remove_start(platform, path) matches ProgressView::Ask(r) ==> strategy_remove_ok(
            r,
            path,
        ),
{
    linux_remove_begins_ok(path);
}

/// Removing a snapshot changes nothing but the snapshot and what lies below
/// it.
pub proof fn strategy_remove_changes_only_target(r: StrategyRemoveView, target: Seq<u8>, reply: ReplyView)
    requires
        strategy_remove_ok(r, target),
    ensures
        changes_only_below(r.pending(), target),
        r.resume(reply) matches ProgressView::Ask(t) ==> strategy_remove_ok(t, target),
{
    starts_with_itself(target);
    if let StrategyRemoveView::Linux { removal } = r {
        linux_remove_changes_only_target(removal, target, reply);
    }
}

/// Off Linux, a snapshot source is prepared as a plain new directory: the
/// one request is to create the directory at the path, and the preparation
/// succeeds exactly when that succeeds.
pub proof fn strategy_prepare_creates_a_directory(
    platform: Platform,
    path: Seq<u8>,
    f: crate::types::IoFailure,
)
    requires
        platform != Platform::Linux,
    ensures
        strategy_prepare_start(platform, path) matches ProgressView::Ask(s) && s.pending()
            == RequestView::CreateDir(path) && s.resume(ReplyView::Done) == ProgressView::<
            StrategyPrepareView,
            (),
        >::Finish(Ok(())) && s.resume(ReplyView::Failed(f)) == ProgressView::<
            StrategyPrepareView,
            (),
        >::Finish(Err(ErrorView::Io(f))),
{
}

/// Each backend's work begins with its own first step: a Btrfs snapshot
/// asks for the source's filesystem type, a reflink tree creates the
/// destination directory, an APFS clone clones the source to the
/// destination; a backend not available on the platform is refused.
pub proof fn strategy_snapshot_starts_by_backend(platform: Platform, from: Seq<u8>, to: Seq<u8>)
    requires
        !from.contains(0u8),
        !to.contains(0u8),
    ensures
        strategy_snapshot_start(platform, from, to, Backend::BtrfsSnapshot) matches ProgressView::Ask(s)
            ==> platform == Platform::Linux && s.pending() == RequestView::FilesystemType(from),
        platform == Platform::Linux ==> strategy_snapshot_start(platform, from, to, Backend::BtrfsSnapshot) is Ask,
        platform == Platform::Linux ==> (strategy_snapshot_start(platform, from, to, Backend::LinuxReflinkTree)
            matches ProgressView::Ask(s) && s.pending() == RequestView::CreateDir(to)),
        platform == Platform::MacOs ==> (strategy_snapshot_start(platform, from, to, Backend::ApfsClonefile)
            matches ProgressView::Ask(s) && s.pending() == (RequestView::CloneTree { from, to })),
        platform == Platform::Linux ==> strategy_snapshot_start(platform, from, to, Backend::ApfsClonefile)
            == ProgressView::<StrategySnapshotView, ()>::Finish(
            Err(ErrorView::Unavailable(UnavailabilityView::ApfsOnLinux)),
        ),
        platform != Platform::Linux ==> strategy_snapshot_start(platform, from, to, Backend::LinuxReflinkTree) is Finish,
{
}

} // verus!
