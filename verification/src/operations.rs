//! The four operations: probing for a backend, preparing an empty snapshot
//! source, taking an exact snapshot, and removing a snapshot.

use vstd::prelude::*;
use crate::apfs::apfs_probe_source;
use crate::canonical::{
    canonical_directory_is_nonempty, canonical_directory_start, canonical_ok, exists_answer, exists_answer_exec, CanonicalDirectory,
    CanonicalDirectoryView,
};
use crate::io::{
    changes_below_spare_others, changes_filesystem, changes_only_below, leaves_untouched, Progress, ProgressView, Reply, ReplyView, Request, RequestView,
};
use crate::linux::{
    linux_probe_begins_ok, linux_probe_capability_is_honest, linux_probe_ok, linux_probe_root,
    btrfs_capability, linux_probe_run, linux_probe_source, linux_probe_touches_only_probe_files,
    probe_file_request, LinuxPrepareView, LinuxProbeView,
};
use crate::path::{
    copy_bytes, file_name, file_name_bytes, file_name_is_plain, join, join_bytes,
    join_names_the_child, parent, parent_bytes, parent_of_named_path, path_starts_with,
    starts_with_bytes, DOT,
};
use crate::strategy::{
    strategy_remove_begins_ok, strategy_remove_changes_only_target, strategy_remove_ok,
    strategy_snapshot_begins_ok, strategy_snapshot_changes_only_destination, strategy_snapshot_ok,
    strategy_snapshot_target, strategy_prepare_start, strategy_probe_start, strategy_remove_start, strategy_snapshot_start,
    StrategyPrepare, StrategyPrepareView, StrategyProbe, StrategyProbeView, StrategyRemove,
    StrategyRemoveView, StrategySnapshot, StrategySnapshotView,
};
use crate::types::{
    Backend, Capability, Error, ErrorView, IoFailure, IoKind, PathIssue, PathIssueView, Platform, RemoveReceipt,
    RemoveReceiptView, SnapshotReceipt, SnapshotReceiptView, SubvolumeOp,
};

verus! {

/// The directory that holds `p`: its parent, or the current directory when
/// `p` has no parent or an empty one.
pub open spec fn parent_or_current(p: Seq<u8>) -> Seq<u8> {
    match parent(p) {
        Some(q) => if q.len() > 0 {
            q
        } else {
            seq![DOT]
        },
        None => seq![DOT],
    }
}

pub fn parent_or_current_bytes(p: &Vec<u8>) -> (r: Vec<u8>)
    ensures
        r@ == parent_or_current(p@),
{
    match parent_bytes(p) {
        Some(q) => if q.len() > 0 {
            q
        } else {
            let r = vec![DOT];
            assert(r@ =~= seq![DOT]);
            r
        },
        None => {
            let r = vec![DOT];
            assert(r@ =~= seq![DOT]);
            r
        },
    }
}

// ---------------------------------------------------------------------------
// Probe.

/// Reporting the backend available for a source and a destination root,
/// both of which must be directories.
pub enum Probe {
    Source { platform: Platform, root: Vec<u8>, canonical: CanonicalDirectory },
    Root { platform: Platform, source: Vec<u8>, canonical: CanonicalDirectory },
    Strategy { probe: StrategyProbe },
}

pub enum ProbeView {
    Source { platform: Platform, root: Seq<u8>, canonical: CanonicalDirectoryView },
    Root { platform: Platform, source: Seq<u8>, canonical: CanonicalDirectoryView },
    Strategy { probe: StrategyProbeView },
}

impl View for Probe {
    type V = ProbeView;

    open spec fn view(&self) -> ProbeView {
        match self {
            Probe::Source { platform, root, canonical } => ProbeView::Source {
                platform: *platform,
                root: root@,
                canonical: canonical@,
            },
            Probe::Root { platform, source, canonical } => ProbeView::Root {
                platform: *platform,
                source: source@,
                canonical: canonical@,
            },
            Probe::Strategy { probe } => ProbeView::Strategy { probe: probe@ },
        }
    }
}

pub open spec fn probe_after_strategy(p: ProgressView<StrategyProbeView, Capability>) -> ProgressView<
    ProbeView,
    Capability,
> {
    match p {
        ProgressView::Ask(probe) => ProgressView::Ask(ProbeView::Strategy { probe }),
        ProgressView::Finish(r) => ProgressView::Finish(r),
    }
}

pub open spec fn probe_after_root(
    platform: Platform,
    source: Seq<u8>,
    p: ProgressView<CanonicalDirectoryView, Seq<u8>>,
) -> ProgressView<ProbeView, Capability> {
    match p {
        ProgressView::Ask(canonical) => ProgressView::Ask(
            ProbeView::Root { platform, source, canonical },
        ),
        ProgressView::Finish(Ok(root)) => probe_after_strategy(
            strategy_probe_start(platform, source, root),
        ),
        ProgressView::Finish(Err(e)) => ProgressView::Finish(Err(e)),
    }
}

pub open spec fn probe_after_source(
    platform: Platform,
    root: Seq<u8>,
    p: ProgressView<CanonicalDirectoryView, Seq<u8>>,
) -> ProgressView<ProbeView, Capability> {
    match p {
        ProgressView::Ask(canonical) => ProgressView::Ask(
            ProbeView::Source { platform, root, canonical },
        ),
        ProgressView::Finish(Ok(source)) => probe_after_root(
            platform,
            source,
            canonical_directory_start(root),
        ),
        ProgressView::Finish(Err(e)) => ProgressView::Finish(Err(e)),
    }
}

/// Source and destination root are resolved to canonical directories, the
/// source first; then the platform's backend is probed with both.
pub open spec fn probe_start(platform: Platform, source: Seq<u8>, root: Seq<u8>) -> ProgressView<
    ProbeView,
    Capability,
> {
    probe_after_source(platform, root, canonical_directory_start(source))
}

impl ProbeView {
    pub open spec fn pending(self) -> RequestView {
        match self {
            ProbeView::Source { canonical, .. } => canonical.pending(),
            ProbeView::Root { canonical, .. } => canonical.pending(),
            ProbeView::Strategy { probe } => probe.pending(),
        }
    }

    pub open spec fn resume(self, reply: ReplyView) -> ProgressView<ProbeView, Capability> {
        match self {
            ProbeView::Source { platform, root, canonical } => probe_after_source(
                platform,
                root,
                canonical.resume(reply),
            ),
            ProbeView::Root { platform, source, canonical } => probe_after_root(
                platform,
                source,
                canonical.resume(reply),
            ),
            ProbeView::Strategy { probe } => probe_after_strategy(probe.resume(reply)),
        }
    }
}

impl Probe {
    fn after_strategy(p: Progress<StrategyProbe, Capability>) -> (r: Progress<Probe, Capability>)
        ensures
            r@ == probe_after_strategy(p@),
    {
        match p {
            Progress::Ask(probe) => Progress::Ask(Probe::Strategy { probe }),
            Progress::Finish(r) => Progress::Finish(r),
        }
    }

    fn after_root(platform: Platform, source: Vec<u8>, p: Progress<CanonicalDirectory, Vec<u8>>) -> (r:
        Progress<Probe, Capability>)
        ensures
            r@ == probe_after_root(platform, source@, p@),
    {
        match p {
            Progress::Ask(canonical) => Progress::Ask(Probe::Root { platform, source, canonical }),
            Progress::Finish(Ok(root)) => Probe::after_strategy(
                StrategyProbe::start(platform, source, root),
            ),
            Progress::Finish(Err(e)) => Progress::Finish(Err(e)),
        }
    }

    fn after_source(platform: Platform, root: Vec<u8>, p: Progress<CanonicalDirectory, Vec<u8>>) -> (r:
        Progress<Probe, Capability>)
        ensures
            r@ == probe_after_source(platform, root@, p@),
    {
        match p {
            Progress::Ask(canonical) => Progress::Ask(Probe::Source { platform, root, canonical }),
            Progress::Finish(Ok(source)) => {
                let canonical = CanonicalDirectory::start(root);
                Probe::after_root(platform, source, canonical)
            },
            Progress::Finish(Err(e)) => Progress::Finish(Err(e)),
        }
    }

    pub fn request(&self) -> (r: Request)
        ensures
            r@ == self@.pending(),
    {
        match self {
            Probe::Source { canonical, .. } => canonical.request(),
            Probe::Root { canonical, .. } => canonical.request(),
            Probe::Strategy { probe } => probe.request(),
        }
    }

    pub fn resume(self, reply: Reply) -> (r: Progress<Probe, Capability>)
        ensures
            r@ == self@.resume(reply@),
    {
        match self {
            Probe::Source { platform, root, canonical } => Probe::after_source(
                platform,
                root,
                canonical.resume(reply),
            ),
            Probe::Root { platform, source, canonical } => Probe::after_root(
                platform,
                source,
                canonical.resume(reply),
            ),
            Probe::Strategy { probe } => Probe::after_strategy(probe.resume(reply)),
        }
    }
}

/// Reports the exact native copy-on-write backend available for `source` and
/// `destination_root`. The probe never asks for any change at or below the
/// canonical source (see `probe_never_changes_its_source`): on Linux, where
/// checking reflinks writes probe files into the destination root, a root at
/// or below the source is refused.
pub fn probe(platform: Platform, source: Vec<u8>, destination_root: Vec<u8>) -> (r: Progress<
    Probe,
    Capability,
>)
    ensures
        r@ == probe_start(platform, source@, destination_root@),
{
    let canonical = CanonicalDirectory::start(source);
    Probe::after_source(platform, destination_root, canonical)
}

// ---------------------------------------------------------------------------
// Snapshot.

/// Taking an exact snapshot of `source` as the new entry `destination`.
pub enum SnapshotExact {
    Source { platform: Platform, destination: Vec<u8>, canonical: CanonicalDirectory },
    DestinationExists { platform: Platform, source: Vec<u8>, destination: Vec<u8> },
    Parent {
        platform: Platform,
        source: Vec<u8>,
        destination: Vec<u8>,
        canonical: CanonicalDirectory,
    },
    Probe { platform: Platform, source: Vec<u8>, destination: Vec<u8>, probe: StrategyProbe },
    Copy {
        platform: Platform,
        source: Vec<u8>,
        destination: Vec<u8>,
        backend: Backend,
        copy: StrategySnapshot,
    },
    FailedExists { platform: Platform, source: Vec<u8>, destination: Vec<u8>, error: Error },
    Cleanup { source: Vec<u8>, destination: Vec<u8>, error: Error, removal: StrategyRemove },
}

pub enum SnapshotExactView {
    Source { platform: Platform, destination: Seq<u8>, canonical: CanonicalDirectoryView },
    DestinationExists { platform: Platform, source: Seq<u8>, destination: Seq<u8> },
    Parent {
        platform: Platform,
        source: Seq<u8>,
        destination: Seq<u8>,
        canonical: CanonicalDirectoryView,
    },
    Probe { platform: Platform, source: Seq<u8>, destination: Seq<u8>, probe: StrategyProbeView },
    Copy {
        platform: Platform,
        source: Seq<u8>,
        destination: Seq<u8>,
        backend: Backend,
        copy: StrategySnapshotView,
    },
    FailedExists { platform: Platform, source: Seq<u8>, destination: Seq<u8>, error: ErrorView },
    Cleanup { source: Seq<u8>, destination: Seq<u8>, error: ErrorView, removal: StrategyRemoveView },
}

impl View for SnapshotExact {
    type V = SnapshotExactView;

    open spec fn view(&self) -> SnapshotExactView {
        match self {
            SnapshotExact::Source { platform, destination, canonical } =>
                SnapshotExactView::Source {
                platform: *platform,
                destination: destination@,
                canonical: canonical@,
            },
            SnapshotExact::DestinationExists { platform, source, destination } =>
                SnapshotExactView::DestinationExists {
                platform: *platform,
                source: source@,
                destination: destination@,
            },
            SnapshotExact::Parent { platform, source, destination, canonical } =>
                SnapshotExactView::Parent {
                platform: *platform,
                source: source@,
                destination: destination@,
                canonical: canonical@,
            },
            SnapshotExact::Probe { platform, source, destination, probe } =>
                SnapshotExactView::Probe {
                platform: *platform,
                source: source@,
                destination: destination@,
                probe: probe@,
            },
            SnapshotExact::Copy { platform, source, destination, backend, copy } =>
                SnapshotExactView::Copy {
                platform: *platform,
                source: source@,
                destination: destination@,
                backend: *backend,
                copy: copy@,
            },
            SnapshotExact::FailedExists { platform, source, destination, error } =>
                SnapshotExactView::FailedExists {
                platform: *platform,
                source: source@,
                destination: destination@,
                error: error@,
            },
            SnapshotExact::Cleanup { source, destination, error, removal } =>
                SnapshotExactView::Cleanup {
                source: source@,
                destination: destination@,
                error: error@,
                removal: removal@,
            },
        }
    }
}

/// Removing a partial destination: the snapshot's own error stands when the
/// removal succeeds; both are reported when it fails too.
pub open spec fn snapshot_after_cleanup(
    source: Seq<u8>,
    destination: Seq<u8>,
    error: ErrorView,
    p: ProgressView<StrategyRemoveView, ()>,
) -> ProgressView<SnapshotExactView, SnapshotReceiptView> {
    match p {
        ProgressView::Ask(removal) => ProgressView::Ask(
            SnapshotExactView::Cleanup { source, destination, error, removal },
        ),
        ProgressView::Finish(Ok(())) => ProgressView::Finish(Err(error)),
        ProgressView::Finish(Err(cleanup)) => ProgressView::Finish(
            Err(
                ErrorView::CleanupAfterFailure {
                    snapshot: Box::new(error),
                    cleanup: Box::new(cleanup),
                },
            ),
        ),
    }
}

/// The backend's work: a receipt when it succeeds; when it fails, the
/// destination is looked for so that a partial one can be removed.
pub open spec fn snapshot_after_copy(
    platform: Platform,
    source: Seq<u8>,
    destination: Seq<u8>,
    backend: Backend,
    p: ProgressView<StrategySnapshotView, ()>,
) -> ProgressView<SnapshotExactView, SnapshotReceiptView> {
    match p {
        ProgressView::Ask(copy) => ProgressView::Ask(
            SnapshotExactView::Copy { platform, source, destination, backend, copy },
        ),
        ProgressView::Finish(Ok(())) => ProgressView::Finish(
            Ok(SnapshotReceiptView { source, destination, backend }),
        ),
        ProgressView::Finish(Err(error)) => ProgressView::Ask(
            SnapshotExactView::FailedExists { platform, source, destination, error },
        ),
    }
}

pub open spec fn snapshot_after_probe(
    platform: Platform,
    source: Seq<u8>,
    destination: Seq<u8>,
    p: ProgressView<StrategyProbeView, Capability>,
) -> ProgressView<SnapshotExactView, SnapshotReceiptView> {
    match p {
        ProgressView::Ask(probe) => ProgressView::Ask(
            SnapshotExactView::Probe { platform, source, destination, probe },
        ),
        ProgressView::Finish(Ok(capability)) => snapshot_after_copy(
            platform,
            source,
            destination,
            capability.backend,
            strategy_snapshot_start(platform, source, destination, capability.backend),
        ),
        ProgressView::Finish(Err(e)) => ProgressView::Finish(Err(e)),
    }
}

/// With the canonical parent known: the destination is the parent joined with
/// the destination's final name; it must not lie inside the source, and the
/// source must not lie inside it (the destination would then exist). The
/// backend is probed for the source and the parent.
pub open spec fn snapshot_with_parent(
    platform: Platform,
    source: Seq<u8>,
    destination: Seq<u8>,
    parent_dir: Seq<u8>,
) -> ProgressView<SnapshotExactView, SnapshotReceiptView> {
    match file_name(destination) {
        None => ProgressView::Finish(
            Err(ErrorView::InvalidPath(PathIssueView::DestinationNoFinalComponent(destination))),
        ),
        Some(name) => {
            let resolved = join(parent_dir, name);
            if path_starts_with(resolved, source) {
                ProgressView::Finish(Err(ErrorView::DestinationInsideSource(resolved)))
            } else if path_starts_with(source, resolved) {
                ProgressView::Finish(Err(ErrorView::DestinationExists(destination)))
            } else {
                snapshot_after_probe(
                    platform,
                    source,
                    resolved,
                    strategy_probe_start(platform, source, parent_dir),
                )
            }
        },
    }
}

pub open spec fn snapshot_after_parent(
    platform: Platform,
    source: Seq<u8>,
    destination: Seq<u8>,
    p: ProgressView<CanonicalDirectoryView, Seq<u8>>,
) -> ProgressView<SnapshotExactView, SnapshotReceiptView> {
    match p {
        ProgressView::Ask(canonical) => ProgressView::Ask(
            SnapshotExactView::Parent { platform, source, destination, canonical },
        ),
        ProgressView::Finish(Ok(parent_dir)) => snapshot_with_parent(
            platform,
            source,
            destination,
            parent_dir,
        ),
        ProgressView::Finish(Err(e)) => ProgressView::Finish(Err(e)),
    }
}

pub open spec fn snapshot_after_source(
    platform: Platform,
    destination: Seq<u8>,
    p: ProgressView<CanonicalDirectoryView, Seq<u8>>,
) -> ProgressView<SnapshotExactView, SnapshotReceiptView> {
    match p {
        ProgressView::Ask(canonical) => ProgressView::Ask(
            SnapshotExactView::Source { platform, destination, canonical },
        ),
        ProgressView::Finish(Ok(source)) => ProgressView::Ask(
            SnapshotExactView::DestinationExists { platform, source, destination },
        ),
        ProgressView::Finish(Err(e)) => ProgressView::Finish(Err(e)),
    }
}

/// The source is resolved to a canonical directory; then the destination,
/// as given, must not exist.
pub open spec fn snapshot_exact_start(platform: Platform, source: Seq<u8>, destination: Seq<u8>) -> ProgressView<
    SnapshotExactView,
    SnapshotReceiptView,
> {
    snapshot_after_source(platform, destination, canonical_directory_start(source))
}

impl SnapshotExactView {
    pub open spec fn pending(self) -> RequestView {
        match self {
            SnapshotExactView::Source { canonical, .. } => canonical.pending(),
            SnapshotExactView::DestinationExists { destination, .. } =>
                RequestView::SymlinkMetadata(destination),
            SnapshotExactView::Parent { canonical, .. } => canonical.pending(),
            SnapshotExactView::Probe { probe, .. } => probe.pending(),
            SnapshotExactView::Copy { copy, .. } => copy.pending(),
            SnapshotExactView::FailedExists { destination, .. } => RequestView::SymlinkMetadata(
                destination,
            ),
            SnapshotExactView::Cleanup { removal, .. } => removal.pending(),
        }
    }

    pub open spec fn resume(self, reply: ReplyView) -> ProgressView<
        SnapshotExactView,
        SnapshotReceiptView,
    > {
        match self {
            SnapshotExactView::Source { platform, destination, canonical } => snapshot_after_source(
                platform,
                destination,
                canonical.resume(reply),
            ),
            SnapshotExactView::DestinationExists { platform, source, destination } => match exists_answer(
                reply,
            ) {
                Some(Ok(true)) => ProgressView::Finish(
                    Err(ErrorView::DestinationExists(destination)),
                ),
                Some(Ok(false)) => snapshot_after_parent(
                    platform,
                    source,
                    destination,
                    canonical_directory_start(parent_or_current(destination)),
                ),
                Some(Err(e)) => ProgressView::Finish(Err(e)),
                None => ProgressView::Ask(self),
            },
            SnapshotExactView::Parent { platform, source, destination, canonical } =>
                snapshot_after_parent(platform, source, destination, canonical.resume(reply)),
            SnapshotExactView::Probe { platform, source, destination, probe } =>
                snapshot_after_probe(platform, source, destination, probe.resume(reply)),
            SnapshotExactView::Copy { platform, source, destination, backend, copy } =>
                snapshot_after_copy(platform, source, destination, backend, copy.resume(reply)),
            SnapshotExactView::FailedExists { platform, source, destination, error } => match exists_answer(
                reply,
            ) {
                Some(Ok(true)) => snapshot_after_cleanup(
                    source,
                    destination,
                    error,
                    strategy_remove_start(platform, destination),
                ),
                Some(Ok(false)) => ProgressView::Finish(Err(error)),
                Some(Err(e)) => ProgressView::Finish(Err(e)),
                None => ProgressView::Ask(self),
            },
            SnapshotExactView::Cleanup { source, destination, error, removal } => snapshot_after_cleanup(
                source,
                destination,
                error,
                removal.resume(reply),
            ),
        }
    }
}

impl SnapshotExact {
    fn after_cleanup(source: Vec<u8>, destination: Vec<u8>, error: Error, p: Progress<StrategyRemove, ()>) -> (r:
        Progress<SnapshotExact, SnapshotReceipt>)
        ensures
            r@ == snapshot_after_cleanup(source@, destination@, error@, p@),
    {
        match p {
            Progress::Ask(removal) => Progress::Ask(
                SnapshotExact::Cleanup { source, destination, error, removal },
            ),
            Progress::Finish(Ok(())) => Progress::Finish(Err(error)),
            Progress::Finish(Err(cleanup)) => Progress::Finish(
                Err(
                    Error::CleanupAfterFailure {
                        snapshot: Box::new(error),
                        cleanup: Box::new(cleanup),
                    },
                ),
            ),
        }
    }

    fn after_copy(
        platform: Platform,
        source: Vec<u8>,
        destination: Vec<u8>,
        backend: Backend,
        p: Progress<StrategySnapshot, ()>,
    ) -> (r: Progress<SnapshotExact, SnapshotReceipt>)
        ensures
            r@ == snapshot_after_copy(platform, source@, destination@, backend, p@),
    {
        match p {
            Progress::Ask(copy) => Progress::Ask(
                SnapshotExact::Copy { platform, source, destination, backend, copy },
            ),
            Progress::Finish(Ok(())) => Progress::Finish(
                Ok(SnapshotReceipt { source, destination, backend }),
            ),
            Progress::Finish(Err(error)) => Progress::Ask(
                SnapshotExact::FailedExists { platform, source, destination, error },
            ),
        }
    }

    fn after_probe(
        platform: Platform,
        source: Vec<u8>,
        destination: Vec<u8>,
        p: Progress<StrategyProbe, Capability>,
    ) -> (r: Progress<SnapshotExact, SnapshotReceipt>)
        ensures
            r@ == snapshot_after_probe(platform, source@, destination@, p@),
    {
        match p {
            Progress::Ask(probe) => Progress::Ask(
                SnapshotExact::Probe { platform, source, destination, probe },
            ),
            Progress::Finish(Ok(capability)) => {
                let copy = StrategySnapshot::start(
                    platform,
                    copy_bytes(&source),
                    copy_bytes(&destination),
                    capability.backend,
                );
                SnapshotExact::after_copy(platform, source, destination, capability.backend, copy)
            },
            Progress::Finish(Err(e)) => Progress::Finish(Err(e)),
        }
    }

    fn with_parent(platform: Platform, source: Vec<u8>, destination: Vec<u8>, parent_dir: Vec<u8>) -> (r:
        Progress<SnapshotExact, SnapshotReceipt>)
        ensures
            r@ == snapshot_with_parent(platform, source@, destination@, parent_dir@),
    {
        match file_name_bytes(&destination) {
            None => Progress::Finish(
                Err(Error::InvalidPath(PathIssue::DestinationNoFinalComponent(destination))),
            ),
            Some(name) => {
                let resolved = join_bytes(&parent_dir, &name);
                if starts_with_bytes(&resolved, &source) {
                    Progress::Finish(Err(Error::DestinationInsideSource(resolved)))
                } else if starts_with_bytes(&source, &resolved) {
                    Progress::Finish(Err(Error::DestinationExists(destination)))
                } else {
                    let probe = StrategyProbe::start(platform, copy_bytes(&source), parent_dir);
                    SnapshotExact::after_probe(platform, source, resolved, probe)
                }
            },
        }
    }

    fn after_parent(
        platform: Platform,
        source: Vec<u8>,
        destination: Vec<u8>,
        p: Progress<CanonicalDirectory, Vec<u8>>,
    ) -> (r: Progress<SnapshotExact, SnapshotReceipt>)
        ensures
            r@ == snapshot_after_parent(platform, source@, destination@, p@),
    {
        match p {
            Progress::Ask(canonical) => Progress::Ask(
                SnapshotExact::Parent { platform, source, destination, canonical },
            ),
            Progress::Finish(Ok(parent_dir)) => SnapshotExact::with_parent(
                platform,
                source,
                destination,
                parent_dir,
            ),
            Progress::Finish(Err(e)) => Progress::Finish(Err(e)),
        }
    }

    fn after_source(platform: Platform, destination: Vec<u8>, p: Progress<CanonicalDirectory, Vec<u8>>) -> (r:
        Progress<SnapshotExact, SnapshotReceipt>)
        ensures
            r@ == snapshot_after_source(platform, destination@, p@),
    {
        match p {
            Progress::Ask(canonical) => Progress::Ask(
                SnapshotExact::Source { platform, destination, canonical },
            ),
            Progress::Finish(Ok(source)) => Progress::Ask(
                SnapshotExact::DestinationExists { platform, source, destination },
            ),
            Progress::Finish(Err(e)) => Progress::Finish(Err(e)),
        }
    }

    pub fn request(&self) -> (r: Request)
        ensures
            r@ == self@.pending(),
    {
        match self {
            SnapshotExact::Source { canonical, .. } => canonical.request(),
            SnapshotExact::DestinationExists { destination, .. } => Request::SymlinkMetadata(
                copy_bytes(destination),
            ),
            SnapshotExact::Parent { canonical, .. } => canonical.request(),
            SnapshotExact::Probe { probe, .. } => probe.request(),
            SnapshotExact::Copy { copy, .. } => copy.request(),
            SnapshotExact::FailedExists { destination, .. } => Request::SymlinkMetadata(
                copy_bytes(destination),
            ),
            SnapshotExact::Cleanup { removal, .. } => removal.request(),
        }
    }

    pub fn resume(self, reply: Reply) -> (r: Progress<SnapshotExact, SnapshotReceipt>)
        ensures
            r@ == self@.resume(reply@),
    {
        match self {
            SnapshotExact::Source { platform, destination, canonical } => SnapshotExact::after_source(
                platform,
                destination,
                canonical.resume(reply),
            ),
            SnapshotExact::DestinationExists { platform, source, destination } => match exists_answer_exec(
                reply,
            ) {
                Some(Ok(true)) => Progress::Finish(Err(Error::DestinationExists(destination))),
                Some(Ok(false)) => {
                    let parent_dir = parent_or_current_bytes(&destination);
                    SnapshotExact::after_parent(
                        platform,
                        source,
                        destination,
                        CanonicalDirectory::start(parent_dir),
                    )
                },
                Some(Err(e)) => Progress::Finish(Err(e)),
                None => Progress::Ask(
                    SnapshotExact::DestinationExists { platform, source, destination },
                ),
            },
            SnapshotExact::Parent { platform, source, destination, canonical } =>
                SnapshotExact::after_parent(platform, source, destination, canonical.resume(reply)),
            SnapshotExact::Probe { platform, source, destination, probe } =>
                SnapshotExact::after_probe(platform, source, destination, probe.resume(reply)),
            SnapshotExact::Copy { platform, source, destination, backend, copy } =>
                SnapshotExact::after_copy(platform, source, destination, backend, copy.resume(reply)),
            SnapshotExact::FailedExists { platform, source, destination, error } => match exists_answer_exec(
                reply,
            ) {
                Some(Ok(true)) => {
                    let removal = StrategyRemove::start(platform, copy_bytes(&destination));
                    SnapshotExact::after_cleanup(source, destination, error, removal)
                },
                Some(Ok(false)) => Progress::Finish(Err(error)),
                Some(Err(e)) => Progress::Finish(Err(e)),
                None => Progress::Ask(
                    SnapshotExact::FailedExists { platform, source, destination, error },
                ),
            },
            SnapshotExact::Cleanup { source, destination, error, removal } =>
                SnapshotExact::after_cleanup(source, destination, error, removal.resume(reply)),
        }
    }
}

/// Creates an exact copy-on-write snapshot of `source` as `destination`,
/// which must not exist and cannot lie inside the source. A partial
/// destination left by a failed snapshot is removed before returning. No
/// change is ever asked for at or below the source (see
/// `snapshot_never_changes_its_source`).
pub fn snapshot_exact(platform: Platform, source: Vec<u8>, destination: Vec<u8>) -> (r: Progress<
    SnapshotExact,
    SnapshotReceipt,
>)
    ensures
        r@ == snapshot_exact_start(platform, source@, destination@),
{
    let canonical = CanonicalDirectory::start(source);
    SnapshotExact::after_source(platform, destination, canonical)
}

// ---------------------------------------------------------------------------
// Removal.

/// Removing a snapshot; a path that does not exist is reported as not removed.
pub enum RemoveSnapshot {
    Exists { platform: Platform, destination: Vec<u8> },
    Removing { destination: Vec<u8>, removal: StrategyRemove },
}

pub enum RemoveSnapshotView {
    Exists { platform: Platform, destination: Seq<u8> },
    Removing { destination: Seq<u8>, removal: StrategyRemoveView },
}

impl View for RemoveSnapshot {
    type V = RemoveSnapshotView;

    open spec fn view(&self) -> RemoveSnapshotView {
        match self {
            RemoveSnapshot::Exists { platform, destination } => RemoveSnapshotView::Exists {
                platform: *platform,
                destination: destination@,
            },
            RemoveSnapshot::Removing { destination, removal } => RemoveSnapshotView::Removing {
                destination: destination@,
                removal: removal@,
            },
        }
    }
}

pub open spec fn remove_after_removal(destination: Seq<u8>, p: ProgressView<StrategyRemoveView, ()>) -> ProgressView<
    RemoveSnapshotView,
    RemoveReceiptView,
> {
    match p {
        ProgressView::Ask(removal) => ProgressView::Ask(
            RemoveSnapshotView::Removing { destination, removal },
        ),
        ProgressView::Finish(Ok(())) => ProgressView::Finish(
            Ok(RemoveReceiptView { destination, removed: true }),
        ),
        ProgressView::Finish(Err(e)) => ProgressView::Finish(Err(e)),
    }
}

pub open spec fn remove_snapshot_start(platform: Platform, destination: Seq<u8>) -> ProgressView<
    RemoveSnapshotView,
    RemoveReceiptView,
> {
    ProgressView::Ask(RemoveSnapshotView::Exists { platform, destination })
}

impl RemoveSnapshotView {
    pub open spec fn pending(self) -> RequestView {
        match self {
            RemoveSnapshotView::Exists { destination, .. } => RequestView::SymlinkMetadata(
                destination,
            ),
            RemoveSnapshotView::Removing { removal, .. } => removal.pending(),
        }
    }

    pub open spec fn resume(self, reply: ReplyView) -> ProgressView<
        RemoveSnapshotView,
        RemoveReceiptView,
    > {
        match self {
            RemoveSnapshotView::Exists { platform, destination } => match exists_answer(reply) {
                Some(Ok(false)) => ProgressView::Finish(
                    Ok(RemoveReceiptView { destination, removed: false }),
                ),
                Some(Ok(true)) => remove_after_removal(
                    destination,
                    strategy_remove_start(platform, destination),
                ),
                Some(Err(e)) => ProgressView::Finish(Err(e)),
                None => ProgressView::Ask(self),
            },
            RemoveSnapshotView::Removing { destination, removal } => remove_after_removal(
                destination,
                removal.resume(reply),
            ),
        }
    }
}

impl RemoveSnapshot {
    fn after_removal(destination: Vec<u8>, p: Progress<StrategyRemove, ()>) -> (r: Progress<
        RemoveSnapshot,
        RemoveReceipt,
    >)
        ensures
            r@ == remove_after_removal(destination@, p@),
    {
        match p {
            Progress::Ask(removal) => Progress::Ask(RemoveSnapshot::Removing { destination, removal }),
            Progress::Finish(Ok(())) => Progress::Finish(
                Ok(RemoveReceipt { destination, removed: true }),
            ),
            Progress::Finish(Err(e)) => Progress::Finish(Err(e)),
        }
    }

    pub fn request(&self) -> (r: Request)
        ensures
            r@ == self@.pending(),
    {
        match self {
            RemoveSnapshot::Exists { destination, .. } => Request::SymlinkMetadata(
                copy_bytes(destination),
            ),
            RemoveSnapshot::Removing { removal, .. } => removal.request(),
        }
    }

    pub fn resume(self, reply: Reply) -> (r: Progress<RemoveSnapshot, RemoveReceipt>)
        ensures
            r@ == self@.resume(reply@),
    {
        match self {
            RemoveSnapshot::Exists { platform, destination } => match exists_answer_exec(reply) {
                Some(Ok(false)) => Progress::Finish(
                    Ok(RemoveReceipt { destination, removed: false }),
                ),
                Some(Ok(true)) => {
                    let removal = StrategyRemove::start(platform, copy_bytes(&destination));
                    RemoveSnapshot::after_removal(destination, removal)
                },
                Some(Err(e)) => Progress::Finish(Err(e)),
                None => Progress::Ask(RemoveSnapshot::Exists { platform, destination }),
            },
            RemoveSnapshot::Removing { destination, removal } => RemoveSnapshot::after_removal(
                destination,
                removal.resume(reply),
            ),
        }
    }
}

/// Removes a snapshot. Removing a path that does not exist succeeds and
/// reports `removed = false`. Nothing outside the destination is asked to
/// change (see `removal_stays_in_its_destination`).
pub fn remove_snapshot(platform: Platform, destination: Vec<u8>) -> (r: Progress<
    RemoveSnapshot,
    RemoveReceipt,
>)
    ensures
        r@ == remove_snapshot_start(platform, destination@),
{
    Progress::Ask(RemoveSnapshot::Exists { platform, destination })
}

// ---------------------------------------------------------------------------
// Preparing a snapshot source.

/// Creating an empty directory to serve later as a snapshot source.
pub enum PrepareSnapshotSource {
    Exists { platform: Platform, path: Vec<u8> },
    Parent { platform: Platform, path: Vec<u8>, canonical: CanonicalDirectory },
    Creating { path: Vec<u8>, prepare: StrategyPrepare },
}

pub enum PrepareSnapshotSourceView {
    Exists { platform: Platform, path: Seq<u8> },
    Parent { platform: Platform, path: Seq<u8>, canonical: CanonicalDirectoryView },
    Creating { path: Seq<u8>, prepare: StrategyPrepareView },
}

impl View for PrepareSnapshotSource {
    type V = PrepareSnapshotSourceView;

    open spec fn view(&self) -> PrepareSnapshotSourceView {
        match self {
            PrepareSnapshotSource::Exists { platform, path } => PrepareSnapshotSourceView::Exists {
                platform: *platform,
                path: path@,
            },
            PrepareSnapshotSource::Parent { platform, path, canonical } =>
                PrepareSnapshotSourceView::Parent {
                platform: *platform,
                path: path@,
                canonical: canonical@,
            },
            PrepareSnapshotSource::Creating { path, prepare } =>
                PrepareSnapshotSourceView::Creating { path: path@, prepare: prepare@ },
        }
    }
}

pub open spec fn prepare_after_creation(path: Seq<u8>, p: ProgressView<StrategyPrepareView, ()>) -> ProgressView<
    PrepareSnapshotSourceView,
    Seq<u8>,
> {
    match p {
        ProgressView::Ask(prepare) => ProgressView::Ask(
            PrepareSnapshotSourceView::Creating { path, prepare },
        ),
        ProgressView::Finish(Ok(())) => ProgressView::Finish(Ok(path)),
        ProgressView::Finish(Err(e)) => ProgressView::Finish(Err(e)),
    }
}

/// The new source is the canonical parent joined with the path's final name.
pub open spec fn prepare_with_parent(platform: Platform, path: Seq<u8>, parent_dir: Seq<u8>) -> ProgressView<
    PrepareSnapshotSourceView,
    Seq<u8>,
> {
    match file_name(path) {
        None => ProgressView::Finish(
            Err(ErrorView::InvalidPath(PathIssueView::NoFinalComponent(path))),
        ),
        Some(name) => {
            let resolved = join(parent_dir, name);
            prepare_after_creation(resolved, strategy_prepare_start(platform, resolved))
        },
    }
}

pub open spec fn prepare_after_parent(
    platform: Platform,
    path: Seq<u8>,
    p: ProgressView<CanonicalDirectoryView, Seq<u8>>,
) -> ProgressView<PrepareSnapshotSourceView, Seq<u8>> {
    match p {
        ProgressView::Ask(canonical) => ProgressView::Ask(
            PrepareSnapshotSourceView::Parent { platform, path, canonical },
        ),
        ProgressView::Finish(Ok(parent_dir)) => prepare_with_parent(platform, path, parent_dir),
        ProgressView::Finish(Err(e)) => ProgressView::Finish(Err(e)),
    }
}

/// The path must not exist.
pub open spec fn prepare_snapshot_source_start(platform: Platform, path: Seq<u8>) -> ProgressView<
    PrepareSnapshotSourceView,
    Seq<u8>,
> {
    ProgressView::Ask(PrepareSnapshotSourceView::Exists { platform, path })
}

impl PrepareSnapshotSourceView {
    pub open spec fn pending(self) -> RequestView {
        match self {
            PrepareSnapshotSourceView::Exists { path, .. } => RequestView::SymlinkMetadata(path),
            PrepareSnapshotSourceView::Parent { canonical, .. } => canonical.pending(),
            PrepareSnapshotSourceView::Creating { prepare, .. } => prepare.pending(),
        }
    }

    pub open spec fn resume(self, reply: ReplyView) -> ProgressView<
        PrepareSnapshotSourceView,
        Seq<u8>,
    > {
        match self {
            PrepareSnapshotSourceView::Exists { platform, path } => match exists_answer(reply) {
                Some(Ok(true)) => ProgressView::Finish(Err(ErrorView::DestinationExists(path))),
                Some(Ok(false)) => prepare_after_parent(
                    platform,
                    path,
                    canonical_directory_start(parent_or_current(path)),
                ),
                Some(Err(e)) => ProgressView::Finish(Err(e)),
                None => ProgressView::Ask(self),
            },
            PrepareSnapshotSourceView::Parent { platform, path, canonical } => prepare_after_parent(
                platform,
                path,
                canonical.resume(reply),
            ),
            PrepareSnapshotSourceView::Creating { path, prepare } => prepare_after_creation(
                path,
                prepare.resume(reply),
            ),
        }
    }
}

impl PrepareSnapshotSource {
    fn after_creation(path: Vec<u8>, p: Progress<StrategyPrepare, ()>) -> (r: Progress<
        PrepareSnapshotSource,
        Vec<u8>,
    >)
        ensures
            r@ == prepare_after_creation(path@, p@),
    {
        match p {
            Progress::Ask(prepare) => Progress::Ask(PrepareSnapshotSource::Creating { path, prepare }),
            Progress::Finish(Ok(())) => Progress::Finish(Ok(path)),
            Progress::Finish(Err(e)) => Progress::Finish(Err(e)),
        }
    }

    fn with_parent(platform: Platform, path: Vec<u8>, parent_dir: Vec<u8>) -> (r: Progress<
        PrepareSnapshotSource,
        Vec<u8>,
    >)
        ensures
            r@ == prepare_with_parent(platform, path@, parent_dir@),
    {
        match file_name_bytes(&path) {
            None => Progress::Finish(Err(Error::InvalidPath(PathIssue::NoFinalComponent(path)))),
            Some(name) => {
                let resolved = join_bytes(&parent_dir, &name);
                let prepare = StrategyPrepare::start(platform, copy_bytes(&resolved));
                PrepareSnapshotSource::after_creation(resolved, prepare)
            },
        }
    }

    fn after_parent(platform: Platform, path: Vec<u8>, p: Progress<CanonicalDirectory, Vec<u8>>) -> (r:
        Progress<PrepareSnapshotSource, Vec<u8>>)
        ensures
            r@ == prepare_after_parent(platform, path@, p@),
    {
        match p {
            Progress::Ask(canonical) => Progress::Ask(
                PrepareSnapshotSource::Parent { platform, path, canonical },
            ),
            Progress::Finish(Ok(parent_dir)) => PrepareSnapshotSource::with_parent(
                platform,
                path,
                parent_dir,
            ),
            Progress::Finish(Err(e)) => Progress::Finish(Err(e)),
        }
    }

    pub fn request(&self) -> (r: Request)
        ensures
            r@ == self@.pending(),
    {
        match self {
            PrepareSnapshotSource::Exists { path, .. } => Request::SymlinkMetadata(copy_bytes(path)),
            PrepareSnapshotSource::Parent { canonical, .. } => canonical.request(),
            PrepareSnapshotSource::Creating { prepare, .. } => prepare.request(),
        }
    }

    pub fn resume(self, reply: Reply) -> (r: Progress<PrepareSnapshotSource, Vec<u8>>)
        ensures
            r@ == self@.resume(reply@),
    {
        match self {
            PrepareSnapshotSource::Exists { platform, path } => match exists_answer_exec(reply) {
                Some(Ok(true)) => Progress::Finish(Err(Error::DestinationExists(path))),
                Some(Ok(false)) => {
                    let parent_dir = parent_or_current_bytes(&path);
                    PrepareSnapshotSource::after_parent(
                        platform,
                        path,
                        CanonicalDirectory::start(parent_dir),
                    )
                },
                Some(Err(e)) => Progress::Finish(Err(e)),
                None => Progress::Ask(PrepareSnapshotSource::Exists { platform, path }),
            },
            PrepareSnapshotSource::Parent { platform, path, canonical } =>
                PrepareSnapshotSource::after_parent(platform, path, canonical.resume(reply)),
            PrepareSnapshotSource::Creating { path, prepare } => PrepareSnapshotSource::after_creation(
                path,
                prepare.resume(reply),
            ),
        }
    }
}

/// Creates an empty directory suitable for later use as a snapshot source: a
/// Btrfs subvolume where its parent lies on Btrfs, a plain directory
/// elsewhere. The path must not exist; the result is the canonical parent
/// joined with the path's final name.
pub fn prepare_snapshot_source(platform: Platform, path: Vec<u8>) -> (r: Progress<
    PrepareSnapshotSource,
    Vec<u8>,
>)
    ensures
        r@ == prepare_snapshot_source_start(platform, path@),
{
    Progress::Ask(PrepareSnapshotSource::Exists { platform, path })
}

// ---------------------------------------------------------------------------
// Laws.

/// What every state of a snapshot keeps: once the destination is resolved, it
/// does not lie inside the source.
pub open spec fn snapshot_state_ok(s: SnapshotExactView) -> bool {
    match s {
        SnapshotExactView::Probe { source, destination, .. } => !path_starts_with(
            destination,
            source,
        ),
        SnapshotExactView::Copy { source, destination, .. } => !path_starts_with(
            destination,
            source,
        ),
        _ => true,
    }
}

/// A snapshot begins in a state that keeps its destination outside its source.
pub proof fn snapshot_begins_ok(platform: Platform, source: Seq<u8>, destination: Seq<u8>)
    ensures
        snapshot_exact_start(platform, source, destination) matches ProgressView::Ask(s)
            && snapshot_state_ok(s) && snapshot_changes_ok(s),
{
}

/// A snapshot only ever succeeds with a destination that does not lie inside
/// its source, and every step keeps that so.
pub proof fn snapshot_destination_stays_outside_source(s: SnapshotExactView, reply: ReplyView)
    requires
        snapshot_state_ok(s),
    ensures
        match s.resume(reply) {
            ProgressView::Ask(t) => snapshot_state_ok(t),
            ProgressView::Finish(Ok(receipt)) => !path_starts_with(
                receipt.destination,
                receipt.source,
            ),
            ProgressView::Finish(Err(_)) => true,
        },
{
}

/// An existing destination is refused, named as it was given.
pub proof fn existing_destination_is_refused(
    platform: Platform,
    source: Seq<u8>,
    destination: Seq<u8>,
    meta: crate::io::FileMeta,
)
    ensures
        (SnapshotExactView::DestinationExists { platform, source, destination }).pending()
            == RequestView::SymlinkMetadata(destination),
        (SnapshotExactView::DestinationExists { platform, source, destination }).resume(
            ReplyView::Meta(meta),
        ) == ProgressView::<SnapshotExactView, SnapshotReceiptView>::Finish(
            Err(ErrorView::DestinationExists(destination)),
        ),
        (PrepareSnapshotSourceView::Exists { platform, path: destination }).resume(
            ReplyView::Meta(meta),
        ) == ProgressView::<PrepareSnapshotSourceView, Seq<u8>>::Finish(
            Err(ErrorView::DestinationExists(destination)),
        ),
{
}

/// When the backend fails, the destination is looked for; if it exists it is
/// removed; the backend's error is returned when the removal succeeds or
/// nothing was there, and both errors when the removal fails too.
pub proof fn failed_snapshot_removes_partial_destination(
    platform: Platform,
    source: Seq<u8>,
    destination: Seq<u8>,
    backend: Backend,
    copy: StrategySnapshotView,
    reply: ReplyView,
    error: ErrorView,
    meta: crate::io::FileMeta,
    missing: IoFailure,
    removal: StrategyRemoveView,
    removal_reply: ReplyView,
    cleanup: ErrorView,
)
    requires
        copy.resume(reply) == ProgressView::<StrategySnapshotView, ()>::Finish(Err(error)),
        missing.kind == IoKind::NotFound,
        removal.resume(removal_reply) == ProgressView::<StrategyRemoveView, ()>::Finish(
            Err(cleanup),
        ),
    ensures
        ({
            let copying = SnapshotExactView::Copy { platform, source, destination, backend, copy };
            let looking = SnapshotExactView::FailedExists { platform, source, destination, error };
            &&& copying.resume(reply) == ProgressView::<
                SnapshotExactView,
                SnapshotReceiptView,
            >::Ask(looking)
            &&& looking.pending() == RequestView::SymlinkMetadata(destination)
            &&& looking.resume(ReplyView::Meta(meta)) == snapshot_after_cleanup(
                source,
                destination,
                error,
                strategy_remove_start(platform, destination),
            )
            &&& looking.resume(ReplyView::Failed(missing)) == ProgressView::<
                SnapshotExactView,
                SnapshotReceiptView,
            >::Finish(Err(error))
        }),
        (SnapshotExactView::Cleanup { source, destination, error, removal }).resume(removal_reply)
            == ProgressView::<
            SnapshotExactView,
            SnapshotReceiptView,
        >::Finish(
            Err(
                ErrorView::CleanupAfterFailure {
                    snapshot: Box::new(error),
                    cleanup: Box::new(cleanup),
                },
            ),
        ),
{
}

/// Removing a path that is reported missing succeeds, reports that nothing
/// was removed, and asks for nothing more: removal is idempotent.
pub proof fn removing_a_missing_path_removes_nothing(
    platform: Platform,
    destination: Seq<u8>,
    missing: IoFailure,
)
    requires
        missing.kind == IoKind::NotFound,
    ensures
        remove_snapshot_start(platform, destination) == ProgressView::<
            RemoveSnapshotView,
            RemoveReceiptView,
        >::Ask(RemoveSnapshotView::Exists { platform, destination }),
        (RemoveSnapshotView::Exists { platform, destination }).pending()
            == RequestView::SymlinkMetadata(destination),
        (RemoveSnapshotView::Exists { platform, destination }).resume(ReplyView::Failed(missing))
            == ProgressView::<RemoveSnapshotView, RemoveReceiptView>::Finish(
            Ok(RemoveReceiptView { destination, removed: false }),
        ),
{
}

/// A removal that completes reports the destination it was given and that
/// it was removed.
pub proof fn completed_removal_reports_removed(
    destination: Seq<u8>,
    removal: StrategyRemoveView,
    reply: ReplyView,
)
    requires
        removal.resume(reply) == ProgressView::<StrategyRemoveView, ()>::Finish(Ok(())),
    ensures
        (RemoveSnapshotView::Removing { destination, removal }).resume(reply) == ProgressView::<
            RemoveSnapshotView,
            RemoveReceiptView,
        >::Finish(Ok(RemoveReceiptView { destination, removed: true })),
{
}

/// The path that a removal removes.
pub open spec fn removal_destination(s: RemoveSnapshotView) -> Seq<u8> {
    match s {
        RemoveSnapshotView::Exists { destination, .. } => destination,
        RemoveSnapshotView::Removing { destination, .. } => destination,
    }
}

/// A removal whose work is aimed at its destination.
pub open spec fn removal_ok(s: RemoveSnapshotView) -> bool {
    match s {
        RemoveSnapshotView::Exists { .. } => true,
        RemoveSnapshotView::Removing { destination, removal } => strategy_remove_ok(
            removal,
            destination,
        ),
    }
}

/// Removing a snapshot changes nothing but its destination and what lies
/// below it; it reports `removed: false` only before it has asked for any
/// change, when the destination was found missing.
pub proof fn removal_changes_only_destination(s: RemoveSnapshotView, reply: ReplyView)
    requires
        removal_ok(s),
    ensures
        changes_only_below(s.pending(), removal_destination(s)),
        s is Exists ==> !changes_filesystem(s.pending()),
        s is Removing ==> (s.resume(reply) matches ProgressView::Finish(Ok(receipt))
            ==> receipt.removed),
        s.resume(reply) matches ProgressView::Ask(t) ==> removal_ok(t) && removal_destination(t)
            == removal_destination(s),
{
    match s {
        RemoveSnapshotView::Exists { platform, destination } => {
            strategy_remove_begins_ok(platform, destination);
        },
        RemoveSnapshotView::Removing { destination, removal } => {
            strategy_remove_changes_only_target(removal, destination, reply);
        },
    }
}

/// The state a removal reaches after the given replies, or how it finished.
pub open spec fn removal_run(s: RemoveSnapshotView, replies: Seq<ReplyView>) -> ProgressView<
    RemoveSnapshotView,
    RemoveReceiptView,
>
    decreases replies.len(),
{
    if replies.len() == 0 {
        ProgressView::Ask(s)
    } else {
        match s.resume(replies[0]) {
            ProgressView::Ask(t) => removal_run(t, replies.drop_first()),
            ProgressView::Finish(r) => ProgressView::Finish(r),
        }
    }
}

/// Over a whole run, whatever the replies: a removal begun for `destination`
/// asks for no change outside `destination` and what lies below it.
pub proof fn removal_stays_in_its_destination(
    platform: Platform,
    destination: Seq<u8>,
    replies: Seq<ReplyView>,
)
    ensures
        removal_run(RemoveSnapshotView::Exists { platform, destination }, replies) matches ProgressView::Ask(
            t,
        ) ==> changes_only_below(t.pending(), destination),
{
    lemma_removal_run(RemoveSnapshotView::Exists { platform, destination }, replies);
}

proof fn lemma_removal_run(s: RemoveSnapshotView, replies: Seq<ReplyView>)
    requires
        removal_ok(s),
    ensures
        removal_run(s, replies) matches ProgressView::Ask(t) ==> removal_ok(t) && removal_destination(t)
            == removal_destination(s) && changes_only_below(t.pending(), removal_destination(s)),
    decreases replies.len(),
{
    if replies.len() == 0 {
        removal_changes_only_destination(s, ReplyView::Done);
    } else {
        removal_changes_only_destination(s, replies[0]);
        if let ProgressView::Ask(t) = s.resume(replies[0]) {
            lemma_removal_run(t, replies.drop_first());
        }
    }
}

/// A capability that claims constant-time metadata exactly for a Btrfs
/// snapshot: APFS clones and reflink trees walk every entry.
pub open spec fn honest_capability(c: Capability) -> bool {
    c.constant_time_metadata == (c.backend == Backend::BtrfsSnapshot)
}

/// Every capability a probe reports is honest about constant-time metadata.
pub proof fn probe_capability_is_honest(s: ProbeView, reply: ReplyView)
    ensures
        s.resume(reply) matches ProgressView::Finish(Ok(c)) ==> honest_capability(c),
{
    match s {
        ProbeView::Strategy { probe: StrategyProbeView::Linux { probe } } => {
            linux_probe_capability_is_honest(probe, reply);
        },
        _ => {},
    }
}

pub open spec fn probe_ok(s: ProbeView) -> bool {
    match s {
        ProbeView::Strategy { probe: StrategyProbeView::Linux { probe } } => linux_probe_ok(probe),
        _ => true,
    }
}

/// A probe begins in a state that changes nothing.
pub proof fn probe_begins_ok(platform: Platform, source: Seq<u8>, root: Seq<u8>)
    ensures
        probe_start(platform, source, root) matches ProgressView::Ask(s) ==> probe_ok(s),
{
}

/// The canonical source a probe works with, once it has been resolved.
pub open spec fn probe_source_of(s: ProbeView) -> Option<Seq<u8>> {
    match s {
        ProbeView::Source { .. } => None,
        ProbeView::Root { source, .. } => Some(source),
        ProbeView::Strategy { probe } => match probe {
            StrategyProbeView::Linux { probe } => Some(linux_probe_source(probe)),
            StrategyProbeView::MacOs { probe } => Some(apfs_probe_source(probe)),
        },
    }
}

/// A probe state whose request changes nothing at or below its source:
/// before the source is resolved it changes nothing at all.
pub open spec fn probe_spares_source(s: ProbeView) -> bool {
    match probe_source_of(s) {
        Some(src) => leaves_untouched(s.pending(), src),
        None => !changes_filesystem(s.pending()),
    }
}

/// The probe never asks to change its source: it asks for no change at or
/// below the canonical source, and the only changes it asks for write,
/// reflink and remove the two probe files of the (canonical) destination
/// root that the Linux backend works in. Once resolved, the source stays
/// the same.
pub proof fn probe_changes_only_probe_files(s: ProbeView, reply: ReplyView)
    requires
        probe_ok(s),
    ensures
        probe_spares_source(s),
        changes_filesystem(s.pending()) ==> (s matches ProbeView::Strategy {
            probe: StrategyProbeView::Linux { probe },
        } && probe_file_request(linux_probe_root(probe), s.pending())),
        s.resume(reply) matches ProgressView::Ask(t) ==> probe_ok(t) && (probe_source_of(s) is Some
            ==> probe_source_of(t) == probe_source_of(s)),
{
    match s {
        ProbeView::Strategy { probe: StrategyProbeView::Linux { probe } } => {
            linux_probe_touches_only_probe_files(probe, reply);
        },
        ProbeView::Root { platform, source, canonical } => {
            if let ProgressView::Finish(Ok(root)) = canonical.resume(reply) {
                linux_probe_begins_ok(source, root);
            }
        },
        _ => {},
    }
}

/// The state a probe reaches after the given replies, or how it finished.
pub open spec fn probe_run(s: ProbeView, replies: Seq<ReplyView>) -> ProgressView<ProbeView, Capability>
    decreases replies.len(),
{
    if replies.len() == 0 {
        ProgressView::Ask(s)
    } else {
        match s.resume(replies[0]) {
            ProgressView::Ask(t) => probe_run(t, replies.drop_first()),
            ProgressView::Finish(r) => ProgressView::Finish(r),
        }
    }
}

/// Over a whole run, whatever the replies: every request a probe asks for
/// changes nothing at or below its canonical source, and that source never
/// changes once resolved.
pub proof fn probe_never_changes_its_source(s: ProbeView, replies: Seq<ReplyView>)
    requires
        probe_ok(s),
    ensures
        probe_run(s, replies) matches ProgressView::Ask(t) ==> probe_ok(t) && probe_spares_source(t)
            && (probe_source_of(s) is Some ==> probe_source_of(t) == probe_source_of(s)),
    decreases replies.len(),
{
    if replies.len() == 0 {
        probe_changes_only_probe_files(s, ReplyView::Done);
    } else {
        probe_changes_only_probe_files(s, replies[0]);
        if let ProgressView::Ask(t) = s.resume(replies[0]) {
            probe_never_changes_its_source(t, replies.drop_first());
        }
    }
}

/// Two paths of which neither lies at or below the other.
pub open spec fn apart(a: Seq<u8>, b: Seq<u8>) -> bool {
    !path_starts_with(a, b) && !path_starts_with(b, a)
}

/// What a snapshot keeps about the changes it asks for: the canonical source
/// is not empty; once the destination is resolved, source and destination
/// lie apart; a Linux probe works with that source in the directory that will
/// hold the destination; the backend's work and the cleanup are aimed at the
/// destination.
pub open spec fn snapshot_changes_ok(s: SnapshotExactView) -> bool {
    match s {
        SnapshotExactView::Source { canonical, .. } => canonical_ok(canonical),
        SnapshotExactView::DestinationExists { source, .. } => source.len() > 0,
        SnapshotExactView::Parent { source, .. } => source.len() > 0,
        SnapshotExactView::Probe { source, destination, probe, .. } => source.len() > 0 && apart(
            source,
            destination,
        ) && match probe {
            StrategyProbeView::Linux { probe } => linux_probe_ok(probe) && linux_probe_source(probe)
                == source && path_starts_with(destination, linux_probe_root(probe)),
            _ => true,
        },
        SnapshotExactView::Copy { source, destination, copy, .. } => source.len() > 0 && apart(
            source,
            destination,
        ) && strategy_snapshot_ok(copy) && strategy_snapshot_target(copy) == destination,
        SnapshotExactView::FailedExists { source, destination, .. } => apart(source, destination),
        SnapshotExactView::Cleanup { source, destination, removal, .. } => apart(source, destination)
            && strategy_remove_ok(removal, destination),
    }
}

/// The canonical source of a snapshot, once it has been resolved.
pub open spec fn snapshot_source_of(s: SnapshotExactView) -> Option<Seq<u8>> {
    match s {
        SnapshotExactView::Source { .. } => None,
        SnapshotExactView::DestinationExists { source, .. } => Some(source),
        SnapshotExactView::Parent { source, .. } => Some(source),
        SnapshotExactView::Probe { source, .. } => Some(source),
        SnapshotExactView::Copy { source, .. } => Some(source),
        SnapshotExactView::FailedExists { source, .. } => Some(source),
        SnapshotExactView::Cleanup { source, .. } => Some(source),
    }
}

/// A snapshot state whose request changes nothing at or below its source:
/// before the source is resolved it changes nothing at all.
pub open spec fn snapshot_spares_source(s: SnapshotExactView) -> bool {
    match snapshot_source_of(s) {
        Some(src) => leaves_untouched(s.pending(), src),
        None => !changes_filesystem(s.pending()),
    }
}

/// A snapshot never asks to change anything at or below its canonical
/// source. The only changes it asks for are the probe files in the directory
/// that will hold the destination, the destination and what lies below it
/// while the backend works, and the destination and what lies below it
/// while a failed snapshot is cleaned up. Once resolved, the source stays
/// the same.
pub proof fn snapshot_changes_only_destination(s: SnapshotExactView, reply: ReplyView)
    requires
        snapshot_changes_ok(s),
    ensures
        snapshot_spares_source(s),
        changes_filesystem(s.pending()) ==> match s {
            SnapshotExactView::Probe { destination, probe, .. } => match probe {
                StrategyProbeView::Linux { probe } => probe_file_request(
                    linux_probe_root(probe),
                    s.pending(),
                ) && path_starts_with(destination, linux_probe_root(probe)),
                _ => false,
            },
            SnapshotExactView::Copy { destination, .. } => changes_only_below(
                s.pending(),
                destination,
            ),
            SnapshotExactView::Cleanup { destination, .. } => changes_only_below(
                s.pending(),
                destination,
            ),
            _ => false,
        },
        s.resume(reply) matches ProgressView::Ask(t) ==> snapshot_changes_ok(t) && (
        snapshot_source_of(s) is Some ==> snapshot_source_of(t) == snapshot_source_of(s)),
{
    match s {
        SnapshotExactView::Source { canonical, .. } => {
            canonical_directory_is_nonempty(canonical, reply);
        },
        SnapshotExactView::Parent { platform, source, destination, canonical } => {
            if let ProgressView::Finish(Ok(parent_dir)) = canonical.resume(reply) {
                if let Some(name) = file_name(destination) {
                    file_name_is_plain(destination);
                    join_names_the_child(parent_dir, name);
                    linux_probe_begins_ok(source, parent_dir);
                }
            }
        },
        SnapshotExactView::Probe { platform, source, destination, probe } => {
            if let StrategyProbeView::Linux { probe: p } = probe {
                linux_probe_touches_only_probe_files(p, reply);
            }
            if let ProgressView::Finish(Ok(c)) = probe.resume(reply) {
                strategy_snapshot_begins_ok(platform, source, destination, c.backend);
            }
        },
        SnapshotExactView::Copy { source, destination, copy, .. } => {
            strategy_snapshot_changes_only_destination(copy, reply);
            changes_below_spare_others(s.pending(), destination, source);
        },
        SnapshotExactView::FailedExists { platform, destination, .. } => {
            strategy_remove_begins_ok(platform, destination);
        },
        SnapshotExactView::Cleanup { source, destination, removal, .. } => {
            strategy_remove_changes_only_target(removal, destination, reply);
            changes_below_spare_others(s.pending(), destination, source);
        },
        _ => {},
    }
}

/// The state a snapshot reaches after the given replies, or how it finished.
pub open spec fn snapshot_run(s: SnapshotExactView, replies: Seq<ReplyView>) -> ProgressView<
    SnapshotExactView,
    SnapshotReceiptView,
>
    decreases replies.len(),
{
    if replies.len() == 0 {
        ProgressView::Ask(s)
    } else {
        match s.resume(replies[0]) {
            ProgressView::Ask(t) => snapshot_run(t, replies.drop_first()),
            ProgressView::Finish(r) => ProgressView::Finish(r),
        }
    }
}

/// Over a whole run, whatever the replies, the cleanup of a failed snapshot
/// included: every request a snapshot asks for changes nothing at or below
/// its canonical source, and that source never changes once resolved.
pub proof fn snapshot_never_changes_its_source(s: SnapshotExactView, replies: Seq<ReplyView>)
    requires
        snapshot_changes_ok(s),
    ensures
        snapshot_run(s, replies) matches ProgressView::Ask(t) ==> snapshot_changes_ok(t)
            && snapshot_spares_source(t) && (snapshot_source_of(s) is Some ==> snapshot_source_of(t)
            == snapshot_source_of(s)),
    decreases replies.len(),
{
    if replies.len() == 0 {
        snapshot_changes_only_destination(s, ReplyView::Done);
    } else {
        snapshot_changes_only_destination(s, replies[0]);
        if let ProgressView::Ask(t) = s.resume(replies[0]) {
            snapshot_never_changes_its_source(t, replies.drop_first());
        }
    }
}

/// The resolved destination of a snapshot, and a prepared source, keep the
/// final name they were given and lie in the canonical directory that holds
/// them.
pub proof fn resolved_path_keeps_its_name(platform: Platform, source: Seq<u8>, path: Seq<u8>, parent_dir: Seq<u8>)
    ensures
        snapshot_with_parent(platform, source, path, parent_dir) matches ProgressView::Ask(
            SnapshotExactView::Probe { destination, .. },
        ) ==> file_name(destination) == file_name(path) && path_starts_with(destination, parent_dir),
        prepare_with_parent(platform, path, parent_dir) matches ProgressView::Finish(Ok(prepared))
            ==> file_name(prepared) == file_name(path) && path_starts_with(prepared, parent_dir),
        prepare_with_parent(platform, path, parent_dir) matches ProgressView::Ask(
            PrepareSnapshotSourceView::Creating { path: prepared, .. },
        ) ==> file_name(prepared) == file_name(path) && path_starts_with(prepared, parent_dir),
{
    if let Some(name) = file_name(path) {
        file_name_is_plain(path);
        join_names_the_child(parent_dir, name);
    }
}

/// A probe run from where `p` stands: a finished probe stays finished.
pub open spec fn probe_run_from(p: ProgressView<ProbeView, Capability>, replies: Seq<ReplyView>) -> ProgressView<
    ProbeView,
    Capability,
> {
    match p {
        ProgressView::Ask(s) => probe_run(s, replies),
        ProgressView::Finish(r) => ProgressView::Finish(r),
    }
}

/// A snapshot run from where `p` stands: a finished snapshot stays finished.
pub open spec fn snapshot_run_from(
    p: ProgressView<SnapshotExactView, SnapshotReceiptView>,
    replies: Seq<ReplyView>,
) -> ProgressView<SnapshotExactView, SnapshotReceiptView> {
    match p {
        ProgressView::Ask(s) => snapshot_run(s, replies),
        ProgressView::Finish(r) => ProgressView::Finish(r),
    }
}

/// Where a backend probe begun as `p` stands after the given replies, and
/// how many of them it took: none once it has finished.
pub open spec fn strategy_probe_outcome(
    p: ProgressView<StrategyProbeView, Capability>,
    replies: Seq<ReplyView>,
) -> (ProgressView<StrategyProbeView, Capability>, nat)
    decreases replies.len(),
{
    match p {
        ProgressView::Ask(s) => if replies.len() == 0 {
            (p, 0)
        } else {
            let o = strategy_probe_outcome(s.resume(replies[0]), replies.drop_first());
            (o.0, o.1 + 1)
        },
        ProgressView::Finish(_) => (p, 0),
    }
}

proof fn lemma_outcome_takes_at_most_all(p: ProgressView<StrategyProbeView, Capability>, replies: Seq<ReplyView>)
    ensures
        strategy_probe_outcome(p, replies).1 <= replies.len(),
    decreases replies.len(),
{
    if let ProgressView::Ask(s) = p {
        if replies.len() > 0 {
            lemma_outcome_takes_at_most_all(s.resume(replies[0]), replies.drop_first());
        }
    }
}

/// A probe reports what the backend's probe reports.
proof fn lemma_probe_follows_strategy(sp: ProgressView<StrategyProbeView, Capability>, replies: Seq<ReplyView>)
    ensures
        probe_run_from(probe_after_strategy(sp), replies) == probe_after_strategy(
            strategy_probe_outcome(sp, replies).0,
        ),
    decreases replies.len(),
{
    if let ProgressView::Ask(s) = sp {
        if replies.len() > 0 {
            lemma_probe_follows_strategy(s.resume(replies[0]), replies.drop_first());
        }
    }
}

/// A snapshot keeps to the backend its probe reported: a receipt names it.
pub open spec fn snapshot_keeps_backend(
    p: ProgressView<SnapshotExactView, SnapshotReceiptView>,
    b: Backend,
) -> bool {
    match p {
        ProgressView::Ask(SnapshotExactView::Copy { backend, .. }) => backend == b,
        ProgressView::Ask(SnapshotExactView::FailedExists { .. }) => true,
        ProgressView::Ask(SnapshotExactView::Cleanup { .. }) => true,
        ProgressView::Ask(_) => false,
        ProgressView::Finish(Ok(receipt)) => receipt.backend == b,
        ProgressView::Finish(Err(_)) => true,
    }
}

proof fn lemma_snapshot_keeps_backend(s: SnapshotExactView, b: Backend, replies: Seq<ReplyView>)
    requires
        snapshot_keeps_backend(ProgressView::Ask(s), b),
    ensures
        snapshot_keeps_backend(snapshot_run(s, replies), b),
    decreases replies.len(),
{
    if replies.len() > 0 {
        if let ProgressView::Ask(t) = s.resume(replies[0]) {
            lemma_snapshot_keeps_backend(t, b, replies.drop_first());
        }
    }
}

/// While the backend is probed, a snapshot follows the probe step by step;
/// a failed probe fails the snapshot with the same error, and a reported
/// capability starts the backend's work with its backend.
proof fn lemma_snapshot_follows_probe(
    platform: Platform,
    source: Seq<u8>,
    destination: Seq<u8>,
    sp: ProgressView<StrategyProbeView, Capability>,
    replies: Seq<ReplyView>,
)
    ensures
        ({
            let o = strategy_probe_outcome(sp, replies);
            snapshot_run_from(snapshot_after_probe(platform, source, destination, sp), replies)
                == match o.0 {
                ProgressView::Ask(t) => ProgressView::Ask(
                    SnapshotExactView::Probe { platform, source, destination, probe: t },
                ),
                ProgressView::Finish(Ok(c)) => snapshot_run_from(
                    snapshot_after_copy(
                        platform,
                        source,
                        destination,
                        c.backend,
                        strategy_snapshot_start(platform, source, destination, c.backend),
                    ),
                    replies.skip(o.1 as int),
                ),
                ProgressView::Finish(Err(e)) => ProgressView::Finish(Err(e)),
            }
        }),
    decreases replies.len(),
{
    match sp {
        ProgressView::Ask(s) => {
            if replies.len() > 0 {
                let rest = replies.drop_first();
                lemma_snapshot_follows_probe(platform, source, destination, s.resume(replies[0]), rest);
                let o = strategy_probe_outcome(s.resume(replies[0]), rest);
                lemma_outcome_takes_at_most_all(s.resume(replies[0]), rest);
                assert(rest.skip(o.1 as int) =~= replies.skip(o.1 as int + 1));
            }
        },
        ProgressView::Finish(_) => {
            assert(replies.skip(0) =~= replies);
        },
    }
}

/// A snapshot probes exactly as `probe` does for its source and the
/// directory that will hold it, whatever the replies: once that directory is
/// resolved, both run the same backend probe; when it fails, the probe and
/// the snapshot fail with the same error and the snapshot asks for nothing
/// more; when it reports a capability, the probe reports it and the snapshot
/// goes on with the backend's work for that capability's backend, and any
/// receipt it gives names that backend.
pub proof fn snapshot_uses_the_probe(
    platform: Platform,
    source: Seq<u8>,
    destination: Seq<u8>,
    parent_dir: Seq<u8>,
    meta: crate::io::FileMeta,
    replies: Seq<ReplyView>,
)
    requires
        meta.is_dir,
        file_name(destination) is Some,
        apart(source, join(parent_dir, file_name(destination)->0)),
    ensures
        ({
            let resolved = join(parent_dir, file_name(destination)->0);
            let sp = strategy_probe_start(platform, source, parent_dir);
            let o = strategy_probe_outcome(sp, replies);
            let snap = snapshot_run_from(snapshot_with_parent(platform, source, destination, parent_dir), replies);
            &&& (ProbeView::Root {
                platform,
                source,
                canonical: CanonicalDirectoryView::AwaitMetadata { canonical: parent_dir },
            }).resume(ReplyView::Meta(meta)) == probe_after_strategy(sp)
            &&& probe_run_from(probe_after_strategy(sp), replies) == probe_after_strategy(o.0)
            &&& snapshot_with_parent(platform, source, destination, parent_dir) == snapshot_after_probe(
                platform,
                source,
                resolved,
                sp,
            )
            &&& o.0 is Ask ==> snap == ProgressView::<SnapshotExactView, SnapshotReceiptView>::Ask(
                SnapshotExactView::Probe { platform, source, destination: resolved, probe: o.0->Ask_0 },
            )
            &&& o.0 is Finish && o.0->Finish_0 is Err ==> snap == ProgressView::<
                SnapshotExactView,
                SnapshotReceiptView,
            >::Finish(Err(o.0->Finish_0->Err_0))
            &&& o.0 is Finish && o.0->Finish_0 is Ok ==> ({
                let c = o.0->Finish_0->Ok_0;
                &&& snap == snapshot_run_from(
                    snapshot_after_copy(
                        platform,
                        source,
                        resolved,
                        c.backend,
                        strategy_snapshot_start(platform, source, resolved, c.backend),
                    ),
                    replies.skip(o.1 as int),
                )
                &&& snap is Finish && snap->Finish_0 is Ok ==> snap->Finish_0->Ok_0.backend == c.backend
            })
        }),
{
    let resolved = join(parent_dir, file_name(destination)->0);
    let sp = strategy_probe_start(platform, source, parent_dir);
    lemma_probe_follows_strategy(sp, replies);
    lemma_snapshot_follows_probe(platform, source, resolved, sp, replies);
    let o = strategy_probe_outcome(sp, replies);
    if let ProgressView::Finish(Ok(c)) = o.0 {
        let start = snapshot_after_copy(
            platform,
            source,
            resolved,
            c.backend,
            strategy_snapshot_start(platform, source, resolved, c.backend),
        );
        if let ProgressView::Ask(t) = start {
            lemma_snapshot_keeps_backend(t, c.backend, replies.skip(o.1 as int));
        }
    }
}

/// The state a preparation reaches after the given replies, or how it
/// finished.
pub open spec fn prepare_run(s: PrepareSnapshotSourceView, replies: Seq<ReplyView>) -> ProgressView<
    PrepareSnapshotSourceView,
    Seq<u8>,
>
    decreases replies.len(),
{
    if replies.len() == 0 {
        ProgressView::Ask(s)
    } else {
        match s.resume(replies[0]) {
            ProgressView::Ask(t) => prepare_run(t, replies.drop_first()),
            ProgressView::Finish(r) => ProgressView::Finish(r),
        }
    }
}

/// A probe on Linux finishes as its Linux backend probe does.
proof fn lemma_probe_follows_linux(s: LinuxProbeView, replies: Seq<ReplyView>)
    ensures
        linux_probe_run(s, replies) matches ProgressView::Finish(r) ==> probe_run(
            ProbeView::Strategy { probe: StrategyProbeView::Linux { probe: s } },
            replies,
        ) == ProgressView::<ProbeView, Capability>::Finish(r),
    decreases replies.len(),
{
    if replies.len() > 0 {
        if let ProgressView::Ask(t) = s.resume(replies[0]) {
            lemma_probe_follows_linux(t, replies.drop_first());
        }
    }
}

proof fn lemma_prepare_on_btrfs(
    path: Seq<u8>,
    dir: Seq<u8>,
    missing: IoFailure,
    dir_meta: crate::io::FileMeta,
    sub_meta: crate::io::FileMeta,
    fsid: u128,
)
    requires
        file_name(path) is Some,
        file_name(path)->0.len() < crate::btrfs::SUBVOLUME_NAME_ROOM,
        dir.len() > 0,
        !dir.contains(0u8),
        !join(dir, file_name(path)->0).contains(0u8),
        missing.kind == IoKind::NotFound,
        dir_meta.is_dir,
        sub_meta.is_dir,
        sub_meta.ino == crate::btrfs::SUBVOLUME_ROOT_INODE,
    ensures
        ({
            let prepared = join(dir, file_name(path)->0);
            let btrfs = ReplyView::FsType(crate::btrfs::BTRFS_SUPER_MAGIC);
            let start = PrepareSnapshotSourceView::Exists { platform: Platform::Linux, path };
            &&& prepare_run(
                start,
                seq![ReplyView::Failed(missing), ReplyView::Path(dir), ReplyView::Meta(dir_meta), btrfs],
            ) matches ProgressView::Ask(t) && t.pending() matches RequestView::Subvolume {
                op: SubvolumeOp::CreateSubvolume,
                path: p,
                ..
            } && p == prepared
            &&& prepare_run(
                start,
                seq![
                    ReplyView::Failed(missing),
                    ReplyView::Path(dir),
                    ReplyView::Meta(dir_meta),
                    btrfs,
                    ReplyView::Done,
                ],
            ) == ProgressView::<PrepareSnapshotSourceView, Seq<u8>>::Finish(Ok(prepared))
        }),
{
    let name = file_name(path)->0;
    let prepared = join(dir, name);
    let btrfs = ReplyView::FsType(crate::btrfs::BTRFS_SUPER_MAGIC);
    file_name_is_plain(path);
    join_names_the_child(dir, name);
    parent_of_named_path(prepared, 0u8);
    assert(prepared.len() > 0) by {
        assert(join(dir, name) == prepared);
        if dir.last() != crate::path::SEP {
            assert(prepared.len() == dir.len() + 1 + name.len());
        } else {
            assert(prepared.len() == dir.len() + name.len());
        }
    }
    let par = parent(prepared)->0;
    // Preparing.
    let pl = Platform::Linux;
    let e0 = PrepareSnapshotSourceView::Exists { platform: pl, path };
    let e1 = PrepareSnapshotSourceView::Parent {
        platform: pl,
        path,
        canonical: CanonicalDirectoryView::AwaitCanonical { path: parent_or_current(path) },
    };
    let e2 = PrepareSnapshotSourceView::Parent {
        platform: pl,
        path,
        canonical: CanonicalDirectoryView::AwaitMetadata { canonical: dir },
    };
    let e3 = PrepareSnapshotSourceView::Creating {
        path: prepared,
        prepare: StrategyPrepareView::Linux {
            prepare: LinuxPrepareView::ParentType {
                path: prepared,
                check: crate::btrfs::FilesystemCheckView { path: par },
            },
        },
    };
    let call = crate::btrfs::SubvolumeCallView {
        op: SubvolumeOp::CreateSubvolume,
        path: prepared,
        parent: par,
        name,
    };
    let e4 = PrepareSnapshotSourceView::Creating {
        path: prepared,
        prepare: StrategyPrepareView::Linux { prepare: LinuxPrepareView::Subvolume { call } },
    };
    assert(e0.resume(ReplyView::Failed(missing)) == ProgressView::<PrepareSnapshotSourceView, Seq<u8>>::Ask(e1));
    assert(e1.resume(ReplyView::Path(dir)) == ProgressView::<PrepareSnapshotSourceView, Seq<u8>>::Ask(e2));
    assert(e2.resume(ReplyView::Meta(dir_meta)) == ProgressView::<PrepareSnapshotSourceView, Seq<u8>>::Ask(e3));
    assert(!name.contains(0u8)) by {
        let pre = if dir.len() > 0 && dir.last() != crate::path::SEP {
            dir.push(crate::path::SEP)
        } else {
            dir
        };
        assert(prepared == pre + name);
        assert forall|k: int| 0 <= k < name.len() implies name[k] != 0u8 by {
            assert(prepared[pre.len() + k] == name[k]);
        }
    }
    assert(crate::btrfs::valid_subvolume_name(name));
    assert(e3.resume(btrfs) == ProgressView::<PrepareSnapshotSourceView, Seq<u8>>::Ask(e4));
    assert(e4.resume(ReplyView::Done) == ProgressView::<PrepareSnapshotSourceView, Seq<u8>>::Finish(
        Ok(prepared),
    ));
    let pr = seq![ReplyView::Failed(missing), ReplyView::Path(dir), ReplyView::Meta(dir_meta), btrfs];
    let pr5 = seq![
        ReplyView::Failed(missing),
        ReplyView::Path(dir),
        ReplyView::Meta(dir_meta),
        btrfs,
        ReplyView::Done,
    ];
    assert(prepare_run(e4, Seq::empty()) == ProgressView::<PrepareSnapshotSourceView, Seq<u8>>::Ask(e4));
    assert(pr.drop_first().drop_first().drop_first().drop_first() =~= Seq::<ReplyView>::empty());
    assert(pr.drop_first().drop_first().drop_first() =~= seq![btrfs]);
    assert(prepare_run(e3, seq![btrfs]) == prepare_run(e4, Seq::empty()));
    assert(pr.drop_first().drop_first() =~= seq![ReplyView::Meta(dir_meta), btrfs]);
    assert(prepare_run(e2, pr.drop_first().drop_first()) == prepare_run(e3, seq![btrfs]));
    assert(pr.drop_first() =~= seq![ReplyView::Path(dir), ReplyView::Meta(dir_meta), btrfs]);
    assert(prepare_run(e1, pr.drop_first()) == prepare_run(e2, pr.drop_first().drop_first()));
    assert(prepare_run(e0, pr) == prepare_run(e1, pr.drop_first()));
    let done = ProgressView::<PrepareSnapshotSourceView, Seq<u8>>::Finish(Ok(prepared));
    assert(pr5.drop_first().drop_first().drop_first().drop_first() =~= seq![ReplyView::Done]);
    assert(prepare_run(e4, seq![ReplyView::Done]) == done);
    assert(pr5.drop_first().drop_first().drop_first() =~= seq![btrfs, ReplyView::Done]);
    assert(prepare_run(e3, pr5.drop_first().drop_first().drop_first()) == done);
    assert(pr5.drop_first().drop_first() =~= seq![ReplyView::Meta(dir_meta), btrfs, ReplyView::Done]);
    assert(prepare_run(e2, pr5.drop_first().drop_first()) == done);
    assert(prepare_run(e1, pr5.drop_first()) == done);
    assert(prepare_run(e0, pr5) == done);
}

proof fn lemma_probe_prepared(
    path: Seq<u8>,
    dir: Seq<u8>,
    missing: IoFailure,
    dir_meta: crate::io::FileMeta,
    sub_meta: crate::io::FileMeta,
    fsid: u128,
)
    requires
        file_name(path) is Some,
        file_name(path)->0.len() < crate::btrfs::SUBVOLUME_NAME_ROOM,
        dir.len() > 0,
        !dir.contains(0u8),
        !join(dir, file_name(path)->0).contains(0u8),
        missing.kind == IoKind::NotFound,
        dir_meta.is_dir,
        sub_meta.is_dir,
        sub_meta.ino == crate::btrfs::SUBVOLUME_ROOT_INODE,
    ensures
        ({
            let prepared = join(dir, file_name(path)->0);
            let btrfs = ReplyView::FsType(crate::btrfs::BTRFS_SUPER_MAGIC);
            let start = PrepareSnapshotSourceView::Exists { platform: Platform::Linux, path };
            &&& probe_start(Platform::Linux, prepared, dir) matches ProgressView::Ask(s) && probe_run(
                s,
                seq![
                    ReplyView::Path(prepared),
                    ReplyView::Meta(sub_meta),
                    ReplyView::Path(dir),
                    ReplyView::Meta(dir_meta),
                    btrfs,
                    btrfs,
                    ReplyView::FsId(fsid),
                    ReplyView::FsId(fsid),
                    btrfs,
                    ReplyView::Meta(sub_meta),
                ],
            ) == ProgressView::<ProbeView, Capability>::Finish(Ok(btrfs_capability()))
        }),
{
    let name = file_name(path)->0;
    let prepared = join(dir, name);
    let btrfs = ReplyView::FsType(crate::btrfs::BTRFS_SUPER_MAGIC);
    file_name_is_plain(path);
    join_names_the_child(dir, name);
    parent_of_named_path(prepared, 0u8);
    assert(prepared.len() > 0) by {
        assert(join(dir, name) == prepared);
        if dir.last() != crate::path::SEP {
            assert(prepared.len() == dir.len() + 1 + name.len());
        } else {
            assert(prepared.len() == dir.len() + name.len());
        }
    }
    let par = parent(prepared)->0;
    let pl = Platform::Linux;
    let lin = ReplyView::FsType(crate::btrfs::BTRFS_SUPER_MAGIC);
    let lr = seq![lin, lin, ReplyView::FsId(fsid), ReplyView::FsId(fsid), lin, ReplyView::Meta(sub_meta)];
    assert(!dir.contains(0u8));
    let s0 = ProbeView::Source {
        platform: pl,
        root: dir,
        canonical: CanonicalDirectoryView::AwaitCanonical { path: prepared },
    };
    let s1 = ProbeView::Source {
        platform: pl,
        root: dir,
        canonical: CanonicalDirectoryView::AwaitMetadata { canonical: prepared },
    };
    let s2 = ProbeView::Root {
        platform: pl,
        source: prepared,
        canonical: CanonicalDirectoryView::AwaitCanonical { path: dir },
    };
    let s3 = ProbeView::Root {
        platform: pl,
        source: prepared,
        canonical: CanonicalDirectoryView::AwaitMetadata { canonical: dir },
    };
    let l0 = crate::linux::LinuxProbeView::SourceType {
        source: prepared,
        root: dir,
        check: crate::btrfs::FilesystemCheckView { path: prepared },
    };
    let s4 = ProbeView::Strategy { probe: StrategyProbeView::Linux { probe: l0 } };
    assert(probe_start(pl, prepared, dir) == ProgressView::<ProbeView, Capability>::Ask(s0));
    assert(s0.resume(ReplyView::Path(prepared)) == ProgressView::<ProbeView, Capability>::Ask(s1));
    assert(s1.resume(ReplyView::Meta(sub_meta)) == ProgressView::<ProbeView, Capability>::Ask(s2));
    assert(s2.resume(ReplyView::Path(dir)) == ProgressView::<ProbeView, Capability>::Ask(s3));
    assert(s3.resume(ReplyView::Meta(dir_meta)) == ProgressView::<ProbeView, Capability>::Ask(s4));
    assert(crate::linux::linux_probe_start(prepared, dir) == ProgressView::<
        crate::linux::LinuxProbeView,
        Capability,
    >::Ask(l0));
    crate::linux::linux_probe_reports_a_subvolume(prepared, dir, fsid, sub_meta);
    lemma_probe_follows_linux(l0, lr);
    let full = seq![
        ReplyView::Path(prepared),
        ReplyView::Meta(sub_meta),
        ReplyView::Path(dir),
        ReplyView::Meta(dir_meta),
        lin,
        lin,
        ReplyView::FsId(fsid),
        ReplyView::FsId(fsid),
        lin,
        ReplyView::Meta(sub_meta),
    ];
    let fin = ProgressView::<ProbeView, Capability>::Finish(Ok(btrfs_capability()));
    assert(full.drop_first().drop_first().drop_first().drop_first() =~= lr);
    assert(probe_run(s4, lr) == fin);
    assert(full.drop_first().drop_first().drop_first()[0] == ReplyView::Meta(dir_meta));
    assert(probe_run(s3, full.drop_first().drop_first().drop_first()) == fin);
    assert(probe_run(s2, full.drop_first().drop_first()) == fin);
    assert(probe_run(s1, full.drop_first()) == fin);
    assert(probe_run(s0, full) == fin);}

/// A snapshot source that `prepare_snapshot_source` makes in a directory on
/// Btrfs is ready for constant-time snapshots, with no conversion: when the
/// path is missing, its parent resolves to the directory `dir` and that
/// directory lies on Btrfs, the preparation creates a subvolume at
/// `dir` joined with the path's final name and returns that path; probing it
/// against `dir` then reports a Btrfs snapshot, once the system answers, as
/// it does for a new subvolume, that both are directories on Btrfs with one
/// filesystem id and that the new path is a subvolume root.
pub proof fn prepared_source_is_snapshot_ready(
    path: Seq<u8>,
    dir: Seq<u8>,
    missing: IoFailure,
    dir_meta: crate::io::FileMeta,
    sub_meta: crate::io::FileMeta,
    fsid: u128,
)
    requires
        file_name(path) is Some,
        file_name(path)->0.len() < crate::btrfs::SUBVOLUME_NAME_ROOM,
        dir.len() > 0,
        !dir.contains(0u8),
        !join(dir, file_name(path)->0).contains(0u8),
        missing.kind == IoKind::NotFound,
        dir_meta.is_dir,
        sub_meta.is_dir,
        sub_meta.ino == crate::btrfs::SUBVOLUME_ROOT_INODE,
    ensures
        ({
            let prepared = join(dir, file_name(path)->0);
            let btrfs = ReplyView::FsType(crate::btrfs::BTRFS_SUPER_MAGIC);
            let start = PrepareSnapshotSourceView::Exists { platform: Platform::Linux, path };
            &&& prepare_run(
                start,
                seq![ReplyView::Failed(missing), ReplyView::Path(dir), ReplyView::Meta(dir_meta), btrfs],
            ) matches ProgressView::Ask(t) && t.pending() matches RequestView::Subvolume {
                op: SubvolumeOp::CreateSubvolume,
                path: p,
                ..
            } && p == prepared
            &&& prepare_run(
                start,
                seq![
                    ReplyView::Failed(missing),
                    ReplyView::Path(dir),
                    ReplyView::Meta(dir_meta),
                    btrfs,
                    ReplyView::Done,
                ],
            ) == ProgressView::<PrepareSnapshotSourceView, Seq<u8>>::Finish(Ok(prepared))
            &&& probe_start(Platform::Linux, prepared, dir) matches ProgressView::Ask(s) && probe_run(
                s,
                seq![
                    ReplyView::Path(prepared),
                    ReplyView::Meta(sub_meta),
                    ReplyView::Path(dir),
                    ReplyView::Meta(dir_meta),
                    btrfs,
                    btrfs,
                    ReplyView::FsId(fsid),
                    ReplyView::FsId(fsid),
                    btrfs,
                    ReplyView::Meta(sub_meta),
                ],
            ) == ProgressView::<ProbeView, Capability>::Finish(Ok(btrfs_capability()))
        }),
{
    lemma_prepare_on_btrfs(path, dir, missing, dir_meta, sub_meta, fsid);
    lemma_probe_prepared(path, dir, missing, dir_meta, sub_meta, fsid);
}

/// Off Linux, preparing a snapshot source in the canonical directory `dir`
/// creates a plain directory at `dir` joined with the path's final name and
/// returns that path only once it has been created; a failure to create it
/// is the preparation's error.
pub proof fn prepare_creates_the_source_it_returns(
    platform: Platform,
    path: Seq<u8>,
    dir: Seq<u8>,
    f: IoFailure,
)
    requires
        platform != Platform::Linux,
        file_name(path) is Some,
    ensures
        ({
            let prepared = join(dir, file_name(path)->0);
            prepare_with_parent(platform, path, dir) matches ProgressView::Ask(c) && c.pending()
                == RequestView::CreateDir(prepared) && c.resume(ReplyView::Done) == ProgressView::<
                PrepareSnapshotSourceView,
                Seq<u8>,
            >::Finish(Ok(prepared)) && c.resume(ReplyView::Failed(f)) == ProgressView::<
                PrepareSnapshotSourceView,
                Seq<u8>,
            >::Finish(Err(ErrorView::Io(f)))
        }),
{
}

/// What a finished operation reports: a snapshot whose backend's work
/// succeeds reports its canonical source, its resolved destination and the
/// backend it used; a preparation whose creation succeeds reports the path
/// it created.
pub proof fn operations_report_what_they_did(
    platform: Platform,
    source: Seq<u8>,
    destination: Seq<u8>,
    backend: Backend,
    copy: StrategySnapshotView,
    prepared: Seq<u8>,
    prepare: StrategyPrepareView,
    reply: ReplyView,
)
    ensures
        copy.resume(reply) == ProgressView::<StrategySnapshotView, ()>::Finish(Ok(())) ==> (
        SnapshotExactView::Copy { platform, source, destination, backend, copy }).resume(reply)
            == ProgressView::<SnapshotExactView, SnapshotReceiptView>::Finish(
            Ok(SnapshotReceiptView { source, destination, backend }),
        ),
        prepare.resume(reply) == ProgressView::<StrategyPrepareView, ()>::Finish(Ok(())) ==> (
        PrepareSnapshotSourceView::Creating { path: prepared, prepare }).resume(reply)
            == ProgressView::<PrepareSnapshotSourceView, Seq<u8>>::Finish(Ok(prepared)),
{
}

/// Whether a path exists is asked without following a final symbolic link:
/// metadata means it exists, `NotFound` that it does not, and any other
/// failure is the operation's error. A snapshot whose destination is missing
/// goes on to resolve the directory that will hold it; a removal whose
/// destination exists removes it with the platform's removal.
pub proof fn existence_decides_the_next_step(
    platform: Platform,
    source: Seq<u8>,
    destination: Seq<u8>,
    meta: crate::io::FileMeta,
    f: IoFailure,
)
    requires
        !destination.contains(0u8),
    ensures
        f.kind == IoKind::NotFound ==> (SnapshotExactView::DestinationExists {
            platform,
            source,
            destination,
        }).resume(ReplyView::Failed(f)) == ProgressView::<SnapshotExactView, SnapshotReceiptView>::Ask(
            SnapshotExactView::Parent {
                platform,
                source,
                destination,
                canonical: CanonicalDirectoryView::AwaitCanonical {
                    path: parent_or_current(destination),
                },
            },
        ),
        f.kind != IoKind::NotFound ==> (SnapshotExactView::DestinationExists {
            platform,
            source,
            destination,
        }).resume(ReplyView::Failed(f)) == ProgressView::<SnapshotExactView, SnapshotReceiptView>::Finish(
            Err(ErrorView::Io(f)),
        ),
        f.kind != IoKind::NotFound ==> (RemoveSnapshotView::Exists { platform, destination }).resume(
            ReplyView::Failed(f),
        ) == ProgressView::<RemoveSnapshotView, RemoveReceiptView>::Finish(Err(ErrorView::Io(f))),
        platform == Platform::MacOs ==> ((RemoveSnapshotView::Exists { platform, destination }).resume(
            ReplyView::Meta(meta),
        ) matches ProgressView::Ask(r) && r.pending() == RequestView::RemoveDirAll(destination)),
        platform == Platform::Linux ==> ((RemoveSnapshotView::Exists { platform, destination }).resume(
            ReplyView::Meta(meta),
        ) matches ProgressView::Ask(r) && r.pending() == RequestView::FilesystemType(destination)),
{
}


} // verus!
