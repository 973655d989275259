//! macOS: cloning a whole tree with `clonefile` on APFS.

use vstd::prelude::*;
use crate::io::{Progress, ProgressView, Reply, ReplyView, Request, RequestView};
use crate::path::{contains_nul, copy_bytes, range_equals};
use crate::types::{
    Backend, Capability, Error, ErrorView, PathIssue, PathIssueView, Unavailability,
    UnavailabilityView,
};

verus! {

/// `apfs`
pub open spec fn apfs_name() -> Seq<u8> {
    seq![97u8, 112u8, 102u8, 115u8]
}

/// The capability of an APFS clone. `clonefile` recreates the directory
/// hierarchy entry by entry, so it is not a constant-time snapshot.
pub open spec fn apfs_capability() -> Capability {
    Capability { backend: Backend::ApfsClonefile, constant_time_metadata: false }
}

/// Choosing the APFS backend: source and destination root must lie on one
/// volume, and the source on APFS.
pub enum ApfsProbe {
    SourceDev { source: Vec<u8>, root: Vec<u8> },
    RootDev { source: Vec<u8>, root: Vec<u8>, source_dev: u64 },
    Name { source: Vec<u8> },
}

pub enum ApfsProbeView {
    SourceDev { source: Seq<u8>, root: Seq<u8> },
    RootDev { source: Seq<u8>, root: Seq<u8>, source_dev: u64 },
    Name { source: Seq<u8> },
}

impl View for ApfsProbe {
    type V = ApfsProbeView;

    open spec fn view(&self) -> ApfsProbeView {
        match self {
            ApfsProbe::SourceDev { source, root } => ApfsProbeView::SourceDev {
                source: source@,
                root: root@,
            },
            ApfsProbe::RootDev { source, root, source_dev } => ApfsProbeView::RootDev {
                source: source@,
                root: root@,
                source_dev: *source_dev,
            },
            ApfsProbe::Name { source } => ApfsProbeView::Name { source: source@ },
        }
    }
}

pub open spec fn apfs_probe_start(source: Seq<u8>, root: Seq<u8>) -> ProgressView<
    ApfsProbeView,
    Capability,
> {
    ProgressView::Ask(ApfsProbeView::SourceDev { source, root })
}

/// The source an APFS probe looks at.
pub open spec fn apfs_probe_source(s: ApfsProbeView) -> Seq<u8> {
    match s {
        ApfsProbeView::SourceDev { source, .. } => source,
        ApfsProbeView::RootDev { source, .. } => source,
        ApfsProbeView::Name { source } => source,
    }
}

impl ApfsProbeView {
    pub open spec fn pending(self) -> RequestView {
        match self {
            ApfsProbeView::SourceDev { source, .. } => RequestView::Metadata(source),
            ApfsProbeView::RootDev { root, .. } => RequestView::Metadata(root),
            ApfsProbeView::Name { source } => RequestView::FilesystemName(source),
        }
    }

    pub open spec fn resume(self, reply: ReplyView) -> ProgressView<ApfsProbeView, Capability> {
        match reply {
            ReplyView::Failed(f) => ProgressView::Finish(Err(ErrorView::Io(f))),
            _ => match self {
                ApfsProbeView::SourceDev { source, root } => match reply {
                    ReplyView::Meta(m) => ProgressView::Ask(
                        ApfsProbeView::RootDev { source, root, source_dev: m.dev },
                    ),
                    _ => ProgressView::Ask(self),
                },
                ApfsProbeView::RootDev { source, root, source_dev } => match reply {
                    ReplyView::Meta(m) => if source_dev != m.dev {
                        ProgressView::Finish(
                            Err(ErrorView::Unavailable(UnavailabilityView::DifferentVolume(root))),
                        )
                    } else if source.contains(0u8) {
                        ProgressView::Finish(
                            Err(ErrorView::InvalidPath(PathIssueView::NulByte(source))),
                        )
                    } else {
                        ProgressView::Ask(ApfsProbeView::Name { source })
                    },
                    _ => ProgressView::Ask(self),
                },
                ApfsProbeView::Name { source } => match reply {
                    ReplyView::Bytes(name) => if name == apfs_name() {
                        ProgressView::Finish(Ok(apfs_capability()))
                    } else {
                        ProgressView::Finish(
                            Err(ErrorView::Unavailable(UnavailabilityView::NotApfs(source))),
                        )
                    },
                    _ => ProgressView::Ask(self),
                },
            },
        }
    }
}

impl ApfsProbe {
    pub fn start(source: Vec<u8>, root: Vec<u8>) -> (r: Progress<ApfsProbe, Capability>)
        ensures
            r@ == apfs_probe_start(source@, root@),
    {
        Progress::Ask(ApfsProbe::SourceDev { source, root })
    }

    pub fn request(&self) -> (r: Request)
        ensures
            r@ == self@.pending(),
    {
        match self {
            ApfsProbe::SourceDev { source, .. } => Request::Metadata(copy_bytes(source)),
            ApfsProbe::RootDev { root, .. } => Request::Metadata(copy_bytes(root)),
            ApfsProbe::Name { source } => Request::FilesystemName(copy_bytes(source)),
        }
    }

    pub fn resume(self, reply: Reply) -> (r: Progress<ApfsProbe, Capability>)
        ensures
            r@ == self@.resume(reply@),
    {
        match reply {
            Reply::Failed(f) => Progress::Finish(Err(Error::Io(f))),
            reply => match self {
                ApfsProbe::SourceDev { source, root } => match reply {
                    Reply::Meta(m) => Progress::Ask(
                        ApfsProbe::RootDev { source, root, source_dev: m.dev },
                    ),
                    _ => Progress::Ask(ApfsProbe::SourceDev { source, root }),
                },
                ApfsProbe::RootDev { source, root, source_dev } => match reply {
                    Reply::Meta(m) => if source_dev != m.dev {
                        Progress::Finish(
                            Err(Error::Unavailable(Unavailability::DifferentVolume(root))),
                        )
                    } else if contains_nul(&source) {
                        Progress::Finish(Err(Error::InvalidPath(PathIssue::NulByte(source))))
                    } else {
                        Progress::Ask(ApfsProbe::Name { source })
                    },
                    _ => Progress::Ask(ApfsProbe::RootDev { source, root, source_dev }),
                },
                ApfsProbe::Name { source } => match reply {
                    Reply::Bytes(name) => {
                        let expected: Vec<u8> = vec![97u8, 112u8, 102u8, 115u8];
                        assert(expected@ =~= apfs_name());
                        if range_equals(&name, 0, name.len(), &expected, 0, 4) {
                            assert(name@.subrange(0, name@.len() as int) =~= name@);
                            assert(expected@.subrange(0, 4) =~= expected@);
                            Progress::Finish(
                                Ok(
                                    Capability {
                                        backend: Backend::ApfsClonefile,
                                        constant_time_metadata: false,
                                    },
                                ),
                            )
                        } else {
                            assert(name@.subrange(0, name@.len() as int) =~= name@);
                            assert(expected@.subrange(0, 4) =~= expected@);
                            Progress::Finish(Err(Error::Unavailable(Unavailability::NotApfs(source))))
                        }
                    },
                    _ => Progress::Ask(ApfsProbe::Name { source }),
                },
            },
        }
    }
}

/// Cloning the tree `from` to `to` in one `clonefile` call.
pub struct ApfsClone {
    pub from: Vec<u8>,
    pub to: Vec<u8>,
}

pub struct ApfsCloneView {
    pub from: Seq<u8>,
    pub to: Seq<u8>,
}

impl View for ApfsClone {
    type V = ApfsCloneView;

    open spec fn view(&self) -> ApfsCloneView {
        ApfsCloneView { from: self.from@, to: self.to@ }
    }
}

/// Neither path may hold a zero byte.
pub open spec fn apfs_clone_start(from: Seq<u8>, to: Seq<u8>) -> ProgressView<ApfsCloneView, ()> {
    if from.contains(0u8) {
        ProgressView::Finish(Err(ErrorView::InvalidPath(PathIssueView::NulByte(from))))
    } else if to.contains(0u8) {
        ProgressView::Finish(Err(ErrorView::InvalidPath(PathIssueView::NulByte(to))))
    } else {
        ProgressView::Ask(ApfsCloneView { from, to })
    }
}

impl ApfsCloneView {
    pub open spec fn pending(self) -> RequestView {
        RequestView::CloneTree { from: self.from, to: self.to }
    }

    pub open spec fn resume(self, reply: ReplyView) -> ProgressView<ApfsCloneView, ()> {
        match reply {
            ReplyView::Done => ProgressView::Finish(Ok(())),
            ReplyView::Refused(f) => ProgressView::Finish(
                Err(
                    ErrorView::Unavailable(
                        UnavailabilityView::CloneFailed { from: self.from, to: self.to, error: f },
                    ),
                ),
            ),
            _ => ProgressView::Ask(self),
        }
    }
}

impl ApfsClone {
    pub fn start(from: Vec<u8>, to: Vec<u8>) -> (r: Progress<ApfsClone, ()>)
        ensures
            r@ == apfs_clone_start(from@, to@),
    {
        if contains_nul(&from) {
            Progress::Finish(Err(Error::InvalidPath(PathIssue::NulByte(from))))
        } else if contains_nul(&to) {
            Progress::Finish(Err(Error::InvalidPath(PathIssue::NulByte(to))))
        } else {
            Progress::Ask(ApfsClone { from, to })
        }
    }

    pub fn request(&self) -> (r: Request)
        ensures
            r@ == self@.pending(),
    {
        Request::CloneTree { from: copy_bytes(&self.from), to: copy_bytes(&self.to) }
    }

    pub fn resume(self, reply: Reply) -> (r: Progress<ApfsClone, ()>)
        ensures
            r@ == self@.resume(reply@),
    {
        match reply {
            Reply::Done => Progress::Finish(Ok(())),
            Reply::Refused(f) => Progress::Finish(
                Err(
                    Error::Unavailable(
                        Unavailability::CloneFailed { from: self.from, to: self.to, error: f },
                    ),
                ),
            ),
            _ => Progress::Ask(self),
        }
    }
}

/// An APFS clone needs source and destination root on one volume and the
/// source on APFS: a different device fails as a different volume, a
/// filesystem named other than `apfs` fails as not APFS, and only then is
/// the (tree-walking) APFS capability reported.
pub proof fn apfs_probe_requires_one_apfs_volume(
    source: Seq<u8>,
    root: Seq<u8>,
    source_dev: u64,
    m: crate::io::FileMeta,
    name: Seq<u8>,
)
    requires
        !source.contains(0u8),
    ensures
        m.dev != source_dev ==> (ApfsProbeView::RootDev { source, root, source_dev }).resume(
            ReplyView::Meta(m),
        ) == ProgressView::<ApfsProbeView, Capability>::Finish(
            Err(ErrorView::Unavailable(UnavailabilityView::DifferentVolume(root))),
        ),
        m.dev == source_dev ==> (ApfsProbeView::RootDev { source, root, source_dev }).resume(
            ReplyView::Meta(m),
        ) == ProgressView::<ApfsProbeView, Capability>::Ask(ApfsProbeView::Name { source }),
        (ApfsProbeView::Name { source }).pending() == RequestView::FilesystemName(source),
        name == seq![97u8, 112u8, 102u8, 115u8] ==> (ApfsProbeView::Name { source }).resume(
            ReplyView::Bytes(name),
        ) == ProgressView::<ApfsProbeView, Capability>::Finish(
            Ok(Capability { backend: Backend::ApfsClonefile, constant_time_metadata: false }),
        ),
        name != seq![97u8, 112u8, 102u8, 115u8] ==> (ApfsProbeView::Name { source }).resume(
            ReplyView::Bytes(name),
        ) == ProgressView::<ApfsProbeView, Capability>::Finish(
            Err(ErrorView::Unavailable(UnavailabilityView::NotApfs(source))),
        ),
{
}

} // verus!
