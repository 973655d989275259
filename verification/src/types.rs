//! The values the snapshot operations hand back: backends, capabilities,
//! receipts and errors, each with its mathematical view.

use vstd::prelude::*;

verus! {

/// The standard library's I/O error, carried through unchanged.
#[verifier::external_type_specification]
#[verifier::external_body]
pub struct ExIoError(std::io::Error);

/// The operating system the operations run on.
#[derive(Clone, Copy, Debug, PartialEq, Eq, Structural)]
pub enum Platform {
    Linux,
    MacOs,
    Other,
}

/// The native copy-on-write mechanism behind a snapshot.
#[derive(Clone, Copy, Debug, PartialEq, Eq, Structural)]
pub enum Backend {
    ApfsClonefile,
    BtrfsSnapshot,
    LinuxReflinkTree,
}

/// The backend available for a source and destination root.
#[derive(Clone, Copy, Debug, PartialEq, Eq, Structural)]
pub struct Capability {
    pub backend: Backend,
    /// True only when snapshot creation does not walk every source entry.
    pub constant_time_metadata: bool,
}

/// What a successful snapshot created.
#[derive(Debug)]
pub struct SnapshotReceipt {
    pub source: Vec<u8>,
    pub destination: Vec<u8>,
    pub backend: Backend,
}

pub struct SnapshotReceiptView {
    pub source: Seq<u8>,
    pub destination: Seq<u8>,
    pub backend: Backend,
}

impl View for SnapshotReceipt {
    type V = SnapshotReceiptView;

    open spec fn view(&self) -> SnapshotReceiptView {
        SnapshotReceiptView {
            source: self.source@,
            destination: self.destination@,
            backend: self.backend,
        }
    }
}

/// What a removal did.
#[derive(Debug)]
pub struct RemoveReceipt {
    pub destination: Vec<u8>,
    pub removed: bool,
}

pub struct RemoveReceiptView {
    pub destination: Seq<u8>,
    pub removed: bool,
}

impl View for RemoveReceipt {
    type V = RemoveReceiptView;

    open spec fn view(&self) -> RemoveReceiptView {
        RemoveReceiptView { destination: self.destination@, removed: self.removed }
    }
}

/// The kind of an I/O failure, as far as the operations tell kinds apart.
#[derive(Clone, Copy, Debug, PartialEq, Eq, Structural)]
pub enum IoKind {
    NotFound,
    AlreadyExists,
    PermissionDenied,
    Unsupported,
    Other,
}

/// What `std::io::Error::from` makes of an error kind: an error that
/// carries that kind alone.
pub uninterp spec fn io_error_of_kind(kind: IoKind) -> std::io::Error;

/// The error `std::io::Error::from(std::io::ErrorKind::AlreadyExists)`, an
/// error of that kind alone; the contract claims only that it is the value
/// `io_error_of_kind` names, the same for every call.
#[verifier::external_body]
pub(crate) fn already_exists_error(kind: IoKind) -> (e: std::io::Error)
    requires
        kind == IoKind::AlreadyExists,
    ensures
        e == io_error_of_kind(kind),
{
    std::io::Error::from(std::io::ErrorKind::AlreadyExists)
}

/// The failure of creating a new entry where one exists.
pub open spec fn already_exists_failure() -> IoFailure {
    IoFailure { kind: IoKind::AlreadyExists, error: io_error_of_kind(IoKind::AlreadyExists) }
}

/// An I/O failure: its kind and the error itself.
#[derive(Debug)]
pub struct IoFailure {
    pub kind: IoKind,
    pub error: std::io::Error,
}

/// The Btrfs subvolume operations.
#[derive(Clone, Copy, Debug, PartialEq, Eq, Structural)]
pub enum SubvolumeOp {
    /// Snapshot the opened source subvolume under a new name.
    CreateSnapshot,
    /// Create an empty subvolume.
    CreateSubvolume,
    /// Destroy a subvolume.
    DestroySnapshot,
}

/// Why a path cannot be used.
#[derive(Debug)]
pub enum PathIssue {
    /// A path to prepare has no final component.
    NoFinalComponent(Vec<u8>),
    /// A snapshot destination has no final component.
    DestinationNoFinalComponent(Vec<u8>),
    /// A path has no parent.
    NoParent(Vec<u8>),
    /// A path has no final name.
    NoName(Vec<u8>),
    /// A name that a Btrfs subvolume cannot have.
    SubvolumeName(Vec<u8>),
    /// A path that holds a zero byte.
    NulByte(Vec<u8>),
    /// An entry of a walked tree that does not lie below the tree's root.
    PrefixNotFound,
}

pub enum PathIssueView {
    NoFinalComponent(Seq<u8>),
    DestinationNoFinalComponent(Seq<u8>),
    NoParent(Seq<u8>),
    NoName(Seq<u8>),
    SubvolumeName(Seq<u8>),
    NulByte(Seq<u8>),
    PrefixNotFound,
}

impl View for PathIssue {
    type V = PathIssueView;

    open spec fn view(&self) -> PathIssueView {
        match self {
            PathIssue::NoFinalComponent(p) => PathIssueView::NoFinalComponent(p@),
            PathIssue::DestinationNoFinalComponent(p) => PathIssueView::DestinationNoFinalComponent(
                p@,
            ),
            PathIssue::NoParent(p) => PathIssueView::NoParent(p@),
            PathIssue::NoName(p) => PathIssueView::NoName(p@),
            PathIssue::SubvolumeName(p) => PathIssueView::SubvolumeName(p@),
            PathIssue::NulByte(p) => PathIssueView::NulByte(p@),
            PathIssue::PrefixNotFound => PathIssueView::PrefixNotFound,
        }
    }
}

/// Why copy-on-write snapshots are unavailable.
#[derive(Debug)]
pub enum Unavailability {
    /// Only macOS and Linux are supported.
    UnsupportedPlatform,
    /// The backend is not available on macOS.
    BackendNotOnMacOs(Backend),
    /// The backend is not available on this platform.
    BackendNotOnPlatform(Backend),
    /// APFS cloning is unavailable on Linux.
    ApfsOnLinux,
    /// Source and destination root lie on different filesystems (Linux).
    DifferentFilesystem(Vec<u8>),
    /// Source and destination root lie on different volumes (macOS).
    DifferentVolume(Vec<u8>),
    /// The source is not on APFS.
    NotApfs(Vec<u8>),
    /// A Btrfs snapshot needs a source that already is a subvolume.
    NotSubvolume(Vec<u8>),
    /// `clonefile` refused to clone `from` to `to`.
    CloneFailed { from: Vec<u8>, to: Vec<u8>, error: IoFailure },
    /// A Btrfs subvolume operation on `path` failed.
    SubvolumeFailed { op: SubvolumeOp, path: Vec<u8>, error: IoFailure },
    /// Reflinking the file `from` failed.
    ReflinkFailed { from: Vec<u8>, error: IoFailure },
    /// Snapshot removal is not implemented on this platform.
    RemovalUnsupported,
}

pub enum UnavailabilityView {
    UnsupportedPlatform,
    BackendNotOnMacOs(Backend),
    BackendNotOnPlatform(Backend),
    ApfsOnLinux,
    DifferentFilesystem(Seq<u8>),
    DifferentVolume(Seq<u8>),
    NotApfs(Seq<u8>),
    NotSubvolume(Seq<u8>),
    CloneFailed { from: Seq<u8>, to: Seq<u8>, error: IoFailure },
    SubvolumeFailed { op: SubvolumeOp, path: Seq<u8>, error: IoFailure },
    ReflinkFailed { from: Seq<u8>, error: IoFailure },
    RemovalUnsupported,
}

impl View for Unavailability {
    type V = UnavailabilityView;

    open spec fn view(&self) -> UnavailabilityView {
        match self {
            Unavailability::UnsupportedPlatform => UnavailabilityView::UnsupportedPlatform,
            Unavailability::BackendNotOnMacOs(b) => UnavailabilityView::BackendNotOnMacOs(*b),
            Unavailability::BackendNotOnPlatform(b) => UnavailabilityView::BackendNotOnPlatform(*b),
            Unavailability::ApfsOnLinux => UnavailabilityView::ApfsOnLinux,
            Unavailability::DifferentFilesystem(p) => UnavailabilityView::DifferentFilesystem(p@),
            Unavailability::DifferentVolume(p) => UnavailabilityView::DifferentVolume(p@),
            Unavailability::NotApfs(p) => UnavailabilityView::NotApfs(p@),
            Unavailability::NotSubvolume(p) => UnavailabilityView::NotSubvolume(p@),
            Unavailability::CloneFailed { from, to, error } => UnavailabilityView::CloneFailed {
                from: from@,
                to: to@,
                error: *error,
            },
            Unavailability::SubvolumeFailed { op, path, error } =>
                UnavailabilityView::SubvolumeFailed { op: *op, path: path@, error: *error },
            Unavailability::ReflinkFailed { from, error } => UnavailabilityView::ReflinkFailed {
                from: from@,
                error: *error,
            },
            Unavailability::RemovalUnsupported => UnavailabilityView::RemovalUnsupported,
        }
    }
}

/// Every way a snapshot operation can fail.
#[derive(Debug)]
pub enum Error {
    Io(IoFailure),
    InvalidPath(PathIssue),
    Unavailable(Unavailability),
    NotDirectory(Vec<u8>),
    DestinationExists(Vec<u8>),
    DestinationInsideSource(Vec<u8>),
    UnsupportedEntry(Vec<u8>),
    /// The snapshot failed and removing its partial destination failed too.
    CleanupAfterFailure { snapshot: Box<Error>, cleanup: Box<Error> },
}

pub enum ErrorView {
    Io(IoFailure),
    InvalidPath(PathIssueView),
    Unavailable(UnavailabilityView),
    NotDirectory(Seq<u8>),
    DestinationExists(Seq<u8>),
    DestinationInsideSource(Seq<u8>),
    UnsupportedEntry(Seq<u8>),
    CleanupAfterFailure { snapshot: Box<ErrorView>, cleanup: Box<ErrorView> },
}

pub open spec fn error_view(e: Error) -> ErrorView
    decreases e,
{
    match e {
        Error::Io(f) => ErrorView::Io(f),
        Error::InvalidPath(i) => ErrorView::InvalidPath(i@),
        Error::Unavailable(u) => ErrorView::Unavailable(u@),
        Error::NotDirectory(p) => ErrorView::NotDirectory(p@),
        Error::DestinationExists(p) => ErrorView::DestinationExists(p@),
        Error::DestinationInsideSource(p) => ErrorView::DestinationInsideSource(p@),
        Error::UnsupportedEntry(p) => ErrorView::UnsupportedEntry(p@),
        Error::CleanupAfterFailure { snapshot, cleanup } => ErrorView::CleanupAfterFailure {
            snapshot: Box::new(error_view(*snapshot)),
            cleanup: Box::new(error_view(*cleanup)),
        },
    }
}

impl View for Error {
    type V = ErrorView;

    open spec fn view(&self) -> ErrorView {
        error_view(*self)
    }
}

} // verus!
