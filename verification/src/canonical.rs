//! Resolving a path to a canonical directory, and asking whether a path exists.

use vstd::prelude::*;
use crate::io::{Progress, ProgressView, Reply, ReplyView, Request, RequestView};
use crate::types::{Error, ErrorView, IoKind};

verus! {

/// Resolving a path to its canonical form and checking that it is a directory.
pub enum CanonicalDirectory {
    AwaitCanonical { path: Vec<u8> },
    AwaitMetadata { canonical: Vec<u8> },
}

pub enum CanonicalDirectoryView {
    AwaitCanonical { path: Seq<u8> },
    AwaitMetadata { canonical: Seq<u8> },
}

impl View for CanonicalDirectory {
    type V = CanonicalDirectoryView;

    open spec fn view(&self) -> CanonicalDirectoryView {
        match self {
            CanonicalDirectory::AwaitCanonical { path } => CanonicalDirectoryView::AwaitCanonical {
                path: path@,
            },
            CanonicalDirectory::AwaitMetadata { canonical } =>
                CanonicalDirectoryView::AwaitMetadata { canonical: canonical@ },
        }
    }
}

pub open spec fn canonical_directory_start(path: Seq<u8>) -> ProgressView<
    CanonicalDirectoryView,
    Seq<u8>,
> {
    ProgressView::Ask(CanonicalDirectoryView::AwaitCanonical { path })
}

impl CanonicalDirectoryView {
    pub open spec fn pending(self) -> RequestView {
        match self {
            CanonicalDirectoryView::AwaitCanonical { path } => RequestView::Canonicalize(path),
            CanonicalDirectoryView::AwaitMetadata { canonical } => RequestView::Metadata(canonical),
        }
    }

    /// The canonical path when it names a directory; `NotDirectory` when it
    /// names something else; the I/O failure of either step. A canonical
    /// path is never empty: an empty one does not answer the request.
    pub open spec fn resume(self, reply: ReplyView) -> ProgressView<CanonicalDirectoryView, Seq<u8>> {
        match self {
            CanonicalDirectoryView::AwaitCanonical { path } => match reply {
                ReplyView::Path(c) => if c.len() > 0 {
                    ProgressView::Ask(CanonicalDirectoryView::AwaitMetadata { canonical: c })
                } else {
                    ProgressView::Ask(self)
                },
                ReplyView::Failed(f) => ProgressView::Finish(Err(ErrorView::Io(f))),
                _ => ProgressView::Ask(self),
            },
            CanonicalDirectoryView::AwaitMetadata { canonical } => match reply {
                ReplyView::Meta(m) => if m.is_dir {
                    ProgressView::Finish(Ok(canonical))
                } else {
                    ProgressView::Finish(Err(ErrorView::NotDirectory(canonical)))
                },
                ReplyView::Failed(f) => ProgressView::Finish(Err(ErrorView::Io(f))),
                _ => ProgressView::Ask(self),
            },
        }
    }
}

impl CanonicalDirectory {
    pub fn start(path: Vec<u8>) -> (r: Progress<CanonicalDirectory, Vec<u8>>)
        ensures
            r@ == canonical_directory_start(path@),
    {
        Progress::Ask(CanonicalDirectory::AwaitCanonical { path })
    }

    pub fn request(&self) -> (r: Request)
        ensures
            r@ == self@.pending(),
    {
        match self {
            CanonicalDirectory::AwaitCanonical { path } => Request::Canonicalize(
                crate::path::copy_bytes(path),
            ),
            CanonicalDirectory::AwaitMetadata { canonical } => Request::Metadata(
                crate::path::copy_bytes(canonical),
            ),
        }
    }

    pub fn resume(self, reply: Reply) -> (r: Progress<CanonicalDirectory, Vec<u8>>)
        ensures
            r@ == self@.resume(reply@),
    {
        match self {
            CanonicalDirectory::AwaitCanonical { path } => match reply {
                Reply::Path(c) => if c.len() > 0 {
                    Progress::Ask(CanonicalDirectory::AwaitMetadata { canonical: c })
                } else {
                    Progress::Ask(CanonicalDirectory::AwaitCanonical { path })
                },
                Reply::Failed(f) => Progress::Finish(Err(Error::Io(f))),
                _ => Progress::Ask(CanonicalDirectory::AwaitCanonical { path }),
            },
            CanonicalDirectory::AwaitMetadata { canonical } => match reply {
                Reply::Meta(m) => if m.is_dir {
                    Progress::Finish(Ok(canonical))
                } else {
                    Progress::Finish(Err(Error::NotDirectory(canonical)))
                },
                Reply::Failed(f) => Progress::Finish(Err(Error::Io(f))),
                _ => Progress::Ask(CanonicalDirectory::AwaitMetadata { canonical }),
            },
        }
    }
}

/// A resolution whose canonical path, once known, is not empty.
pub open spec fn canonical_ok(c: CanonicalDirectoryView) -> bool {
    match c {
        CanonicalDirectoryView::AwaitCanonical { .. } => true,
        CanonicalDirectoryView::AwaitMetadata { canonical } => canonical.len() > 0,
    }
}

/// A canonical directory is never the empty path.
pub proof fn canonical_directory_is_nonempty(c: CanonicalDirectoryView, reply: ReplyView)
    requires
        canonical_ok(c),
    ensures
        match c.resume(reply) {
            ProgressView::Ask(d) => canonical_ok(d),
            ProgressView::Finish(Ok(p)) => p.len() > 0,
            ProgressView::Finish(Err(_)) => true,
        },
{
}

/// What the reply to `SymlinkMetadata` says of a path's existence: metadata
/// means it exists, a failure of kind `NotFound` means it does not, any other
/// failure is an error. `None` for a reply that does not answer the request.
pub open spec fn exists_answer(reply: ReplyView) -> Option<Result<bool, ErrorView>> {
    match reply {
        ReplyView::Meta(_) => Some(Ok(true)),
        ReplyView::Failed(f) => if f.kind == IoKind::NotFound {
            Some(Ok(false))
        } else {
            Some(Err(ErrorView::Io(f)))
        },
        _ => None,
    }
}

pub open spec fn option_result_view(r: Option<Result<bool, Error>>) -> Option<
    Result<bool, ErrorView>,
> {
    match r {
        Some(Ok(b)) => Some(Ok(b)),
        Some(Err(e)) => Some(Err(e@)),
        None => None,
    }
}

pub fn exists_answer_exec(reply: Reply) -> (r: Option<Result<bool, Error>>)
    ensures
        option_result_view(r) == exists_answer(reply@),
{
    match reply {
        Reply::Meta(_) => Some(Ok(true)),
        Reply::Failed(f) => if f.kind == IoKind::NotFound {
            Some(Ok(false))
        } else {
            Some(Err(Error::Io(f)))
        },
        _ => None,
    }
}

/// A path resolves to its canonical form, which must name a directory:
/// the canonical path is returned only when its metadata says directory,
/// and is reported as not a directory otherwise.
pub proof fn canonical_directory_checks_the_kind(path: Seq<u8>, c: Seq<u8>, m: crate::io::FileMeta)
    requires
        c.len() > 0,
    ensures
        (CanonicalDirectoryView::AwaitCanonical { path }).pending() == RequestView::Canonicalize(path),
        (CanonicalDirectoryView::AwaitCanonical { path }).resume(ReplyView::Path(c)) == ProgressView::<
            CanonicalDirectoryView,
            Seq<u8>,
        >::Ask(CanonicalDirectoryView::AwaitMetadata { canonical: c }),
        (CanonicalDirectoryView::AwaitMetadata { canonical: c }).pending() == RequestView::Metadata(c),
        m.is_dir ==> (CanonicalDirectoryView::AwaitMetadata { canonical: c }).resume(ReplyView::Meta(m))
            == ProgressView::<CanonicalDirectoryView, Seq<u8>>::Finish(Ok(c)),
        !m.is_dir ==> (CanonicalDirectoryView::AwaitMetadata { canonical: c }).resume(
            ReplyView::Meta(m),
        ) == ProgressView::<CanonicalDirectoryView, Seq<u8>>::Finish(Err(ErrorView::NotDirectory(c))),
{
}

} // verus!
