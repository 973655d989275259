//! Copying the metadata of one filesystem entry to another: owner, mode,
//! extended attributes and times.

use vstd::prelude::*;
use crate::io::{
    changes_only_below, FileMeta, Progress, ProgressView, Reply, ReplyView, Request, RequestView,
};
use crate::path::path_starts_with;
use crate::path::{contains_nul, copy_bytes, copy_range};
use crate::types::{Error, ErrorView, PathIssue, PathIssueView};

verus! {

/// What kind of entry the metadata is copied to: a symbolic link keeps its
/// own permission bits.
#[derive(Clone, Copy, Debug, PartialEq, Eq, Structural)]
pub enum MetadataTarget {
    FileOrDirectory,
    Symlink,
}

// ---------------------------------------------------------------------------
// Extended attribute names.

pub open spec fn nonempty_piece(s: Seq<u8>) -> Seq<Seq<u8>> {
    if s.len() > 0 {
        seq![s]
    } else {
        Seq::empty()
    }
}

/// The nonempty zero-separated pieces of `list` from position `i` on, where
/// the piece being read began at `start`.
pub open spec fn name_scan(list: Seq<u8>, i: int, start: int) -> Seq<Seq<u8>>
    decreases list.len() - i,
{
    if i >= list.len() {
        nonempty_piece(list.subrange(start, list.len() as int))
    } else if list[i] == 0 {
        nonempty_piece(list.subrange(start, i)) + name_scan(list, i + 1, i + 1)
    } else {
        name_scan(list, i + 1, start)
    }
}

/// The attribute names in a list of names each ended by a zero byte.
pub open spec fn xattr_names(list: Seq<u8>) -> Seq<Seq<u8>> {
    name_scan(list, 0, 0)
}

pub open spec fn names_view(names: Seq<Vec<u8>>) -> Seq<Seq<u8>> {
    names.map_values(|n: Vec<u8>| n@)
}

/// The attribute names in `list`.
pub fn split_xattr_names(list: &Vec<u8>) -> (r: Vec<Vec<u8>>)
    ensures
        names_view(r@) == xattr_names(list@),
{
    let mut r: Vec<Vec<u8>> = Vec::new();
    let mut start: usize = 0;
    let mut i: usize = 0;
    assert(names_view(r@) + name_scan(list@, 0, 0) =~= xattr_names(list@));
    while i < list.len()
        invariant
            start <= i <= list.len(),
            names_view(r@) + name_scan(list@, i as int, start as int) == xattr_names(list@),
        decreases list.len() - i,
    {
        if list[i] == 0 {
            let ghost before = r@;
            if start < i {
                r.push(copy_range(list, start, i));
            }
            assert(names_view(r@) =~= names_view(before) + nonempty_piece(
                list@.subrange(start as int, i as int),
            ));
            assert(names_view(before) + name_scan(list@, i as int, start as int) =~= names_view(
                r@,
            ) + name_scan(list@, i + 1, i + 1));
            start = i + 1;
        }
        i = i + 1;
    }
    let ghost before = r@;
    let n = list.len();
    if start < n {
        r.push(copy_range(list, start, n));
    }
    assert(names_view(r@) =~= names_view(before) + nonempty_piece(
        list@.subrange(start as int, n as int),
    ));
    r
}

// ---------------------------------------------------------------------------
// The copy.

/// Copying the metadata of `from` to `to`: owner and group, the permission
/// bits unless `to` is a symbolic link, every extended attribute in the order
/// listed, and last the access and modification times.
pub enum MetadataCopy {
    ReadMeta { from: Vec<u8>, to: Vec<u8>, target: MetadataTarget },
    Owner { from: Vec<u8>, to: Vec<u8>, target: MetadataTarget, meta: FileMeta },
    Mode { from: Vec<u8>, to: Vec<u8>, meta: FileMeta },
    ListXattrs { from: Vec<u8>, to: Vec<u8>, meta: FileMeta },
    GetXattr { from: Vec<u8>, to: Vec<u8>, meta: FileMeta, name: Vec<u8>, rest: Vec<Vec<u8>> },
    SetXattr {
        from: Vec<u8>,
        to: Vec<u8>,
        meta: FileMeta,
        name: Vec<u8>,
        rest: Vec<Vec<u8>>,
        value: Vec<u8>,
    },
    Times { to: Vec<u8>, meta: FileMeta },
}

pub enum MetadataCopyView {
    ReadMeta { from: Seq<u8>, to: Seq<u8>, target: MetadataTarget },
    Owner { from: Seq<u8>, to: Seq<u8>, target: MetadataTarget, meta: FileMeta },
    Mode { from: Seq<u8>, to: Seq<u8>, meta: FileMeta },
    ListXattrs { from: Seq<u8>, to: Seq<u8>, meta: FileMeta },
    GetXattr { from: Seq<u8>, to: Seq<u8>, meta: FileMeta, name: Seq<u8>, rest: Seq<Seq<u8>> },
    SetXattr {
        from: Seq<u8>,
        to: Seq<u8>,
        meta: FileMeta,
        name: Seq<u8>,
        rest: Seq<Seq<u8>>,
        value: Seq<u8>,
    },
    Times { to: Seq<u8>, meta: FileMeta },
}

impl View for MetadataCopy {
    type V = MetadataCopyView;

    open spec fn view(&self) -> MetadataCopyView {
        match self {
            MetadataCopy::ReadMeta { from, to, target } => MetadataCopyView::ReadMeta {
                from: from@,
                to: to@,
                target: *target,
            },
            MetadataCopy::Owner { from, to, target, meta } => MetadataCopyView::Owner {
                from: from@,
                to: to@,
                target: *target,
                meta: *meta,
            },
            MetadataCopy::Mode { from, to, meta } => MetadataCopyView::Mode {
                from: from@,
                to: to@,
                meta: *meta,
            },
            MetadataCopy::ListXattrs { from, to, meta } => MetadataCopyView::ListXattrs {
                from: from@,
                to: to@,
                meta: *meta,
            },
            MetadataCopy::GetXattr { from, to, meta, name, rest } => MetadataCopyView::GetXattr {
                from: from@,
                to: to@,
                meta: *meta,
                name: name@,
                rest: names_view(rest@),
            },
            MetadataCopy::SetXattr { from, to, meta, name, rest, value } =>
                MetadataCopyView::SetXattr {
                from: from@,
                to: to@,
                meta: *meta,
                name: name@,
                rest: names_view(rest@),
                value: value@,
            },
            MetadataCopy::Times { to, meta } => MetadataCopyView::Times { to: to@, meta: *meta },
        }
    }
}

pub open spec fn metadata_copy_start(from: Seq<u8>, to: Seq<u8>, target: MetadataTarget) -> ProgressView<
    MetadataCopyView,
    (),
> {
    ProgressView::Ask(MetadataCopyView::ReadMeta { from, to, target })
}

/// The next attribute to copy, or the times once none is left.
pub open spec fn metadata_next_name(
    from: Seq<u8>,
    to: Seq<u8>,
    meta: FileMeta,
    names: Seq<Seq<u8>>,
) -> ProgressView<MetadataCopyView, ()> {
    if names.len() > 0 {
        ProgressView::Ask(
            MetadataCopyView::GetXattr { from, to, meta, name: names[0], rest: names.drop_first() },
        )
    } else {
        ProgressView::Ask(MetadataCopyView::Times { to, meta })
    }
}

/// Both paths are handed to the system, so neither may hold a zero byte.
pub open spec fn metadata_xattrs_begin(from: Seq<u8>, to: Seq<u8>, meta: FileMeta) -> ProgressView<
    MetadataCopyView,
    (),
> {
    if from.contains(0u8) {
        ProgressView::Finish(Err(ErrorView::InvalidPath(PathIssueView::NulByte(from))))
    } else if to.contains(0u8) {
        ProgressView::Finish(Err(ErrorView::InvalidPath(PathIssueView::NulByte(to))))
    } else {
        ProgressView::Ask(MetadataCopyView::ListXattrs { from, to, meta })
    }
}

impl MetadataCopyView {
    pub open spec fn pending(self) -> RequestView {
        match self {
            MetadataCopyView::ReadMeta { from, .. } => RequestView::SymlinkMetadata(from),
            MetadataCopyView::Owner { to, meta, .. } => RequestView::SetOwner {
                path: to,
                uid: meta.uid,
                gid: meta.gid,
            },
            MetadataCopyView::Mode { to, meta, .. } => RequestView::SetMode {
                path: to,
                mode: meta.mode,
            },
            MetadataCopyView::ListXattrs { from, .. } => RequestView::ListXattrs(from),
            MetadataCopyView::GetXattr { from, name, .. } => RequestView::GetXattr {
                path: from,
                name,
            },
            MetadataCopyView::SetXattr { to, name, value, .. } => RequestView::SetXattr {
                path: to,
                name,
                value,
            },
            MetadataCopyView::Times { to, meta } => RequestView::SetTimes {
                path: to,
                times: meta.times,
            },
        }
    }

    pub open spec fn resume(self, reply: ReplyView) -> ProgressView<MetadataCopyView, ()> {
        match reply {
            ReplyView::Failed(f) => ProgressView::Finish(Err(ErrorView::Io(f))),
            _ => match self {
                MetadataCopyView::ReadMeta { from, to, target } => match reply {
                    ReplyView::Meta(meta) => if to.contains(0u8) {
                        ProgressView::Finish(Err(ErrorView::InvalidPath(PathIssueView::NulByte(to))))
                    } else {
                        ProgressView::Ask(MetadataCopyView::Owner { from, to, target, meta })
                    },
                    _ => ProgressView::Ask(self),
                },
                MetadataCopyView::Owner { from, to, target, meta } => match reply {
                    ReplyView::Done => if target == MetadataTarget::FileOrDirectory {
                        ProgressView::Ask(MetadataCopyView::Mode { from, to, meta })
                    } else {
                        metadata_xattrs_begin(from, to, meta)
                    },
                    _ => ProgressView::Ask(self),
                },
                MetadataCopyView::Mode { from, to, meta } => match reply {
                    ReplyView::Done => metadata_xattrs_begin(from, to, meta),
                    _ => ProgressView::Ask(self),
                },
                MetadataCopyView::ListXattrs { from, to, meta } => match reply {
                    ReplyView::Bytes(list) => metadata_next_name(from, to, meta, xattr_names(list)),
                    _ => ProgressView::Ask(self),
                },
                MetadataCopyView::GetXattr { from, to, meta, name, rest } => match reply {
                    ReplyView::Bytes(value) => ProgressView::Ask(
                        MetadataCopyView::SetXattr { from, to, meta, name, rest, value },
                    ),
                    _ => ProgressView::Ask(self),
                },
                MetadataCopyView::SetXattr { from, to, meta, rest, .. } => match reply {
                    ReplyView::Done => metadata_next_name(from, to, meta, rest),
                    _ => ProgressView::Ask(self),
                },
                MetadataCopyView::Times { .. } => match reply {
                    ReplyView::Done => ProgressView::Finish(Ok(())),
                    _ => ProgressView::Ask(self),
                },
            },
        }
    }
}

impl MetadataCopy {
    pub fn start(from: Vec<u8>, to: Vec<u8>, target: MetadataTarget) -> (r: Progress<
        MetadataCopy,
        (),
    >)
        ensures
            r@ == metadata_copy_start(from@, to@, target),
    {
        Progress::Ask(MetadataCopy::ReadMeta { from, to, target })
    }

    fn next_name(from: Vec<u8>, to: Vec<u8>, meta: FileMeta, names: Vec<Vec<u8>>) -> (r: Progress<
        MetadataCopy,
        (),
    >)
        ensures
            r@ == metadata_next_name(from@, to@, meta, names_view(names@)),
    {
        let mut rest = names;
        if rest.len() > 0 {
            let ghost all = rest@;
            let name = rest.remove(0);
            assert(names_view(rest@) =~= names_view(all).drop_first());
            Progress::Ask(MetadataCopy::GetXattr { from, to, meta, name, rest })
        } else {
            Progress::Ask(MetadataCopy::Times { to, meta })
        }
    }

    fn xattrs_begin(from: Vec<u8>, to: Vec<u8>, meta: FileMeta) -> (r: Progress<MetadataCopy, ()>)
        ensures
            r@ == metadata_xattrs_begin(from@, to@, meta),
    {
        if contains_nul(&from) {
            Progress::Finish(Err(Error::InvalidPath(PathIssue::NulByte(from))))
        } else if contains_nul(&to) {
            Progress::Finish(Err(Error::InvalidPath(PathIssue::NulByte(to))))
        } else {
            Progress::Ask(MetadataCopy::ListXattrs { from, to, meta })
        }
    }

    pub fn request(&self) -> (r: Request)
        ensures
            r@ == self@.pending(),
    {
        match self {
            MetadataCopy::ReadMeta { from, .. } => Request::SymlinkMetadata(copy_bytes(from)),
            MetadataCopy::Owner { to, meta, .. } => Request::SetOwner {
                path: copy_bytes(to),
                uid: meta.uid,
                gid: meta.gid,
            },
            MetadataCopy::Mode { to, meta, .. } => Request::SetMode {
                path: copy_bytes(to),
                mode: meta.mode,
            },
            MetadataCopy::ListXattrs { from, .. } => Request::ListXattrs(copy_bytes(from)),
            MetadataCopy::GetXattr { from, name, .. } => Request::GetXattr {
                path: copy_bytes(from),
                name: copy_bytes(name),
            },
            MetadataCopy::SetXattr { to, name, value, .. } => Request::SetXattr {
                path: copy_bytes(to),
                name: copy_bytes(name),
                value: copy_bytes(value),
            },
            MetadataCopy::Times { to, meta } => Request::SetTimes {
                path: copy_bytes(to),
                times: meta.times,
            },
        }
    }

    pub fn resume(self, reply: Reply) -> (r: Progress<MetadataCopy, ()>)
        ensures
            r@ == self@.resume(reply@),
    {
        match reply {
            Reply::Failed(f) => Progress::Finish(Err(Error::Io(f))),
            reply => match self {
                MetadataCopy::ReadMeta { from, to, target } => match reply {
                    Reply::Meta(meta) => if contains_nul(&to) {
                        Progress::Finish(Err(Error::InvalidPath(PathIssue::NulByte(to))))
                    } else {
                        Progress::Ask(MetadataCopy::Owner { from, to, target, meta })
                    },
                    _ => Progress::Ask(MetadataCopy::ReadMeta { from, to, target }),
                },
                MetadataCopy::Owner { from, to, target, meta } => match reply {
                    Reply::Done => if target == MetadataTarget::FileOrDirectory {
                        Progress::Ask(MetadataCopy::Mode { from, to, meta })
                    } else {
                        MetadataCopy::xattrs_begin(from, to, meta)
                    },
                    _ => Progress::Ask(MetadataCopy::Owner { from, to, target, meta }),
                },
                MetadataCopy::Mode { from, to, meta } => match reply {
                    Reply::Done => MetadataCopy::xattrs_begin(from, to, meta),
                    _ => Progress::Ask(MetadataCopy::Mode { from, to, meta }),
                },
                MetadataCopy::ListXattrs { from, to, meta } => match reply {
                    Reply::Bytes(list) => {
                        let names = split_xattr_names(&list);
                        MetadataCopy::next_name(from, to, meta, names)
                    },
                    _ => Progress::Ask(MetadataCopy::ListXattrs { from, to, meta }),
                },
                MetadataCopy::GetXattr { from, to, meta, name, rest } => match reply {
                    Reply::Bytes(value) => Progress::Ask(
                        MetadataCopy::SetXattr { from, to, meta, name, rest, value },
                    ),
                    _ => Progress::Ask(MetadataCopy::GetXattr { from, to, meta, name, rest }),
                },
                MetadataCopy::SetXattr { from, to, meta, name, rest, value } => match reply {
                    Reply::Done => MetadataCopy::next_name(from, to, meta, rest),
                    _ => Progress::Ask(MetadataCopy::SetXattr { from, to, meta, name, rest, value }),
                },
                MetadataCopy::Times { to, meta } => match reply {
                    Reply::Done => Progress::Finish(Ok(())),
                    _ => Progress::Ask(MetadataCopy::Times { to, meta }),
                },
            },
        }
    }
}

// ---------------------------------------------------------------------------
// Laws.

/// The entry whose metadata is being set.
pub open spec fn metadata_target(c: MetadataCopyView) -> Seq<u8> {
    match c {
        MetadataCopyView::ReadMeta { to, .. } => to,
        MetadataCopyView::Owner { to, .. } => to,
        MetadataCopyView::Mode { to, .. } => to,
        MetadataCopyView::ListXattrs { to, .. } => to,
        MetadataCopyView::GetXattr { to, .. } => to,
        MetadataCopyView::SetXattr { to, .. } => to,
        MetadataCopyView::Times { to, .. } => to,
    }
}

/// Copying metadata changes its target alone and never moves to another.
pub proof fn metadata_copy_changes_only_target(c: MetadataCopyView, reply: ReplyView, dest: Seq<u8>)
    requires
        path_starts_with(metadata_target(c), dest),
    ensures
        changes_only_below(c.pending(), dest),
        c.resume(reply) matches ProgressView::Ask(d) ==> metadata_target(d) == metadata_target(c),
{
}

/// Every attribute name is nonempty and holds no zero byte.
pub proof fn xattr_names_are_names(list: Seq<u8>)
    ensures
        forall|k: int|
            0 <= k < xattr_names(list).len() ==> (#[trigger] xattr_names(list)[k]).len() > 0
                && !xattr_names(list)[k].contains(0u8),
{
    lemma_name_scan_names(list, 0, 0);
}

proof fn lemma_name_scan_names(list: Seq<u8>, i: int, start: int)
    requires
        0 <= start <= i <= list.len(),
        forall|j: int| start <= j < i ==> list[j] != 0,
    ensures
        forall|k: int|
            0 <= k < name_scan(list, i, start).len() ==> (#[trigger] name_scan(list, i, start)[k]).len()
                > 0 && !name_scan(list, i, start)[k].contains(0u8),
    decreases list.len() - i,
{
    if i >= list.len() {
        let piece = list.subrange(start, list.len() as int);
        assert(!piece.contains(0u8)) by {
            if piece.contains(0u8) {
                let j = choose|j: int| 0 <= j < piece.len() && piece[j] == 0u8;
                assert(list[start + j] == 0);
            }
        }
        if piece.len() > 0 {
            assert(name_scan(list, i, start) == seq![piece]);
        }
    } else if list[i] == 0 {
        lemma_name_scan_names(list, i + 1, i + 1);
        let piece = list.subrange(start, i);
        let head = nonempty_piece(piece);
        let tail = name_scan(list, i + 1, i + 1);
        assert(!piece.contains(0u8)) by {
            if piece.contains(0u8) {
                let j = choose|j: int| 0 <= j < piece.len() && piece[j] == 0u8;
                assert(list[start + j] == 0);
            }
        }
        assert(name_scan(list, i, start) == head + tail);
        assert forall|k: int| 0 <= k < name_scan(list, i, start).len() implies (
        #[trigger] name_scan(list, i, start)[k]).len() > 0 && !name_scan(
            list,
            i,
            start,
        )[k].contains(0u8) by {
            if k < head.len() {
                assert(head == seq![piece]);
                assert(name_scan(list, i, start)[k] == piece);
            } else {
                assert(name_scan(list, i, start)[k] == tail[k - head.len()]);
            }
        }
    } else {
        lemma_name_scan_names(list, i + 1, start);
        assert(name_scan(list, i, start) == name_scan(list, i + 1, start));
    }
}

/// The extended attributes still to copy.
pub open spec fn xattrs_left(s: MetadataCopyView) -> Seq<Seq<u8>> {
    match s {
        MetadataCopyView::GetXattr { name, rest, .. } => seq![name] + rest,
        MetadataCopyView::SetXattr { rest, .. } => rest,
        _ => Seq::empty(),
    }
}

/// Every extended attribute the source lists is copied: once the list is
/// read, the attributes left to copy are exactly those listed; each is read
/// from the source and then set on the target with the value read, in the
/// order listed; the times are set only when none is left.
pub proof fn metadata_copy_copies_every_xattr(s: MetadataCopyView, reply: ReplyView)
    ensures
        s matches MetadataCopyView::ListXattrs { .. } ==> (reply matches ReplyView::Bytes(list) ==> (
        s.resume(reply) matches ProgressView::Ask(t) && xattrs_left(t) == xattr_names(list) && (t is GetXattr
            || (t is Times && xattr_names(list).len() == 0)))),
        s matches MetadataCopyView::GetXattr { to, name, rest, .. } ==> (reply matches ReplyView::Bytes(
            value,
        ) ==> (s.resume(reply) matches ProgressView::Ask(t) && t.pending() == (RequestView::SetXattr {
            path: to,
            name,
            value,
        }) && xattrs_left(t) == rest)),
        s matches MetadataCopyView::SetXattr { rest, .. } ==> (reply is Done ==> (s.resume(
            reply,
        ) matches ProgressView::Ask(t) && xattrs_left(t) == rest && (t is GetXattr || (t is Times
            && rest.len() == 0)))),
{
    match s {
        MetadataCopyView::ListXattrs { .. } => {
            if let ReplyView::Bytes(list) = reply {
                let names = xattr_names(list);
                if names.len() > 0 {
                    assert(seq![names[0]] + names.drop_first() =~= names);
                }
            }
        },
        MetadataCopyView::SetXattr { rest, .. } => {
            if rest.len() > 0 {
                assert(seq![rest[0]] + rest.drop_first() =~= rest);
            }
        },
        _ => {},
    }
}

/// A metadata copy gives the target what it read of the source: it reads
/// the source's metadata without following a symbolic link; sets the
/// target's owner to the source's user and group; then, for a file or
/// directory, the target's permission bits to the source's (a symbolic link
/// keeps its own); then lists the source's extended attributes; and, with
/// none to copy, sets the target's access and modification times to the
/// source's and is done.
pub proof fn metadata_copy_gives_what_it_read(
    from: Seq<u8>,
    to: Seq<u8>,
    target: MetadataTarget,
    m: FileMeta,
)
    requires
        !from.contains(0u8),
        !to.contains(0u8),
    ensures
        (MetadataCopyView::ReadMeta { from, to, target }).pending() == RequestView::SymlinkMetadata(from),
        (MetadataCopyView::ReadMeta { from, to, target }).resume(ReplyView::Meta(m)) matches ProgressView::Ask(
            owner,
        ) && owner.pending() == (RequestView::SetOwner { path: to, uid: m.uid, gid: m.gid }) && (
        owner.resume(ReplyView::Done) matches ProgressView::Ask(next) && (target
            == MetadataTarget::FileOrDirectory ==> next.pending() == (RequestView::SetMode {
            path: to,
            mode: m.mode,
        }) && (next.resume(ReplyView::Done) matches ProgressView::Ask(list) && list.pending()
            == RequestView::ListXattrs(from))) && (target == MetadataTarget::Symlink
            ==> next.pending() == RequestView::ListXattrs(from))),
        (MetadataCopyView::ListXattrs { from, to, meta: m }).resume(
            ReplyView::Bytes(Seq::empty()),
        ) matches ProgressView::Ask(times) && times.pending() == (RequestView::SetTimes {
            path: to,
            times: m.times,
        }) && times.resume(ReplyView::Done) == ProgressView::<MetadataCopyView, ()>::Finish(Ok(())),
{
    assert(Seq::<u8>::empty().subrange(0, 0) =~= Seq::<u8>::empty());
    assert(xattr_names(Seq::empty()).len() == 0);
}

/// Each extended attribute is read from the source by its name, and the
/// first listed is read first.
pub proof fn metadata_copy_reads_each_xattr_from_the_source(
    from: Seq<u8>,
    to: Seq<u8>,
    meta: FileMeta,
    name: Seq<u8>,
    rest: Seq<Seq<u8>>,
    list: Seq<u8>,
)
    ensures
        (MetadataCopyView::GetXattr { from, to, meta, name, rest }).pending() == (RequestView::GetXattr {
            path: from,
            name,
        }),
        xattr_names(list).len() > 0 ==> ((MetadataCopyView::ListXattrs { from, to, meta }).resume(
            ReplyView::Bytes(list),
        ) matches ProgressView::Ask(t) && t.pending() == (RequestView::GetXattr {
            path: from,
            name: xattr_names(list)[0],
        })),
{
}

} // verus!
