//! Snapshotting a tree file by file with reflinks: directories are recreated,
//! regular files reflinked (a file with several links is reflinked once and
//! hard-linked for its other names), symbolic links recreated, and the
//! metadata of every entry copied; directories get theirs last, the most
//! recently created first and the root at the very end.

use vstd::prelude::*;
use crate::io::{changes_only_below, Progress, ProgressView, Reply, ReplyView, Request, RequestView};
use crate::metadata::{
    metadata_copy_changes_only_target, metadata_copy_start, metadata_target, MetadataCopy,
    MetadataCopyView, MetadataTarget,
};
use crate::path::{
    copy_bytes, join, join_bytes, join_stays_below, path_starts_with, starts_with_itself,
    strip_prefix, strip_prefix_bytes, strip_prefix_is_relative,
};
use crate::types::{Error, ErrorView, PathIssue, PathIssueView, Unavailability, UnavailabilityView};

verus! {

/// A file with several links, by device and inode, and where it was first
/// created in the snapshot.
pub struct LinkRecord {
    pub dev: u64,
    pub ino: u64,
    pub path: Vec<u8>,
}

pub struct LinkRecordView {
    pub dev: u64,
    pub ino: u64,
    pub path: Seq<u8>,
}

impl View for LinkRecord {
    type V = LinkRecordView;

    open spec fn view(&self) -> LinkRecordView {
        LinkRecordView { dev: self.dev, ino: self.ino, path: self.path@ }
    }
}

/// A directory of the source and its copy in the snapshot.
pub struct DirRecord {
    pub source: Vec<u8>,
    pub destination: Vec<u8>,
}

pub struct DirRecordView {
    pub source: Seq<u8>,
    pub destination: Seq<u8>,
}

impl View for DirRecord {
    type V = DirRecordView;

    open spec fn view(&self) -> DirRecordView {
        DirRecordView { source: self.source@, destination: self.destination@ }
    }
}

/// What the walk has learned so far.
pub struct TreeWalk {
    pub from: Vec<u8>,
    pub to: Vec<u8>,
    pub links: Vec<LinkRecord>,
    pub dirs: Vec<DirRecord>,
}

pub struct TreeWalkView {
    pub from: Seq<u8>,
    pub to: Seq<u8>,
    pub links: Seq<LinkRecordView>,
    pub dirs: Seq<DirRecordView>,
}

impl View for TreeWalk {
    type V = TreeWalkView;

    open spec fn view(&self) -> TreeWalkView {
        TreeWalkView {
            from: self.from@,
            to: self.to@,
            links: self.links@.map_values(|l: LinkRecord| l@),
            dirs: self.dirs@.map_values(|d: DirRecord| d@),
        }
    }
}

/// Where the file with device `dev` and inode `ino` was first created.
pub open spec fn find_link(links: Seq<LinkRecordView>, dev: u64, ino: u64) -> Option<Seq<u8>>
    decreases links.len(),
{
    if links.len() == 0 {
        None
    } else if links.last().dev == dev && links.last().ino == ino {
        Some(links.last().path)
    } else {
        find_link(links.drop_last(), dev, ino)
    }
}

fn find_link_exec(links: &Vec<LinkRecord>, dev: u64, ino: u64) -> (r: Option<Vec<u8>>)
    ensures
        match r {
            Some(p) => find_link(links@.map_values(|l: LinkRecord| l@), dev, ino) == Some(p@),
            None => find_link(links@.map_values(|l: LinkRecord| l@), dev, ino) is None,
        },
{
    let ghost lv = links@.map_values(|l: LinkRecord| l@);
    let mut k: usize = links.len();
    assert(lv.subrange(0, k as int) =~= lv);
    while k > 0
        invariant
            k <= links.len(),
            lv == links@.map_values(|l: LinkRecord| l@),
            find_link(lv, dev, ino) == find_link(lv.subrange(0, k as int), dev, ino),
        decreases k,
    {
        let ghost sub = lv.subrange(0, k as int);
        assert(sub.last() == links@[k - 1]@);
        if links[k - 1].dev == dev && links[k - 1].ino == ino {
            return Some(copy_bytes(&links[k - 1].path));
        }
        assert(sub.drop_last() =~= lv.subrange(0, k - 1));
        k = k - 1;
    }
    None
}

impl TreeWalkView {
    pub open spec fn with_dir(self, source: Seq<u8>, destination: Seq<u8>) -> TreeWalkView {
        TreeWalkView { dirs: self.dirs.push(DirRecordView { source, destination }), ..self }
    }

    pub open spec fn with_link(self, dev: u64, ino: u64, path: Seq<u8>) -> TreeWalkView {
        TreeWalkView { links: self.links.push(LinkRecordView { dev, ino, path }), ..self }
    }

    pub open spec fn without_last_dir(self) -> TreeWalkView {
        TreeWalkView { dirs: self.dirs.drop_last(), ..self }
    }
}

impl TreeWalk {
    fn with_dir(self, source: Vec<u8>, destination: Vec<u8>) -> (r: TreeWalk)
        ensures
            r@ == self@.with_dir(source@, destination@),
    {
        let mut w = self;
        let ghost before = w.dirs@;
        w.dirs.push(DirRecord { source, destination });
        assert(w.dirs@.map_values(|d: DirRecord| d@) =~= before.map_values(|d: DirRecord| d@).push(
            DirRecordView { source: source@, destination: destination@ },
        ));
        w
    }

    fn with_link(self, dev: u64, ino: u64, path: Vec<u8>) -> (r: TreeWalk)
        ensures
            r@ == self@.with_link(dev, ino, path@),
    {
        let mut w = self;
        let ghost before = w.links@;
        w.links.push(LinkRecord { dev, ino, path });
        assert(w.links@.map_values(|l: LinkRecord| l@) =~= before.map_values(|l: LinkRecord| l@).push(
            LinkRecordView { dev, ino, path: path@ },
        ));
        w
    }
}

/// Copying the tree below `from` to the new directory `to`.
pub enum TreeCopy {
    CreateRoot { from: Vec<u8>, to: Vec<u8> },
    OpenWalk { walk: TreeWalk },
    Next { walk: TreeWalk },
    Inspect { walk: TreeWalk, source: Vec<u8>, dest: Vec<u8> },
    MakeDir { walk: TreeWalk, source: Vec<u8>, dest: Vec<u8> },
    HardLink { walk: TreeWalk, source: Vec<u8>, dest: Vec<u8>, existing: Vec<u8> },
    Reflink { walk: TreeWalk, source: Vec<u8>, dest: Vec<u8>, record: bool, dev: u64, ino: u64 },
    ReadLink { walk: TreeWalk, source: Vec<u8>, dest: Vec<u8> },
    MakeSymlink { walk: TreeWalk, source: Vec<u8>, dest: Vec<u8>, target: Vec<u8> },
    EntryMetadata { walk: TreeWalk, copy: MetadataCopy },
    DirMetadata { walk: TreeWalk, copy: MetadataCopy },
    RootMetadata { copy: MetadataCopy },
}

pub enum TreeCopyView {
    CreateRoot { from: Seq<u8>, to: Seq<u8> },
    OpenWalk { walk: TreeWalkView },
    Next { walk: TreeWalkView },
    Inspect { walk: TreeWalkView, source: Seq<u8>, dest: Seq<u8> },
    MakeDir { walk: TreeWalkView, source: Seq<u8>, dest: Seq<u8> },
    HardLink { walk: TreeWalkView, source: Seq<u8>, dest: Seq<u8>, existing: Seq<u8> },
    Reflink {
        walk: TreeWalkView,
        source: Seq<u8>,
        dest: Seq<u8>,
        record: bool,
        dev: u64,
        ino: u64,
    },
    ReadLink { walk: TreeWalkView, source: Seq<u8>, dest: Seq<u8> },
    MakeSymlink { walk: TreeWalkView, source: Seq<u8>, dest: Seq<u8>, target: Seq<u8> },
    EntryMetadata { walk: TreeWalkView, copy: MetadataCopyView },
    DirMetadata { walk: TreeWalkView, copy: MetadataCopyView },
    RootMetadata { copy: MetadataCopyView },
}

impl View for TreeCopy {
    type V = TreeCopyView;

    open spec fn view(&self) -> TreeCopyView {
        match self {
            TreeCopy::CreateRoot { from, to } => TreeCopyView::CreateRoot { from: from@, to: to@ },
            TreeCopy::OpenWalk { walk } => TreeCopyView::OpenWalk { walk: walk@ },
            TreeCopy::Next { walk } => TreeCopyView::Next { walk: walk@ },
            TreeCopy::Inspect { walk, source, dest } => TreeCopyView::Inspect {
                walk: walk@,
                source: source@,
                dest: dest@,
            },
            TreeCopy::MakeDir { walk, source, dest } => TreeCopyView::MakeDir {
                walk: walk@,
                source: source@,
                dest: dest@,
            },
            TreeCopy::HardLink { walk, source, dest, existing } => TreeCopyView::HardLink {
                walk: walk@,
                source: source@,
                dest: dest@,
                existing: existing@,
            },
            TreeCopy::Reflink { walk, source, dest, record, dev, ino } => TreeCopyView::Reflink {
                walk: walk@,
                source: source@,
                dest: dest@,
                record: *record,
                dev: *dev,
                ino: *ino,
            },
            TreeCopy::ReadLink { walk, source, dest } => TreeCopyView::ReadLink {
                walk: walk@,
                source: source@,
                dest: dest@,
            },
            TreeCopy::MakeSymlink { walk, source, dest, target } => TreeCopyView::MakeSymlink {
                walk: walk@,
                source: source@,
                dest: dest@,
                target: target@,
            },
            TreeCopy::EntryMetadata { walk, copy } => TreeCopyView::EntryMetadata {
                walk: walk@,
                copy: copy@,
            },
            TreeCopy::DirMetadata { walk, copy } => TreeCopyView::DirMetadata {
                walk: walk@,
                copy: copy@,
            },
            TreeCopy::RootMetadata { copy } => TreeCopyView::RootMetadata { copy: copy@ },
        }
    }
}

pub open spec fn tree_copy_start(from: Seq<u8>, to: Seq<u8>) -> ProgressView<TreeCopyView, ()> {
    ProgressView::Ask(TreeCopyView::CreateRoot { from, to })
}

/// After the walk: the metadata of the last recorded directory, or of the
/// root once every directory has its own.
pub open spec fn tree_finish_dirs(walk: TreeWalkView) -> ProgressView<TreeCopyView, ()> {
    if walk.dirs.len() > 0 {
        let d = walk.dirs.last();
        ProgressView::Ask(
            TreeCopyView::DirMetadata {
                walk: walk.without_last_dir(),
                copy: MetadataCopyView::ReadMeta {
                    from: d.source,
                    to: d.destination,
                    target: MetadataTarget::FileOrDirectory,
                },
            },
        )
    } else {
        ProgressView::Ask(
            TreeCopyView::RootMetadata {
                copy: MetadataCopyView::ReadMeta {
                    from: walk.from,
                    to: walk.to,
                    target: MetadataTarget::FileOrDirectory,
                },
            },
        )
    }
}

pub open spec fn tree_after_entry_metadata(walk: TreeWalkView, p: ProgressView<MetadataCopyView, ()>) -> ProgressView<
    TreeCopyView,
    (),
> {
    match p {
        ProgressView::Ask(copy) => ProgressView::Ask(TreeCopyView::EntryMetadata { walk, copy }),
        ProgressView::Finish(Ok(())) => ProgressView::Ask(TreeCopyView::Next { walk }),
        ProgressView::Finish(Err(e)) => ProgressView::Finish(Err(e)),
    }
}

pub open spec fn tree_after_dir_metadata(walk: TreeWalkView, p: ProgressView<MetadataCopyView, ()>) -> ProgressView<
    TreeCopyView,
    (),
> {
    match p {
        ProgressView::Ask(copy) => ProgressView::Ask(TreeCopyView::DirMetadata { walk, copy }),
        ProgressView::Finish(Ok(())) => tree_finish_dirs(walk),
        ProgressView::Finish(Err(e)) => ProgressView::Finish(Err(e)),
    }
}

pub open spec fn tree_after_root_metadata(p: ProgressView<MetadataCopyView, ()>) -> ProgressView<
    TreeCopyView,
    (),
> {
    match p {
        ProgressView::Ask(copy) => ProgressView::Ask(TreeCopyView::RootMetadata { copy }),
        ProgressView::Finish(r) => ProgressView::Finish(r),
    }
}

/// How an entry is recreated, by what its metadata says it is.
pub open spec fn tree_inspect(
    walk: TreeWalkView,
    source: Seq<u8>,
    dest: Seq<u8>,
    m: crate::io::FileMeta,
) -> ProgressView<TreeCopyView, ()> {
    if m.is_dir {
        ProgressView::Ask(TreeCopyView::MakeDir { walk, source, dest })
    } else if m.is_file {
        if m.nlink > 1 {
            match find_link(walk.links, m.dev, m.ino) {
                Some(existing) => ProgressView::Ask(
                    TreeCopyView::HardLink { walk, source, dest, existing },
                ),
                None => ProgressView::Ask(
                    TreeCopyView::Reflink { walk, source, dest, record: true, dev: m.dev, ino: m.ino },
                ),
            }
        } else {
            ProgressView::Ask(
                TreeCopyView::Reflink { walk, source, dest, record: false, dev: m.dev, ino: m.ino },
            )
        }
    } else if m.is_symlink {
        ProgressView::Ask(TreeCopyView::ReadLink { walk, source, dest })
    } else {
        ProgressView::Finish(Err(ErrorView::UnsupportedEntry(source)))
    }
}

impl TreeCopyView {
    pub open spec fn pending(self) -> RequestView {
        match self {
            TreeCopyView::CreateRoot { to, .. } => RequestView::CreateDir(to),
            TreeCopyView::OpenWalk { walk } => RequestView::OpenWalk(walk.from),
            TreeCopyView::Next { .. } => RequestView::NextWalkEntry,
            TreeCopyView::Inspect { source, .. } => RequestView::SymlinkMetadata(source),
            TreeCopyView::MakeDir { dest, .. } => RequestView::CreateDir(dest),
            TreeCopyView::HardLink { dest, existing, .. } => RequestView::HardLink {
                original: existing,
                link: dest,
            },
            TreeCopyView::Reflink { source, dest, .. } => RequestView::ReflinkFile {
                from: source,
                to: dest,
            },
            TreeCopyView::ReadLink { source, .. } => RequestView::ReadLink(source),
            TreeCopyView::MakeSymlink { dest, target, .. } => RequestView::Symlink {
                target,
                link: dest,
            },
            TreeCopyView::EntryMetadata { copy, .. } => copy.pending(),
            TreeCopyView::DirMetadata { copy, .. } => copy.pending(),
            TreeCopyView::RootMetadata { copy } => copy.pending(),
        }
    }

    pub open spec fn resume(self, reply: ReplyView) -> ProgressView<TreeCopyView, ()> {
        match self {
            TreeCopyView::EntryMetadata { walk, copy } => tree_after_entry_metadata(
                walk,
                copy.resume(reply),
            ),
            TreeCopyView::DirMetadata { walk, copy } => tree_after_dir_metadata(
                walk,
                copy.resume(reply),
            ),
            TreeCopyView::RootMetadata { copy } => tree_after_root_metadata(copy.resume(reply)),
            _ => match reply {
                ReplyView::Failed(f) => ProgressView::Finish(Err(ErrorView::Io(f))),
                _ => match self {
                    TreeCopyView::CreateRoot { from, to } => match reply {
                        ReplyView::Done => ProgressView::Ask(
                            TreeCopyView::OpenWalk {
                                walk: TreeWalkView {
                                    from,
                                    to,
                                    links: Seq::empty(),
                                    dirs: Seq::empty(),
                                },
                            },
                        ),
                        _ => ProgressView::Ask(self),
                    },
                    TreeCopyView::OpenWalk { walk } => match reply {
                        ReplyView::Done => ProgressView::Ask(TreeCopyView::Next { walk }),
                        _ => ProgressView::Ask(self),
                    },
                    TreeCopyView::Next { walk } => match reply {
                        ReplyView::WalkEntry(source) => match strip_prefix(source, walk.from) {
                            None => ProgressView::Finish(
                                Err(ErrorView::InvalidPath(PathIssueView::PrefixNotFound)),
                            ),
                            Some(relative) => ProgressView::Ask(
                                TreeCopyView::Inspect {
                                    walk,
                                    source,
                                    dest: join(walk.to, relative),
                                },
                            ),
                        },
                        ReplyView::End => tree_finish_dirs(walk),
                        _ => ProgressView::Ask(self),
                    },
                    TreeCopyView::Inspect { walk, source, dest } => match reply {
                        ReplyView::Meta(m) => tree_inspect(walk, source, dest, m),
                        _ => ProgressView::Ask(self),
                    },
                    TreeCopyView::MakeDir { walk, source, dest } => match reply {
                        ReplyView::Done => ProgressView::Ask(
                            TreeCopyView::Next { walk: walk.with_dir(source, dest) },
                        ),
                        _ => ProgressView::Ask(self),
                    },
                    TreeCopyView::HardLink { walk, source, dest, .. } => match reply {
                        ReplyView::Done => tree_after_entry_metadata(
                            walk,
                            metadata_copy_start(source, dest, MetadataTarget::FileOrDirectory),
                        ),
                        _ => ProgressView::Ask(self),
                    },
                    TreeCopyView::Reflink { walk, source, dest, record, dev, ino } => match reply {
                        ReplyView::Done => tree_after_entry_metadata(
                            if record {
                                walk.with_link(dev, ino, dest)
                            } else {
                                walk
                            },
                            metadata_copy_start(source, dest, MetadataTarget::FileOrDirectory),
                        ),
                        ReplyView::Refused(f) => ProgressView::Finish(
                            Err(
                                ErrorView::Unavailable(
                                    UnavailabilityView::ReflinkFailed { from: source, error: f },
                                ),
                            ),
                        ),
                        _ => ProgressView::Ask(self),
                    },
                    TreeCopyView::ReadLink { walk, source, dest } => match reply {
                        ReplyView::Bytes(target) => ProgressView::Ask(
                            TreeCopyView::MakeSymlink { walk, source, dest, target },
                        ),
                        _ => ProgressView::Ask(self),
                    },
                    TreeCopyView::MakeSymlink { walk, source, dest, .. } => match reply {
                        ReplyView::Done => tree_after_entry_metadata(
                            walk,
                            metadata_copy_start(source, dest, MetadataTarget::Symlink),
                        ),
                        _ => ProgressView::Ask(self),
                    },
                    _ => ProgressView::Ask(self),
                },
            },
        }
    }
}

impl TreeCopy {
    pub fn start(from: Vec<u8>, to: Vec<u8>) -> (r: Progress<TreeCopy, ()>)
        ensures
            r@ == tree_copy_start(from@, to@),
    {
        Progress::Ask(TreeCopy::CreateRoot { from, to })
    }

    fn finish_dirs(walk: TreeWalk) -> (r: Progress<TreeCopy, ()>)
        ensures
            r@ == tree_finish_dirs(walk@),
    {
        let mut walk = walk;
        let ghost before = walk.dirs@;
        match walk.dirs.pop() {
            Some(d) => {
                assert(walk.dirs@.map_values(|d: DirRecord| d@) =~= before.map_values(
                    |d: DirRecord| d@,
                ).drop_last());
                Progress::Ask(
                    TreeCopy::DirMetadata {
                        walk,
                        copy: MetadataCopy::ReadMeta {
                            from: d.source,
                            to: d.destination,
                            target: MetadataTarget::FileOrDirectory,
                        },
                    },
                )
            },
            None => Progress::Ask(
                TreeCopy::RootMetadata {
                    copy: MetadataCopy::ReadMeta {
                        from: walk.from,
                        to: walk.to,
                        target: MetadataTarget::FileOrDirectory,
                    },
                },
            ),
        }
    }

    fn after_entry_metadata(walk: TreeWalk, p: Progress<MetadataCopy, ()>) -> (r: Progress<
        TreeCopy,
        (),
    >)
        ensures
            r@ == tree_after_entry_metadata(walk@, p@),
    {
        match p {
            Progress::Ask(copy) => Progress::Ask(TreeCopy::EntryMetadata { walk, copy }),
            Progress::Finish(Ok(())) => Progress::Ask(TreeCopy::Next { walk }),
            Progress::Finish(Err(e)) => Progress::Finish(Err(e)),
        }
    }

    fn after_dir_metadata(walk: TreeWalk, p: Progress<MetadataCopy, ()>) -> (r: Progress<
        TreeCopy,
        (),
    >)
        ensures
            r@ == tree_after_dir_metadata(walk@, p@),
    {
        match p {
            Progress::Ask(copy) => Progress::Ask(TreeCopy::DirMetadata { walk, copy }),
            Progress::Finish(Ok(())) => TreeCopy::finish_dirs(walk),
            Progress::Finish(Err(e)) => Progress::Finish(Err(e)),
        }
    }

    fn after_root_metadata(p: Progress<MetadataCopy, ()>) -> (r: Progress<TreeCopy, ()>)
        ensures
            r@ == tree_after_root_metadata(p@),
    {
        match p {
            Progress::Ask(copy) => Progress::Ask(TreeCopy::RootMetadata { copy }),
            Progress::Finish(r) => Progress::Finish(r),
        }
    }

    fn inspect(walk: TreeWalk, source: Vec<u8>, dest: Vec<u8>, m: crate::io::FileMeta) -> (r:
        Progress<TreeCopy, ()>)
        ensures
            r@ == tree_inspect(walk@, source@, dest@, m),
    {
        if m.is_dir {
            Progress::Ask(TreeCopy::MakeDir { walk, source, dest })
        } else if m.is_file {
            if m.nlink > 1 {
                match find_link_exec(&walk.links, m.dev, m.ino) {
                    Some(existing) => Progress::Ask(
                        TreeCopy::HardLink { walk, source, dest, existing },
                    ),
                    None => Progress::Ask(
                        TreeCopy::Reflink { walk, source, dest, record: true, dev: m.dev, ino: m.ino },
                    ),
                }
            } else {
                Progress::Ask(
                    TreeCopy::Reflink { walk, source, dest, record: false, dev: m.dev, ino: m.ino },
                )
            }
        } else if m.is_symlink {
            Progress::Ask(TreeCopy::ReadLink { walk, source, dest })
        } else {
            Progress::Finish(Err(Error::UnsupportedEntry(source)))
        }
    }

    pub fn request(&self) -> (r: Request)
        ensures
            r@ == self@.pending(),
    {
        match self {
            TreeCopy::CreateRoot { to, .. } => Request::CreateDir(copy_bytes(to)),
            TreeCopy::OpenWalk { walk } => Request::OpenWalk(copy_bytes(&walk.from)),
            TreeCopy::Next { .. } => Request::NextWalkEntry,
            TreeCopy::Inspect { source, .. } => Request::SymlinkMetadata(copy_bytes(source)),
            TreeCopy::MakeDir { dest, .. } => Request::CreateDir(copy_bytes(dest)),
            TreeCopy::HardLink { dest, existing, .. } => Request::HardLink {
                original: copy_bytes(existing),
                link: copy_bytes(dest),
            },
            TreeCopy::Reflink { source, dest, .. } => Request::ReflinkFile {
                from: copy_bytes(source),
                to: copy_bytes(dest),
            },
            TreeCopy::ReadLink { source, .. } => Request::ReadLink(copy_bytes(source)),
            TreeCopy::MakeSymlink { dest, target, .. } => Request::Symlink {
                target: copy_bytes(target),
                link: copy_bytes(dest),
            },
            TreeCopy::EntryMetadata { copy, .. } => copy.request(),
            TreeCopy::DirMetadata { copy, .. } => copy.request(),
            TreeCopy::RootMetadata { copy } => copy.request(),
        }
    }

    pub fn resume(self, reply: Reply) -> (r: Progress<TreeCopy, ()>)
        ensures
            r@ == self@.resume(reply@),
    {
        match self {
            TreeCopy::EntryMetadata { walk, copy } => TreeCopy::after_entry_metadata(
                walk,
                copy.resume(reply),
            ),
            TreeCopy::DirMetadata { walk, copy } => TreeCopy::after_dir_metadata(
                walk,
                copy.resume(reply),
            ),
            TreeCopy::RootMetadata { copy } => TreeCopy::after_root_metadata(copy.resume(reply)),
            state => match reply {
                Reply::Failed(f) => Progress::Finish(Err(Error::Io(f))),
                reply => match state {
                    TreeCopy::CreateRoot { from, to } => match reply {
                        Reply::Done => {
                            let walk = TreeWalk { from, to, links: Vec::new(), dirs: Vec::new() };
                            assert(walk@.links =~= Seq::<LinkRecordView>::empty());
                            assert(walk@.dirs =~= Seq::<DirRecordView>::empty());
                            Progress::Ask(TreeCopy::OpenWalk { walk })
                        },
                        _ => Progress::Ask(TreeCopy::CreateRoot { from, to }),
                    },
                    TreeCopy::OpenWalk { walk } => match reply {
                        Reply::Done => Progress::Ask(TreeCopy::Next { walk }),
                        _ => Progress::Ask(TreeCopy::OpenWalk { walk }),
                    },
                    TreeCopy::Next { walk } => match reply {
                        Reply::WalkEntry(source) => match strip_prefix_bytes(&source, &walk.from) {
                            None => Progress::Finish(
                                Err(Error::InvalidPath(PathIssue::PrefixNotFound)),
                            ),
                            Some(relative) => {
                                let dest = join_bytes(&walk.to, &relative);
                                Progress::Ask(TreeCopy::Inspect { walk, source, dest })
                            },
                        },
                        Reply::End => TreeCopy::finish_dirs(walk),
                        _ => Progress::Ask(TreeCopy::Next { walk }),
                    },
                    TreeCopy::Inspect { walk, source, dest } => match reply {
                        Reply::Meta(m) => TreeCopy::inspect(walk, source, dest, m),
                        _ => Progress::Ask(TreeCopy::Inspect { walk, source, dest }),
                    },
                    TreeCopy::MakeDir { walk, source, dest } => match reply {
                        Reply::Done => Progress::Ask(TreeCopy::Next { walk: walk.with_dir(source, dest) }),
                        _ => Progress::Ask(TreeCopy::MakeDir { walk, source, dest }),
                    },
                    TreeCopy::HardLink { walk, source, dest, existing } => match reply {
                        Reply::Done => TreeCopy::after_entry_metadata(
                            walk,
                            MetadataCopy::start(source, dest, MetadataTarget::FileOrDirectory),
                        ),
                        _ => Progress::Ask(TreeCopy::HardLink { walk, source, dest, existing }),
                    },
                    TreeCopy::Reflink { walk, source, dest, record, dev, ino } => match reply {
                        Reply::Done => {
                            let walk = if record {
                                walk.with_link(dev, ino, copy_bytes(&dest))
                            } else {
                                walk
                            };
                            TreeCopy::after_entry_metadata(
                                walk,
                                MetadataCopy::start(source, dest, MetadataTarget::FileOrDirectory),
                            )
                        },
                        Reply::Refused(f) => Progress::Finish(
                            Err(
                                Error::Unavailable(
                                    Unavailability::ReflinkFailed { from: source, error: f },
                                ),
                            ),
                        ),
                        _ => Progress::Ask(TreeCopy::Reflink { walk, source, dest, record, dev, ino }),
                    },
                    TreeCopy::ReadLink { walk, source, dest } => match reply {
                        Reply::Bytes(target) => Progress::Ask(
                            TreeCopy::MakeSymlink { walk, source, dest, target },
                        ),
                        _ => Progress::Ask(TreeCopy::ReadLink { walk, source, dest }),
                    },
                    TreeCopy::MakeSymlink { walk, source, dest, target } => match reply {
                        Reply::Done => TreeCopy::after_entry_metadata(
                            walk,
                            MetadataCopy::start(source, dest, MetadataTarget::Symlink),
                        ),
                        _ => Progress::Ask(TreeCopy::MakeSymlink { walk, source, dest, target }),
                    },
                    other => Progress::Ask(other),
                },
            },
        }
    }
}

// ---------------------------------------------------------------------------
// Laws.

/// No file is recorded twice in the table of multiply-linked files.
pub open spec fn links_unique(links: Seq<LinkRecordView>) -> bool {
    forall|i: int, j: int|
        0 <= i < j < links.len() ==> !(#[trigger] links[i].dev == #[trigger] links[j].dev
            && links[i].ino == links[j].ino)
}

pub open spec fn walk_ok(w: TreeWalkView) -> bool {
    &&& w.from.len() > 0
    &&& forall|k: int|
        0 <= k < w.dirs.len() ==> path_starts_with(#[trigger] w.dirs[k].destination, w.to)
    &&& links_unique(w.links)
}

/// The destination root of a tree copy.
pub open spec fn tree_to(s: TreeCopyView) -> Seq<u8> {
    match s {
        TreeCopyView::CreateRoot { to, .. } => to,
        TreeCopyView::OpenWalk { walk } => walk.to,
        TreeCopyView::Next { walk } => walk.to,
        TreeCopyView::Inspect { walk, .. } => walk.to,
        TreeCopyView::MakeDir { walk, .. } => walk.to,
        TreeCopyView::HardLink { walk, .. } => walk.to,
        TreeCopyView::Reflink { walk, .. } => walk.to,
        TreeCopyView::ReadLink { walk, .. } => walk.to,
        TreeCopyView::MakeSymlink { walk, .. } => walk.to,
        TreeCopyView::EntryMetadata { walk, .. } => walk.to,
        TreeCopyView::DirMetadata { walk, .. } => walk.to,
        TreeCopyView::RootMetadata { copy } => metadata_target(copy),
    }
}

/// What every state of a tree copy keeps: a nonempty source, entries and
/// recorded directories below the destination root, and each linked file
/// recorded once.
pub open spec fn tree_ok(s: TreeCopyView) -> bool {
    match s {
        TreeCopyView::CreateRoot { from, .. } => from.len() > 0,
        TreeCopyView::OpenWalk { walk } => walk_ok(walk),
        TreeCopyView::Next { walk } => walk_ok(walk),
        TreeCopyView::Inspect { walk, dest, .. } => walk_ok(walk) && path_starts_with(dest, walk.to),
        TreeCopyView::MakeDir { walk, dest, .. } => walk_ok(walk) && path_starts_with(dest, walk.to),
        TreeCopyView::HardLink { walk, dest, .. } => walk_ok(walk) && path_starts_with(dest, walk.to),
        TreeCopyView::Reflink { walk, dest, record, dev, ino, .. } => walk_ok(walk)
            && path_starts_with(dest, walk.to) && (record ==> find_link(walk.links, dev, ino) is None),
        TreeCopyView::ReadLink { walk, dest, .. } => walk_ok(walk) && path_starts_with(dest, walk.to),
        TreeCopyView::MakeSymlink { walk, dest, .. } => walk_ok(walk) && path_starts_with(
            dest,
            walk.to,
        ),
        TreeCopyView::EntryMetadata { walk, copy } => walk_ok(walk) && path_starts_with(
            metadata_target(copy),
            walk.to,
        ),
        TreeCopyView::DirMetadata { walk, copy } => walk_ok(walk) && path_starts_with(
            metadata_target(copy),
            walk.to,
        ),
        TreeCopyView::RootMetadata { .. } => true,
    }
}

proof fn lemma_find_link_none(links: Seq<LinkRecordView>, dev: u64, ino: u64)
    requires
        find_link(links, dev, ino) is None,
    ensures
        forall|k: int|
            0 <= k < links.len() ==> !(#[trigger] links[k].dev == dev && links[k].ino == ino),
    decreases links.len(),
{
    if links.len() > 0 {
        lemma_find_link_none(links.drop_last(), dev, ino);
        assert forall|k: int| 0 <= k < links.len() implies !(#[trigger] links[k].dev == dev
            && links[k].ino == ino) by {
            if k < links.len() - 1 {
                assert(links.drop_last()[k] == links[k]);
            }
        }
    }
}

/// A tree copy from a nonempty source begins in a good state.
pub proof fn tree_copy_begins_ok(from: Seq<u8>, to: Seq<u8>)
    requires
        from.len() > 0,
    ensures
        tree_copy_start(from, to) matches ProgressView::Ask(s) && tree_ok(s) && tree_to(s) == to,
{
}

/// A tree copy changes nothing outside its destination root, records each
/// multiply-linked file once, and keeps its destination root.
pub proof fn tree_copy_changes_only_destination(s: TreeCopyView, reply: ReplyView)
    requires
        tree_ok(s),
    ensures
        changes_only_below(s.pending(), tree_to(s)),
        s.resume(reply) matches ProgressView::Ask(t) ==> tree_ok(t) && tree_to(t) == tree_to(s),
{
    starts_with_itself(tree_to(s));
    match s {
        TreeCopyView::EntryMetadata { walk, copy } => {
            metadata_copy_changes_only_target(copy, reply, walk.to);
        },
        TreeCopyView::DirMetadata { walk, copy } => {
            metadata_copy_changes_only_target(copy, reply, walk.to);
            if let ProgressView::Finish(Ok(())) = copy.resume(reply) {
                if walk.dirs.len() > 0 {
                    let w = walk.without_last_dir();
                    assert forall|k: int| 0 <= k < w.dirs.len() implies path_starts_with(
                        #[trigger] w.dirs[k].destination,
                        w.to,
                    ) by {
                        assert(w.dirs[k] == walk.dirs[k]);
                    }
                    assert(walk.dirs[walk.dirs.len() - 1] == walk.dirs.last());
                }
            }
        },
        TreeCopyView::RootMetadata { copy } => {
            metadata_copy_changes_only_target(copy, reply, metadata_target(copy));
        },
        TreeCopyView::Next { walk } => {
            if let ReplyView::WalkEntry(source) = reply {
                if let Some(relative) = strip_prefix(source, walk.from) {
                    strip_prefix_is_relative(source, walk.from);
                    join_stays_below(walk.to, relative);
                }
            }
            if let ReplyView::End = reply {
                if walk.dirs.len() > 0 {
                    let w = walk.without_last_dir();
                    assert forall|k: int| 0 <= k < w.dirs.len() implies path_starts_with(
                        #[trigger] w.dirs[k].destination,
                        w.to,
                    ) by {
                        assert(w.dirs[k] == walk.dirs[k]);
                    }
                    assert(walk.dirs[walk.dirs.len() - 1] == walk.dirs.last());
                }
            }
        },
        TreeCopyView::Inspect { walk, dest, .. } => {
            if let ReplyView::Meta(m) = reply {
                if m.is_file && m.nlink > 1 {
                    if find_link(walk.links, m.dev, m.ino) is None {
                    }
                }
            }
        },
        TreeCopyView::MakeDir { walk, source, dest } => {
            let w = walk.with_dir(source, dest);
            assert forall|k: int| 0 <= k < w.dirs.len() implies path_starts_with(
                #[trigger] w.dirs[k].destination,
                w.to,
            ) by {
                if k < walk.dirs.len() {
                    assert(w.dirs[k] == walk.dirs[k]);
                }
            }
        },
        TreeCopyView::HardLink { walk, source, dest, .. } => {
            starts_with_itself(dest);
        },
        TreeCopyView::Reflink { walk, source, dest, record, dev, ino } => {
            if record {
                lemma_find_link_none(walk.links, dev, ino);
                let w = walk.with_link(dev, ino, dest);
                assert forall|i: int, j: int| 0 <= i < j < w.links.len() implies !(
                #[trigger] w.links[i].dev == #[trigger] w.links[j].dev && w.links[i].ino
                    == w.links[j].ino) by {
                    if j < walk.links.len() {
                        assert(w.links[i] == walk.links[i]);
                        assert(w.links[j] == walk.links[j]);
                    } else {
                        assert(w.links[i] == walk.links[i]);
                    }
                }
            }
        },
        TreeCopyView::MakeSymlink { walk, dest, .. } => {
        },
        _ => {},
    }
}

/// Each entry the walk hands over is recreated at its place below the
/// destination root, by what its metadata says it is: a directory is
/// created; a regular file is hard-linked to the copy of a file with the same
/// device and inode made before, when it has several links and such a copy
/// exists, and reflinked otherwise; a symbolic link has its target read (and
/// is then recreated); anything else is refused.
pub proof fn tree_copy_recreates_each_entry(
    walk: TreeWalkView,
    entry: Seq<u8>,
    source: Seq<u8>,
    dest: Seq<u8>,
    m: crate::io::FileMeta,
)
    ensures
        strip_prefix(entry, walk.from) matches Some(relative) ==> (TreeCopyView::Next {
            walk,
        }).resume(ReplyView::WalkEntry(entry)) == ProgressView::<TreeCopyView, ()>::Ask(
            TreeCopyView::Inspect { walk, source: entry, dest: join(walk.to, relative) },
        ),
        match (TreeCopyView::Inspect { walk, source, dest }).resume(ReplyView::Meta(m)) {
            ProgressView::Ask(t) => {
                ||| m.is_dir && t.pending() == RequestView::CreateDir(dest)
                ||| !m.is_dir && m.is_file && m.nlink > 1 && find_link(walk.links, m.dev, m.ino)
                    is Some && t.pending() == (RequestView::HardLink {
                    original: find_link(walk.links, m.dev, m.ino)->0,
                    link: dest,
                })
                ||| !m.is_dir && m.is_file && (m.nlink <= 1 || find_link(walk.links, m.dev, m.ino)
                    is None) && t.pending() == (RequestView::ReflinkFile { from: source, to: dest })
                ||| !m.is_dir && !m.is_file && m.is_symlink && t.pending() == RequestView::ReadLink(
                    source,
                )
            },
            ProgressView::Finish(r) => !m.is_dir && !m.is_file && !m.is_symlink && r == Err::<
                (),
                ErrorView,
            >(ErrorView::UnsupportedEntry(source)),
        },
{
}

/// The first name met of a file with several links is reflinked and
/// recorded as that file's copy, so that every later name of it is
/// hard-linked to this copy.
pub proof fn tree_copy_records_first_link(
    walk: TreeWalkView,
    source: Seq<u8>,
    dest: Seq<u8>,
    dev: u64,
    ino: u64,
)
    ensures
        (TreeCopyView::Reflink { walk, source, dest, record: true, dev, ino }).resume(
            ReplyView::Done,
        ) matches ProgressView::Ask(TreeCopyView::EntryMetadata { walk: w, .. }) && find_link(
            w.links,
            dev,
            ino,
        ) == Some(dest) && w.from == walk.from && w.to == walk.to,
{
    let w = walk.with_link(dev, ino, dest);
    assert(w.links.last() == LinkRecordView { dev, ino, path: dest });
}

/// Every regular file and symbolic link that the tree copy recreates has
/// its metadata copied onto the new entry next, before the walk goes on: a
/// reflinked file (with several links or one) and a hard-linked file as a
/// file, a symbolic link as a symbolic link. The copy starts by reading the
/// metadata of the source entry.
pub proof fn tree_copy_copies_metadata_of_each_entry(
    walk: TreeWalkView,
    source: Seq<u8>,
    dest: Seq<u8>,
    record: bool,
    dev: u64,
    ino: u64,
    existing: Seq<u8>,
    target: Seq<u8>,
)
    ensures
        (TreeCopyView::Reflink { walk, source, dest, record, dev, ino }).resume(ReplyView::Done) matches ProgressView::Ask(
            TreeCopyView::EntryMetadata { copy, .. },
        ) && copy == (MetadataCopyView::ReadMeta {
            from: source,
            to: dest,
            target: MetadataTarget::FileOrDirectory,
        }) && copy.pending() == RequestView::SymlinkMetadata(source),
        (TreeCopyView::HardLink { walk, source, dest, existing }).resume(ReplyView::Done) matches ProgressView::Ask(
            TreeCopyView::EntryMetadata { copy, .. },
        ) && copy == (MetadataCopyView::ReadMeta {
            from: source,
            to: dest,
            target: MetadataTarget::FileOrDirectory,
        }) && copy.pending() == RequestView::SymlinkMetadata(source),
        (TreeCopyView::MakeSymlink { walk, source, dest, target }).resume(ReplyView::Done) matches ProgressView::Ask(
            TreeCopyView::EntryMetadata { copy, .. },
        ) && copy == (MetadataCopyView::ReadMeta {
            from: source,
            to: dest,
            target: MetadataTarget::Symlink,
        }) && copy.pending() == RequestView::SymlinkMetadata(source),
{
}

/// The tree copy creates the destination root first; each directory it
/// creates is recorded with its source; when the walk ends, the recorded
/// directories get their metadata, the most recently created first, and the
/// root last, each read from its source directory.
pub proof fn tree_copy_gives_directories_their_metadata(
    from: Seq<u8>,
    to: Seq<u8>,
    walk: TreeWalkView,
    source: Seq<u8>,
    dest: Seq<u8>,
)
    ensures
        (TreeCopyView::CreateRoot { from, to }).pending() == RequestView::CreateDir(to),
        (TreeCopyView::MakeDir { walk, source, dest }).pending() == RequestView::CreateDir(dest),
        (TreeCopyView::MakeDir { walk, source, dest }).resume(ReplyView::Done) == ProgressView::<
            TreeCopyView,
            (),
        >::Ask(
            TreeCopyView::Next {
                walk: TreeWalkView {
                    dirs: walk.dirs.push(DirRecordView { source, destination: dest }),
                    ..walk
                },
            },
        ),
        walk.dirs.len() > 0 ==> (TreeCopyView::Next { walk }).resume(ReplyView::End)
            == ProgressView::<TreeCopyView, ()>::Ask(
            TreeCopyView::DirMetadata {
                walk: TreeWalkView { dirs: walk.dirs.drop_last(), ..walk },
                copy: MetadataCopyView::ReadMeta {
                    from: walk.dirs.last().source,
                    to: walk.dirs.last().destination,
                    target: MetadataTarget::FileOrDirectory,
                },
            },
        ),
        walk.dirs.len() == 0 ==> (TreeCopyView::Next { walk }).resume(ReplyView::End)
            == ProgressView::<TreeCopyView, ()>::Ask(
            TreeCopyView::RootMetadata {
                copy: MetadataCopyView::ReadMeta {
                    from: walk.from,
                    to: walk.to,
                    target: MetadataTarget::FileOrDirectory,
                },
            },
        ),
{
}

} // verus!
