//! The four operations driven against an in-memory filesystem that answers
//! every request the way the real system calls would.

use greppy_rift_core::io::{FileMeta, Progress, Reply, Request, Timestamps};
use greppy_rift_core::linux::{set_snapshot_source_immutable, SetSourceImmutable};
use greppy_rift_core::operations::{PrepareSnapshotSource, Probe, RemoveSnapshot, SnapshotExact};
use greppy_rift_core::types::{
    Backend, Capability, Error, IoFailure, IoKind, PathIssue, Platform, RemoveReceipt,
    SnapshotReceipt, SubvolumeOp, Unavailability,
};
use greppy_rift_core::{prepare_snapshot_source, probe, remove_snapshot, snapshot_exact};
use std::collections::{BTreeMap, HashMap};

const BTRFS: i64 = 0x9123_683e;
const EXT4: i64 = 0xef53;

#[derive(Clone, Debug, PartialEq)]
enum Kind {
    Dir,
    File(Vec<u8>),
    Symlink(Vec<u8>),
    Fifo,
}

#[derive(Clone, Debug, PartialEq)]
struct Node {
    kind: Kind,
    ino: u64,
    mode: u32,
    uid: u32,
    gid: u32,
    xattrs: Vec<(Vec<u8>, Vec<u8>)>,
    times: Timestamps,
    flags: u64,
}

/// A filesystem of one device.
struct Fs {
    entries: BTreeMap<Vec<u8>, usize>,
    nodes: HashMap<usize, Node>,
    next_node: usize,
    fs_type: i64,
    fs_name: Vec<u8>,
    reflinks: bool,
    destroy_denied: bool,
    fail_clone: bool,
    fail_removal: bool,
    refuse_subvolume: bool,
    mounts: Vec<(Vec<u8>, u64)>,
    held: Option<Vec<u8>>,
    walk: Vec<Vec<u8>>,
    listing: Vec<(Vec<u8>, bool)>,
    probe_ids: u64,
    changes: Vec<Vec<u8>>,
}

fn io(kind: IoKind) -> IoFailure {
    let std_kind = match kind {
        IoKind::NotFound => std::io::ErrorKind::NotFound,
        IoKind::AlreadyExists => std::io::ErrorKind::AlreadyExists,
        IoKind::PermissionDenied => std::io::ErrorKind::PermissionDenied,
        IoKind::Unsupported => std::io::ErrorKind::Unsupported,
        IoKind::Other => std::io::ErrorKind::Other,
    };
    IoFailure { kind, error: std::io::Error::from(std_kind) }
}

fn join(a: &[u8], b: &[u8]) -> Vec<u8> {
    let mut r = a.to_vec();
    if r.last() != Some(&b'/') {
        r.push(b'/');
    }
    r.extend_from_slice(b);
    r
}

fn times() -> Timestamps {
    Timestamps { atime: 1, atime_nsec: 2, mtime: 3, mtime_nsec: 4 }
}

impl Fs {
    fn new(fs_type: i64, fs_name: &str) -> Fs {
        let mut fs = Fs {
            entries: BTreeMap::new(),
            nodes: HashMap::new(),
            next_node: 0,
            fs_type,
            fs_name: fs_name.as_bytes().to_vec(),
            reflinks: true,
            destroy_denied: false,
            fail_clone: false,
            fail_removal: false,
            refuse_subvolume: false,
            mounts: Vec::new(),
            held: None,
            walk: Vec::new(),
            listing: Vec::new(),
            probe_ids: 1,
            changes: Vec::new(),
        };
        fs.add(b"/", Kind::Dir);
        fs
    }

    fn add(&mut self, path: &[u8], kind: Kind) -> usize {
        let id = self.next_node;
        self.next_node += 1;
        let node = Node {
            kind,
            ino: 1000 + id as u64,
            mode: 0o755,
            uid: 7,
            gid: 8,
            xattrs: Vec::new(),
            times: times(),
            flags: 0,
        };
        self.nodes.insert(id, node);
        self.entries.insert(path.to_vec(), id);
        id
    }

    fn mkdir(&mut self, path: &str) {
        self.add(path.as_bytes(), Kind::Dir);
    }

    fn subvolume(&mut self, path: &str) {
        let id = self.add(path.as_bytes(), Kind::Dir);
        self.nodes.get_mut(&id).unwrap().ino = 256;
    }

    fn write(&mut self, path: &str, data: &str) {
        self.add(path.as_bytes(), Kind::File(data.as_bytes().to_vec()));
    }

    fn read(&self, path: &str) -> Vec<u8> {
        match &self.nodes[&self.entries[path.as_bytes()]].kind {
            Kind::File(d) => d.clone(),
            _ => panic!("not a file"),
        }
    }

    fn is_dir(&self, path: &str) -> bool {
        match self.entries.get(path.as_bytes()) {
            Some(id) => self.nodes[id].kind == Kind::Dir,
            None => false,
        }
    }

    fn has(&self, path: &str) -> bool {
        self.entries.contains_key(path.as_bytes())
    }

    /// Everything at or below `path`, with the nodes it reaches.
    fn subtree(&self, path: &str) -> Vec<(Vec<u8>, Node)> {
        let prefix = join(path.as_bytes(), b"");
        self.entries
            .iter()
            .filter(|(p, _)| p.as_slice() == path.as_bytes() || p.starts_with(&prefix))
            .map(|(p, id)| (p.clone(), self.nodes[id].clone()))
            .collect()
    }

    fn children(&self, path: &[u8]) -> Vec<Vec<u8>> {
        let prefix = join(path, b"");
        self.entries
            .keys()
            .filter(|p| p.starts_with(&prefix) && !p[prefix.len()..].contains(&b'/') && p.len() > prefix.len())
            .cloned()
            .collect()
    }

    /// The absolute form of `path`, with `.` and `..` and, where asked,
    /// symbolic links resolved.
    fn resolve(&self, path: &[u8], follow_last: bool) -> Vec<u8> {
        self.walk_path(path, follow_last).0
    }

    /// The resolved path, and whether every directory on the way exists.
    fn walk_path(&self, path: &[u8], follow_last: bool) -> (Vec<u8>, bool) {
        let mut intact = true;
        let mut parts: Vec<Vec<u8>> = Vec::new();
        let mut pending: Vec<Vec<u8>> =
            path.split(|b| *b == b'/').filter(|p| !p.is_empty()).map(|p| p.to_vec()).rev().collect();
        let mut hops = 0;
        while let Some(part) = pending.pop() {
            if part == b"." {
                continue;
            }
            if part == b".." {
                parts.pop();
                continue;
            }
            parts.push(part);
            let current = self.render(&parts);
            let is_last = pending.is_empty();
            if !is_last && !self.entries.contains_key(&current) {
                intact = false;
            }
            if let Some(id) = self.entries.get(&current) {
                if let Kind::Symlink(target) = &self.nodes[id].kind {
                    if (!is_last || follow_last) && hops < 16 {
                        hops += 1;
                        parts.pop();
                        if target.first() == Some(&b'/') {
                            parts.clear();
                        }
                        for p in target.split(|b| *b == b'/').filter(|p| !p.is_empty()).rev() {
                            pending.push(p.to_vec());
                        }
                    }
                }
            }
        }
        (self.render(&parts), intact)
    }

    fn render(&self, parts: &[Vec<u8>]) -> Vec<u8> {
        let mut r = Vec::new();
        for p in parts {
            r.push(b'/');
            r.extend_from_slice(p);
        }
        if r.is_empty() {
            r.push(b'/');
        }
        r
    }

    fn node(&self, path: &[u8], follow_last: bool) -> Result<(Vec<u8>, usize), IoFailure> {
        let (real, intact) = self.walk_path(path, follow_last);
        if !intact {
            return Err(io(IoKind::NotFound));
        }
        match self.entries.get(&real) {
            Some(id) => Ok((real, *id)),
            None => Err(io(IoKind::NotFound)),
        }
    }

    fn dev(&self, real: &[u8]) -> u64 {
        let mut dev = 1;
        for (prefix, d) in &self.mounts {
            if real == prefix.as_slice() || real.starts_with(&join(prefix, b"")) {
                dev = *d;
            }
        }
        dev
    }

    fn meta_at(&self, real: &[u8], id: usize) -> FileMeta {
        let mut m = self.meta(id);
        m.dev = self.dev(real);
        m
    }

    fn meta(&self, id: usize) -> FileMeta {
        let node = &self.nodes[&id];
        let nlink = self.entries.values().filter(|v| **v == id).count() as u64;
        FileMeta {
            is_dir: node.kind == Kind::Dir,
            is_file: matches!(node.kind, Kind::File(_)),
            is_symlink: matches!(node.kind, Kind::Symlink(_)),
            dev: 1,
            ino: node.ino,
            nlink,
            uid: node.uid,
            gid: node.gid,
            mode: node.mode,
            times: node.times,
        }
    }

    fn parent_dir_exists(&self, path: &[u8]) -> bool {
        let real = self.resolve(path, false);
        let cut = real.iter().rposition(|b| *b == b'/').unwrap_or(0);
        let parent = if cut == 0 { b"/".to_vec() } else { real[..cut].to_vec() };
        matches!(self.entries.get(&parent), Some(id) if self.nodes[id].kind == Kind::Dir)
    }

    fn create(&mut self, path: &[u8], kind: Kind) -> Result<usize, IoFailure> {
        let real = self.resolve(path, false);
        if self.entries.contains_key(&real) {
            return Err(io(IoKind::Other));
        }
        if !self.parent_dir_exists(path) {
            return Err(io(IoKind::NotFound));
        }
        self.changes.push(real.clone());
        Ok(self.add(&real, kind))
    }

    fn copy_tree(&mut self, from: &[u8], to: &[u8]) -> Result<(), IoFailure> {
        let (from, _) = self.node(from, true)?;
        let real_to = self.resolve(to, false);
        if self.entries.contains_key(&real_to) || !self.parent_dir_exists(to) {
            return Err(io(IoKind::Other));
        }
        let items: Vec<(Vec<u8>, Node)> = self.subtree(std::str::from_utf8(&from).unwrap());
        for (p, node) in items {
            let rel = &p[from.len()..];
            let mut target = real_to.clone();
            target.extend_from_slice(rel);
            let id = self.add(&target, node.kind.clone());
            let copy = self.nodes.get_mut(&id).unwrap();
            copy.mode = node.mode;
            copy.xattrs = node.xattrs.clone();
            self.changes.push(target);
        }
        Ok(())
    }

    fn remove_tree(&mut self, path: &[u8]) -> Result<(), IoFailure> {
        let real = self.resolve(path, false);
        if !self.entries.contains_key(&real) {
            return Err(io(IoKind::NotFound));
        }
        let prefix = join(&real, b"");
        let doomed: Vec<Vec<u8>> = self
            .entries
            .keys()
            .filter(|p| **p == real || p.starts_with(&prefix))
            .cloned()
            .collect();
        for p in doomed {
            self.entries.remove(&p);
            self.changes.push(p);
        }
        Ok(())
    }

    fn set<F: FnOnce(&mut Node)>(&mut self, path: &[u8], f: F) -> Reply {
        match self.node(path, false) {
            Ok((real, id)) => {
                self.changes.push(real);
                f(self.nodes.get_mut(&id).unwrap());
                Reply::Done
            }
            Err(e) => Reply::Failed(e),
        }
    }

    fn answer(&mut self, request: Request) -> Reply {
        match request {
            Request::Canonicalize(p) => match self.node(&p, true) {
                Ok((real, _)) => Reply::Path(real),
                Err(e) => Reply::Failed(e),
            },
            Request::Metadata(p) => match self.node(&p, true) {
                Ok((real, id)) => Reply::Meta(self.meta_at(&real, id)),
                Err(e) => Reply::Failed(e),
            },
            Request::SymlinkMetadata(p) => match self.node(&p, false) {
                Ok((_, id)) => Reply::Meta(self.meta(id)),
                Err(e) => Reply::Failed(e),
            },
            Request::FilesystemType(p) => match self.node(&p, true) {
                Ok(_) => Reply::FsType(self.fs_type),
                Err(e) => Reply::Failed(e),
            },
            Request::FilesystemName(p) => match self.node(&p, true) {
                Ok(_) => Reply::Bytes(self.fs_name.clone()),
                Err(e) => Reply::Failed(e),
            },
            Request::FilesystemId(p) => match self.node(&p, true) {
                Ok(_) => Reply::FsId(77),
                Err(e) => Reply::Failed(e),
            },
            Request::CreateDir(p) => match self.create(&p, Kind::Dir) {
                Ok(_) => Reply::Done,
                Err(e) => Reply::Failed(e),
            },
            Request::RemoveDirAll(_) if self.fail_removal => Reply::Failed(io(IoKind::PermissionDenied)),
            Request::RemoveDirAll(p) => match self.remove_tree(&p) {
                Ok(()) => Reply::Done,
                Err(e) => Reply::Failed(e),
            },
            Request::RemoveDir(p) | Request::RemoveFile(p) => {
                let real = self.resolve(&p, false);
                if !self.children(&real).is_empty() {
                    return Reply::Failed(io(IoKind::Other));
                }
                match self.entries.remove(&real) {
                    Some(_) => {
                        self.changes.push(real);
                        Reply::Done
                    }
                    None => Reply::Failed(io(IoKind::NotFound)),
                }
            }
            Request::OpenFile(p) => match self.node(&p, true) {
                Ok((real, _)) => {
                    self.held = Some(real);
                    Reply::Done
                }
                Err(e) => Reply::Failed(e),
            },
            Request::Subvolume { op, parent, name, .. } => {
                if self.node(&parent, true).is_err() {
                    return Reply::Failed(io(IoKind::NotFound));
                }
                let path = join(&self.resolve(&parent, true), &name);
                match op {
                    SubvolumeOp::CreateSnapshot if self.refuse_subvolume => {
                        Reply::Refused(io(IoKind::Other))
                    }
                    SubvolumeOp::CreateSnapshot => {
                        let from = self.held.clone().unwrap();
                        match self.copy_tree(&from, &path) {
                            Ok(()) => {
                                let id = self.entries[&path];
                                self.nodes.get_mut(&id).unwrap().ino = 256;
                                Reply::Done
                            }
                            Err(e) => Reply::Refused(e),
                        }
                    }
                    SubvolumeOp::CreateSubvolume => match self.create(&path, Kind::Dir) {
                        Ok(id) => {
                            self.nodes.get_mut(&id).unwrap().ino = 256;
                            Reply::Done
                        }
                        Err(e) => Reply::Refused(e),
                    },
                    SubvolumeOp::DestroySnapshot => {
                        if self.destroy_denied {
                            return Reply::Refused(io(IoKind::PermissionDenied));
                        }
                        match self.remove_tree(&path) {
                            Ok(()) => Reply::Done,
                            Err(e) => Reply::Refused(e),
                        }
                    }
                }
            }
            Request::SubvolumeFlags => {
                let held = self.held.clone().unwrap();
                Reply::Flags(self.nodes[&self.entries[&held]].flags)
            }
            Request::SetSubvolumeFlags(f) => {
                let held = self.held.clone().unwrap();
                self.set(&held, |n| n.flags = f)
            }
            Request::CloneTree { from, to } => {
                if self.fail_clone {
                    let _ = self.create(&to, Kind::Dir);
                    return Reply::Refused(io(IoKind::Other));
                }
                match self.copy_tree(&from, &to) {
                    Ok(()) => Reply::Done,
                    Err(e) => Reply::Refused(e),
                }
            }
            Request::CreateFile { path, contents } => match self.create(&path, Kind::File(contents)) {
                Ok(_) => Reply::Done,
                Err(e) => Reply::Failed(e),
            },
            Request::ReflinkFile { from, to } => {
                let data = match self.node(&from, true) {
                    Ok((_, id)) => match &self.nodes[&id].kind {
                        Kind::File(d) => d.clone(),
                        _ => return Reply::Failed(io(IoKind::Other)),
                    },
                    Err(e) => return Reply::Failed(e),
                };
                if let Err(e) = self.create(&to, Kind::File(Vec::new())) {
                    return Reply::Failed(e);
                }
                if !self.reflinks {
                    return Reply::Refused(io(IoKind::Unsupported));
                }
                let id = self.entries[&self.resolve(&to, false)];
                self.nodes.get_mut(&id).unwrap().kind = Kind::File(data);
                Reply::Done
            }
            Request::PathExists(p) => Reply::Exists(self.node(&p, true).is_ok()),
            Request::OpenWalk(from) => {
                let mut flat = Vec::new();
                let root = self.resolve(&from, true);
                self.preorder(&root, &mut flat);
                flat.reverse();
                self.walk = flat;
                Reply::Done
            }
            Request::NextWalkEntry => match self.walk.pop() {
                Some(p) => Reply::WalkEntry(p),
                None => Reply::End,
            },
            Request::OpenDirectory(p) => match self.node(&p, true) {
                Ok((real, _)) => {
                    let mut kids: Vec<(Vec<u8>, bool)> = self
                        .children(&real)
                        .into_iter()
                        .map(|k| {
                            let dir = self.nodes[&self.entries[&k]].kind == Kind::Dir;
                            (k, dir)
                        })
                        .collect();
                    kids.reverse();
                    self.listing = kids;
                    Reply::Done
                }
                Err(e) => Reply::Failed(e),
            },
            Request::NextDirectoryEntry => match self.listing.pop() {
                Some((path, is_dir)) => Reply::DirEntry { path, is_dir },
                None => Reply::End,
            },
            Request::HardLink { original, link } => match self.node(&original, false) {
                Ok((_, id)) => {
                    let real = self.resolve(&link, false);
                    if self.entries.contains_key(&real) {
                        return Reply::Failed(io(IoKind::Other));
                    }
                    self.changes.push(real.clone());
                    self.entries.insert(real, id);
                    Reply::Done
                }
                Err(e) => Reply::Failed(e),
            },
            Request::ReadLink(p) => match self.node(&p, false) {
                Ok((_, id)) => match &self.nodes[&id].kind {
                    Kind::Symlink(t) => Reply::Bytes(t.clone()),
                    _ => Reply::Failed(io(IoKind::Other)),
                },
                Err(e) => Reply::Failed(e),
            },
            Request::Symlink { target, link } => match self.create(&link, Kind::Symlink(target)) {
                Ok(_) => Reply::Done,
                Err(e) => Reply::Failed(e),
            },
            Request::SetOwner { path, uid, gid } => self.set(&path, |n| {
                n.uid = uid;
                n.gid = gid;
            }),
            Request::SetMode { path, mode } => self.set(&path, |n| n.mode = mode),
            Request::ListXattrs(p) => match self.node(&p, false) {
                Ok((_, id)) => {
                    let mut list = Vec::new();
                    for (name, _) in &self.nodes[&id].xattrs {
                        list.extend_from_slice(name);
                        list.push(0);
                    }
                    Reply::Bytes(list)
                }
                Err(e) => Reply::Failed(e),
            },
            Request::GetXattr { path, name } => match self.node(&path, false) {
                Ok((_, id)) => match self.nodes[&id].xattrs.iter().find(|(n, _)| *n == name) {
                    Some((_, v)) => Reply::Bytes(v.clone()),
                    None => Reply::Failed(io(IoKind::Other)),
                },
                Err(e) => Reply::Failed(e),
            },
            Request::SetXattr { path, name, value } => self.set(&path, |n| {
                n.xattrs.retain(|(k, _)| *k != name);
                n.xattrs.push((name, value));
            }),
            Request::SetTimes { path, times } => self.set(&path, |n| n.times = times),
            Request::ProbeIdentity => {
                let id = self.probe_ids;
                self.probe_ids += 1;
                Reply::Identity { pid: 4242, id }
            }
        }
    }

    fn preorder(&self, dir: &[u8], out: &mut Vec<Vec<u8>>) {
        let mut kids = self.children(dir);
        kids.sort();
        for kid in kids {
            out.push(kid.clone());
            let is_dir = self.nodes[&self.entries[&kid]].kind == Kind::Dir;
            if is_dir {
                self.preorder(&kid, out);
            }
        }
    }
}

trait Machine: Sized {
    type Out;
    fn request(&self) -> Request;
    fn resume(self, reply: Reply) -> Progress<Self, Self::Out>;
}

impl Machine for Probe {
    type Out = Capability;
    fn request(&self) -> Request {
        Probe::request(self)
    }
    fn resume(self, reply: Reply) -> Progress<Self, Capability> {
        Probe::resume(self, reply)
    }
}

impl Machine for SnapshotExact {
    type Out = SnapshotReceipt;
    fn request(&self) -> Request {
        SnapshotExact::request(self)
    }
    fn resume(self, reply: Reply) -> Progress<Self, SnapshotReceipt> {
        SnapshotExact::resume(self, reply)
    }
}

impl Machine for RemoveSnapshot {
    type Out = RemoveReceipt;
    fn request(&self) -> Request {
        RemoveSnapshot::request(self)
    }
    fn resume(self, reply: Reply) -> Progress<Self, RemoveReceipt> {
        RemoveSnapshot::resume(self, reply)
    }
}

impl Machine for PrepareSnapshotSource {
    type Out = Vec<u8>;
    fn request(&self) -> Request {
        PrepareSnapshotSource::request(self)
    }
    fn resume(self, reply: Reply) -> Progress<Self, Vec<u8>> {
        PrepareSnapshotSource::resume(self, reply)
    }
}

impl Machine for SetSourceImmutable {
    type Out = bool;
    fn request(&self) -> Request {
        SetSourceImmutable::request(self)
    }
    fn resume(self, reply: Reply) -> Progress<Self, bool> {
        SetSourceImmutable::resume(self, reply)
    }
}

fn run<M: Machine>(fs: &mut Fs, mut progress: Progress<M, M::Out>) -> Result<M::Out, Error> {
    for _ in 0..100_000 {
        match progress {
            Progress::Finish(result) => return result,
            Progress::Ask(machine) => {
                let reply = fs.answer(machine.request());
                progress = machine.resume(reply);
            }
        }
    }
    panic!("the operation did not finish");
}

fn b(s: &str) -> Vec<u8> {
    s.as_bytes().to_vec()
}

fn ext4_with_source() -> Fs {
    let mut fs = Fs::new(EXT4, "ext4");
    fs.mkdir("/tmp");
    fs.mkdir("/tmp/t");
    fs.mkdir("/tmp/t/source");
    fs
}

#[test]
fn destination_must_not_exist() {
    let mut fs = ext4_with_source();
    fs.mkdir("/tmp/t/destination");
    let error =
        run(&mut fs, snapshot_exact(Platform::Linux, b("/tmp/t/source"), b("/tmp/t/destination")))
            .unwrap_err();
    assert!(matches!(error, Error::DestinationExists(path) if path == b("/tmp/t/destination")));
}

#[test]
fn dangling_destination_symlink_counts_as_existing() {
    let mut fs = ext4_with_source();
    fs.add(b"/tmp/t/destination", Kind::Symlink(b("/tmp/t/missing")));
    let error =
        run(&mut fs, snapshot_exact(Platform::Linux, b("/tmp/t/source"), b("/tmp/t/destination")))
            .unwrap_err();
    assert!(matches!(error, Error::DestinationExists(path) if path == b("/tmp/t/destination")));
}

#[test]
fn destination_must_not_be_inside_source() {
    let mut fs = ext4_with_source();
    let error = run(
        &mut fs,
        snapshot_exact(Platform::Linux, b("/tmp/t/source"), b("/tmp/t/source/snapshot")),
    )
    .unwrap_err();
    assert!(matches!(error, Error::DestinationInsideSource(_)));
    assert!(fs.changes.is_empty());
}

#[test]
fn prepared_snapshot_source_is_empty_and_existing_paths_are_refused() {
    let mut fs = Fs::new(EXT4, "ext4");
    fs.mkdir("/tmp");
    fs.mkdir("/tmp/t");
    let prepared = run(&mut fs, prepare_snapshot_source(Platform::Linux, b("/tmp/t/source"))).unwrap();
    assert!(fs.is_dir("/tmp/t/source"));
    assert_eq!(prepared, b("/tmp/t/source"));
    assert_eq!(fs.children(b"/tmp/t/source").len(), 0);
    assert!(matches!(
        run(&mut fs, prepare_snapshot_source(Platform::Linux, b("/tmp/t/source"))).unwrap_err(),
        Error::DestinationExists(path) if path == b("/tmp/t/source")
    ));
}

#[test]
fn prepared_source_on_btrfs_is_a_subvolume() {
    let mut fs = Fs::new(BTRFS, "btrfs");
    fs.mkdir("/tmp");
    fs.mkdir("/tmp/t");
    let prepared = run(&mut fs, prepare_snapshot_source(Platform::Linux, b("/tmp/t/./source/"))).unwrap();
    assert_eq!(prepared, b("/tmp/t/source"));
    assert_eq!(fs.nodes[&fs.entries[&b("/tmp/t/source")]].ino, 256);
}

#[test]
fn reflink_tree_snapshot_is_exact_private_and_removable() {
    let mut fs = ext4_with_source();
    fs.mkdir("/tmp/t/source/nested");
    fs.write("/tmp/t/source/nested/file.txt", "source\n");
    fs.add(b"/tmp/t/source/link", Kind::Symlink(b("nested/file.txt")));
    let original = fs.subtree("/tmp/t/source");

    let capability = run(&mut fs, probe(Platform::Linux, b("/tmp/t/source"), b("/tmp/t"))).unwrap();
    assert_eq!(capability.backend, Backend::LinuxReflinkTree);
    assert!(!capability.constant_time_metadata);
    assert!(!fs.changes.iter().any(|p| p.starts_with(b"/tmp/t/source")));
    assert_eq!(fs.children(b"/tmp/t").len(), 1, "the probe files are removed");

    let receipt = run(
        &mut fs,
        snapshot_exact(Platform::Linux, b("/tmp/t/source"), b("/tmp/t/snapshot")),
    )
    .unwrap();
    assert_eq!(receipt.backend, Backend::LinuxReflinkTree);
    assert_eq!(receipt.source, b("/tmp/t/source"));
    assert_eq!(receipt.destination, b("/tmp/t/snapshot"));
    assert_eq!(fs.read("/tmp/t/snapshot/nested/file.txt"), b("source\n"));
    assert!(matches!(
        &fs.nodes[&fs.entries[&b("/tmp/t/snapshot/link")]].kind,
        Kind::Symlink(t) if *t == b("nested/file.txt")
    ));

    fs.write("/tmp/t/snapshot/nested/other.txt", "snapshot\n");
    assert_eq!(fs.subtree("/tmp/t/source"), original);

    let removed = run(&mut fs, remove_snapshot(Platform::Linux, b("/tmp/t/snapshot"))).unwrap();
    assert!(removed.removed);
    let again = run(&mut fs, remove_snapshot(Platform::Linux, b("/tmp/t/snapshot"))).unwrap();
    assert!(!again.removed);
    assert!(!fs.has("/tmp/t/snapshot"));
}

#[test]
fn reflink_tree_keeps_hard_links_and_metadata() {
    let mut fs = ext4_with_source();
    fs.write("/tmp/t/source/a", "shared");
    let id = fs.entries[&b("/tmp/t/source/a")];
    fs.entries.insert(b("/tmp/t/source/b"), id);
    fs.mkdir("/tmp/t/source/dir");
    {
        let node = fs.nodes.get_mut(&fs.entries[&b("/tmp/t/source/dir")]).unwrap();
        node.mode = 0o700;
        node.uid = 11;
        node.xattrs = vec![(b("user.one"), b("1")), (b("user.two"), b("2"))];
    }
    run(&mut fs, snapshot_exact(Platform::Linux, b("/tmp/t/source"), b("/tmp/t/copy"))).unwrap();
    assert_eq!(fs.entries[&b("/tmp/t/copy/a")], fs.entries[&b("/tmp/t/copy/b")]);
    assert_ne!(fs.entries[&b("/tmp/t/copy/a")], id);
    let copied = &fs.nodes[&fs.entries[&b("/tmp/t/copy/dir")]];
    assert_eq!(copied.mode, 0o700);
    assert_eq!(copied.uid, 11);
    assert_eq!(copied.xattrs, vec![(b("user.one"), b("1")), (b("user.two"), b("2"))]);
    assert_eq!(copied.times, times());
}

#[test]
fn unsupported_entry_fails_and_partial_destination_is_removed() {
    let mut fs = ext4_with_source();
    fs.write("/tmp/t/source/a", "data");
    fs.add(b"/tmp/t/source/pipe", Kind::Fifo);
    let error =
        run(&mut fs, snapshot_exact(Platform::Linux, b("/tmp/t/source"), b("/tmp/t/copy")))
            .unwrap_err();
    assert!(matches!(error, Error::UnsupportedEntry(p) if p == b("/tmp/t/source/pipe")));
    assert!(!fs.has("/tmp/t/copy"));
}

#[test]
fn reflinks_unavailable_fails_closed_without_touching_the_source() {
    let mut fs = ext4_with_source();
    fs.write("/tmp/t/source/a", "data");
    fs.reflinks = false;
    let original = fs.subtree("/tmp/t/source");
    let error = run(&mut fs, probe(Platform::Linux, b("/tmp/t/source"), b("/tmp/t"))).unwrap_err();
    assert!(matches!(error, Error::Unavailable(Unavailability::ReflinkFailed { .. })));
    assert_eq!(fs.subtree("/tmp/t/source"), original);
    assert_eq!(fs.children(b"/tmp/t").len(), 1, "both probe files are removed");
}

#[test]
fn probe_files_are_named_after_process_and_number() {
    let mut fs = ext4_with_source();
    run(&mut fs, probe(Platform::Linux, b("/tmp/t/source"), b("/tmp/t"))).unwrap();
    assert!(fs.changes.contains(&b("/tmp/t/.greppy-cow-probe-4242-1")));
    assert!(fs.changes.contains(&b("/tmp/t/.greppy-cow-probe-4242-1-clone")));
}

#[test]
fn btrfs_subvolume_snapshot_is_constant_time_and_removable() {
    let mut fs = Fs::new(BTRFS, "btrfs");
    fs.mkdir("/pool");
    fs.subvolume("/pool/source");
    fs.mkdir("/pool/source/nested");
    fs.write("/pool/source/nested/file.txt", "source\n");
    let capability = run(&mut fs, probe(Platform::Linux, b("/pool/source"), b("/pool"))).unwrap();
    assert_eq!(capability, Capability { backend: Backend::BtrfsSnapshot, constant_time_metadata: true });
    let receipt =
        run(&mut fs, snapshot_exact(Platform::Linux, b("/pool/source"), b("/pool/snapshot"))).unwrap();
    assert_eq!(receipt.backend, Backend::BtrfsSnapshot);
    assert_eq!(fs.read("/pool/snapshot/nested/file.txt"), b("source\n"));
    assert!(run(&mut fs, remove_snapshot(Platform::Linux, b("/pool/snapshot"))).unwrap().removed);
    assert!(!run(&mut fs, remove_snapshot(Platform::Linux, b("/pool/snapshot"))).unwrap().removed);
}

#[test]
fn denied_subvolume_destroy_falls_back_to_removal() {
    let mut fs = Fs::new(BTRFS, "btrfs");
    fs.mkdir("/pool");
    fs.subvolume("/pool/snapshot");
    fs.mkdir("/pool/snapshot/dir");
    fs.write("/pool/snapshot/dir/f", "x");
    fs.write("/pool/snapshot/g", "y");
    fs.destroy_denied = true;
    assert!(run(&mut fs, remove_snapshot(Platform::Linux, b("/pool/snapshot"))).unwrap().removed);
    assert!(!fs.has("/pool/snapshot"));
    assert!(!fs.has("/pool/snapshot/dir/f"));
}

#[test]
fn btrfs_snapshot_requires_a_subvolume_source() {
    let mut fs = Fs::new(BTRFS, "btrfs");
    fs.mkdir("/pool");
    fs.mkdir("/pool/plain");
    let error = run(
        &mut fs,
        snapshot_exact(Platform::Linux, b("/pool/plain"), b("/pool/snapshot")),
    );
    // A plain directory on Btrfs is snapshotted as a reflink tree.
    assert_eq!(error.unwrap().backend, Backend::LinuxReflinkTree);
}

#[test]
fn apfs_snapshot_is_private_and_removable() {
    let mut fs = Fs::new(0x1a, "apfs");
    fs.mkdir("/Users");
    fs.mkdir("/Users/source");
    fs.mkdir("/Users/source/nested");
    fs.write("/Users/source/nested/file.txt", "source");
    let capability = run(&mut fs, probe(Platform::MacOs, b("/Users/source"), b("/Users"))).unwrap();
    assert_eq!(capability.backend, Backend::ApfsClonefile);
    assert!(!capability.constant_time_metadata);
    let receipt = run(
        &mut fs,
        snapshot_exact(Platform::MacOs, b("/Users/source"), b("/Users/destination")),
    )
    .unwrap();
    assert_eq!(receipt.backend, Backend::ApfsClonefile);
    fs.write("/Users/destination/nested/new.txt", "snapshot");
    assert!(!fs.has("/Users/source/nested/new.txt"));
    assert!(run(&mut fs, remove_snapshot(Platform::MacOs, b("/Users/destination"))).unwrap().removed);
    assert!(!run(&mut fs, remove_snapshot(Platform::MacOs, b("/Users/destination"))).unwrap().removed);
}

#[test]
fn apfs_probe_refuses_other_filesystems() {
    let mut fs = Fs::new(EXT4, "hfs");
    fs.mkdir("/Users");
    fs.mkdir("/Users/source");
    let error = run(&mut fs, probe(Platform::MacOs, b("/Users/source"), b("/Users"))).unwrap_err();
    assert!(matches!(error, Error::Unavailable(Unavailability::NotApfs(p)) if p == b("/Users/source")));
}

#[test]
fn failed_clone_is_cleaned_up() {
    let mut fs = Fs::new(0x1a, "apfs");
    fs.mkdir("/Users");
    fs.mkdir("/Users/source");
    fs.fail_clone = true;
    let error = run(
        &mut fs,
        snapshot_exact(Platform::MacOs, b("/Users/source"), b("/Users/destination")),
    )
    .unwrap_err();
    assert!(matches!(error, Error::Unavailable(Unavailability::CloneFailed { .. })));
    assert!(!fs.has("/Users/destination"));
}

#[test]
fn other_platforms_are_unavailable() {
    let mut fs = ext4_with_source();
    let error = run(&mut fs, probe(Platform::Other, b("/tmp/t/source"), b("/tmp/t"))).unwrap_err();
    assert!(matches!(error, Error::Unavailable(Unavailability::UnsupportedPlatform)));
    fs.mkdir("/tmp/t/snapshot");
    let error = run(&mut fs, remove_snapshot(Platform::Other, b("/tmp/t/snapshot"))).unwrap_err();
    assert!(matches!(error, Error::Unavailable(Unavailability::RemovalUnsupported)));
}

#[test]
fn source_must_be_a_directory() {
    let mut fs = ext4_with_source();
    fs.write("/tmp/t/file", "x");
    let error = run(&mut fs, probe(Platform::Linux, b("/tmp/t/file"), b("/tmp/t"))).unwrap_err();
    assert!(matches!(error, Error::NotDirectory(p) if p == b("/tmp/t/file")));
    let error = run(&mut fs, probe(Platform::Linux, b("/tmp/t/missing"), b("/tmp/t"))).unwrap_err();
    assert!(matches!(error, Error::Io(f) if f.kind == IoKind::NotFound));
}

#[test]
fn relative_destination_resolves_against_its_canonical_parent() {
    let mut fs = ext4_with_source();
    let receipt = run(
        &mut fs,
        snapshot_exact(Platform::Linux, b("/tmp/t/source/../source"), b("/tmp/t/x/../copy")),
    );
    // The parent `/tmp/t/x` does not exist, so its canonical form cannot be found.
    assert!(matches!(receipt.unwrap_err(), Error::Io(f) if f.kind == IoKind::NotFound));
    let receipt =
        run(&mut fs, snapshot_exact(Platform::Linux, b("/tmp/t/source/"), b("/tmp/t/./copy/"))).unwrap();
    assert_eq!(receipt.destination, b("/tmp/t/copy"));
}

#[test]
fn source_immutability_is_read_back() {
    let mut fs = Fs::new(BTRFS, "btrfs");
    fs.mkdir("/pool");
    fs.subvolume("/pool/source");
    fs.nodes.get_mut(&fs.entries[&b("/pool/source")]).unwrap().flags = 0b1001;
    assert!(run(&mut fs, set_snapshot_source_immutable(b("/pool/source"), true)).unwrap());
    assert_eq!(fs.nodes[&fs.entries[&b("/pool/source")]].flags, 0b1011);
    assert!(!run(&mut fs, set_snapshot_source_immutable(b("/pool/source"), false)).unwrap());
    assert_eq!(fs.nodes[&fs.entries[&b("/pool/source")]].flags, 0b1001);
    fs.mkdir("/pool/plain");
    assert!(!run(&mut fs, set_snapshot_source_immutable(b("/pool/plain"), true)).unwrap());
}

#[test]
fn subvolume_names_are_checked() {
    let mut fs = Fs::new(BTRFS, "btrfs");
    fs.mkdir("/pool");
    let long = format!("/pool/{}", "n".repeat(4088));
    let error = run(&mut fs, prepare_snapshot_source(Platform::Linux, b(&long))).unwrap_err();
    assert!(matches!(error, Error::InvalidPath(PathIssue::SubvolumeName(_))));
}

#[test]
fn different_filesystems_are_unavailable() {
    let mut fs = ext4_with_source();
    fs.mkdir("/mnt");
    fs.mounts.push((b("/mnt"), 2));
    let error = run(&mut fs, probe(Platform::Linux, b("/tmp/t/source"), b("/mnt"))).unwrap_err();
    assert!(matches!(error, Error::Unavailable(Unavailability::DifferentFilesystem(p)) if p == b("/mnt")));
    let mut fs = Fs::new(0x1a, "apfs");
    fs.mkdir("/Users");
    fs.mkdir("/Volumes");
    fs.mounts.push((b("/Volumes"), 3));
    let error = run(&mut fs, probe(Platform::MacOs, b("/Users"), b("/Volumes"))).unwrap_err();
    assert!(matches!(error, Error::Unavailable(Unavailability::DifferentVolume(p)) if p == b("/Volumes")));
}

#[test]
fn failed_cleanup_is_reported_with_the_snapshot_error() {
    let mut fs = ext4_with_source();
    fs.add(b"/tmp/t/source/pipe", Kind::Fifo);
    fs.fail_removal = true;
    let error =
        run(&mut fs, snapshot_exact(Platform::Linux, b("/tmp/t/source"), b("/tmp/t/copy")))
            .unwrap_err();
    match error {
        Error::CleanupAfterFailure { snapshot, cleanup } => {
            assert!(matches!(*snapshot, Error::UnsupportedEntry(_)));
            assert!(matches!(*cleanup, Error::Io(f) if f.kind == IoKind::PermissionDenied));
        }
        other => panic!("unexpected {other:?}"),
    }
    assert!(fs.has("/tmp/t/copy"));
}

#[test]
fn destination_without_final_name_is_invalid() {
    let machine = match snapshot_exact(Platform::Linux, b("/tmp/t/source"), b("/tmp/t/x/..")) {
        Progress::Ask(m) => m,
        Progress::Finish(_) => panic!("the source is resolved first"),
    };
    let mut progress = machine.resume(Reply::Path(b("/tmp/t/source")));
    let meta = FileMeta {
        is_dir: true,
        is_file: false,
        is_symlink: false,
        dev: 1,
        ino: 5,
        nlink: 1,
        uid: 0,
        gid: 0,
        mode: 0o755,
        times: times(),
    };
    let replies = vec![
        Reply::Meta(meta),
        Reply::Failed(io(IoKind::NotFound)),
        Reply::Path(b("/tmp/t/x")),
        Reply::Meta(meta),
    ];
    for reply in replies {
        progress = match progress {
            Progress::Ask(m) => m.resume(reply),
            Progress::Finish(_) => panic!("finished too early"),
        };
    }
    match progress {
        Progress::Finish(Err(Error::InvalidPath(PathIssue::DestinationNoFinalComponent(p)))) => {
            assert_eq!(p, b("/tmp/t/x/.."))
        }
        _ => panic!("a destination ending in `..` has no final component"),
    }
}

#[test]
fn a_reply_that_does_not_answer_leaves_the_machine_waiting() {
    let machine = match remove_snapshot(Platform::Linux, b("/tmp/x")) {
        Progress::Ask(m) => m,
        Progress::Finish(_) => panic!("removal asks first"),
    };
    match machine.resume(Reply::End) {
        Progress::Ask(m) => assert!(matches!(m.request(), Request::SymlinkMetadata(p) if p == b("/tmp/x"))),
        Progress::Finish(_) => panic!("an unrelated reply must not finish the removal"),
    }
}

#[test]
fn parent_that_is_a_file_is_not_a_directory() {
    let mut fs = Fs::new(BTRFS, "btrfs");
    fs.mkdir("/pool");
    fs.subvolume("/pool/source");
    fs.mkdir("/pool/target");
    fs.write("/pool/target/in-the-way", "x");
    let machine = match snapshot_exact(Platform::Linux, b("/pool/source"), b("/pool/target/in-the-way/child")) {
        Progress::Ask(m) => m,
        Progress::Finish(_) => panic!("the source is resolved first"),
    };
    let error = run(&mut fs, Progress::Ask(machine)).unwrap_err();
    assert!(matches!(error, Error::NotDirectory(p) if p == b("/pool/target/in-the-way")));
}

#[test]
fn refused_subvolume_snapshot_is_unavailable() {
    let mut fs = Fs::new(BTRFS, "btrfs");
    fs.mkdir("/pool");
    fs.subvolume("/pool/source");
    fs.refuse_subvolume = true;
    let error =
        run(&mut fs, snapshot_exact(Platform::Linux, b("/pool/source"), b("/pool/snapshot")))
            .unwrap_err();
    assert!(matches!(
        error,
        Error::Unavailable(Unavailability::SubvolumeFailed { op: SubvolumeOp::CreateSnapshot, path, .. })
            if path == b("/pool/snapshot")
    ));
}

#[test]
fn probing_never_writes_into_the_source() {
    let mut fs = ext4_with_source();
    fs.mkdir("/tmp/t/source/inner");
    let error =
        run(&mut fs, probe(Platform::Linux, b("/tmp/t/source"), b("/tmp/t/source"))).unwrap_err();
    assert!(matches!(error, Error::DestinationInsideSource(p) if p == b("/tmp/t/source")));
    let error = run(&mut fs, probe(Platform::Linux, b("/tmp/t/source"), b("/tmp/t/source/inner")))
        .unwrap_err();
    assert!(matches!(error, Error::DestinationInsideSource(p) if p == b("/tmp/t/source/inner")));
    assert!(fs.changes.is_empty());
    let capability = run(&mut fs, probe(Platform::Linux, b("/tmp/t/source"), b("/tmp/t"))).unwrap();
    assert_eq!(capability.backend, Backend::LinuxReflinkTree);
    assert!(!fs.changes.is_empty());
}

#[test]
fn a_source_named_like_a_probe_file_is_never_written() {
    let mut fs = ext4_with_source();
    fs.mkdir("/tmp/t/.greppy-cow-probe-4242-1");
    let error = run(
        &mut fs,
        probe(Platform::Linux, b("/tmp/t/.greppy-cow-probe-4242-1"), b("/tmp/t")),
    )
    .unwrap_err();
    assert!(matches!(error, Error::Io(f) if f.kind == IoKind::AlreadyExists
        && f.error.kind() == std::io::ErrorKind::AlreadyExists));
    assert!(fs.changes.is_empty());
    assert!(fs.is_dir("/tmp/t/.greppy-cow-probe-4242-1"));
}

#[test]
fn removal_changes_nothing_outside_the_destination() {
    let mut fs = Fs::new(BTRFS, "btrfs");
    fs.mkdir("/pool");
    fs.subvolume("/pool/source");
    fs.write("/pool/source/keep", "source");
    fs.subvolume("/pool/snapshot");
    fs.mkdir("/pool/snapshot/dir");
    fs.write("/pool/snapshot/dir/f", "x");
    fs.write("/pool/sibling", "z");
    fs.destroy_denied = true;
    assert!(run(&mut fs, remove_snapshot(Platform::Linux, b("/pool/snapshot"))).unwrap().removed);
    assert!(fs.changes.iter().all(|p| p.starts_with(b"/pool/snapshot")));
    assert_eq!(fs.read("/pool/source/keep"), b("source"));
    assert_eq!(fs.read("/pool/sibling"), b("z"));
}

#[test]
fn each_probe_uses_files_of_its_own() {
    let mut fs = ext4_with_source();
    run(&mut fs, probe(Platform::Linux, b("/tmp/t/source"), b("/tmp/t"))).unwrap();
    run(&mut fs, probe(Platform::Linux, b("/tmp/t/source"), b("/tmp/t"))).unwrap();
    assert!(fs.changes.contains(&b("/tmp/t/.greppy-cow-probe-4242-1")));
    assert!(fs.changes.contains(&b("/tmp/t/.greppy-cow-probe-4242-2")));
    assert!(!fs.has("/tmp/t/.greppy-cow-probe-4242-1"));
    assert!(!fs.has("/tmp/t/.greppy-cow-probe-4242-2-clone"));
}

#[test]
fn a_prepared_btrfs_source_probes_as_a_constant_time_snapshot() {
    let mut fs = Fs::new(BTRFS, "btrfs");
    fs.mkdir("/pool");
    let prepared = run(&mut fs, prepare_snapshot_source(Platform::Linux, b("/pool/template"))).unwrap();
    let capability = run(&mut fs, probe(Platform::Linux, prepared.clone(), b("/pool"))).unwrap();
    assert_eq!(capability, Capability { backend: Backend::BtrfsSnapshot, constant_time_metadata: true });
    let receipt = run(&mut fs, snapshot_exact(Platform::Linux, prepared, b("/pool/copy"))).unwrap();
    assert_eq!(receipt.backend, capability.backend);
}

#[test]
fn a_snapshot_fails_as_its_probe_does() {
    let mut fs = ext4_with_source();
    fs.mkdir("/mnt");
    fs.mounts.push((b("/mnt"), 2));
    let probed = run(&mut fs, probe(Platform::Linux, b("/tmp/t/source"), b("/mnt"))).unwrap_err();
    let snapshot =
        run(&mut fs, snapshot_exact(Platform::Linux, b("/tmp/t/source"), b("/mnt/copy"))).unwrap_err();
    assert!(matches!(probed, Error::Unavailable(Unavailability::DifferentFilesystem(ref p)) if p == &b("/mnt")));
    assert!(matches!(snapshot, Error::Unavailable(Unavailability::DifferentFilesystem(ref p)) if p == &b("/mnt")));
    assert!(!fs.has("/mnt/copy"));
}

#[test]
fn setting_immutability_twice_keeps_the_flags() {
    let mut fs = Fs::new(BTRFS, "btrfs");
    fs.mkdir("/pool");
    fs.subvolume("/pool/source");
    fs.write("/pool/source/file", "data");
    fs.nodes.get_mut(&fs.entries[&b("/pool/source")]).unwrap().flags = 0b1001;
    assert!(run(&mut fs, set_snapshot_source_immutable(b("/pool/source"), true)).unwrap());
    assert!(run(&mut fs, set_snapshot_source_immutable(b("/pool/source"), true)).unwrap());
    assert_eq!(fs.nodes[&fs.entries[&b("/pool/source")]].flags, 0b1011);
    assert_eq!(fs.read("/pool/source/file"), b("data"));
}
