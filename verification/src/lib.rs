//! Native copy-on-write snapshots for agent workspaces, as verified decision
//! machines: every filesystem operation is asked of the caller through a
//! [`io::Request`] and answered with a [`io::Reply`]; the library decides what
//! to ask next and what the operation finally returns.

pub mod path;
pub mod types;
pub mod io;
pub mod canonical;
pub mod btrfs;
pub mod digits;
pub mod linux;
pub mod metadata;
pub mod tree;
pub mod apfs;
pub mod strategy;
pub mod operations;

pub use operations::{prepare_snapshot_source, probe, remove_snapshot, snapshot_exact};
pub use types::{Backend, Capability, Error, RemoveReceipt, SnapshotReceipt};
