use greppy_rift_core::io::{Progress, Reply, Request};
use greppy_rift_core::remove_snapshot;
use greppy_rift_core::types::{IoFailure, IoKind, Platform};

fn not_found() -> Reply {
    Reply::Failed(IoFailure {
        kind: IoKind::NotFound,
        error: std::io::Error::from(std::io::ErrorKind::NotFound),
    })
}

#[test]
fn removal_is_idempotent_for_missing_paths() {
    let destination = b"/tmp/greppy-rift-core/missing".to_vec();
    let machine = match remove_snapshot(Platform::Linux, destination.clone()) {
        Progress::Ask(machine) => machine,
        Progress::Finish(_) => panic!("removal must first look for the destination"),
    };
    assert!(matches!(machine.request(), Request::SymlinkMetadata(ref p) if *p == destination));
    match machine.resume(not_found()) {
        Progress::Finish(Ok(receipt)) => {
            assert!(!receipt.removed);
            assert_eq!(receipt.destination, destination);
        }
        _ => panic!("a missing destination is reported as not removed"),
    }
}
