//! The acquisition state machine driven through its concrete scenarios: the
//! valid-file no-op, the stale-file redownload, the fatal post-transfer
//! mismatch, and the sidecar checksum discovery paths.

use launcher_core::{
    AcquireAction, AcquireEvent, AcquireFailure, AcquireMachine, AcquireStatus,
};

#[test]
fn valid_existing_file_is_kept_without_network() {
    let (mut m, first) = AcquireMachine::start(Some("abc123".to_string()));
    // With an embedded checksum no sidecar is consulted: probe right away.
    assert!(matches!(first, AcquireAction::ProbeDestination));
    let a1 = m.step(AcquireEvent::DestinationPresent);
    assert!(matches!(a1, AcquireAction::HashDestination));
    let a2 = m.step(AcquireEvent::DestinationHashed("abc123".to_string()));
    assert!(matches!(a2, AcquireAction::Conclude(AcquireStatus::AlreadyValid)));
}

#[test]
fn stale_existing_file_is_deleted_and_redownloaded_once() {
    let (mut m, first) = AcquireMachine::start(Some("abc123".to_string()));
    assert!(matches!(first, AcquireAction::ProbeDestination));
    let a1 = m.step(AcquireEvent::DestinationPresent);
    assert!(matches!(a1, AcquireAction::HashDestination));
    let a2 = m.step(AcquireEvent::DestinationHashed("deadbeef".to_string()));
    assert!(matches!(a2, AcquireAction::DeleteDestination));
    let a3 = m.step(AcquireEvent::DestinationDeleted);
    assert!(matches!(a3, AcquireAction::Transfer));
    let a4 = m.step(AcquireEvent::Transferred);
    assert!(matches!(a4, AcquireAction::HashTransferred));
    let a5 = m.step(AcquireEvent::TransferHashed("abc123".to_string()));
    assert!(matches!(a5, AcquireAction::Conclude(AcquireStatus::Downloaded)));
}

#[test]
fn post_transfer_mismatch_is_fatal() {
    let (mut m, _) = AcquireMachine::start(Some("abc123".to_string()));
    let a1 = m.step(AcquireEvent::DestinationMissing);
    assert!(matches!(a1, AcquireAction::Transfer));
    let a2 = m.step(AcquireEvent::Transferred);
    assert!(matches!(a2, AcquireAction::HashTransferred));
    let a3 = m.step(AcquireEvent::TransferHashed("deadbeef".to_string()));
    assert!(matches!(a3, AcquireAction::Abort(AcquireFailure::ChecksumMismatch)));
}

#[test]
fn sidecar_checksum_is_read_then_fetched_then_persisted() {
    let (mut m, first) = AcquireMachine::start(None);
    assert!(matches!(first, AcquireAction::ReadSidecar));
    let a1 = m.step(AcquireEvent::SidecarMissing);
    assert!(matches!(a1, AcquireAction::FetchSidecar));
    let a2 = m.step(AcquireEvent::ChecksumFetched("abc123".to_string()));
    assert!(matches!(a2, AcquireAction::WriteSidecar(h) if h == "abc123"));
    let a3 = m.step(AcquireEvent::SidecarWritten);
    assert!(matches!(a3, AcquireAction::ProbeDestination));
    // The fetched checksum now guards the existing file.
    let a4 = m.step(AcquireEvent::DestinationPresent);
    assert!(matches!(a4, AcquireAction::HashDestination));
    let a5 = m.step(AcquireEvent::DestinationHashed("abc123".to_string()));
    assert!(matches!(a5, AcquireAction::Conclude(AcquireStatus::AlreadyValid)));
}

#[test]
fn sidecar_file_shortcuts_the_fetch() {
    let (mut m, first) = AcquireMachine::start(None);
    assert!(matches!(first, AcquireAction::ReadSidecar));
    let a1 = m.step(AcquireEvent::SidecarFound("abc123".to_string()));
    assert!(matches!(a1, AcquireAction::ProbeDestination));
}

#[test]
fn sidecar_fetch_failure_degrades_to_trust_on_presence() {
    let (mut m, _) = AcquireMachine::start(None);
    let a1 = m.step(AcquireEvent::SidecarMissing);
    assert!(matches!(a1, AcquireAction::FetchSidecar));
    let a2 = m.step(AcquireEvent::ChecksumFetchFailed);
    assert!(matches!(a2, AcquireAction::ProbeDestination));
    let a3 = m.step(AcquireEvent::DestinationPresent);
    assert!(matches!(a3, AcquireAction::HashDestination));
    // No checksum is known, so the present file is trusted as-is.
    let a4 = m.step(AcquireEvent::DestinationHashed("whatever".to_string()));
    assert!(matches!(a4, AcquireAction::Conclude(AcquireStatus::AlreadyValid)));
}

#[test]
fn transfer_without_known_checksum_concludes_unverified() {
    let (mut m, _) = AcquireMachine::start(None);
    m.step(AcquireEvent::SidecarMissing);
    m.step(AcquireEvent::ChecksumFetchFailed);
    let a = m.step(AcquireEvent::DestinationMissing);
    assert!(matches!(a, AcquireAction::Transfer));
    let b = m.step(AcquireEvent::Transferred);
    assert!(matches!(b, AcquireAction::Conclude(AcquireStatus::Downloaded)));
}

#[test]
fn unexpected_event_aborts() {
    let (mut m, _) = AcquireMachine::start(Some("abc123".to_string()));
    let a = m.step(AcquireEvent::Transferred);
    assert!(matches!(a, AcquireAction::Abort(AcquireFailure::UnexpectedEvent)));
}
