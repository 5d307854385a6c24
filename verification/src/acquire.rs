//! The download-and-verify pipeline's decision core. Fetching, hashing and
//! file handling are suspendable outside work, so the policy is a state
//! machine: each step consumes the outcome of the last action and names the
//! next one. A driver performs the actions; every decision — which checksum
//! to trust, when a present file is kept, when a stale one is deleted and
//! redownloaded, and when a post-transfer mismatch is fatal — is made here.
//!
//! The policy, uniform across library, asset and client descriptors: an
//! embedded checksum is used as-is; otherwise a local checksum side-file is
//! read, and failing that the checksum is fetched from the sidecar endpoint
//! and persisted (a fetch failure degrades to "no known checksum"). A
//! present destination file is kept when it matches the known checksum or
//! when none is known; on a mismatch it is deleted and the artifact is
//! transferred again. After a transfer, a known checksum must match or the
//! acquisition fails.

use vstd::prelude::*;
use crate::strutil::{clone_opt_string, string_eq};

verus! {

/// How an acquisition concluded: a transfer happened, or the destination
/// already held a valid file and nothing was downloaded.
#[derive(PartialEq, Eq, Structural, Clone, Copy, Debug)]
pub enum AcquireStatus {
    Downloaded,
    AlreadyValid,
}

/// Why an acquisition failed.
#[derive(PartialEq, Eq, Structural, Clone, Copy, Debug)]
pub enum AcquireFailure {
    /// The downloaded artifact's checksum does not match the expected one.
    ChecksumMismatch,
    /// The driver reported an outcome the current state cannot accept.
    UnexpectedEvent,
}

/// The next piece of outside work the driver must perform.
pub enum AcquireAction {
    /// Read the local checksum side-file next to the destination.
    ReadSidecar,
    /// Fetch the checksum from the remote sidecar endpoint.
    FetchSidecar,
    /// Persist the fetched checksum to the local side-file.
    WriteSidecar(String),
    /// Check whether the destination file exists.
    ProbeDestination,
    /// Compute the checksum of the existing destination file.
    HashDestination,
    /// Delete the stale destination file.
    DeleteDestination,
    /// Announce progress and download the artifact to the destination.
    Transfer,
    /// Compute the checksum of the freshly transferred file.
    HashTransferred,
    /// Stop: the acquisition concluded with this status.
    Conclude(AcquireStatus),
    /// Stop: the acquisition failed.
    Abort(AcquireFailure),
}

/// What the driver reports back after performing an action.
pub enum AcquireEvent {
    /// The side-file existed and held this checksum.
    SidecarFound(String),
    /// No side-file exists.
    SidecarMissing,
    /// The sidecar endpoint returned this checksum.
    ChecksumFetched(String),
    /// The sidecar endpoint could not be reached or answered with an error.
    ChecksumFetchFailed,
    /// The side-file was written.
    SidecarWritten,
    /// The destination file exists.
    DestinationPresent,
    /// The destination file does not exist.
    DestinationMissing,
    /// The existing destination file hashes to this checksum.
    DestinationHashed(String),
    /// The stale destination file was deleted.
    DestinationDeleted,
    /// The artifact was downloaded to the destination.
    Transferred,
    /// The freshly transferred file hashes to this checksum.
    TransferHashed(String),
}

/// Where the acquisition stands; `known` is the checksum the policy has
/// settled on, when any.
#[allow(inconsistent_fields)]
pub enum AcquireState {
    ReadingSidecar,
    FetchingSidecar,
    WritingSidecar { known: String },
    Probing { known: Option<String> },
    HashingExisting { known: Option<String> },
    Deleting { known: Option<String> },
    Transferring { known: Option<String> },
    Verifying { known: String },
    Finished { downloaded: bool },
    Failed,
}

/// The state an acquisition starts in, and the first action: with an
/// embedded checksum the destination is probed at once; without one the
/// side-file is consulted first.
pub open spec fn start_spec(embedded: Option<String>) -> (AcquireState, AcquireAction) {
    match embedded {
        Option::Some(h) => (
            AcquireState::Probing { known: Option::Some(h) },
            AcquireAction::ProbeDestination,
        ),
        Option::None => (AcquireState::ReadingSidecar, AcquireAction::ReadSidecar),
    }
}

/// The transition table: for a state and a reported outcome, the next state
/// and the next action.
pub open spec fn acquire_next(s: AcquireState, e: AcquireEvent) -> (AcquireState, AcquireAction) {
    match (s, e) {
        (AcquireState::ReadingSidecar, AcquireEvent::SidecarFound(h)) => (
            AcquireState::Probing { known: Option::Some(h) },
            AcquireAction::ProbeDestination,
        ),
        (AcquireState::ReadingSidecar, AcquireEvent::SidecarMissing) => (
            AcquireState::FetchingSidecar,
            AcquireAction::FetchSidecar,
        ),
        (AcquireState::FetchingSidecar, AcquireEvent::ChecksumFetched(h)) => (
            AcquireState::WritingSidecar { known: h },
            AcquireAction::WriteSidecar(h),
        ),
        (AcquireState::FetchingSidecar, AcquireEvent::ChecksumFetchFailed) => (
            AcquireState::Probing { known: Option::None },
            AcquireAction::ProbeDestination,
        ),
        (AcquireState::WritingSidecar { known }, AcquireEvent::SidecarWritten) => (
            AcquireState::Probing { known: Option::Some(known) },
            AcquireAction::ProbeDestination,
        ),
        (AcquireState::Probing { known }, AcquireEvent::DestinationPresent) => (
            AcquireState::HashingExisting { known },
            AcquireAction::HashDestination,
        ),
        (AcquireState::Probing { known }, AcquireEvent::DestinationMissing) => (
            AcquireState::Transferring { known },
            AcquireAction::Transfer,
        ),
        (AcquireState::HashingExisting { known }, AcquireEvent::DestinationHashed(actual)) => match known {
            Option::Some(expected) => if expected@ == actual@ {
                (
                    AcquireState::Finished { downloaded: false },
                    AcquireAction::Conclude(AcquireStatus::AlreadyValid),
                )
            } else {
                (
                    AcquireState::Deleting { known: Option::Some(expected) },
                    AcquireAction::DeleteDestination,
                )
            },
            Option::None => (
                AcquireState::Finished { downloaded: false },
                AcquireAction::Conclude(AcquireStatus::AlreadyValid),
            ),
        },
        (AcquireState::Deleting { known }, AcquireEvent::DestinationDeleted) => (
            AcquireState::Transferring { known },
            AcquireAction::Transfer,
        ),
        (AcquireState::Transferring { known }, AcquireEvent::Transferred) => match known {
            Option::Some(expected) => (
                AcquireState::Verifying { known: expected },
                AcquireAction::HashTransferred,
            ),
            Option::None => (
                AcquireState::Finished { downloaded: true },
                AcquireAction::Conclude(AcquireStatus::Downloaded),
            ),
        },
        (AcquireState::Verifying { known }, AcquireEvent::TransferHashed(actual)) => if known@
            == actual@ {
            (
                AcquireState::Finished { downloaded: true },
                AcquireAction::Conclude(AcquireStatus::Downloaded),
            )
        } else {
            (AcquireState::Failed, AcquireAction::Abort(AcquireFailure::ChecksumMismatch))
        },
        _ => (AcquireState::Failed, AcquireAction::Abort(AcquireFailure::UnexpectedEvent)),
    }
}

/// One acquisition in progress.
pub struct AcquireMachine {
    pub state: AcquireState,
}

impl AcquireMachine {
    /// Begin an acquisition for a descriptor whose embedded checksum is
    /// `embedded`, yielding the machine and the first action to perform.
    pub fn start(embedded: Option<String>) -> (r: (AcquireMachine, AcquireAction))
        ensures
            r.0.state == start_spec(embedded).0,
            r.1 == start_spec(embedded).1,
    {
        match embedded {
            Option::Some(h) => (
                AcquireMachine { state: AcquireState::Probing { known: Option::Some(h) } },
                AcquireAction::ProbeDestination,
            ),
            Option::None => (
                AcquireMachine { state: AcquireState::ReadingSidecar },
                AcquireAction::ReadSidecar,
            ),
        }
    }

    /// Consume the outcome of the previous action and produce the next one,
    /// exactly as the transition table says.
    pub fn step(&mut self, event: AcquireEvent) -> (a: AcquireAction)
        ensures
            final(self).state == acquire_next(old(self).state, event).0,
            a == acquire_next(old(self).state, event).1,
    {
        let (next, action): (AcquireState, AcquireAction) = match (&self.state, event) {
            (AcquireState::ReadingSidecar, AcquireEvent::SidecarFound(h)) => (
                AcquireState::Probing { known: Option::Some(h) },
                AcquireAction::ProbeDestination,
            ),
            (AcquireState::ReadingSidecar, AcquireEvent::SidecarMissing) => (
                AcquireState::FetchingSidecar,
                AcquireAction::FetchSidecar,
            ),
            (AcquireState::FetchingSidecar, AcquireEvent::ChecksumFetched(h)) => (
                AcquireState::WritingSidecar { known: h.clone() },
                AcquireAction::WriteSidecar(h),
            ),
            (AcquireState::FetchingSidecar, AcquireEvent::ChecksumFetchFailed) => (
                AcquireState::Probing { known: Option::None },
                AcquireAction::ProbeDestination,
            ),
            (AcquireState::WritingSidecar { known }, AcquireEvent::SidecarWritten) => (
                AcquireState::Probing { known: Option::Some(known.clone()) },
                AcquireAction::ProbeDestination,
            ),
            (AcquireState::Probing { known }, AcquireEvent::DestinationPresent) => (
                AcquireState::HashingExisting { known: clone_opt_string(known) },
                AcquireAction::HashDestination,
            ),
            (AcquireState::Probing { known }, AcquireEvent::DestinationMissing) => (
                AcquireState::Transferring { known: clone_opt_string(known) },
                AcquireAction::Transfer,
            ),
            (
                AcquireState::HashingExisting { known },
                AcquireEvent::DestinationHashed(actual),
            ) => match known {
                Option::Some(expected) => {
                    if string_eq(expected, &actual) {
                        (
                            AcquireState::Finished { downloaded: false },
                            AcquireAction::Conclude(AcquireStatus::AlreadyValid),
                        )
                    } else {
                        (
                            AcquireState::Deleting { known: Option::Some(expected.clone()) },
                            AcquireAction::DeleteDestination,
                        )
                    }
                },
                Option::None => (
                    AcquireState::Finished { downloaded: false },
                    AcquireAction::Conclude(AcquireStatus::AlreadyValid),
                ),
            },
            (AcquireState::Deleting { known }, AcquireEvent::DestinationDeleted) => (
                AcquireState::Transferring { known: clone_opt_string(known) },
                AcquireAction::Transfer,
            ),
            (AcquireState::Transferring { known }, AcquireEvent::Transferred) => match known {
                Option::Some(expected) => (
                    AcquireState::Verifying { known: expected.clone() },
                    AcquireAction::HashTransferred,
                ),
                Option::None => (
                    AcquireState::Finished { downloaded: true },
                    AcquireAction::Conclude(AcquireStatus::Downloaded),
                ),
            },
            (AcquireState::Verifying { known }, AcquireEvent::TransferHashed(actual)) => {
                if string_eq(known, &actual) {
                    (
                        AcquireState::Finished { downloaded: true },
                        AcquireAction::Conclude(AcquireStatus::Downloaded),
                    )
                } else {
                    (AcquireState::Failed, AcquireAction::Abort(AcquireFailure::ChecksumMismatch))
                }
            },
            _ => (AcquireState::Failed, AcquireAction::Abort(AcquireFailure::UnexpectedEvent)),
        };
        self.state = next;
        action
    }
}

/// Run the transition table over a whole sequence of reported outcomes,
/// collecting the actions it commands.
pub open spec fn run_events(s0: AcquireState, events: Seq<AcquireEvent>) -> (
    AcquireState,
    Seq<AcquireAction>,
)
    decreases events.len(),
{
    if events.len() == 0 {
        (s0, Seq::empty())
    } else {
        let (s1, a) = acquire_next(s0, events[0]);
        let (sf, rest) = run_events(s1, events.skip(1));
        (sf, seq![a] + rest)
    }
}

/// A destination already holding a file that matches the expected checksum
/// is kept: the run hashes the file, concludes "not downloaded", and never
/// commands a transfer or a sidecar fetch — no network request happens.
pub proof fn lemma_valid_existing_file_skips_network(h: String)
    ensures
        ({
            let s0 = start_spec(Option::Some(h)).0;
            let events = seq![
                AcquireEvent::DestinationPresent,
                AcquireEvent::DestinationHashed(h),
            ];
            let (sf, actions) = run_events(s0, events);
            &&& sf == (AcquireState::Finished { downloaded: false })
            &&& actions == seq![
                AcquireAction::HashDestination,
                AcquireAction::Conclude(AcquireStatus::AlreadyValid),
            ]
            &&& forall|i: int|
                0 <= i < actions.len() ==> !(#[trigger] actions[i] is Transfer) && !(actions[i]
                    is FetchSidecar)
        }),
{
    reveal_with_fuel(run_events, 4);
    let s0 = start_spec(Option::Some(h)).0;
    let events = seq![AcquireEvent::DestinationPresent, AcquireEvent::DestinationHashed(h)];
    let (sf, actions) = run_events(s0, events);
    assert(events.skip(1) =~= seq![AcquireEvent::DestinationHashed(h)]);
    assert(events.skip(1).skip(1) =~= Seq::<AcquireEvent>::empty());
    assert(actions =~= seq![
        AcquireAction::HashDestination,
        AcquireAction::Conclude(AcquireStatus::AlreadyValid),
    ]);
}

/// A destination holding a stale file — its checksum differs from the
/// expected one — is deleted and transferred exactly once: the run commands
/// hash, delete, one transfer, one verification, and concludes "downloaded".
pub proof fn lemma_stale_existing_file_redownloaded(h: String, stale: String)
    requires
        h@ != stale@,
    ensures
        ({
            let s0 = start_spec(Option::Some(h)).0;
            let events = seq![
                AcquireEvent::DestinationPresent,
                AcquireEvent::DestinationHashed(stale),
                AcquireEvent::DestinationDeleted,
                AcquireEvent::Transferred,
                AcquireEvent::TransferHashed(h),
            ];
            let (sf, actions) = run_events(s0, events);
            &&& sf == (AcquireState::Finished { downloaded: true })
            &&& actions == seq![
                AcquireAction::HashDestination,
                AcquireAction::DeleteDestination,
                AcquireAction::Transfer,
                AcquireAction::HashTransferred,
                AcquireAction::Conclude(AcquireStatus::Downloaded),
            ]
        }),
{
    reveal_with_fuel(run_events, 7);
    let s0 = start_spec(Option::Some(h)).0;
    let events = seq![
        AcquireEvent::DestinationPresent,
        AcquireEvent::DestinationHashed(stale),
        AcquireEvent::DestinationDeleted,
        AcquireEvent::Transferred,
        AcquireEvent::TransferHashed(h),
    ];
    let (sf, actions) = run_events(s0, events);
    assert(events.skip(1) =~= seq![
        AcquireEvent::DestinationHashed(stale),
        AcquireEvent::DestinationDeleted,
        AcquireEvent::Transferred,
        AcquireEvent::TransferHashed(h),
    ]);
    assert(events.skip(1).skip(1) =~= seq![
        AcquireEvent::DestinationDeleted,
        AcquireEvent::Transferred,
        AcquireEvent::TransferHashed(h),
    ]);
    assert(events.skip(1).skip(1).skip(1) =~= seq![
        AcquireEvent::Transferred,
        AcquireEvent::TransferHashed(h),
    ]);
    assert(events.skip(1).skip(1).skip(1).skip(1) =~= seq![AcquireEvent::TransferHashed(h)]);
    assert(events.skip(1).skip(1).skip(1).skip(1).skip(1) =~= Seq::<AcquireEvent>::empty());
    assert(actions =~= seq![
        AcquireAction::HashDestination,
        AcquireAction::DeleteDestination,
        AcquireAction::Transfer,
        AcquireAction::HashTransferred,
        AcquireAction::Conclude(AcquireStatus::Downloaded),
    ]);
}

/// A transfer whose checksum does not match the expected one is fatal: the
/// run aborts with the checksum-mismatch failure and commands no sidecar
/// write anywhere — no side-file claiming success is left behind.
pub proof fn lemma_transfer_mismatch_is_fatal(h: String, actual: String)
    requires
        h@ != actual@,
    ensures
        ({
            let s0 = start_spec(Option::Some(h)).0;
            let events = seq![
                AcquireEvent::DestinationMissing,
                AcquireEvent::Transferred,
                AcquireEvent::TransferHashed(actual),
            ];
            let (sf, actions) = run_events(s0, events);
            &&& sf is Failed
            &&& actions == seq![
                AcquireAction::Transfer,
                AcquireAction::HashTransferred,
                AcquireAction::Abort(AcquireFailure::ChecksumMismatch),
            ]
            &&& forall|i: int| 0 <= i < actions.len() ==> !(#[trigger] actions[i] is WriteSidecar)
        }),
{
    reveal_with_fuel(run_events, 5);
    let s0 = start_spec(Option::Some(h)).0;
    let events = seq![
        AcquireEvent::DestinationMissing,
        AcquireEvent::Transferred,
        AcquireEvent::TransferHashed(actual),
    ];
    let (sf, actions) = run_events(s0, events);
    assert(events.skip(1) =~= seq![
        AcquireEvent::Transferred,
        AcquireEvent::TransferHashed(actual),
    ]);
    assert(events.skip(1).skip(1) =~= seq![AcquireEvent::TransferHashed(actual)]);
    assert(events.skip(1).skip(1).skip(1) =~= Seq::<AcquireEvent>::empty());
    assert(actions =~= seq![
        AcquireAction::Transfer,
        AcquireAction::HashTransferred,
        AcquireAction::Abort(AcquireFailure::ChecksumMismatch),
    ]);
}

/// Once a transfer has begun, the machine never returns to the sidecar
/// phase: from the transferring, verifying and terminal states every
/// transition stays among them, and none commands a sidecar write.
pub proof fn lemma_no_sidecar_write_after_transfer(s: AcquireState, e: AcquireEvent)
    requires
        s is Transferring || s is Verifying || s is Finished || s is Failed,
    ensures
        !(acquire_next(s, e).1 is WriteSidecar),
        acquire_next(s, e).0 is Transferring || acquire_next(s, e).0 is Verifying || acquire_next(
            s,
            e,
        ).0 is Finished || acquire_next(s, e).0 is Failed,
{
}

} // verus!
