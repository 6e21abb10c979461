//! The sync loop's decisions: the cycle's stages, how one cycle's failures
//! are classified, and the compute legs of a device cycle and a host cycle.
//!
//! The I/O around these — sampling hardware, serial byte transfer, OS audio
//! queries — stays outside the library; each cycle hands its plain values in
//! and takes the next action's values out.

use crate::aggregate::{aggregate_states, spec_all_muted};
use crate::config::ApplicationVolumeDial;
use crate::data::Snapshot;
use crate::matcher::{match_sessions, spec_session_target, SessionInfo};
use crate::percentage::spec_encode_percentage;
use crate::wire::{
    decode_snapshot_frame, encode_snapshot_frame, encode_state_frame, spec_frame_words,
    spec_snapshot_frame, DecodeError,
};
use vstd::prelude::*;

verus! {

/// The stage a sync cycle is in. One full traversal is one cycle; there is no
/// terminal stage.
#[derive(Clone, Copy, PartialEq, Eq, Structural, Debug)]
pub enum Phase {
    Idle,
    Sampling,
    Encoding,
    Transmitting,
    Receiving,
    Decoding,
    Matching,
    Aggregating,
    Applying,
}

/// Which end of the serial link is running the cycle.
#[derive(Clone, Copy, PartialEq, Eq, Structural, Debug)]
pub enum Role {
    Device,
    Host,
}

/// The stage that follows each stage. The device leg runs sample, encode,
/// transmit; the host leg runs receive, decode, match, aggregate, apply; a
/// stage outside the role's own leg falls back to idle.
pub open spec fn spec_next_phase(phase: Phase, role: Role) -> Phase {
    match role {
        Role::Device => match phase {
            Phase::Idle => Phase::Sampling,
            Phase::Sampling => Phase::Encoding,
            Phase::Encoding => Phase::Transmitting,
            _ => Phase::Idle,
        },
        Role::Host => match phase {
            Phase::Idle => Phase::Receiving,
            Phase::Receiving => Phase::Decoding,
            Phase::Decoding => Phase::Matching,
            Phase::Matching => Phase::Aggregating,
            Phase::Aggregating => Phase::Applying,
            _ => Phase::Idle,
        },
    }
}

/// Advances a cycle by one stage.
pub fn next_phase(phase: Phase, role: Role) -> (r: Phase)
    ensures
        r == spec_next_phase(phase, role),
{
    match role {
        Role::Device => match phase {
            Phase::Idle => Phase::Sampling,
            Phase::Sampling => Phase::Encoding,
            Phase::Encoding => Phase::Transmitting,
            _ => Phase::Idle,
        },
        Role::Host => match phase {
            Phase::Idle => Phase::Receiving,
            Phase::Receiving => Phase::Decoding,
            Phase::Decoding => Phase::Matching,
            Phase::Matching => Phase::Aggregating,
            Phase::Aggregating => Phase::Applying,
            _ => Phase::Idle,
        },
    }
}

/// A failure of one sync cycle.
#[derive(Clone, Copy, PartialEq, Eq, Structural, Debug)]
pub enum SyncError {
    /// An OS audio query failed for the whole cycle.
    Os,
    /// The serial link failed.
    Serial,
    /// Byte-level input or output failed.
    Io,
}

impl SyncError {
    /// Whether the loop may proceed to the next cycle: an OS audio failure is
    /// retried next cycle; a transport failure is fatal, since the link can
    /// no longer be assumed usable.
    pub fn is_recoverable(&self) -> (r: bool)
        ensures
            r == (*self is Os),
    {
        match self {
            SyncError::Os => true,
            SyncError::Serial => false,
            SyncError::Io => false,
        }
    }
}

/// Whether every session assigned to binding `d` is currently muted. A dial
/// no session is assigned to counts as muted.
pub open spec fn spec_dial_mute(
    dials: Seq<ApplicationVolumeDial>,
    sessions: Seq<SessionInfo>,
    d: int,
) -> bool {
    forall|j: int|
        0 <= j < sessions.len() && spec_session_target(dials, sessions[j]) == Some(d)
            ==> sessions[j].mute
}

/// The mute-state frame the host owes the device for the given bindings and
/// sessions: one boolean byte per binding, in binding order.
pub open spec fn spec_mute_frame(
    dials: Seq<ApplicationVolumeDial>,
    sessions: Seq<SessionInfo>,
) -> Seq<u8> {
    Seq::new(
        dials.len(),
        |d: int| if spec_dial_mute(dials, sessions, d) {
            1u8
        } else {
            0u8
        },
    )
}

/// One host cycle's outbound compute leg: matches the cycle's sessions to the
/// bindings, aggregates each dial's mute flag, and encodes the mute-state
/// frame to transmit.
pub fn host_cycle(dials: &Vec<ApplicationVolumeDial>, sessions: &Vec<SessionInfo>) -> (r: Vec<u8>)
    ensures
        r@ == spec_mute_frame(dials@, sessions@),
{
    let ns = sessions.len();
    let groups = match_sessions(dials, sessions);
    let state = aggregate_states(sessions, &groups);
    let frame = encode_state_frame(&state);
    proof {
        assert(sessions@.len() == ns);
        assert forall|d: int| 0 <= d < dials@.len() implies spec_all_muted(sessions@, groups@[d]@)
            == spec_dial_mute(dials@, sessions@, d) by {
            if spec_all_muted(sessions@, groups@[d]@) {
                assert forall|j: int|
                    0 <= j < sessions@.len() && spec_session_target(dials@, sessions@[j]) == Some(
                        d,
                    ) implies sessions@[j].mute by {
                    assert(groups@[d]@.contains(j as usize));
                    let k = choose|k: int|
                        0 <= k < groups@[d]@.len() && groups@[d]@[k] == j as usize;
                    assert(sessions@[groups@[d]@[k] as int].mute);
                }
            } else {
                let k = choose|k: int|
                    0 <= k < groups@[d]@.len() && !sessions@[groups@[d]@[k] as int].mute;
                let j = groups@[d]@[k] as int;
                assert(spec_session_target(dials@, sessions@[j]) == Some(d));
            }
        }
        assert(frame@ =~= spec_mute_frame(dials@, sessions@));
    }
    frame
}

/// The words of one device cycle's snapshot frame: each raw sample encoded
/// under the shared resolution.
pub open spec fn spec_encoded_bits(raws: Seq<u16>, resolution: int) -> Seq<u16> {
    raws.map_values(|r: u16| spec_encode_percentage(r as int, resolution) as u16)
}

/// One device cycle's compute leg: encodes the cycle's raw samples and lays
/// them out as the snapshot frame to transmit.
pub fn device_cycle(raws: &Vec<u16>, resolution: u16) -> (r: Vec<u8>)
    requires
        0 < resolution,
        forall|i: int| 0 <= i < raws@.len() ==> raws@[i] < resolution,
    ensures
        r@ == spec_snapshot_frame(spec_encoded_bits(raws@, resolution as int)),
{
    let snapshot = Snapshot::from_raw(raws, resolution);
    let wire = snapshot.to_wire();
    proof {
        assert(snapshot.bits() =~= spec_encoded_bits(raws@, resolution as int));
    }
    encode_snapshot_frame(&wire)
}

/// One host cycle's receive leg: decodes a snapshot frame of the agreed
/// channel count back into the device's percentages.
pub fn receive_snapshot(bytes: &Vec<u8>, channels: usize) -> (r: Result<Snapshot, DecodeError>)
    ensures
        match r {
            Ok(s) => bytes@.len() == 2 * channels && s.bits() == spec_frame_words(bytes@),
            Err(e) => e is LengthMismatch && bytes@.len() != 2 * channels,
        },
{
    match decode_snapshot_frame(bytes, channels) {
        Ok(w) => Ok(w.to_snapshot()),
        Err(e) => Err(e),
    }
}

} // verus!
