//! Reducing the sessions bound to each dial into one mute flag, and planning
//! the outbound application of a commanded dial state to its sessions.

use crate::computer_state::{ApplicationVolumeDialState, State};
use crate::matcher::SessionInfo;
use crate::percentage::Percentage;
use vstd::prelude::*;

verus! {

/// Whether every listed session is muted. A dial with no bound sessions is
/// reported muted: nothing controllable means nothing to hear.
pub open spec fn spec_all_muted(sessions: Seq<SessionInfo>, idxs: Seq<usize>) -> bool {
    forall|k: int| 0 <= k < idxs.len() ==> sessions[idxs[k] as int].mute
}

/// Reduces each dial's bound sessions to one mute flag: the logical AND of
/// their mute flags, true for a dial with no bound sessions. Entry `d` of the
/// result is aligned to entry `d` of `groups`, so the output order is the
/// binding order.
pub fn aggregate_states(sessions: &Vec<SessionInfo>, groups: &Vec<Vec<usize>>) -> (r: State)
    requires
        forall|d: int, k: int|
            0 <= d < groups@.len() && 0 <= k < groups@[d]@.len() ==> groups@[d]@[k]
                < sessions@.len(),
    ensures
        r.application_volume_dial_states@.len() == groups@.len(),
        forall|d: int|
            0 <= d < groups@.len() ==> r.application_volume_dial_states@[d].mute == spec_all_muted(
                sessions@,
                groups@[d]@,
            ),
{
    let nd = groups.len();
    let mut out: Vec<ApplicationVolumeDialState> = Vec::new();
    for d in 0..nd
        invariant
            nd == groups@.len(),
            forall|dd: int, k: int|
                0 <= dd < nd && 0 <= k < groups@[dd]@.len() ==> groups@[dd]@[k] < sessions@.len(),
            out@.len() == d,
            forall|dd: int|
                0 <= dd < d ==> out@[dd].mute == spec_all_muted(sessions@, groups@[dd]@),
    {
        let g = &groups[d];
        let m = g.len();
        let mut mute = true;
        for k in 0..m
            invariant
                m == g@.len(),
                forall|t: int| 0 <= t < m ==> g@[t] < sessions@.len(),
                mute == (forall|t: int| 0 <= t < k ==> sessions@[g@[t] as int].mute),
        {
            mute = mute && sessions[g[k]].mute;
        }
        proof {
            assert(mute == spec_all_muted(sessions@, g@));
        }
        out.push(ApplicationVolumeDialState { mute });
    }
    State { application_volume_dial_states: out }
}

/// One pending volume/mute change for one audio session.
#[derive(Clone, Copy, PartialEq, Eq, Structural, Debug)]
pub struct ApplyCommand {
    pub process_id: u32,
    pub volume: Percentage,
    pub mute: bool,
}

/// Plans the inbound leg for one dial: one command per bound session, in
/// session order, each carrying the commanded percentage and mute flag. The
/// commands are applied independently, so one failed session never blocks the
/// rest of the batch.
pub fn plan_apply(
    sessions: &Vec<SessionInfo>,
    group: &Vec<usize>,
    volume: Percentage,
    mute: bool,
) -> (r: Vec<ApplyCommand>)
    requires
        forall|k: int| 0 <= k < group@.len() ==> group@[k] < sessions@.len(),
    ensures
        r@.len() == group@.len(),
        forall|k: int|
            0 <= k < r@.len() ==> r@[k] == (ApplyCommand {
                process_id: sessions@[group@[k] as int].process_id,
                volume,
                mute,
            }),
{
    let m = group.len();
    let mut out: Vec<ApplyCommand> = Vec::new();
    for k in 0..m
        invariant
            m == group@.len(),
            forall|t: int| 0 <= t < m ==> group@[t] < sessions@.len(),
            out@.len() == k,
            forall|t: int|
                0 <= t < k ==> out@[t] == (ApplyCommand {
                    process_id: sessions@[group@[t] as int].process_id,
                    volume,
                    mute,
                }),
    {
        out.push(ApplyCommand { process_id: sessions[group[k]].process_id, volume, mute });
    }
    out
}

} // verus!
