//! The host's aggregated view of the dials, reported back to the device for
//! indicator feedback.

use vstd::prelude::*;

verus! {

/// The aggregated state of one logical dial: whether every audio session
/// bound to it is muted.
#[derive(Clone, Copy, PartialEq, Eq, Structural, Debug)]
pub struct ApplicationVolumeDialState {
    pub mute: bool,
}

/// One [`ApplicationVolumeDialState`] per configured dial binding, in
/// configuration order.
pub struct State {
    pub application_volume_dial_states: Vec<ApplicationVolumeDialState>,
}

impl State {
    /// The mute flag of every dial, in configuration order.
    pub open spec fn mutes(&self) -> Seq<bool> {
        self.application_volume_dial_states@.map_values(|s: ApplicationVolumeDialState| s.mute)
    }
}

} // verus!
