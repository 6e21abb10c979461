//! The byte-level wire codec.
//!
//! Both frame shapes are fixed-length with no header, checksum or terminator;
//! the channel count is agreed out of band. A snapshot frame holds one 16-bit
//! word per dial, big-endian; a mute-state frame holds one boolean byte per
//! configured dial.

use crate::computer_state::{ApplicationVolumeDialState, State};
use crate::data::WireFormat;
use vstd::arithmetic::div_mod::lemma_fundamental_div_mod;
use vstd::prelude::*;

verus! {

/// Why a received frame was rejected.
#[derive(Clone, Copy, PartialEq, Eq, Structural, Debug)]
pub enum DecodeError {
    /// The byte count does not fit the agreed channel count.
    LengthMismatch,
    /// A mute flag byte held a value other than 0 or 1.
    InvalidBoolByte,
}

/// The snapshot frame for the given words: each 16-bit word as two bytes,
/// high byte first.
pub open spec fn spec_snapshot_frame(words: Seq<u16>) -> Seq<u8> {
    Seq::new(
        words.len() * 2,
        |i: int|
            if i % 2 == 0 {
                (words[i / 2] / 0x100) as u8
            } else {
                (words[i / 2] % 0x100) as u8
            },
    )
}

/// The words read back from a snapshot frame: every big-endian byte pair.
pub open spec fn spec_frame_words(bytes: Seq<u8>) -> Seq<u16> {
    Seq::new(bytes.len() / 2, |i: int| (bytes[2 * i] * 0x100 + bytes[2 * i + 1]) as u16)
}

/// The mute-state frame for the given flags: one byte per flag, 1 for muted.
pub open spec fn spec_state_frame(mutes: Seq<bool>) -> Seq<u8> {
    Seq::new(mutes.len(), |i: int| if mutes[i] { 1u8 } else { 0u8 })
}

/// The flags read back from a mute-state frame, one per byte.
pub open spec fn spec_frame_mutes(bytes: Seq<u8>) -> Seq<bool> {
    Seq::new(bytes.len(), |i: int| bytes[i] == 1)
}

/// Whether every byte of a mute-state frame is a well-formed boolean.
pub open spec fn spec_bool_bytes(bytes: Seq<u8>) -> bool {
    forall|i: int| 0 <= i < bytes.len() ==> bytes[i] <= 1
}

/// Serializes a snapshot's words into their frame.
pub fn encode_snapshot_frame(wire: &WireFormat) -> (r: Vec<u8>)
    ensures
        r@ == spec_snapshot_frame(wire.percentages@),
{
    let mut out: Vec<u8> = Vec::new();
    let n = wire.percentages.len();
    for i in 0..n
        invariant
            n == wire.percentages@.len(),
            out@.len() == 2 * i,
            forall|k: int|
                0 <= k < out@.len() ==> out@[k] == spec_snapshot_frame(wire.percentages@)[k],
    {
        let w = wire.percentages[i];
        out.push((w / 0x100) as u8);
        out.push((w % 0x100) as u8);
    }
    proof {
        assert(out@ =~= spec_snapshot_frame(wire.percentages@));
    }
    out
}

/// Deserializes a snapshot frame of the agreed channel count, rejecting any
/// other byte count.
pub fn decode_snapshot_frame(bytes: &Vec<u8>, channels: usize) -> (r: Result<
    WireFormat,
    DecodeError,
>)
    ensures
        match r {
            Ok(w) => bytes@.len() == 2 * channels && w.percentages@ == spec_frame_words(bytes@),
            Err(e) => e is LengthMismatch && bytes@.len() != 2 * channels,
        },
{
    if bytes.len() % 2 != 0 || bytes.len() / 2 != channels {
        return Err(DecodeError::LengthMismatch);
    }
    let len = bytes.len();
    let mut words: Vec<u16> = Vec::new();
    for i in 0..channels
        invariant
            len == bytes@.len(),
            bytes@.len() == 2 * channels,
            words@.len() == i,
            forall|k: int| 0 <= k < i ==> words@[k] == spec_frame_words(bytes@)[k],
    {
        let w: u16 = bytes[2 * i] as u16 * 0x100 + bytes[2 * i + 1] as u16;
        words.push(w);
    }
    proof {
        assert(words@ =~= spec_frame_words(bytes@));
    }
    Ok(WireFormat { percentages: words })
}

/// Serializes the per-dial mute flags into their frame.
pub fn encode_state_frame(state: &State) -> (r: Vec<u8>)
    ensures
        r@ == spec_state_frame(state.mutes()),
{
    let mut out: Vec<u8> = Vec::new();
    let n = state.application_volume_dial_states.len();
    for i in 0..n
        invariant
            n == state.application_volume_dial_states@.len(),
            out@.len() == i,
            forall|k: int| 0 <= k < i ==> out@[k] == spec_state_frame(state.mutes())[k],
    {
        if state.application_volume_dial_states[i].mute {
            out.push(1);
        } else {
            out.push(0);
        }
    }
    proof {
        assert(out@ =~= spec_state_frame(state.mutes()));
    }
    out
}

/// Deserializes a mute-state frame of the agreed dial count, rejecting any
/// other byte count and any byte that is not 0 or 1.
pub fn decode_state_frame(bytes: &Vec<u8>, dials: usize) -> (r: Result<State, DecodeError>)
    ensures
        match r {
            Ok(s) => bytes@.len() == dials && spec_bool_bytes(bytes@) && s.mutes()
                == spec_frame_mutes(bytes@),
            Err(e) => (e is LengthMismatch && bytes@.len() != dials) || (e is InvalidBoolByte
                && bytes@.len() == dials && !spec_bool_bytes(bytes@)),
        },
{
    if bytes.len() != dials {
        return Err(DecodeError::LengthMismatch);
    }
    let mut flags: Vec<ApplicationVolumeDialState> = Vec::new();
    for i in 0..dials
        invariant
            bytes@.len() == dials,
            flags@.len() == i,
            forall|k: int| 0 <= k < i ==> bytes@[k] <= 1,
            forall|k: int| 0 <= k < i ==> flags@[k].mute == spec_frame_mutes(bytes@)[k],
    {
        let b = bytes[i];
        if b > 1 {
            return Err(DecodeError::InvalidBoolByte);
        }
        flags.push(ApplicationVolumeDialState { mute: b == 1 });
    }
    let s = State { application_volume_dial_states: flags };
    proof {
        assert(s.mutes() =~= spec_frame_mutes(bytes@));
    }
    Ok(s)
}

/// Round-trip law for snapshot frames: reading back an encoded frame yields
/// the words that were written, bit-exact, for every channel count.
pub proof fn lemma_snapshot_frame_round_trip(words: Seq<u16>)
    ensures
        spec_frame_words(spec_snapshot_frame(words)) == words,
{
    let bytes = spec_snapshot_frame(words);
    assert forall|i: int| 0 <= i < words.len() implies spec_frame_words(bytes)[i]
        == words[i] by {
        lemma_fundamental_div_mod(words[i] as int, 0x100);
    }
    assert(spec_frame_words(bytes) =~= words);
}

/// Round-trip law for mute-state frames: reading back an encoded frame yields
/// the flags that were written, and the frame is well formed.
pub proof fn lemma_state_frame_round_trip(mutes: Seq<bool>)
    ensures
        spec_bool_bytes(spec_state_frame(mutes)),
        spec_frame_mutes(spec_state_frame(mutes)) == mutes,
{
    assert(spec_frame_mutes(spec_state_frame(mutes)) =~= mutes);
}

} // verus!
