use dial_sync::computer_state::{ApplicationVolumeDialState, State};
use dial_sync::data::{Snapshot, WireFormat};
use dial_sync::percentage::Percentage;
use dial_sync::wire::{
    decode_snapshot_frame, decode_state_frame, encode_snapshot_frame, encode_state_frame,
    DecodeError,
};

fn snapshot_of(bits: &[u16]) -> Snapshot {
    Snapshot::new(bits.iter().map(|&b| Percentage { bits: b }).collect())
}

fn frame_round_trip(bits: &[u16]) {
    let snapshot = snapshot_of(bits);
    let frame = encode_snapshot_frame(&snapshot.to_wire());
    assert_eq!(frame.len(), 2 * bits.len());
    let wire: WireFormat = decode_snapshot_frame(&frame, bits.len()).unwrap();
    assert_eq!(wire.percentages, bits.to_vec());
    let back = wire.to_snapshot();
    for (p, &b) in back.percentages.iter().zip(bits.iter()) {
        assert_eq!(p.bits, b);
    }
}

#[test]
fn snapshot_frame_one_channel() {
    // 32736 = 0x7FE0, big-endian on the wire.
    let frame = encode_snapshot_frame(&snapshot_of(&[32736]).to_wire());
    assert_eq!(frame, vec![0x7f, 0xe0]);
    let wire = decode_snapshot_frame(&frame, 1).unwrap();
    assert_eq!(wire.percentages, vec![32736]);
}

#[test]
fn snapshot_frame_round_trips() {
    frame_round_trip(&[32736]);
    frame_round_trip(&[0, 0xffff]);
    frame_round_trip(&[1, 0x0100, 0xabcd, 0x00ff, 0xff00, 42, 65535]);
}

#[test]
fn snapshot_frame_wrong_length_rejected() {
    let bytes = vec![0x7f, 0xe0];
    assert!(matches!(decode_snapshot_frame(&bytes, 2), Err(DecodeError::LengthMismatch)));
    let odd = vec![0x7f, 0xe0, 0x00];
    assert!(matches!(decode_snapshot_frame(&odd, 1), Err(DecodeError::LengthMismatch)));
    let empty: Vec<u8> = vec![];
    assert!(decode_snapshot_frame(&empty, 0).is_ok());
}

#[test]
fn state_frame_round_trips() {
    let state = State {
        application_volume_dial_states: vec![
            ApplicationVolumeDialState { mute: true },
            ApplicationVolumeDialState { mute: false },
            ApplicationVolumeDialState { mute: true },
        ],
    };
    let frame = encode_state_frame(&state);
    assert_eq!(frame, vec![1, 0, 1]);
    let back = decode_state_frame(&frame, 3).unwrap();
    let mutes: Vec<bool> = back
        .application_volume_dial_states
        .iter()
        .map(|s| s.mute)
        .collect();
    assert_eq!(mutes, vec![true, false, true]);
}

#[test]
fn state_frame_wrong_length_rejected() {
    let bytes = vec![1, 0];
    assert!(matches!(decode_state_frame(&bytes, 3), Err(DecodeError::LengthMismatch)));
}

#[test]
fn state_frame_invalid_bool_rejected() {
    let bytes = vec![1, 2, 0];
    assert!(matches!(decode_state_frame(&bytes, 3), Err(DecodeError::InvalidBoolByte)));
}
