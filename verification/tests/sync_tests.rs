use dial_sync::config::{ApplicationVolumeDial, Selector};
use dial_sync::matcher::SessionInfo;
use dial_sync::pattern::CompiledPattern;
use dial_sync::percentage::ADC_RESOLUTION;
use dial_sync::sync::{
    device_cycle, host_cycle, next_phase, receive_snapshot, Phase, Role, SyncError,
};
use dial_sync::wire::DecodeError;

fn pattern_dial(name: &str, pattern: &str) -> ApplicationVolumeDial {
    ApplicationVolumeDial {
        name: name.to_string(),
        selector: Selector::Pattern(CompiledPattern::new(pattern).unwrap()),
    }
}

fn session(process_id: u32, path: &str, mute: bool) -> SessionInfo {
    SessionInfo { process_id, path: Some(path.to_string()), mute }
}

#[test]
fn device_cycle_single_channel() {
    // raw 1023 at resolution 2048 goes out as the two bytes 0x7F 0xE0.
    let frame = device_cycle(&vec![1023], ADC_RESOLUTION);
    assert_eq!(frame, vec![0x7f, 0xe0]);
}

#[test]
fn device_frame_decodes_to_the_same_snapshot() {
    let raws = vec![0, 1, 511, 1023, 1024, 2046, 2047];
    let frame = device_cycle(&raws, ADC_RESOLUTION);
    assert_eq!(frame.len(), 14);
    let snapshot = receive_snapshot(&frame, 7).unwrap();
    let expected: Vec<u16> = raws.iter().map(|&r| r * 32).collect();
    let got: Vec<u16> = snapshot.percentages.iter().map(|p| p.bits).collect();
    assert_eq!(got, expected);
}

#[test]
fn receive_rejects_torn_frame() {
    // A dropped byte leaves a frame that can no longer parse: there is no
    // resynchronization marker.
    let frame = device_cycle(&vec![100, 200], ADC_RESOLUTION);
    let torn: Vec<u8> = frame[1..].to_vec();
    assert!(matches!(receive_snapshot(&torn, 2), Err(DecodeError::LengthMismatch)));
}

#[test]
fn host_cycle_reports_one_flag_per_dial() {
    let dials = vec![
        pattern_dial("spotify", "spotify"),
        pattern_dial("game", "game"),
        ApplicationVolumeDial { name: "rest".to_string(), selector: Selector::CatchAll },
    ];
    let sessions = vec![
        session(1, "spotify.exe", true),
        session(2, "spotify_helper.exe", false),
        session(3, "game.exe", true),
        session(4, "chrome.exe", false),
    ];
    // spotify dial: mutes [true, false] -> unmuted; game dial: [true] -> muted;
    // catch-all: [false] -> unmuted.
    assert_eq!(host_cycle(&dials, &sessions), vec![0, 1, 0]);
}

#[test]
fn host_cycle_with_no_sessions_reports_all_muted() {
    let dials = vec![pattern_dial("spotify", "spotify"), pattern_dial("game", "game")];
    assert_eq!(host_cycle(&dials, &vec![]), vec![1, 1]);
}

#[test]
fn device_phases_cycle() {
    assert_eq!(next_phase(Phase::Idle, Role::Device), Phase::Sampling);
    assert_eq!(next_phase(Phase::Sampling, Role::Device), Phase::Encoding);
    assert_eq!(next_phase(Phase::Encoding, Role::Device), Phase::Transmitting);
    assert_eq!(next_phase(Phase::Transmitting, Role::Device), Phase::Idle);
}

#[test]
fn host_phases_cycle() {
    assert_eq!(next_phase(Phase::Idle, Role::Host), Phase::Receiving);
    assert_eq!(next_phase(Phase::Receiving, Role::Host), Phase::Decoding);
    assert_eq!(next_phase(Phase::Decoding, Role::Host), Phase::Matching);
    assert_eq!(next_phase(Phase::Matching, Role::Host), Phase::Aggregating);
    assert_eq!(next_phase(Phase::Aggregating, Role::Host), Phase::Applying);
    assert_eq!(next_phase(Phase::Applying, Role::Host), Phase::Idle);
}

#[test]
fn only_os_failures_are_recoverable() {
    assert!(SyncError::Os.is_recoverable());
    assert!(!SyncError::Serial.is_recoverable());
    assert!(!SyncError::Io.is_recoverable());
}
