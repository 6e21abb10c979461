use dial_sync::aggregate::{aggregate_states, plan_apply, ApplyCommand};
use dial_sync::matcher::SessionInfo;
use dial_sync::percentage::Percentage;

fn session(process_id: u32, mute: bool) -> SessionInfo {
    SessionInfo { process_id, path: None, mute }
}

fn mutes_of(sessions: &[SessionInfo], groups: Vec<Vec<usize>>) -> Vec<bool> {
    let state = aggregate_states(&sessions.to_vec(), &groups);
    state.application_volume_dial_states.iter().map(|s| s.mute).collect()
}

#[test]
fn mixed_mutes_aggregate_unmuted() {
    let sessions = [session(1, true), session(2, false)];
    assert_eq!(mutes_of(&sessions, vec![vec![0, 1]]), vec![false]);
}

#[test]
fn all_muted_aggregates_muted() {
    let sessions = [session(1, true), session(2, true)];
    assert_eq!(mutes_of(&sessions, vec![vec![0, 1]]), vec![true]);
}

#[test]
fn no_sessions_aggregates_muted() {
    let sessions = [session(1, false)];
    assert_eq!(mutes_of(&sessions, vec![vec![]]), vec![true]);
}

#[test]
fn aggregation_is_per_dial_in_binding_order() {
    let sessions = [session(1, true), session(2, false), session(3, true)];
    assert_eq!(
        mutes_of(&sessions, vec![vec![1], vec![0, 2], vec![]]),
        vec![false, true, true]
    );
}

#[test]
fn plan_apply_targets_every_bound_session() {
    let sessions = vec![session(10, false), session(20, true), session(30, false)];
    let commanded = Percentage { bits: 32736 };
    let commands = plan_apply(&sessions, &vec![2, 0], commanded, true);
    assert_eq!(
        commands,
        vec![
            ApplyCommand { process_id: 30, volume: commanded, mute: true },
            ApplyCommand { process_id: 10, volume: commanded, mute: true },
        ]
    );
}

#[test]
fn plan_apply_of_no_sessions_is_empty() {
    let sessions = vec![session(10, false)];
    let commands = plan_apply(&sessions, &vec![], Percentage { bits: 0 }, false);
    assert!(commands.is_empty());
}
