use session_engine::assemble::apply;
use session_engine::decode::decode;
use session_engine::state::GameState;

fn state_after(payload: &str, received_at: i64) -> GameState {
    let mut state = GameState::new();
    apply(&decode(payload.as_bytes()).unwrap(), received_at, &mut state).unwrap();
    state
}

#[test]
fn thirty_seconds_stay_thirty_seconds() {
    // The server is ten seconds ahead. It sets a time thirty seconds after
    // its own now.
    let state = state_after("timestamp:1010", 1000);
    assert_eq!(state.drift(), 10);
    let until = 1010 + 30;
    assert_eq!(state.time_remaining(until, 1000), 30);
    assert_ne!(state.time_remaining(until, 1000), 40);
    assert_ne!(state.time_remaining(until, 1000), 20);
    assert_eq!(state.time_remaining(until, 1005), 25);
    assert_eq!(state.time_remaining(until, 1030), 0);
    assert_eq!(state.time_remaining(until, 1031), -1);
}

#[test]
fn a_server_that_is_behind_is_handled_alike() {
    let state = state_after("timestamp:940", 1000);
    assert_eq!(state.drift(), -60);
    assert_eq!(state.time_remaining(940 + 30, 1000), 30);
    assert_eq!(state.local_time_of(970), 1030);
    assert_eq!(state.server_time_at(1000), 940);
}

#[test]
fn the_two_clocks_convert_into_each_other() {
    let state = state_after("timestamp:1700000010", 1_700_000_000);
    assert_eq!(state.server_time_at(1_700_000_000), 1_700_000_010);
    assert_eq!(state.local_time_of(1_700_000_010), 1_700_000_000);
    let agree = GameState::new();
    assert_eq!(agree.time_remaining(50, 20), 30);
    assert_eq!(agree.local_time_of(77), 77);
}

#[test]
fn times_are_cut_to_the_range_of_i64() {
    let ahead = state_after("timestamp:9223372036854775807", 0);
    assert_eq!(ahead.server_time_at(1), i64::MAX);
    assert_eq!(ahead.local_time_of(i64::MIN), i64::MIN);
    assert_eq!(ahead.time_remaining(i64::MIN, i64::MAX), i64::MIN);
    let behind = state_after("timestamp:-9223372036854775808", 0);
    assert_eq!(behind.server_time_at(-1), i64::MIN);
    assert_eq!(behind.local_time_of(i64::MAX), i64::MAX);
    assert_eq!(behind.time_remaining(i64::MAX, 0), i64::MAX);
}
