use trirect::driver::{Action, DriverState, Event, KeyCode, Phase};
use trirect::geom::DeviceSize;

const SIZE: DeviceSize = DeviceSize { width: 800, height: 600 };

const FRAME_WORK: [Action; 4] = [
    Action::SubmitEmptyTransaction,
    Action::UpdateRenderer,
    Action::RenderFrame,
    Action::SwapBuffers,
];

fn initialized() -> DriverState {
    let mut state = DriverState::new(SIZE);
    state.initialize();
    state
}

fn running() -> DriverState {
    let mut state = initialized();
    state.step(Event::Resumed);
    state
}

#[test]
fn new_state_is_hidden_and_uninitialized() {
    let state = DriverState::new(SIZE);
    assert_eq!(state.phase, Phase::Uninitialized);
    assert!(!state.visible);
    assert!(!state.focus_requested);
    assert_eq!(state.size, SIZE);
}

#[test]
fn initialize_only_advances_the_phase() {
    let state = initialized();
    assert_eq!(state.phase, Phase::Initialized);
    assert!(!state.visible);
    assert!(!state.focus_requested);
    assert_eq!(state.size, SIZE);
}

#[test]
fn close_request_terminates_from_initialized() {
    let mut state = initialized();
    let actions = state.step(Event::CloseRequested);
    assert_eq!(state.phase, Phase::Terminated);
    assert_eq!(actions, FRAME_WORK.to_vec());
}

#[test]
fn close_request_terminates_from_running() {
    let mut state = running();
    state.step(Event::CloseRequested);
    assert_eq!(state.phase, Phase::Terminated);
}

#[test]
fn escape_terminates_from_initialized() {
    let mut state = initialized();
    state.step(Event::KeyboardInput { key: Some(KeyCode::Escape) });
    assert_eq!(state.phase, Phase::Terminated);
}

#[test]
fn escape_terminates_from_running() {
    let mut state = running();
    state.step(Event::KeyboardInput { key: Some(KeyCode::Escape) });
    assert_eq!(state.phase, Phase::Terminated);
}

#[test]
fn other_keys_change_nothing() {
    let mut state = running();
    let before = state;
    let actions = state.step(Event::KeyboardInput { key: Some(KeyCode::Other) });
    assert_eq!(state, before);
    assert_eq!(actions, FRAME_WORK.to_vec());
    let actions = state.step(Event::KeyboardInput { key: None });
    assert_eq!(state, before);
    assert_eq!(actions, FRAME_WORK.to_vec());
}

#[test]
fn resume_shows_and_focuses_the_window() {
    let mut state = initialized();
    let actions = state.step(Event::Resumed);
    assert_eq!(state.phase, Phase::Running);
    assert!(state.visible);
    assert!(state.focus_requested);
    let mut expected = vec![Action::ShowWindow, Action::FocusWindow];
    expected.extend(FRAME_WORK);
    assert_eq!(actions, expected);
}

#[test]
fn resume_again_while_running_shows_again() {
    let mut state = running();
    let actions = state.step(Event::Resumed);
    assert_eq!(state.phase, Phase::Running);
    assert!(state.visible);
    assert!(state.focus_requested);
    assert_eq!(actions[0], Action::ShowWindow);
    assert_eq!(actions[1], Action::FocusWindow);
}

#[test]
fn wake_signal_changes_nothing_but_still_renders() {
    let mut state = running();
    let before = state;
    let actions = state.step(Event::Wake);
    assert_eq!(state, before);
    assert_eq!(actions, FRAME_WORK.to_vec());
}

#[test]
fn other_events_leave_window_flags_unchanged() {
    let mut state = running();
    for event in [Event::Other, Event::Wake, Event::KeyboardInput { key: None }] {
        let visible = state.visible;
        let focus_requested = state.focus_requested;
        state.step(event);
        assert_eq!(state.visible, visible);
        assert_eq!(state.focus_requested, focus_requested);
    }
}

#[test]
fn terminated_is_final() {
    let mut state = running();
    state.step(Event::CloseRequested);
    assert_eq!(state.phase, Phase::Terminated);
    state.step(Event::Resumed);
    assert_eq!(state.phase, Phase::Terminated);
    state.step(Event::Other);
    assert_eq!(state.phase, Phase::Terminated);
}

#[test]
fn every_iteration_ends_with_the_frame_work() {
    let events = [
        Event::CloseRequested,
        Event::KeyboardInput { key: Some(KeyCode::Escape) },
        Event::KeyboardInput { key: Some(KeyCode::Other) },
        Event::KeyboardInput { key: None },
        Event::Resumed,
        Event::Wake,
        Event::Other,
    ];
    for event in events {
        let mut state = running();
        let actions = state.step(event);
        let tail = &actions[actions.len() - 4..];
        assert_eq!(tail, &FRAME_WORK);
    }
}

#[test]
fn no_event_changes_the_device_size() {
    let events = [
        Event::CloseRequested,
        Event::KeyboardInput { key: Some(KeyCode::Escape) },
        Event::Resumed,
        Event::Wake,
        Event::Other,
    ];
    for event in events {
        let mut state = running();
        state.step(event);
        assert_eq!(state.size, SIZE);
    }
}
