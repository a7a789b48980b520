use dungeon::coord::Coord;
use dungeon::input::{Input, InputState, Key, MouseButton, RawEvent, ScrollDirection};
use dungeon::input_tracker::InputTracker;

fn key_press_event(code: Key) -> RawEvent {
    RawEvent::KeyPress(code)
}

fn key_release_event(code: Key) -> RawEvent {
    RawEvent::KeyRelease(code)
}

#[test]
fn input_tracker_test_case_1() {
    // Assign
    let mut tracker = InputTracker::new();
    let code = Key::Char('b');

    // Act
    tracker.register_input_event(key_press_event(code));
    let (state, _) = tracker.calculate_state();

    // Assert
    assert_eq!(state.len(), 2);
    assert!(state.contains(&InputState::Press(Input::Key(code))));
    assert!(state.contains(&InputState::Active(Input::Key(code))));

    // Act
    tracker.register_input_event(key_release_event(code));
    let (state, _) = tracker.calculate_state();

    // Assert
    assert_eq!(state.len(), 1);
    assert!(state.contains(&InputState::Release(Input::Key(code))));
}

#[test]
fn input_tracker_test_case_2() {
    // Assign
    let mut tracker = InputTracker::new();
    let code = Key::Char('b');

    // Act
    tracker.register_input_event(key_press_event(code));
    let (state, _) = tracker.calculate_state();

    // Assert
    assert_eq!(state.len(), 2);
    assert!(state.contains(&InputState::Press(Input::Key(code))));
    assert!(state.contains(&InputState::Active(Input::Key(code))));

    // Act
    let (state, _) = tracker.calculate_state();

    // Assert
    assert_eq!(state.len(), 1);
    assert!(state.contains(&InputState::Active(Input::Key(code))));

    // Act
    tracker.register_input_event(key_release_event(code));
    let (state, _) = tracker.calculate_state();

    // Assert
    assert_eq!(state.len(), 1);
    assert!(state.contains(&InputState::Release(Input::Key(code))));
}

#[test]
fn input_tracker_test_case_3() {
    // Assign
    let mut tracker = InputTracker::new();
    let code = Key::Char('b');

    // Act
    tracker.register_input_event(key_press_event(code));
    tracker.register_input_event(key_release_event(code));
    let (state, _) = tracker.calculate_state();

    // Assert
    assert_eq!(state.len(), 3);
    assert!(state.contains(&InputState::Press(Input::Key(code))));
    assert!(state.contains(&InputState::Active(Input::Key(code))));
    assert!(state.contains(&InputState::Release(Input::Key(code))));

    // Act
    let (state, _) = tracker.calculate_state();

    // Assert
    assert_eq!(state.len(), 0);
}

#[test]
fn input_tracker_test_case_4() {
    // Assign
    let mut tracker = InputTracker::new();
    let code = Key::Char('b');

    // Act
    tracker.register_input_event(key_press_event(code));
    let (state, _) = tracker.calculate_state();

    // Assert
    assert_eq!(state.len(), 2);
    assert!(state.contains(&InputState::Press(Input::Key(code))));
    assert!(state.contains(&InputState::Active(Input::Key(code))));

    // Act
    tracker.register_input_event(key_release_event(code));
    tracker.register_input_event(key_press_event(code));
    let (state, _) = tracker.calculate_state();

    // Assert
    assert_eq!(state.len(), 3);
    assert!(state.contains(&InputState::Press(Input::Key(code))));
    assert!(state.contains(&InputState::Active(Input::Key(code))));
    assert!(state.contains(&InputState::Release(Input::Key(code))));

    // Act
    tracker.register_input_event(key_release_event(code));
    let (state, _) = tracker.calculate_state();

    // Assert
    assert_eq!(state.len(), 1);
    assert!(state.contains(&InputState::Release(Input::Key(code))));
}

#[test]
fn input_tracker_test_case_5() {
    // Assign
    let mut tracker = InputTracker::new();
    let code = Key::Char('b');

    // Act
    tracker.register_input_event(key_press_event(code));
    let (state, _) = tracker.calculate_state();

    // Assert
    assert_eq!(state.len(), 2);
    assert!(state.contains(&InputState::Press(Input::Key(code))));
    assert!(state.contains(&InputState::Active(Input::Key(code))));

    // Act
    tracker.register_input_event(key_press_event(code));
    tracker.register_input_event(key_release_event(code));
    let (state, _) = tracker.calculate_state();

    // Assert
    assert_eq!(state.len(), 1);
    assert!(state.contains(&InputState::Release(Input::Key(code))));

    // Act
    let (state, _) = tracker.calculate_state();

    // Assert
    assert_eq!(state.len(), 0);
}

#[test]
fn input_tracker_test_case_6() {
    // Assign
    let mut tracker = InputTracker::new();
    let code = Key::Char('b');

    // Act
    tracker.register_input_event(key_press_event(code));
    let (state, _) = tracker.calculate_state();

    // Assert
    assert_eq!(state.len(), 2);
    assert!(state.contains(&InputState::Press(Input::Key(code))));
    assert!(state.contains(&InputState::Active(Input::Key(code))));

    // Act
    tracker.register_input_event(key_press_event(code));
    tracker.register_input_event(key_release_event(code));
    tracker.register_input_event(key_press_event(code));
    let (state, _) = tracker.calculate_state();

    // Assert
    assert_eq!(state.len(), 3);
    assert!(state.contains(&InputState::Press(Input::Key(code))));
    assert!(state.contains(&InputState::Active(Input::Key(code))));
    assert!(state.contains(&InputState::Release(Input::Key(code))));

    // Act
    let (state, _) = tracker.calculate_state();

    // Assert
    assert_eq!(state.len(), 1);
    assert!(state.contains(&InputState::Active(Input::Key(code))));
}

#[test]
fn input_tracker_test_case_7() {
    // Assign
    let mut tracker = InputTracker::new();
    let code = Key::Char('b');

    // Act
    tracker.register_input_event(key_press_event(code));
    let (state, _) = tracker.calculate_state();

    // Assert
    assert_eq!(state.len(), 2);
    assert!(state.contains(&InputState::Press(Input::Key(code))));
    assert!(state.contains(&InputState::Active(Input::Key(code))));

    // Act
    tracker.register_input_event(key_press_event(code));
    let (state, _) = tracker.calculate_state();

    // Assert
    assert_eq!(state.len(), 1);
    assert!(state.contains(&InputState::Active(Input::Key(code))));

    // Act
    tracker.register_input_event(key_release_event(code));
    let (state, _) = tracker.calculate_state();

    // Assert
    assert_eq!(state.len(), 1);
    assert!(state.contains(&InputState::Release(Input::Key(code))));
}

#[test]
fn mouse_button_press_and_release() {
    let mut tracker = InputTracker::new();
    let at = Coord::new(12, 7);

    tracker.register_input_event(RawEvent::MouseDown(MouseButton::Left, at));
    let (state, coord) = tracker.calculate_state();
    assert_eq!(state.len(), 2);
    assert!(state.contains(&InputState::Press(Input::MouseLeft)));
    assert!(state.contains(&InputState::Active(Input::MouseLeft)));
    assert_eq!(coord, at);

    let (state, _) = tracker.calculate_state();
    assert_eq!(state.len(), 1);
    assert!(state.contains(&InputState::Active(Input::MouseLeft)));

    tracker.register_input_event(RawEvent::MouseUp(MouseButton::Left, at));
    let (state, _) = tracker.calculate_state();
    assert_eq!(state.len(), 1);
    assert!(state.contains(&InputState::Release(Input::MouseLeft)));
}

#[test]
fn scroll_emits_press_only() {
    let mut tracker = InputTracker::new();
    let at = Coord::new(3, 4);

    tracker.register_input_event(RawEvent::Scroll(ScrollDirection::Up, at));
    let (state, coord) = tracker.calculate_state();
    assert_eq!(state.len(), 1);
    assert!(state.contains(&InputState::Press(Input::MouseScrollUp)));
    assert_eq!(coord, at);

    // scrolling has no held state: the next frame is empty
    let (state, _) = tracker.calculate_state();
    assert_eq!(state.len(), 0);
}

#[test]
fn pointer_move_updates_coordinate_silently() {
    let mut tracker = InputTracker::new_mouse(Coord::new(1, 1));

    tracker.register_input_event(RawEvent::MouseMoved(Coord::new(8, 9)));
    let (state, coord) = tracker.calculate_state();
    assert_eq!(state.len(), 0);
    assert_eq!(coord, Coord::new(8, 9));
}

#[test]
fn keys_and_mouse_are_independent() {
    let mut tracker = InputTracker::new();
    let code = Key::Char('w');

    tracker.register_input_event(key_press_event(code));
    tracker.register_input_event(RawEvent::MouseDown(MouseButton::Right, Coord::new(0, 0)));
    let (state, _) = tracker.calculate_state();
    assert_eq!(state.len(), 4);

    tracker.register_input_event(key_release_event(code));
    let (state, _) = tracker.calculate_state();
    assert_eq!(state.len(), 2);
    assert!(state.contains(&InputState::Release(Input::Key(code))));
    assert!(state.contains(&InputState::Active(Input::MouseRight)));
}
