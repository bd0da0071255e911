use rustgl::camera::{CameraController, Motion};
use rustgl::input::{Direction, ElementState, Key, KeyCode, KeyEvent, PhysicalKey, WindowEvent};

fn key(code: KeyCode, state: ElementState) -> WindowEvent {
    WindowEvent::KeyboardInput(KeyEvent {
        physical_key: PhysicalKey::Code(code),
        logical_key: Key::Other,
        state,
    })
}

fn press(code: KeyCode) -> WindowEvent {
    key(code, ElementState::Pressed)
}

fn release(code: KeyCode) -> WindowEvent {
    key(code, ElementState::Released)
}

fn held(ctrl: &CameraController) -> [bool; 4] {
    [
        ctrl.is_held(Direction::Up),
        ctrl.is_held(Direction::Down),
        ctrl.is_held(Direction::Left),
        ctrl.is_held(Direction::Right),
    ]
}

#[test]
fn new_controller_holds_nothing() {
    let ctrl = CameraController::new();
    assert_eq!(held(&ctrl), [false, false, false, false]);
    assert!(ctrl.is_unset());
    assert_eq!(ctrl.update_camera(), Motion::Idle);
}

#[test]
fn key_bindings() {
    assert_eq!(KeyCode::ArrowUp.direction(), Some(Direction::Up));
    assert_eq!(KeyCode::KeyW.direction(), Some(Direction::Up));
    assert_eq!(KeyCode::ArrowDown.direction(), Some(Direction::Down));
    assert_eq!(KeyCode::KeyS.direction(), Some(Direction::Down));
    assert_eq!(KeyCode::ArrowLeft.direction(), Some(Direction::Left));
    assert_eq!(KeyCode::KeyA.direction(), Some(Direction::Left));
    assert_eq!(KeyCode::ArrowRight.direction(), Some(Direction::Right));
    assert_eq!(KeyCode::KeyD.direction(), Some(Direction::Right));
    assert_eq!(KeyCode::Other.direction(), None);
}

#[test]
fn each_bound_key_sets_its_input() {
    let cases = [
        (KeyCode::ArrowUp, [true, false, false, false]),
        (KeyCode::KeyW, [true, false, false, false]),
        (KeyCode::ArrowDown, [false, true, false, false]),
        (KeyCode::KeyS, [false, true, false, false]),
        (KeyCode::ArrowLeft, [false, false, true, false]),
        (KeyCode::KeyA, [false, false, true, false]),
        (KeyCode::ArrowRight, [false, false, false, true]),
        (KeyCode::KeyD, [false, false, false, true]),
    ];
    for (code, expected) in cases {
        let mut ctrl = CameraController::new();
        assert!(ctrl.process_events(&press(code)));
        assert_eq!(held(&ctrl), expected);
        assert!(!ctrl.is_unset());
        assert!(ctrl.process_events(&release(code)));
        assert_eq!(held(&ctrl), [false, false, false, false]);
        assert!(ctrl.is_unset());
    }
}

#[test]
fn unbound_key_is_not_taken_in() {
    let mut ctrl = CameraController::new();
    assert!(ctrl.process_events(&press(KeyCode::KeyA)));
    assert!(!ctrl.process_events(&press(KeyCode::Other)));
    assert!(!ctrl.process_events(&release(KeyCode::Other)));
    assert_eq!(held(&ctrl), [false, false, true, false]);
}

#[test]
fn unidentified_key_is_not_taken_in() {
    let mut ctrl = CameraController::new();
    let event = WindowEvent::KeyboardInput(KeyEvent {
        physical_key: PhysicalKey::Unidentified,
        logical_key: Key::Other,
        state: ElementState::Pressed,
    });
    assert!(!ctrl.process_events(&event));
    assert!(ctrl.is_unset());
}

#[test]
fn other_window_events_are_not_taken_in() {
    let mut ctrl = CameraController::new();
    assert!(ctrl.process_events(&press(KeyCode::KeyW)));
    let events = [
        WindowEvent::Resized { width: 800, height: 600 },
        WindowEvent::CloseRequested,
        WindowEvent::RedrawRequested,
        WindowEvent::Other,
    ];
    for event in events {
        assert!(!ctrl.process_events(&event));
        assert_eq!(held(&ctrl), [true, false, false, false]);
    }
}

#[test]
fn logical_key_does_not_matter_to_the_inputs() {
    let mut ctrl = CameraController::new();
    let event = WindowEvent::KeyboardInput(KeyEvent {
        physical_key: PhysicalKey::Code(KeyCode::KeyD),
        logical_key: Key::Escape,
        state: ElementState::Pressed,
    });
    assert!(ctrl.process_events(&event));
    assert_eq!(held(&ctrl), [false, false, false, true]);
}

#[test]
fn release_of_a_key_that_was_not_down_is_still_taken_in() {
    let mut ctrl = CameraController::new();
    assert!(ctrl.process_events(&release(KeyCode::ArrowLeft)));
    assert!(ctrl.is_unset());
}

#[test]
fn same_event_twice_is_as_once() {
    let mut once = CameraController::new();
    once.process_events(&press(KeyCode::KeyS));
    let mut twice = CameraController::new();
    twice.process_events(&press(KeyCode::KeyS));
    twice.process_events(&press(KeyCode::KeyS));
    assert_eq!(held(&once), held(&twice));
}

#[test]
fn release_by_the_other_key_of_an_input_clears_it() {
    let mut ctrl = CameraController::new();
    ctrl.process_events(&press(KeyCode::KeyW));
    ctrl.process_events(&release(KeyCode::ArrowUp));
    assert!(ctrl.is_unset());
}

#[test]
fn motion_forward() {
    let mut ctrl = CameraController::new();
    ctrl.process_events(&press(KeyCode::ArrowUp));
    assert_eq!(ctrl.update_camera(), Motion::Advance);
    ctrl.process_events(&press(KeyCode::KeyA));
    assert_eq!(ctrl.update_camera(), Motion::Advance);
}

#[test]
fn motion_backward() {
    let mut ctrl = CameraController::new();
    ctrl.process_events(&press(KeyCode::ArrowDown));
    assert_eq!(ctrl.update_camera(), Motion::Retreat);
}

#[test]
fn motion_backward_wins_over_forward() {
    let mut ctrl = CameraController::new();
    ctrl.process_events(&press(KeyCode::KeyW));
    ctrl.process_events(&press(KeyCode::KeyS));
    assert_eq!(ctrl.update_camera(), Motion::Retreat);
    ctrl.process_events(&release(KeyCode::KeyS));
    assert_eq!(ctrl.update_camera(), Motion::Advance);
}

#[test]
fn motion_sideways_only_is_a_step_of_nothing() {
    let mut ctrl = CameraController::new();
    ctrl.process_events(&press(KeyCode::KeyA));
    assert_eq!(ctrl.update_camera(), Motion::Hold);
    ctrl.process_events(&press(KeyCode::KeyD));
    assert_eq!(ctrl.update_camera(), Motion::Hold);
    ctrl.process_events(&release(KeyCode::KeyA));
    ctrl.process_events(&release(KeyCode::KeyD));
    assert_eq!(ctrl.update_camera(), Motion::Idle);
}

#[test]
fn update_camera_leaves_the_inputs_alone() {
    let mut ctrl = CameraController::new();
    ctrl.process_events(&press(KeyCode::KeyW));
    let before = held(&ctrl);
    ctrl.update_camera();
    assert_eq!(held(&ctrl), before);
}

#[test]
fn last_event_of_a_run_decides_each_input() {
    let run = [
        press(KeyCode::KeyW),
        press(KeyCode::KeyA),
        release(KeyCode::ArrowUp),
        press(KeyCode::Other),
        press(KeyCode::ArrowDown),
        WindowEvent::RedrawRequested,
        press(KeyCode::ArrowUp),
        release(KeyCode::KeyS),
        release(KeyCode::KeyD),
    ];
    let mut ctrl = CameraController::new();
    ctrl.process_events(&press(KeyCode::KeyD));
    for event in &run {
        ctrl.process_events(event);
    }
    assert_eq!(held(&ctrl), [true, false, true, false]);
    assert_eq!(ctrl.update_camera(), Motion::Advance);
}
