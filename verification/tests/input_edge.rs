use rust_tello_controller::input::{
    Axis, Button, InputEvent, InputSampler, InputSnapshot, Key,
};
use rust_tello_controller::edge::clicked;

fn held(sampler: &InputSampler, b: Button) -> bool {
    sampler.sample().held.pressed(b)
}

#[test]
fn edge_fires_on_press_transition() {
    let prev = InputSnapshot::at_rest();
    let mut sampler = InputSampler { state: prev };
    sampler.apply_event(&InputEvent::ButtonDown(Button::PadA));
    let cur = sampler.sample();
    assert!(clicked(Button::PadA, &prev, &cur));
    assert!(!clicked(Button::PadB, &prev, &cur));
}

#[test]
fn edge_does_not_refire_while_held() {
    let mut sampler = InputSampler::new();
    sampler.apply_event(&InputEvent::ButtonDown(Button::Start));
    let pressed = sampler.sample();
    // No further transition: the control stays held.
    assert!(!clicked(Button::Start, &pressed, &pressed));
}

#[test]
fn edge_does_not_fire_on_release() {
    let mut sampler = InputSampler::new();
    sampler.apply_event(&InputEvent::ButtonDown(Button::Guide));
    let pressed = sampler.sample();
    sampler.apply_event(&InputEvent::ButtonUp(Button::Guide));
    let released = sampler.sample();
    assert!(!clicked(Button::Guide, &pressed, &released));
}

#[test]
fn controller_axis_is_absolute() {
    let mut sampler = InputSampler::new();
    sampler.apply_event(&InputEvent::AxisMove(Axis::LeftX, 12000));
    assert_eq!(sampler.sample().left_x, 12000);
    sampler.apply_event(&InputEvent::AxisMove(Axis::LeftX, -7000));
    assert_eq!(sampler.sample().left_x, -7000);
}

#[test]
fn stick_minimum_is_clamped_to_full_deflection() {
    let mut sampler = InputSampler::new();
    sampler.apply_event(&InputEvent::AxisMove(Axis::LeftY, i16::MIN));
    assert_eq!(sampler.sample().left_y, -32767);
}

#[test]
fn trigger_never_goes_negative() {
    let mut sampler = InputSampler::new();
    sampler.apply_event(&InputEvent::AxisMove(Axis::TriggerLeft, -5));
    assert_eq!(sampler.sample().trigger_left, 0);
    sampler.apply_event(&InputEvent::AxisMove(Axis::TriggerLeft, 300));
    assert_eq!(sampler.sample().trigger_left, 300);
}

#[test]
fn keyboard_motion_keys_are_level_triggered() {
    let mut sampler = InputSampler::new();
    sampler.apply_event(&InputEvent::KeyDown(Key::Up));
    assert_eq!(sampler.sample().left_y, -32767);
    sampler.apply_event(&InputEvent::KeyUp(Key::Up));
    assert_eq!(sampler.sample().left_y, 0);

    sampler.apply_event(&InputEvent::KeyDown(Key::Left));
    assert_eq!(sampler.sample().left_x, -32767);
    sampler.apply_event(&InputEvent::KeyUp(Key::Left));
    assert_eq!(sampler.sample().left_x, 0);

    sampler.apply_event(&InputEvent::KeyDown(Key::A));
    assert_eq!(sampler.sample().trigger_right, 32767);
    sampler.apply_event(&InputEvent::KeyDown(Key::Q));
    assert_eq!(sampler.sample().trigger_left, 32767);
    sampler.apply_event(&InputEvent::KeyUp(Key::A));
    assert_eq!(sampler.sample().trigger_right, 0);
}

#[test]
fn action_keys_record_held_state() {
    let mut sampler = InputSampler::new();
    sampler.apply_event(&InputEvent::KeyDown(Key::P));
    assert!(held(&sampler, Button::KeyPhoto));
    sampler.apply_event(&InputEvent::KeyUp(Key::P));
    assert!(!held(&sampler, Button::KeyPhoto));

    sampler.apply_event(&InputEvent::KeyDown(Key::V));
    assert!(held(&sampler, Button::KeyVideo));
    sampler.apply_event(&InputEvent::KeyDown(Key::Space));
    assert!(held(&sampler, Button::KeyTakeOff));
    sampler.apply_event(&InputEvent::KeyDown(Key::Num3));
    assert!(held(&sampler, Button::KeySens2));
}

#[test]
fn process_events_applies_in_order_and_reports_quit() {
    let mut sampler = InputSampler::new();
    let events = vec![
        InputEvent::ButtonDown(Button::Start),
        InputEvent::AxisMove(Axis::RightX, 9000),
    ];
    let quit = sampler.process_events(&events);
    assert!(!quit);
    assert!(held(&sampler, Button::Start));
    assert_eq!(sampler.sample().right_x, 9000);
}

#[test]
fn process_events_stops_at_quit_signal() {
    let mut sampler = InputSampler::new();
    let events = vec![
        InputEvent::ButtonDown(Button::Start),
        InputEvent::Quit,
        InputEvent::ButtonDown(Button::Guide),
    ];
    let quit = sampler.process_events(&events);
    assert!(quit);
    assert!(held(&sampler, Button::Start));
    // The event after the quit signal is left unapplied.
    assert!(!held(&sampler, Button::Guide));
}

#[test]
fn escape_key_reports_quit() {
    let mut sampler = InputSampler::new();
    let events = vec![InputEvent::KeyDown(Key::Escape)];
    assert!(sampler.process_events(&events));
    // Releasing escape is not a quit signal.
    let mut sampler2 = InputSampler::new();
    let events2 = vec![InputEvent::KeyUp(Key::Escape)];
    assert!(!sampler2.process_events(&events2));
}
