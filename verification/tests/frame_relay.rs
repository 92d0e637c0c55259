use rust_tello_controller::control::ControlState;
use rust_tello_controller::dispatch::FlightAction;
use rust_tello_controller::input::{Axis, Button, InputEvent, Key};
use rust_tello_controller::relay::TelemetryRelay;
use rust_tello_controller::telemetry::{
    FlightReading, ImuReading, LightReading, LogReading, TelemetrySnapshot, VelocityReading,
    WifiReading,
};

#[test]
fn takeoff_button_requests_opposite_of_flying_state() {
    // Grounded: the toggle asks for take-off, not landing.
    let mut st = ControlState::new();
    let events = vec![InputEvent::ButtonDown(Button::Start)];
    let plan = st.frame(&events, false).unwrap();
    assert_eq!(plan.flight, FlightAction::TakeOff);

    // Airborne: the same press asks for landing.
    let mut st2 = ControlState::new();
    let events2 = vec![InputEvent::ButtonDown(Button::Start)];
    let plan2 = st2.frame(&events2, true).unwrap();
    assert_eq!(plan2.flight, FlightAction::Land);
}

#[test]
fn takeoff_does_not_refire_while_held() {
    let mut st = ControlState::new();
    let press = vec![InputEvent::ButtonDown(Button::Start)];
    let plan = st.frame(&press, false).unwrap();
    assert_eq!(plan.flight, FlightAction::TakeOff);
    // Next frame, the button still held, no new events: no action.
    let plan2 = st.frame(&Vec::new(), false).unwrap();
    assert_eq!(plan2.flight, FlightAction::NoChange);
}

#[test]
fn one_shots_are_false_after_every_frame() {
    let mut st = ControlState::new();
    let events = vec![
        InputEvent::ButtonDown(Button::PadA),
        InputEvent::ButtonDown(Button::Guide),
        InputEvent::ButtonDown(Button::Start),
    ];
    let plan = st.frame(&events, false).unwrap();
    assert!(plan.take_picture);
    assert!(plan.hover);
    // The dispatch-and-reset cycle has run: every one-shot is back to
    // false, whatever it was before.
    assert!(!st.intent.take_off);
    assert!(!st.intent.hover);
    assert!(!st.intent.take_picture);
    assert!(!st.intent.toggle_video);
    assert!(!st.intent.img_carousel_left);
    assert!(!st.intent.img_carousel_right);
    assert!(!st.intent.img_carousel_toggle_zoom);
}

#[test]
fn held_stick_sustains_motion_across_frames() {
    let mut st = ControlState::new();
    let events = vec![InputEvent::AxisMove(Axis::LeftX, 10000)];
    let plan = st.frame(&events, false).unwrap();
    assert_eq!(plan.slide_right, 10000); // level 1
    // No new events: the deflection is still held.
    let plan2 = st.frame(&Vec::new(), false).unwrap();
    assert_eq!(plan2.slide_right, 10000);
}

#[test]
fn vertical_command_is_ascend_minus_descend() {
    let mut st = ControlState::new();
    let events = vec![
        InputEvent::KeyDown(Key::Num6),
        InputEvent::AxisMove(Axis::TriggerRight, 30000),
        InputEvent::AxisMove(Axis::TriggerLeft, 12000),
    ];
    let plan = st.frame(&events, false).unwrap();
    assert_eq!(plan.sensitivity, 5);
    assert_eq!(plan.vertical, 5 * 30000 - 5 * 12000);
}

#[test]
fn quit_ends_the_frame_without_a_plan() {
    let mut st = ControlState::new();
    assert!(st.frame(&vec![InputEvent::Quit], false).is_none());

    let mut st2 = ControlState::new();
    assert!(st2.frame(&vec![InputEvent::KeyDown(Key::Escape)], false).is_none());

    // Anything else keeps the loop going.
    let mut st3 = ControlState::new();
    assert!(st3.frame(&vec![InputEvent::KeyDown(Key::Up)], false).is_some());
}

fn message(k: u32) -> TelemetrySnapshot {
    // Every field derived from k, so a reader can tell whether it saw
    // one message or a mix of two.
    TelemetrySnapshot {
        wifi: Some(WifiReading {
            wifi_strength: (k % 101) as u8,
        }),
        flight: Some(FlightReading {
            fly_time: k,
            battery_percentage: (k % 101) as u8,
            battery_milli_volts: k as i32 * 3,
        }),
        light: Some(LightReading {
            light_strength_updated: i64::from(k) * 7,
        }),
        log: Some(LogReading {
            imu: Some(ImuReading {
                pitch: (k % 90) as i16,
                roll: -((k % 90) as i16),
                yaw: (k % 180) as i16,
                temperature: 40,
            }),
            mvo: Some(VelocityReading {
                vx: Some((k % 1000) as i16),
                vy: Some((k % 1000) as i16),
                vz: None,
            }),
        }),
    }
}

fn assert_coherent(s: &TelemetrySnapshot) {
    // All groups present must stem from the same message.
    if let Some(f) = s.flight {
        let k = f.fly_time;
        assert_eq!(f.battery_percentage, (k % 101) as u8);
        assert_eq!(f.battery_milli_volts, k as i32 * 3);
        assert_eq!(s.wifi.unwrap().wifi_strength, (k % 101) as u8);
        assert_eq!(s.light.unwrap().light_strength_updated, i64::from(k) * 7);
        let imu = s.log.unwrap().imu.unwrap();
        assert_eq!(imu.pitch, (k % 90) as i16);
        assert_eq!(imu.yaw, (k % 180) as i16);
    }
}

#[test]
fn relay_starts_empty_and_returns_last_published() {
    let relay = TelemetryRelay::new();
    let initial = relay.read();
    assert!(initial.wifi.is_none());
    assert!(initial.flight.is_none());
    assert!(initial.light.is_none());
    assert!(initial.log.is_none());

    relay.publish(message(42));
    assert_eq!(relay.read(), message(42));

    // A later message replaces every field, none left from the first.
    relay.publish(message(7));
    let s = relay.read();
    assert_eq!(s, message(7));
    assert_coherent(&s);

    // A stalled producer: reads keep returning the last snapshot.
    assert_eq!(relay.read(), message(7));
}

#[test]
fn relay_reads_are_coherent_across_many_publishes() {
    let relay = TelemetryRelay::new();
    for k in 0..2000u32 {
        relay.publish(message(k));
        assert_coherent(&relay.read());
    }
}
