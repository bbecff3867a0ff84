use workshop_led::gesture::{any_gesture_detected, decode_gesture_datasets, GestureDataset};
use workshop_led::lamp::{GestureLamp, LampEvent, LampPhase, LampState, LedState};
use workshop_led::pins::Level;
use workshop_led::sensing::{night_light_levels, traffic_light, TrafficLight};

const H: Level = Level::High;
const L: Level = Level::Low;

#[test]
fn noise_threshold() {
    let quiet = GestureDataset { up: 4, down: 4, left: 4, right: 4 };
    assert!(quiet.is_noise());
    assert!(!quiet.is_any());
    let wave = GestureDataset { up: 0, down: 0, left: 5, right: 0 };
    assert!(!wave.is_noise());
    assert!(wave.is_any());
}

#[test]
fn decodes_datasets_in_fifo_order() {
    let data = [1, 2, 3, 4, 10, 20, 30, 40, 99];
    let sets = decode_gesture_datasets(&data);
    assert_eq!(
        sets,
        vec![
            GestureDataset { up: 1, down: 2, left: 3, right: 4 },
            GestureDataset { up: 10, down: 20, left: 30, right: 40 },
        ]
    );
}

#[test]
fn detects_gestures() {
    assert!(!any_gesture_detected(&[]));
    assert!(!any_gesture_detected(&[0, 1, 2, 3, 4, 4, 4, 4]));
    assert!(any_gesture_detected(&[0, 1, 2, 3, 4, 4, 4, 200]));
    assert!(any_gesture_detected(&[9, 0, 0, 0]));
    // An incomplete trailing dataset is not looked at.
    assert!(!any_gesture_detected(&[0, 0, 0, 0, 200, 200]));
}

#[test]
fn gesture_persists_when_more_data_follows() {
    let first = [0, 0, 7, 0];
    assert!(any_gesture_detected(&first));
    assert!(any_gesture_detected(&[0, 0, 7, 0, 1, 1, 1, 1]));
}

#[test]
fn lamp_cycle() {
    let mut s = LedState::Off;
    let mut seen = vec![];
    for _ in 0..5 {
        s = s.proceed();
        seen.push(s.get_rgb_levels());
    }
    assert_eq!(s, LedState::Off);
    assert_eq!(
        seen,
        vec![(H, L, L), (L, H, L), (L, L, H), (H, H, H), (L, L, L)]
    );
}

#[test]
fn lamp_state_alias() {
    let s: LampState = LampState::White;
    assert_eq!(s.proceed(), LedState::Off);
}

#[test]
fn traffic_light_ranges() {
    assert_eq!(traffic_light(0), TrafficLight::Off);
    assert_eq!(traffic_light(1), TrafficLight::Off);
    assert_eq!(traffic_light(2), TrafficLight::Green);
    assert_eq!(traffic_light(9), TrafficLight::Green);
    assert_eq!(traffic_light(10), TrafficLight::Yellow);
    assert_eq!(traffic_light(199), TrafficLight::Yellow);
    assert_eq!(traffic_light(200), TrafficLight::Red);
    assert_eq!(traffic_light(255), TrafficLight::Red);
}

#[test]
fn traffic_light_levels() {
    assert_eq!(TrafficLight::Off.levels(), (L, L));
    assert_eq!(TrafficLight::Green.levels(), (L, H));
    assert_eq!(TrafficLight::Yellow.levels(), (H, H));
    assert_eq!(TrafficLight::Red.levels(), (H, L));
}

#[test]
fn closer_is_never_calmer() {
    fn rank(t: TrafficLight) -> u8 {
        match t {
            TrafficLight::Off => 0,
            TrafficLight::Green => 1,
            TrafficLight::Yellow => 2,
            TrafficLight::Red => 3,
        }
    }
    for p in 0..255u8 {
        assert!(rank(traffic_light(p)) <= rank(traffic_light(p + 1)));
    }
}

#[test]
fn night_light() {
    assert_eq!(night_light_levels(0), (H, H, H));
    assert_eq!(night_light_levels(1), (H, H, H));
    assert_eq!(night_light_levels(2), (L, L, L));
    assert_eq!(night_light_levels(1024), (L, L, L));
}

#[test]
fn gesture_lamp_counts_the_first_gesture_of_a_swipe() {
    let mut lamp = GestureLamp::new();
    assert_eq!(lamp.state(), LedState::Off);
    assert_eq!(lamp.phase(), LampPhase::AwaitingGesture);
    assert_eq!(
        lamp.handle_event(LampEvent::GestureDetected),
        Some((Level::High, Level::Low, Level::Low))
    );
    assert_eq!(lamp.phase(), LampPhase::SettlingSwipe);
    for _ in 0..3 {
        assert_eq!(lamp.handle_event(LampEvent::GestureDetected), None);
        assert_eq!(lamp.state(), LedState::Red);
    }
    assert_eq!(lamp.handle_event(LampEvent::QuietSecond), None);
    assert_eq!(lamp.phase(), LampPhase::AwaitingGesture);
    assert_eq!(lamp.state(), LedState::Red);
    assert_eq!(
        lamp.handle_event(LampEvent::GestureDetected),
        Some((Level::Low, Level::High, Level::Low))
    );
    assert_eq!(lamp.state(), LedState::Green);
}

#[test]
fn gesture_lamp_cycles_through_white_back_to_off() {
    let mut lamp = GestureLamp::new();
    let mut seen = Vec::new();
    for _ in 0..5 {
        seen.push(lamp.handle_event(LampEvent::GestureDetected).unwrap());
        assert_eq!(lamp.handle_event(LampEvent::QuietSecond), None);
    }
    assert_eq!(
        seen,
        vec![
            (Level::High, Level::Low, Level::Low),
            (Level::Low, Level::High, Level::Low),
            (Level::Low, Level::Low, Level::High),
            (Level::High, Level::High, Level::High),
            (Level::Low, Level::Low, Level::Low),
        ]
    );
    assert_eq!(lamp.state(), LedState::Off);
}

#[test]
fn quiet_second_while_waiting_changes_nothing() {
    let mut lamp = GestureLamp::new();
    assert_eq!(lamp.handle_event(LampEvent::QuietSecond), None);
    assert_eq!(lamp.state(), LedState::Off);
    assert_eq!(lamp.phase(), LampPhase::AwaitingGesture);
}
