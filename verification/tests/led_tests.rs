use core::convert::Infallible;

use workshop_led::color::Color;
use workshop_led::pin_led::{
    ActiveHighOutputPinLed, Led, LedState, Runner, TriColorLed as _, TrippleLedTriColorLed,
};
use workshop_led::pins::{Level, OutputPin};
use workshop_led::tricolor::{ControllerEvent, LedControllerRunner, PinWrite, TriColorLed};

const LOW3: (Level, Level, Level) = (Level::Low, Level::Low, Level::Low);

#[test]
fn new_led_is_red_and_dark() {
    let led = TriColorLed::new();
    assert_eq!(led.color(), Color::Red);
    assert!(!led.is_on());
    assert_eq!(led.levels(), LOW3);
}

#[test]
fn toggle_lights_only_current_color() {
    let mut led = TriColorLed::new();
    led.toggle();
    assert!(led.is_on());
    assert_eq!(led.levels(), (Level::High, Level::Low, Level::Low));
    led.toggle();
    assert!(!led.is_on());
    assert_eq!(led.levels(), LOW3);
}

#[test]
fn set_color_keeps_power() {
    let mut led = TriColorLed::new();
    led.set_color(Color::Blue);
    assert_eq!(led.color(), Color::Blue);
    assert!(!led.is_on());
    assert_eq!(led.levels(), LOW3);
    led.toggle();
    assert_eq!(led.levels(), (Level::Low, Level::Low, Level::High));
    led.set_color(Color::Green);
    assert!(led.is_on());
    assert_eq!(led.levels(), (Level::Low, Level::High, Level::Low));
}

#[test]
fn toggle_twice_is_identity() {
    for c in [Color::Red, Color::Green, Color::Blue] {
        let mut led = TriColorLed::new();
        led.set_color(c);
        let before = (led.color(), led.is_on(), led.levels());
        led.toggle();
        led.toggle();
        assert_eq!((led.color(), led.is_on(), led.levels()), before);
    }
}

#[test]
fn controller_blinks_and_recolors() {
    let mut runner = LedControllerRunner::new();
    runner.handle_event(ControllerEvent::ColorChanged(Color::Red));
    assert_eq!(runner.led().levels(), LOW3);
    runner.handle_event(ControllerEvent::Tick);
    assert_eq!(runner.led().levels(), (Level::High, Level::Low, Level::Low));
    runner.handle_event(ControllerEvent::ColorChanged(Color::Green));
    assert_eq!(runner.led().levels(), (Level::Low, Level::High, Level::Low));
    runner.handle_event(ControllerEvent::Tick);
    assert_eq!(runner.led().levels(), LOW3);
    assert_eq!(runner.led().color(), Color::Green);
}

#[test]
fn tick_and_recolor_commute() {
    let mut a = LedControllerRunner::new();
    let mut b = LedControllerRunner::new();
    a.handle_event(ControllerEvent::Tick);
    a.handle_event(ControllerEvent::ColorChanged(Color::Blue));
    b.handle_event(ControllerEvent::ColorChanged(Color::Blue));
    b.handle_event(ControllerEvent::Tick);
    assert_eq!(a.led().levels(), b.led().levels());
    assert_eq!(a.led().color(), b.led().color());
}

fn write(channel: Color, level: Level) -> PinWrite {
    PinWrite { channel, level }
}

/// Applies writes to (red, green, blue) levels in order, checking after each that at most one
/// channel is lit.
fn replay(mut levels: (Level, Level, Level), writes: &[PinWrite]) -> (Level, Level, Level) {
    for w in writes {
        match w.channel {
            Color::Red => levels.0 = w.level,
            Color::Green => levels.1 = w.level,
            Color::Blue => levels.2 = w.level,
        }
        let lit: usize = [levels.0, levels.1, levels.2]
            .iter()
            .filter(|l| **l == Level::High)
            .count();
        assert!(lit <= 1);
    }
    levels
}

#[test]
fn toggle_returns_the_current_channel_write() {
    let mut led = TriColorLed::new();
    led.set_color(Color::Green);
    assert_eq!(led.toggle(), write(Color::Green, Level::High));
    assert_eq!(led.toggle(), write(Color::Green, Level::Low));
}

#[test]
fn set_color_on_dark_led_writes_nothing() {
    let mut led = TriColorLed::new();
    assert_eq!(led.set_color(Color::Blue), Vec::<PinWrite>::new());
    assert_eq!(led.levels(), LOW3);
}

#[test]
fn set_color_switches_old_channel_off_first() {
    let mut led = TriColorLed::new();
    led.set_color(Color::Blue);
    led.toggle();
    let before = led.levels();
    let writes = led.set_color(Color::Red);
    assert_eq!(
        writes,
        vec![write(Color::Blue, Level::Low), write(Color::Red, Level::High)]
    );
    assert_eq!(replay(before, &writes), led.levels());
    assert_eq!(led.levels(), (Level::High, Level::Low, Level::Low));
}

#[test]
fn set_same_color_on_lit_led_blinks_it_off_and_on() {
    let mut led = TriColorLed::new();
    led.toggle();
    let writes = led.set_color(Color::Red);
    assert_eq!(
        writes,
        vec![write(Color::Red, Level::Low), write(Color::Red, Level::High)]
    );
    assert_eq!(led.levels(), (Level::High, Level::Low, Level::Low));
}

#[test]
fn controller_writes_replay_to_the_led_levels() {
    let mut runner = LedControllerRunner::new();
    let events = [
        ControllerEvent::Tick,
        ControllerEvent::ColorChanged(Color::Green),
        ControllerEvent::ColorChanged(Color::Blue),
        ControllerEvent::Tick,
        ControllerEvent::ColorChanged(Color::Red),
        ControllerEvent::Tick,
    ];
    let mut levels = runner.led().levels();
    for e in events {
        let writes = runner.handle_event(e);
        levels = replay(levels, &writes);
        assert_eq!(levels, runner.led().levels());
    }
    assert_eq!(
        runner.handle_event(ControllerEvent::Tick),
        vec![write(Color::Red, Level::Low)]
    );
}

#[test]
fn level_pin_remembers_writes() {
    let mut pin = Level::High;
    assert!(pin.set_low().is_ok());
    assert_eq!(pin, Level::Low);
    assert!(pin.set_high().is_ok());
    assert_eq!(pin, Level::High);
}

#[test]
fn active_high_led_starts_dark() {
    let led = ActiveHighOutputPinLed::new(Level::High).ok().unwrap();
    assert_eq!(*led.pin(), Level::Low);
}

#[test]
fn active_high_led_follows_state() {
    let mut led = ActiveHighOutputPinLed::new(Level::Low).ok().unwrap();
    assert!(led.set_state(LedState::On).is_ok());
    assert_eq!(*led.pin(), Level::High);
    assert!(led.set_state(LedState::Off).is_ok());
    assert_eq!(*led.pin(), Level::Low);
    assert!(led.turn_on().is_ok());
    assert_eq!(*led.pin(), Level::High);
}

type PinLed = ActiveHighOutputPinLed<Level>;

fn tripple() -> TrippleLedTriColorLed<PinLed, PinLed, PinLed, Infallible> {
    TrippleLedTriColorLed::new(
        PinLed::new(Level::Low).ok().unwrap(),
        PinLed::new(Level::Low).ok().unwrap(),
        PinLed::new(Level::Low).ok().unwrap(),
    )
}

#[test]
fn tripple_led_toggles_current_channel() {
    let mut led = tripple();
    assert_eq!(led.color(), Color::Red);
    assert!(!led.is_on());
    assert!(led.toggle().is_ok());
    assert_eq!(*led.red_led().pin(), Level::High);
    assert!(led.set_color(Color::Green).is_ok());
    assert_eq!(*led.red_led().pin(), Level::Low);
    assert_eq!(*led.green_led().pin(), Level::High);
    let mut runner = Runner::new(led);
    assert!(runner.handle_event(ControllerEvent::Tick).is_ok());
    assert_eq!(*runner.led().green_led().pin(), Level::Low);
    assert!(runner.handle_event(ControllerEvent::ColorChanged(Color::Blue)).is_ok());
    assert!(runner.handle_event(ControllerEvent::Tick).is_ok());
    let led = runner.led();
    assert_eq!(led.color(), Color::Blue);
    assert!(led.is_on());
    assert_eq!(
        (*led.red_led().pin(), *led.green_led().pin(), *led.blue_led().pin()),
        (Level::Low, Level::Low, Level::High)
    );
}

/// A pin whose writes fail after a given number of successful ones.
struct FlakyPin {
    high: bool,
    writes_left: u32,
}

#[derive(Debug, PartialEq)]
struct PinBroken;

impl OutputPin for FlakyPin {
    type Error = PinBroken;

    fn is_set_high(&self) -> bool {
        self.high
    }

    fn accepts_writes(&self) -> bool {
        self.writes_left > 0
    }

    fn set_low(&mut self) -> Result<(), PinBroken> {
        if self.writes_left == 0 {
            return Err(PinBroken);
        }
        self.writes_left -= 1;
        self.high = false;
        Ok(())
    }

    fn set_high(&mut self) -> Result<(), PinBroken> {
        if self.writes_left == 0 {
            return Err(PinBroken);
        }
        self.writes_left -= 1;
        self.high = true;
        Ok(())
    }
}

#[test]
fn failing_pin_error_is_passed_on() {
    let broken = FlakyPin { high: true, writes_left: 0 };
    assert_eq!(ActiveHighOutputPinLed::new(broken).err(), Some(PinBroken));

    type F = ActiveHighOutputPinLed<FlakyPin>;
    let red = F::new(FlakyPin { high: false, writes_left: 2 }).ok().unwrap();
    let green = F::new(FlakyPin { high: false, writes_left: 1 }).ok().unwrap();
    let blue = F::new(FlakyPin { high: false, writes_left: 1 }).ok().unwrap();
    let mut led: TrippleLedTriColorLed<F, F, F, PinBroken> =
        TrippleLedTriColorLed::new(red, green, blue);
    // Red has one write left: switching on works, the next switch fails.
    assert_eq!(led.toggle(), Ok(()));
    assert!(led.red_led().pin().high);
    // The failed switch-off ends the color change: the flag flipped, the color did not.
    assert_eq!(led.set_color(Color::Green), Err(PinBroken));
    assert!(led.red_led().pin().high);
    assert_eq!(led.color(), Color::Red);
    assert!(!led.is_on());
}

#[test]
fn recoloring_a_dark_led_switches_nothing() {
    type F = ActiveHighOutputPinLed<FlakyPin>;
    // Each pin has used up its only write when the LED was created.
    let red = F::new(FlakyPin { high: false, writes_left: 1 }).ok().unwrap();
    let green = F::new(FlakyPin { high: false, writes_left: 1 }).ok().unwrap();
    let blue = F::new(FlakyPin { high: false, writes_left: 1 }).ok().unwrap();
    let mut led: TrippleLedTriColorLed<F, F, F, PinBroken> =
        TrippleLedTriColorLed::new(red, green, blue);
    assert_eq!(led.set_color(Color::Blue), Ok(()));
    assert_eq!(led.color(), Color::Blue);
    assert!(!led.is_on());
}

#[test]
fn failed_switch_off_leaves_new_color_untouched() {
    type F = ActiveHighOutputPinLed<FlakyPin>;
    let red = F::new(FlakyPin { high: false, writes_left: 2 }).ok().unwrap();
    let green = F::new(FlakyPin { high: false, writes_left: 5 }).ok().unwrap();
    let blue = F::new(FlakyPin { high: false, writes_left: 5 }).ok().unwrap();
    let mut led: TrippleLedTriColorLed<F, F, F, PinBroken> =
        TrippleLedTriColorLed::new(red, green, blue);
    assert_eq!(led.toggle(), Ok(()));
    assert_eq!(led.set_color(Color::Blue), Err(PinBroken));
    assert_eq!(led.blue_led().pin().writes_left, 4);
    assert!(!led.blue_led().pin().high);
    assert_eq!(led.color(), Color::Red);
    assert!(!led.is_on());
}

#[test]
fn recolor_switches_old_off_then_new_on() {
    type F = ActiveHighOutputPinLed<FlakyPin>;
    let red = F::new(FlakyPin { high: false, writes_left: 5 }).ok().unwrap();
    let green = F::new(FlakyPin { high: false, writes_left: 5 }).ok().unwrap();
    let blue = F::new(FlakyPin { high: false, writes_left: 5 }).ok().unwrap();
    let mut led: TrippleLedTriColorLed<F, F, F, PinBroken> =
        TrippleLedTriColorLed::new(red, green, blue);
    assert_eq!(led.toggle(), Ok(()));
    assert_eq!(led.set_color(Color::Green), Ok(()));
    assert!(!led.red_led().pin().high);
    assert!(led.green_led().pin().high);
    assert_eq!(led.blue_led().pin().writes_left, 4);
}
