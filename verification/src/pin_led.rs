//! LEDs behind fallible output pins: single LEDs, a tri-color LED made of three of them, and
//! the controller that blinks it and changes its color.

use vstd::prelude::*;

use crate::color::Color;
use crate::pins::OutputPin;
use crate::tricolor::{after_event, recolored, toggled, ControllerEvent};

verus! {

/// Whether a single LED should be lit.
#[derive(Debug, Clone, Copy, PartialEq, Eq, Structural)]
pub enum LedState {
    On,
    Off,
}

/// A single LED that can be switched on and off; switching may fail.
///
/// `can_switch` says exactly whether the next switch succeeds; as for `OutputPin`, only LEDs
/// whose failures are known before the switch (or that never fail) can meet that.
pub trait Led {
    type Error;

    /// Whether the last successful switch left the LED lit.
    spec fn is_lit(&self) -> bool;

    /// Whether switching the LED, as it is now, succeeds.
    spec fn can_switch(&self) -> bool;

    /// Switches the LED on; fails exactly when it cannot be switched.
    fn turn_on(&mut self) -> (r: Result<(), Self::Error>)
        ensures
            r is Ok <==> old(self).can_switch(),
            r is Ok ==> final(self).is_lit(),
    ;

    /// Switches the LED off; fails exactly when it cannot be switched.
    fn turn_off(&mut self) -> (r: Result<(), Self::Error>)
        ensures
            r is Ok <==> old(self).can_switch(),
            r is Ok ==> !final(self).is_lit(),
    ;

    /// Switches the LED on or off as `state` says; fails exactly when it cannot be switched.
    fn set_state(&mut self, state: LedState) -> (r: Result<(), Self::Error>)
        ensures
            r is Ok <==> old(self).can_switch(),
            r is Ok ==> final(self).is_lit() == (state == LedState::On),
    {
        match state {
            LedState::On => self.turn_on(),
            LedState::Off => self.turn_off(),
        }
    }
}

/// An LED wired so that it is lit while its pin is high.
pub struct ActiveHighOutputPinLed<Pin> {
    pin: Pin,
}

impl<Pin: OutputPin> ActiveHighOutputPinLed<Pin> {
    /// The pin driving the LED.
    pub closed spec fn pin_spec(&self) -> Pin {
        self.pin
    }

    /// Takes over a pin and switches the LED off; fails exactly when the pin cannot be
    /// driven low.
    pub fn new(pin: Pin) -> (r: Result<Self, Pin::Error>)
        ensures
            r is Ok <==> pin.accepts_writes(),
            r matches Ok(led) ==> !led.is_lit(),
    {
        let mut pin = pin;
        match pin.set_low() {
            Ok(()) => Ok(ActiveHighOutputPinLed { pin }),
            Err(e) => Err(e),
        }
    }

    /// The pin driving the LED.
    pub fn pin(&self) -> (r: &Pin)
        ensures
            *r == self.pin_spec(),
    {
        &self.pin
    }
}

impl<Pin: OutputPin> Led for ActiveHighOutputPinLed<Pin> {
    type Error = Pin::Error;

    open spec fn is_lit(&self) -> bool {
        self.pin_spec().is_set_high()
    }

    open spec fn can_switch(&self) -> bool {
        self.pin_spec().accepts_writes()
    }

    fn turn_on(&mut self) -> (r: Result<(), Self::Error>) {
        self.pin.set_high()
    }

    fn turn_off(&mut self) -> (r: Result<(), Self::Error>) {
        self.pin.set_low()
    }
}

/// A tri-color LED whose color changes and blinking may fail.
///
/// `state` is (color, on); `pins_consistent` says that the lit channels show that state.
pub trait TriColorLed {
    type Error;

    spec fn state(&self) -> (Color, bool);

    spec fn pins_consistent(&self) -> bool;

    /// Changes the color, keeping the LED on or off as it was.
    fn set_color(&mut self, color: Color) -> (r: Result<(), Self::Error>)
        ensures
            r is Ok ==> final(self).state() == recolored(old(self).state(), color),
            old(self).pins_consistent() && r is Ok ==> final(self).pins_consistent(),
    ;

    /// Switches the LED from on to off or vice versa.
    fn toggle(&mut self) -> (r: Result<(), Self::Error>)
        ensures
            final(self).state() == toggled(old(self).state()),
            old(self).pins_consistent() && r is Ok ==> final(self).pins_consistent(),
    ;
}

/// A tri-color LED made of three single LEDs, one per color.
pub struct TrippleLedTriColorLed<R, G, B, Error> {
    red_led: R,
    green_led: G,
    blue_led: B,
    color: Color,
    on: bool,
    error: core::marker::PhantomData<Error>,
}

impl<R, G, B, Error> TrippleLedTriColorLed<R, G, B, Error> {
    /// The LED of the red channel.
    pub closed spec fn red(&self) -> R {
        self.red_led
    }

    /// The LED of the green channel.
    pub closed spec fn green(&self) -> G {
        self.green_led
    }

    /// The LED of the blue channel.
    pub closed spec fn blue(&self) -> B {
        self.blue_led
    }

    /// The color and whether the LED is on.
    pub closed spec fn color_and_power(&self) -> (Color, bool) {
        (self.color, self.on)
    }

    /// A tri-color LED over the three given LEDs; it starts red and switched off.
    pub fn new(red_led: R, green_led: G, blue_led: B) -> (r: Self)
        ensures
            r.color_and_power() == (Color::Red, false),
            r.red() == red_led,
            r.green() == green_led,
            r.blue() == blue_led,
    {
        TrippleLedTriColorLed {
            red_led,
            green_led,
            blue_led,
            color: Color::Red,
            on: false,
            error: core::marker::PhantomData,
        }
    }

    /// The LED of the red channel.
    pub fn red_led(&self) -> (r: &R)
        ensures
            *r == self.red(),
    {
        &self.red_led
    }

    /// The LED of the green channel.
    pub fn green_led(&self) -> (r: &G)
        ensures
            *r == self.green(),
    {
        &self.green_led
    }

    /// The LED of the blue channel.
    pub fn blue_led(&self) -> (r: &B)
        ensures
            *r == self.blue(),
    {
        &self.blue_led
    }

    /// The color the LED shows.
    pub fn color(&self) -> (r: Color)
        ensures
            r == self.color_and_power().0,
    {
        self.color
    }

    /// Whether the LED is on.
    pub fn is_on(&self) -> (r: bool)
        ensures
            r == self.color_and_power().1,
    {
        self.on
    }
}

impl<R: Led, G: Led, B: Led, Error> TrippleLedTriColorLed<R, G, B, Error> {
    /// Each channel is lit exactly when the LED is on and shows that channel's color.
    pub open spec fn channels_show(&self, color: Color, on: bool) -> bool {
        &&& self.red().is_lit() == (on && color == Color::Red)
        &&& self.green().is_lit() == (on && color == Color::Green)
        &&& self.blue().is_lit() == (on && color == Color::Blue)
    }

    /// Whether the LED of channel `c` is lit.
    pub open spec fn channel_lit(&self, c: Color) -> bool {
        match c {
            Color::Red => self.red().is_lit(),
            Color::Green => self.green().is_lit(),
            Color::Blue => self.blue().is_lit(),
        }
    }

    /// Whether the LED of channel `c` can be switched, as it is now.
    pub open spec fn channel_can_switch(&self, c: Color) -> bool {
        match c {
            Color::Red => self.red().can_switch(),
            Color::Green => self.green().can_switch(),
            Color::Blue => self.blue().can_switch(),
        }
    }

    /// Whether the LED of channel `c` is the same as in `before`.
    pub open spec fn channel_unchanged(&self, before: Self, c: Color) -> bool {
        match c {
            Color::Red => self.red() == before.red(),
            Color::Green => self.green() == before.green(),
            Color::Blue => self.blue() == before.blue(),
        }
    }
}

impl<R: Led, G: Led, B: Led, Error> TriColorLed for TrippleLedTriColorLed<R, G, B, Error> where
    Error: From<R::Error> + From<G::Error> + From<B::Error>,
 {
    type Error = Error;

    open spec fn state(&self) -> (Color, bool) {
        self.color_and_power()
    }

    open spec fn pins_consistent(&self) -> bool {
        self.channels_show(self.color_and_power().0, self.color_and_power().1)
    }

    /// The LED is switched off first and on again after the color changed. A failing switch
    /// ends the change early: the LED is then left off in the old color, or on in the new one.
    ///
    /// An LED that is off only takes the new color: no channel is switched. A lit LED first
    /// switches the old color's channel off and, only when that worked, the new color's
    /// channel on; the third channel is never touched.
    fn set_color(&mut self, color: Color) -> (r: Result<(), Self::Error>)
        ensures
            !old(self).state().1 ==> {
                &&& r is Ok
                &&& final(self).state() == (color, false)
                &&& final(self).red() == old(self).red()
                &&& final(self).green() == old(self).green()
                &&& final(self).blue() == old(self).blue()
            },
            old(self).state().1 && !old(self).channel_can_switch(old(self).state().0) ==> {
                &&& r is Err
                &&& final(self).state() == (old(self).state().0, false)
                &&& forall|c: Color|
                    c != old(self).state().0 ==> #[trigger] final(self).channel_unchanged(
                        *old(self),
                        c,
                    )
            },
            old(self).state().1 && old(self).channel_can_switch(old(self).state().0) ==> {
                &&& final(self).state() == (color, true)
                &&& r is Ok ==> final(self).channel_lit(color)
                &&& forall|c: Color|
                    c != old(self).state().0 && c != color
                        ==> #[trigger] final(self).channel_unchanged(*old(self), c)
            },
            old(self).state().1 && old(self).channel_can_switch(old(self).state().0)
                && old(self).state().0 != color ==> {
                &&& r is Ok <==> old(self).channel_can_switch(color)
                &&& !final(self).channel_lit(old(self).state().0)
            },
            r is Ok ==> final(self).state() == recolored(old(self).state(), color),
            r is Err ==> old(self).state().1 && (final(self).state() == (old(self).state().0, false)
                || final(self).state() == (color, true)),
    {
        let ghost before = *self;
        let on = self.on;
        if self.on {
            self.toggle()?;
        }
        let ghost mid = *self;
        self.color = color;
        proof {
            assert forall|c: Color| #[trigger] self.channel_unchanged(mid, c) by {}
            assert forall|c: Color| c != before.state().0 implies #[trigger] self.channel_unchanged(
                before,
                c,
            ) by {
                assert(mid.channel_unchanged(before, c));
            }
        }
        let ghost mid2 = *self;
        let result = if on {
            self.toggle()
        } else {
            Ok(())
        };
        proof {
            if on {
                assert forall|c: Color|
                    c != before.state().0 && c != color implies #[trigger] self.channel_unchanged(
                    before,
                    c,
                ) by {
                    assert(self.channel_unchanged(mid2, c));
                    assert(mid2.channel_unchanged(before, c));
                }
                if before.state().0 != color {
                    assert(self.channel_unchanged(mid2, before.state().0));
                    assert(mid2.channel_unchanged(mid, before.state().0));
                    assert(mid2.channel_unchanged(before, color));
                    assert(mid2.channel_can_switch(color) == before.channel_can_switch(color));
                    assert(!mid.channel_lit(before.state().0));
                }
            }
        }
        result
    }

    /// Only the LED of the current color is switched; the flag flips even when switching fails.
    /// Switching succeeds exactly when that LED can be switched, and then it is lit exactly when
    /// the flag says so.
    fn toggle(&mut self) -> (r: Result<(), Self::Error>)
        ensures
            forall|c: Color|
                c != old(self).state().0 ==> #[trigger] final(self).channel_unchanged(
                    *old(self),
                    c,
                ),
            r is Ok <==> old(self).channel_can_switch(old(self).state().0),
            r is Ok ==> final(self).channel_lit(old(self).state().0) == final(self).state().1,
    {
        let state = if self.on {
            LedState::Off
        } else {
            LedState::On
        };
        self.on = !self.on;
        match self.color {
            Color::Red => self.red_led.set_state(state)?,
            Color::Green => self.green_led.set_state(state)?,
            Color::Blue => self.blue_led.set_state(state)?,
        }
        Ok(())
    }
}

/// The LED controller over a tri-color LED whose switching may fail.
pub struct Runner<L> {
    led: L,
}

impl<L: TriColorLed> Runner<L> {
    /// The LED being driven.
    pub closed spec fn led_spec(&self) -> L {
        self.led
    }

    /// A controller driving `led`.
    pub fn new(led: L) -> (r: Self)
        ensures
            r.led_spec() == led,
    {
        Runner { led }
    }

    /// The LED being driven.
    pub fn led(&self) -> (r: &L)
        ensures
            *r == self.led_spec(),
    {
        &self.led
    }

    /// Reacts to one event: a new color is set on the LED, a tick makes it blink. The error of
    /// a failed switch is passed on.
    pub fn handle_event(&mut self, event: ControllerEvent) -> (r: Result<(), L::Error>)
        ensures
            r is Ok ==> final(self).led_spec().state() == after_event(
                old(self).led_spec().state(),
                event,
            ),
            event is Tick ==> final(self).led_spec().state() == toggled(
                old(self).led_spec().state(),
            ),
            old(self).led_spec().pins_consistent() && r is Ok
                ==> final(self).led_spec().pins_consistent(),
    {
        match event {
            ControllerEvent::ColorChanged(color) => self.led.set_color(color),
            ControllerEvent::Tick => self.led.toggle(),
        }
    }
}

/// While the channels show the state, at most one LED is lit, and none while the tri-color LED
/// is off: two colors never mix.
pub proof fn lemma_consistent_lights_one<R: Led, G: Led, B: Led, Error>(
    led: TrippleLedTriColorLed<R, G, B, Error>,
)
    requires
        led.channels_show(led.color_and_power().0, led.color_and_power().1),
    ensures
        !(led.red().is_lit() && led.green().is_lit()),
        !(led.red().is_lit() && led.blue().is_lit()),
        !(led.green().is_lit() && led.blue().is_lit()),
        !led.color_and_power().1 ==> !led.red().is_lit() && !led.green().is_lit()
            && !led.blue().is_lit(),
{
}

/// A tri-color LED built from three dark LEDs (as `ActiveHighOutputPinLed::new` leaves them)
/// starts with its channels showing its state.
pub proof fn lemma_new_from_dark_is_consistent<R: Led, G: Led, B: Led, Error>(
    red_led: R,
    green_led: G,
    blue_led: B,
    led: TrippleLedTriColorLed<R, G, B, Error>,
)
    requires
        !red_led.is_lit(),
        !green_led.is_lit(),
        !blue_led.is_lit(),
        led.red() == red_led,
        led.green() == green_led,
        led.blue() == blue_led,
        led.color_and_power() == (Color::Red, false),
    ensures
        led.channels_show(led.color_and_power().0, led.color_and_power().1),
{
}

} // verus!
