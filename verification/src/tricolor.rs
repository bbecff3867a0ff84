//! A tri-color LED driven by three output pins, and the controller that blinks it and
//! changes its color on request.

use vstd::prelude::*;

use crate::color::Color;
use crate::pins::{level_for, Level};

verus! {

/// The pin levels (red, green, blue) of a tri-color LED showing `color`, lit or not: only the
/// pin of the current color is high, and only while the LED is on.
pub open spec fn lit_levels(color: Color, on: bool) -> (Level, Level, Level) {
    (
        level_for(on && color == Color::Red),
        level_for(on && color == Color::Green),
        level_for(on && color == Color::Blue),
    )
}

/// The state (color, on) after switching the LED on or off.
pub open spec fn toggled(v: (Color, bool)) -> (Color, bool) {
    (v.0, !v.1)
}

/// The state (color, on) after changing the color: the LED stays on or off as it was.
pub open spec fn recolored(v: (Color, bool), color: Color) -> (Color, bool) {
    (color, v.1)
}

/// One write to one of the LED's three pins.
#[derive(Debug, Clone, Copy, PartialEq, Eq, Structural)]
pub struct PinWrite {
    pub channel: Color,
    pub level: Level,
}

/// The pin levels (red, green, blue) after one write.
pub open spec fn apply_write(levels: (Level, Level, Level), w: PinWrite) -> (Level, Level, Level) {
    match w.channel {
        Color::Red => (w.level, levels.1, levels.2),
        Color::Green => (levels.0, w.level, levels.2),
        Color::Blue => (levels.0, levels.1, w.level),
    }
}

/// The pin levels after a sequence of writes, applied in order.
pub open spec fn apply_writes(levels: (Level, Level, Level), ws: Seq<PinWrite>) -> (
    Level,
    Level,
    Level,
)
    decreases ws.len(),
{
    if ws.len() == 0 {
        levels
    } else {
        apply_write(apply_writes(levels, ws.drop_last()), ws.last())
    }
}

/// No two pins are high: the LED never shows a mix of two colors.
pub open spec fn at_most_one_high(l: (Level, Level, Level)) -> bool {
    &&& !(l.0 == Level::High && l.1 == Level::High)
    &&& !(l.0 == Level::High && l.2 == Level::High)
    &&& !(l.1 == Level::High && l.2 == Level::High)
}

/// Applying the writes one after the other from `start`, no intermediate state (nor the
/// start or the end) has two pins high.
pub open spec fn never_mixes(start: (Level, Level, Level), ws: Seq<PinWrite>) -> bool {
    forall|k: int| 0 <= k <= ws.len() ==> at_most_one_high(#[trigger] apply_writes(start, ws.take(k)))
}

/// The write that switches the LED in state `v` on or off: the current color's pin.
pub open spec fn toggle_write(v: (Color, bool)) -> PinWrite {
    PinWrite { channel: v.0, level: level_for(!v.1) }
}

/// The writes that change the color of an LED in state `v`: none while it is off; while it is
/// on, first the old color's pin low, then the new color's pin high.
pub open spec fn recolor_writes(v: (Color, bool), color: Color) -> Seq<PinWrite> {
    if v.1 {
        seq![PinWrite { channel: v.0, level: Level::Low }, PinWrite { channel: color, level: Level::High }]
    } else {
        seq![]
    }
}

/// A tri-color LED: three pins of which at most the one of the current color is high.
pub struct TriColorLed {
    red_led: Level,
    green_led: Level,
    blue_led: Level,
    color: Color,
    on: bool,
}

impl View for TriColorLed {
    type V = (Color, bool);

    /// The color the LED shows and whether it is currently lit.
    closed spec fn view(&self) -> (Color, bool) {
        (self.color, self.on)
    }
}

impl TriColorLed {
    /// The pins always show the state.
    #[verifier::type_invariant]
    spec fn pins_match_state(self) -> bool {
        (self.red_led, self.green_led, self.blue_led) == lit_levels(self.color, self.on)
    }

    /// A new LED: red, switched off, all pins low.
    pub fn new() -> (r: Self)
        ensures
            r@ == (Color::Red, false),
    {
        TriColorLed {
            red_led: Level::Low,
            green_led: Level::Low,
            blue_led: Level::Low,
            color: Color::Red,
            on: false,
        }
    }

    /// The levels (red, green, blue) that the three pins are driven at.
    pub fn levels(&self) -> (r: (Level, Level, Level))
        ensures
            r == lit_levels(self@.0, self@.1),
    {
        proof {
            use_type_invariant(self);
        }
        (self.red_led, self.green_led, self.blue_led)
    }

    /// The color the LED shows.
    pub fn color(&self) -> (r: Color)
        ensures
            r == self@.0,
    {
        self.color
    }

    /// Whether the LED is lit.
    pub fn is_on(&self) -> (r: bool)
        ensures
            r == self@.1,
    {
        self.on
    }

    /// Switches the LED from on to off or vice versa; only the pin of the current color moves.
    /// Returns that pin write.
    pub fn toggle(&mut self) -> (w: PinWrite)
        ensures
            final(self)@ == toggled(old(self)@),
            w == toggle_write(old(self)@),
            apply_write(lit_levels(old(self)@.0, old(self)@.1), w) == lit_levels(
                final(self)@.0,
                final(self)@.1,
            ),
    {
        proof {
            use_type_invariant(&*self);
        }
        let new_level = if self.on {
            Level::Low
        } else {
            Level::High
        };
        let on = !self.on;
        let color = self.color;
        let (red_led, green_led, blue_led) = (self.red_led, self.green_led, self.blue_led);
        match color {
            Color::Red => {
                *self = TriColorLed { red_led: new_level, green_led, blue_led, color, on };
            },
            Color::Green => {
                *self = TriColorLed { red_led, green_led: new_level, blue_led, color, on };
            },
            Color::Blue => {
                *self = TriColorLed { red_led, green_led, blue_led: new_level, color, on };
            },
        }
        PinWrite { channel: color, level: new_level }
    }

    /// Changes the color of the LED. A lit LED is switched off before the color changes and
    /// on again after, so that two channels are never lit at once. Returns the pin writes, in
    /// the order they must reach the pins.
    pub fn set_color(&mut self, color: Color) -> (ws: Vec<PinWrite>)
        ensures
            final(self)@ == recolored(old(self)@, color),
            ws@ == recolor_writes(old(self)@, color),
            apply_writes(lit_levels(old(self)@.0, old(self)@.1), ws@) == lit_levels(
                final(self)@.0,
                final(self)@.1,
            ),
            never_mixes(lit_levels(old(self)@.0, old(self)@.1), ws@),
    {
        proof {
            lemma_recolor_writes(self@, color);
        }
        let mut ws: Vec<PinWrite> = Vec::new();
        let was_on = self.on;
        if self.on {
            let w = self.toggle();
            ws.push(w);
        }
        proof {
            use_type_invariant(&*self);
        }
        self.color = color;
        if was_on {
            let w = self.toggle();
            ws.push(w);
        }
        assert(ws@ =~= recolor_writes(old(self)@, color));
        ws
    }
}

/// Changing the color with `recolor_writes` ends in the levels of the new state and never
/// lights two channels at once, not even between the two writes.
pub proof fn lemma_recolor_writes(v: (Color, bool), color: Color)
    ensures
        apply_writes(lit_levels(v.0, v.1), recolor_writes(v, color)) == lit_levels(
            recolored(v, color).0,
            recolored(v, color).1,
        ),
        never_mixes(lit_levels(v.0, v.1), recolor_writes(v, color)),
{
    let start = lit_levels(v.0, v.1);
    let ws = recolor_writes(v, color);
    reveal_with_fuel(apply_writes, 3);
    assert(ws.take(0) =~= Seq::<PinWrite>::empty());
    if v.1 {
        assert(ws.take(1).drop_last() =~= ws.take(0));
        assert(ws.take(2) =~= ws);
        assert(ws.drop_last() =~= ws.take(1));
        assert(ws.take(1).last() == ws[0]);
    } else {
        assert(ws =~= Seq::<PinWrite>::empty());
    }
    assert forall|k: int| 0 <= k <= ws.len() implies at_most_one_high(
        #[trigger] apply_writes(start, ws.take(k)),
    ) by {
        if k == 0 {
        } else if k == 1 {
        } else {
            assert(ws.take(k) =~= ws);
        }
    }
}

/// Switching the LED on or off with `toggle_write` ends in the levels of the new state and
/// never lights two channels.
pub proof fn lemma_toggle_write(v: (Color, bool))
    ensures
        apply_writes(lit_levels(v.0, v.1), seq![toggle_write(v)]) == lit_levels(
            toggled(v).0,
            toggled(v).1,
        ),
        never_mixes(lit_levels(v.0, v.1), seq![toggle_write(v)]),
{
    let start = lit_levels(v.0, v.1);
    let ws = seq![toggle_write(v)];
    reveal_with_fuel(apply_writes, 2);
    assert(ws.take(0) =~= Seq::<PinWrite>::empty());
    assert(ws.drop_last() =~= Seq::<PinWrite>::empty());
    assert forall|k: int| 0 <= k <= ws.len() implies at_most_one_high(
        #[trigger] apply_writes(start, ws.take(k)),
    ) by {
        if k == 0 {
        } else {
            assert(ws.take(k) =~= ws);
        }
    }
}

/// What the LED controller reacts to: a requested color, or the blink timer.
#[derive(Debug, Clone, Copy, PartialEq, Eq, Structural)]
pub enum ControllerEvent {
    ColorChanged(Color),
    Tick,
}

/// The state (color, on) of the LED after the controller handled an event.
pub open spec fn after_event(v: (Color, bool), e: ControllerEvent) -> (Color, bool) {
    match e {
        ControllerEvent::ColorChanged(c) => recolored(v, c),
        ControllerEvent::Tick => toggled(v),
    }
}

/// The pin writes with which the controller handles an event, in order.
pub open spec fn event_writes(v: (Color, bool), e: ControllerEvent) -> Seq<PinWrite> {
    match e {
        ControllerEvent::ColorChanged(c) => recolor_writes(v, c),
        ControllerEvent::Tick => seq![toggle_write(v)],
    }
}

/// The LED controller: blinks the LED on every tick and changes its color on request.
pub struct LedControllerRunner {
    led: TriColorLed,
}

impl View for LedControllerRunner {
    type V = (Color, bool);

    closed spec fn view(&self) -> (Color, bool) {
        self.led@
    }
}

impl LedControllerRunner {
    /// A controller driving a fresh LED (red, off).
    pub fn new() -> (r: Self)
        ensures
            r@ == (Color::Red, false),
    {
        LedControllerRunner { led: TriColorLed::new() }
    }

    /// The LED being driven.
    pub fn led(&self) -> (r: &TriColorLed)
        ensures
            r@ == self@,
    {
        &self.led
    }

    /// Reacts to one event: a new color is set on the LED, a tick makes it blink. Returns the
    /// pin writes, in the order they must reach the pins.
    pub fn handle_event(&mut self, event: ControllerEvent) -> (ws: Vec<PinWrite>)
        ensures
            final(self)@ == after_event(old(self)@, event),
            ws@ == event_writes(old(self)@, event),
            apply_writes(lit_levels(old(self)@.0, old(self)@.1), ws@) == lit_levels(
                final(self)@.0,
                final(self)@.1,
            ),
            never_mixes(lit_levels(old(self)@.0, old(self)@.1), ws@),
    {
        match event {
            ControllerEvent::ColorChanged(color) => self.led.set_color(color),
            ControllerEvent::Tick => {
                proof {
                    lemma_toggle_write(self@);
                }
                let w = self.led.toggle();
                let mut ws: Vec<PinWrite> = Vec::new();
                ws.push(w);
                assert(ws@ =~= seq![toggle_write(old(self)@)]);
                ws
            },
        }
    }
}

/// Switching the LED twice gives back the state it started from.
pub proof fn lemma_toggle_twice(v: (Color, bool))
    ensures
        toggled(toggled(v)) == v,
{
}

/// A color change neither switches the LED on nor off, and only the last of two color
/// changes counts.
pub proof fn lemma_recolor(v: (Color, bool), c1: Color, c2: Color)
    ensures
        recolored(v, c1).1 == v.1,
        recolored(v, c1).0 == c1,
        recolored(recolored(v, c1), c2) == recolored(v, c2),
        recolored(v, v.0) == v,
{
}

/// Blinking and recoloring commute: ticking then changing color gives the same state as
/// changing color then ticking.
pub proof fn lemma_tick_recolor_commute(v: (Color, bool), c: Color)
    ensures
        after_event(after_event(v, ControllerEvent::Tick), ControllerEvent::ColorChanged(c))
            == after_event(after_event(v, ControllerEvent::ColorChanged(c)), ControllerEvent::Tick),
{
}

/// At most one pin is high: none while the LED is off, and only the one of the current color
/// while it is on.
pub proof fn lemma_one_channel_lit(color: Color, on: bool)
    ensures
        ({
            let (r, g, b) = lit_levels(color, on);
            &&& (r == Level::High) == (on && color == Color::Red)
            &&& (g == Level::High) == (on && color == Color::Green)
            &&& (b == Level::High) == (on && color == Color::Blue)
            &&& !on ==> r == Level::Low && g == Level::Low && b == Level::Low
        }),
{
}

} // verus!
