//! The gesture toggled lamp: each detected gesture moves the lamp to its next state.

use vstd::prelude::*;

use crate::pins::Level;

verus! {

/// The states of the lamp, in the order a gesture walks through them.
#[derive(Debug, Clone, Copy, PartialEq, Eq, Structural)]
pub enum LedState {
    Off,
    Red,
    Green,
    Blue,
    White,
}

/// The lamp of the interrupt driven variant, which has the same states and transitions.
pub type LampState = LedState;

/// The state that follows `s`: off, red, green, blue, white, and off again.
pub open spec fn next_state(s: LedState) -> LedState {
    match s {
        LedState::Off => LedState::Red,
        LedState::Red => LedState::Green,
        LedState::Green => LedState::Blue,
        LedState::Blue => LedState::White,
        LedState::White => LedState::Off,
    }
}

/// The state after `n` gestures, starting in `s`.
pub open spec fn proceed_n(s: LedState, n: nat) -> LedState
    decreases n,
{
    if n == 0 {
        s
    } else {
        proceed_n(next_state(s), (n - 1) as nat)
    }
}

/// The pin levels (red, green, blue) of a state: one channel for a color, all for white.
pub open spec fn state_levels(s: LedState) -> (Level, Level, Level) {
    match s {
        LedState::Off => (Level::Low, Level::Low, Level::Low),
        LedState::Red => (Level::High, Level::Low, Level::Low),
        LedState::Green => (Level::Low, Level::High, Level::Low),
        LedState::Blue => (Level::Low, Level::Low, Level::High),
        LedState::White => (Level::High, Level::High, Level::High),
    }
}

impl LedState {
    /// The next state of the lamp.
    pub fn proceed(self) -> (r: Self)
        ensures
            r == next_state(self),
    {
        match self {
            LedState::Off => LedState::Red,
            LedState::Red => LedState::Green,
            LedState::Green => LedState::Blue,
            LedState::Blue => LedState::White,
            LedState::White => LedState::Off,
        }
    }

    /// The levels of the red, green and blue pins in this state.
    pub fn get_rgb_levels(&self) -> (r: (Level, Level, Level))
        ensures
            r == state_levels(*self),
    {
        match self {
            LedState::Off => (Level::Low, Level::Low, Level::Low),
            LedState::Red => (Level::High, Level::Low, Level::Low),
            LedState::Green => (Level::Low, Level::High, Level::Low),
            LedState::Blue => (Level::Low, Level::Low, Level::High),
            LedState::White => (Level::High, Level::High, Level::High),
        }
    }
}

/// Five gestures bring the lamp back to the state it was in.
pub proof fn lemma_five_gestures_cycle(s: LedState)
    ensures
        proceed_n(s, 5) == s,
{
    reveal_with_fuel(proceed_n, 6);
}

/// Fewer than five gestures never bring the lamp back: the cycle visits all five states.
pub proof fn lemma_cycle_visits_all(s: LedState, n: nat)
    requires
        0 < n < 5,
    ensures
        proceed_n(s, n) != s,
{
    reveal_with_fuel(proceed_n, 5);
}

/// Distinct states drive the pins differently.
pub proof fn lemma_levels_distinguish_states(s1: LedState, s2: LedState)
    ensures
        state_levels(s1) == state_levels(s2) ==> s1 == s2,
{
}

/// What the gesture lamp is waiting for.
#[derive(Debug, Clone, Copy, PartialEq, Eq, Structural)]
pub enum LampPhase {
    /// Waiting for a gesture, which moves the lamp to its next state.
    AwaitingGesture,
    /// A gesture just moved the lamp on: further gestures of the same swipe are ignored until
    /// a second passes without one.
    SettlingSwipe,
}

/// What the gesture lamp reacts to.
#[derive(Debug, Clone, Copy, PartialEq, Eq, Structural)]
pub enum LampEvent {
    /// The sensor reported a gesture.
    GestureDetected,
    /// A second passed without a gesture.
    QuietSecond,
}

/// The lamp (state, phase) after one event: a gesture while waiting moves the lamp on and
/// starts settling; a gesture while settling changes nothing; a quiet second ends settling.
pub open spec fn lamp_step(v: (LedState, LampPhase), e: LampEvent) -> (LedState, LampPhase) {
    match e {
        LampEvent::GestureDetected => match v.1 {
            LampPhase::AwaitingGesture => (next_state(v.0), LampPhase::SettlingSwipe),
            LampPhase::SettlingSwipe => v,
        },
        LampEvent::QuietSecond => (v.0, LampPhase::AwaitingGesture),
    }
}

/// The lamp (state, phase) after a sequence of events, handled in order.
pub open spec fn lamp_run(v: (LedState, LampPhase), events: Seq<LampEvent>) -> (
    LedState,
    LampPhase,
)
    decreases events.len(),
{
    if events.len() == 0 {
        v
    } else {
        lamp_step(lamp_run(v, events.drop_last()), events.last())
    }
}

/// Whether an event moves a lamp in phase `phase` to its next state.
pub open spec fn moves_lamp(phase: LampPhase, e: LampEvent) -> bool {
    phase == LampPhase::AwaitingGesture && e == LampEvent::GestureDetected
}

/// The gesture toggled lamp with its debouncing: the first gesture of a swipe moves the lamp
/// on, the rest of the swipe is ignored.
pub struct GestureLamp {
    state: LedState,
    phase: LampPhase,
}

impl View for GestureLamp {
    type V = (LedState, LampPhase);

    closed spec fn view(&self) -> (LedState, LampPhase) {
        (self.state, self.phase)
    }
}

impl GestureLamp {
    /// A lamp that is off and waits for a gesture.
    pub fn new() -> (r: Self)
        ensures
            r@ == (LedState::Off, LampPhase::AwaitingGesture),
    {
        GestureLamp { state: LedState::Off, phase: LampPhase::AwaitingGesture }
    }

    /// The state the lamp shows.
    pub fn state(&self) -> (r: LedState)
        ensures
            r == self@.0,
    {
        self.state
    }

    /// What the lamp waits for.
    pub fn phase(&self) -> (r: LampPhase)
        ensures
            r == self@.1,
    {
        self.phase
    }

    /// Reacts to one event. Returns the new pin levels (red, green, blue) when the lamp moved
    /// to its next state, and `None` when the pins stay as they are.
    pub fn handle_event(&mut self, event: LampEvent) -> (r: Option<(Level, Level, Level)>)
        ensures
            final(self)@ == lamp_step(old(self)@, event),
            r == (if moves_lamp(old(self)@.1, event) {
                Some(state_levels(final(self)@.0))
            } else {
                None
            }),
    {
        match event {
            LampEvent::GestureDetected => match self.phase {
                LampPhase::AwaitingGesture => {
                    self.state = self.state.proceed();
                    self.phase = LampPhase::SettlingSwipe;
                    Some(self.state.get_rgb_levels())
                },
                LampPhase::SettlingSwipe => None,
            },
            LampEvent::QuietSecond => {
                self.phase = LampPhase::AwaitingGesture;
                None
            },
        }
    }
}

/// `n` gestures reported in a row.
pub open spec fn gestures(n: nat) -> Seq<LampEvent> {
    Seq::new(n, |i: int| LampEvent::GestureDetected)
}

/// A swipe that the sensor reports as any number of gestures in a row moves a waiting lamp on
/// exactly once.
pub proof fn lemma_swipe_moves_once(s: LedState, n: nat)
    ensures
        lamp_run((s, LampPhase::AwaitingGesture), gestures(n + 1)) == (
            next_state(s),
            LampPhase::SettlingSwipe,
        ),
    decreases n,
{
    let events = gestures(n + 1);
    assert(events.last() == LampEvent::GestureDetected);
    let start = (s, LampPhase::AwaitingGesture);
    if n == 0 {
        assert(events.drop_last() =~= Seq::<LampEvent>::empty());
        assert(lamp_run(start, events.drop_last()) == start);
    } else {
        assert(events.drop_last() =~= gestures(((n - 1) as nat) + 1));
        lemma_swipe_moves_once(s, (n - 1) as nat);
    }
    assert(lamp_run(start, events) == lamp_step(lamp_run(start, events.drop_last()), events.last()));
}

/// After a quiet second the lamp waits for the next gesture, whatever it did before, and keeps
/// its state.
pub proof fn lemma_quiet_second_rearms(v: (LedState, LampPhase))
    ensures
        lamp_step(v, LampEvent::QuietSecond) == (v.0, LampPhase::AwaitingGesture),
        lamp_step(lamp_step(v, LampEvent::QuietSecond), LampEvent::GestureDetected) == (
            next_state(v.0),
            LampPhase::SettlingSwipe,
        ),
{
}

} // verus!
