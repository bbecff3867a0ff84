//! Lights that react to the APDS-9960's readings: a proximity "traffic light" and a night light.

use vstd::prelude::*;

use crate::pins::Level;

verus! {

/// What the proximity traffic light shows.
#[derive(Debug, Clone, Copy, PartialEq, Eq, Structural)]
pub enum TrafficLight {
    /// Nothing in range.
    Off,
    /// Something noticed, but far away.
    Green,
    /// Getting close.
    Yellow,
    /// Too close for comfort.
    Red,
}

/// Proximity at which something is noticed.
pub const PROXIMITY_NOTICED: u8 = 2;

/// Proximity at which the light turns yellow.
pub const PROXIMITY_CLOSE: u8 = 10;

/// Proximity at which the light turns red.
pub const PROXIMITY_TOO_CLOSE: u8 = 200;

/// The light for a proximity reading: off below 2, green below 10, yellow below 200, red above.
pub open spec fn light_for(proximity: u8) -> TrafficLight {
    if proximity < PROXIMITY_NOTICED {
        TrafficLight::Off
    } else if proximity < PROXIMITY_CLOSE {
        TrafficLight::Green
    } else if proximity < PROXIMITY_TOO_CLOSE {
        TrafficLight::Yellow
    } else {
        TrafficLight::Red
    }
}

/// How alarming a light is, from off (0) to red (3).
pub open spec fn severity(t: TrafficLight) -> int {
    match t {
        TrafficLight::Off => 0,
        TrafficLight::Green => 1,
        TrafficLight::Yellow => 2,
        TrafficLight::Red => 3,
    }
}

/// The (red, green) pin levels of a light; yellow lights both.
pub open spec fn light_levels(t: TrafficLight) -> (Level, Level) {
    match t {
        TrafficLight::Off => (Level::Low, Level::Low),
        TrafficLight::Green => (Level::Low, Level::High),
        TrafficLight::Yellow => (Level::High, Level::High),
        TrafficLight::Red => (Level::High, Level::Low),
    }
}

/// The light to show for a proximity reading.
pub fn traffic_light(proximity: u8) -> (r: TrafficLight)
    ensures
        r == light_for(proximity),
{
    if proximity < PROXIMITY_NOTICED {
        TrafficLight::Off
    } else if proximity < PROXIMITY_CLOSE {
        TrafficLight::Green
    } else if proximity < PROXIMITY_TOO_CLOSE {
        TrafficLight::Yellow
    } else {
        TrafficLight::Red
    }
}

impl TrafficLight {
    /// The levels of the red and green pins for this light.
    pub fn levels(&self) -> (r: (Level, Level))
        ensures
            r == light_levels(*self),
    {
        match self {
            TrafficLight::Off => (Level::Low, Level::Low),
            TrafficLight::Green => (Level::Low, Level::High),
            TrafficLight::Yellow => (Level::High, Level::High),
            TrafficLight::Red => (Level::High, Level::Low),
        }
    }
}

/// Coming closer never makes the light less alarming.
pub proof fn lemma_closer_is_never_calmer(p1: u8, p2: u8)
    requires
        p1 <= p2,
    ensures
        severity(light_for(p1)) <= severity(light_for(p2)),
{
}

/// Below this brightness the night light switches on.
pub const NIGHT_BRIGHTNESS: u16 = 2;

/// Whether the night light is on at a clear-channel brightness reading.
pub open spec fn night_light_on(brightness: u16) -> bool {
    brightness < NIGHT_BRIGHTNESS
}

/// The (red, green, blue) levels of the night light: all high (white) in the dark, all low
/// otherwise.
pub fn night_light_levels(brightness: u16) -> (r: (Level, Level, Level))
    ensures
        night_light_on(brightness) ==> r == (Level::High, Level::High, Level::High),
        !night_light_on(brightness) ==> r == (Level::Low, Level::Low, Level::Low),
{
    if brightness < NIGHT_BRIGHTNESS {
        (Level::High, Level::High, Level::High)
    } else {
        (Level::Low, Level::Low, Level::Low)
    }
}

/// If the night light is on at some brightness, it is on at any darker one.
pub proof fn lemma_darker_stays_lit(b1: u16, b2: u16)
    requires
        b1 <= b2,
        night_light_on(b2),
    ensures
        night_light_on(b1),
{
}

} // verus!
