//! The traffic light shared by the statically checked machines: its phases,
//! its signals and the table of declared transitions.
use vstd::prelude::*;

verus! {

/// The phase a traffic light is in.
pub enum Light {
    Green,
    Yellow,
    Red,
}

/// A stimulus that asks the light to change phase.
pub enum Signal {
    GreenToYellow,
    YellowToGreen,
    YellowToRed,
    RedToGreen,
}

/// The declared transition table: `Some(to)` where the pair `(from, on)` is
/// declared, `None` where it is not.
pub open spec fn successor(from: Light, on: Signal) -> Option<Light> {
    match (from, on) {
        (Light::Green, Signal::GreenToYellow) => Some(Light::Yellow),
        (Light::Yellow, Signal::YellowToGreen) => Some(Light::Green),
        (Light::Yellow, Signal::YellowToRed) => Some(Light::Red),
        (Light::Red, Signal::RedToGreen) => Some(Light::Green),
        _ => None,
    }
}

/// A state type, with the phase that every value of it stands for.
pub trait Phase {
    spec fn phase() -> Light;
}

/// An event type, with the signal that every value of it carries.
pub trait Trigger {
    spec fn signal() -> Signal;
}

} // verus!
