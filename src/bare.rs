//! Traffic light whose states are bare values: each state type implements
//! the transitions out of it directly, with no holder around it.
//!
//! Only declared triples have an impl, so an undeclared transition is
//! refused by the compiler:
//!
//! ```compile_fail
//! use fsm::bare::{Event, Green, GreenToYellow, RedToGreen, Yellow};
//! let yellow: Yellow = Green::new().next(GreenToYellow);
//! let _ = yellow.next(RedToGreen);
//! ```
use vstd::prelude::*;
use crate::light::{Light, Phase, Signal, Trigger, successor};

verus! {

/// A transition out of `Self` on an event of type `E`, into `Next`.
pub trait Event<E: Trigger, Next: Phase>: Phase + Sized {
    /// Consumes the current state and returns its successor on `event`.
    fn next(self, event: E) -> (r: Next)
        ensures
            successor(Self::phase(), E::signal()) == Some(Next::phase()),
    ;
}

#[derive(Debug)]
pub struct Green;

#[derive(Debug)]
pub struct Yellow;

#[derive(Debug)]
pub struct Red;

impl Phase for Green {
    open spec fn phase() -> Light {
        Light::Green
    }
}

impl Phase for Yellow {
    open spec fn phase() -> Light {
        Light::Yellow
    }
}

impl Phase for Red {
    open spec fn phase() -> Light {
        Light::Red
    }
}

#[derive(Debug)]
pub struct GreenToYellow;

#[derive(Debug)]
pub struct YellowToGreen;

#[derive(Debug)]
pub struct YellowToRed;

#[derive(Debug)]
pub struct RedToGreen;

impl Trigger for GreenToYellow {
    open spec fn signal() -> Signal {
        Signal::GreenToYellow
    }
}

impl Trigger for YellowToGreen {
    open spec fn signal() -> Signal {
        Signal::YellowToGreen
    }
}

impl Trigger for YellowToRed {
    open spec fn signal() -> Signal {
        Signal::YellowToRed
    }
}

impl Trigger for RedToGreen {
    open spec fn signal() -> Signal {
        Signal::RedToGreen
    }
}

impl Green {
    /// The light in its initial state.
    pub fn new() -> (r: Green)
        ensures
            Self::phase() == Light::Green,
    {
        Green
    }
}

impl Event<GreenToYellow, Yellow> for Green {
    fn next(self, _event: GreenToYellow) -> (r: Yellow) {
        Yellow
    }
}

impl Event<YellowToGreen, Green> for Yellow {
    fn next(self, _event: YellowToGreen) -> (r: Green) {
        Green
    }
}

impl Event<YellowToRed, Red> for Yellow {
    fn next(self, _event: YellowToRed) -> (r: Red) {
        Red
    }
}

impl Event<RedToGreen, Green> for Red {
    fn next(self, _event: RedToGreen) -> (r: Green) {
        Green
    }
}

} // verus!
