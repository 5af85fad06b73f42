//! Traffic light whose transitions are a trait indexed by the current
//! state, the event and the resulting state, so that each declared
//! transition is one impl naming its source, event and target.
//!
//! Only declared triples have an impl, so an undeclared transition is
//! refused by the compiler:
//!
//! ```compile_fail
//! use fsm::triple::{Event, State, GreenToYellow, RedToGreen, Yellow};
//! let yellow: State<Yellow> = State::new().next(GreenToYellow);
//! let _ = yellow.next(RedToGreen);
//! ```
use vstd::prelude::*;
use crate::light::{Light, Phase, Signal, Trigger, successor};

verus! {

/// A transition out of `Self` on an event of type `E`, into `Next`.
pub trait Event<E: Trigger, Next: Phase>: Phase + Sized {
    /// Consumes the current state and returns its successor on `event`.
    fn next(self, event: E) -> (r: Next)
        ensures
            successor(Self::phase(), E::signal()) == Some(Next::phase()),
    ;
}

/// The machine, holding the value of its current state type.
#[derive(Debug)]
pub struct State<S> {
    _inner: S,
}

impl<S: Phase> Phase for State<S> {
    open spec fn phase() -> Light {
        S::phase()
    }
}

#[derive(Debug)]
pub struct Green;

#[derive(Debug)]
pub struct Yellow;

#[derive(Debug)]
pub struct Red;

impl Phase for Green {
    open spec fn phase() -> Light {
        Light::Green
    }
}

impl Phase for Yellow {
    open spec fn phase() -> Light {
        Light::Yellow
    }
}

impl Phase for Red {
    open spec fn phase() -> Light {
        Light::Red
    }
}

#[derive(Debug)]
pub struct GreenToYellow;

#[derive(Debug)]
pub struct YellowToGreen;

#[derive(Debug)]
pub struct YellowToRed;

#[derive(Debug)]
pub struct RedToGreen;

impl Trigger for GreenToYellow {
    open spec fn signal() -> Signal {
        Signal::GreenToYellow
    }
}

impl Trigger for YellowToGreen {
    open spec fn signal() -> Signal {
        Signal::YellowToGreen
    }
}

impl Trigger for YellowToRed {
    open spec fn signal() -> Signal {
        Signal::YellowToRed
    }
}

impl Trigger for RedToGreen {
    open spec fn signal() -> Signal {
        Signal::RedToGreen
    }
}

impl State<Green> {
    /// The machine in its initial state.
    pub fn new() -> (r: State<Green>)
        ensures
            Self::phase() == Light::Green,
    {
        State { _inner: Green }
    }
}

impl Event<GreenToYellow, State<Yellow>> for State<Green> {
    fn next(self, _event: GreenToYellow) -> (r: State<Yellow>) {
        State { _inner: Yellow }
    }
}

impl Event<YellowToGreen, State<Green>> for State<Yellow> {
    fn next(self, _event: YellowToGreen) -> (r: State<Green>) {
        State { _inner: Green }
    }
}

impl Event<YellowToRed, State<Red>> for State<Yellow> {
    fn next(self, _event: YellowToRed) -> (r: State<Red>) {
        State { _inner: Red }
    }
}

impl Event<RedToGreen, State<Green>> for State<Red> {
    fn next(self, _event: RedToGreen) -> (r: State<Green>) {
        State { _inner: Green }
    }
}

} // verus!
