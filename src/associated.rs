//! Traffic light whose transitions are a trait indexed by the current state
//! and the event, with the resulting state as an associated type.
//!
//! Only declared pairs have an impl, so an undeclared transition is refused
//! by the compiler:
//!
//! ```compile_fail
//! use fsm::associated::{Event, State, GreenToYellow, RedToGreen};
//! let yellow = State::new().next(GreenToYellow);
//! let _ = yellow.next(RedToGreen);
//! ```
use vstd::prelude::*;
use crate::light::{Light, Phase, Signal, Trigger, successor};

verus! {

/// A transition out of `Self` on an event of type `E`.
pub trait Event<E: Trigger>: Phase + Sized {
    /// The state that the transition leads to.
    type Next: Phase;

    /// Consumes the current state and returns its successor on `event`.
    fn next(self, event: E) -> (r: Self::Next)
        ensures
            successor(Self::phase(), E::signal()) == Some(Self::Next::phase()),
    ;
}

/// The machine, holding the value of its current state type.
#[derive(Debug)]
pub struct State<S> {
    _inner: S,
}

impl<S: Phase> Phase for State<S> {
    open spec fn phase() -> Light {
        S::phase()
    }
}

#[derive(Debug)]
pub struct Green;

#[derive(Debug)]
pub struct Yellow;

#[derive(Debug)]
pub struct Red;

impl Phase for Green {
    open spec fn phase() -> Light {
        Light::Green
    }
}

impl Phase for Yellow {
    open spec fn phase() -> Light {
        Light::Yellow
    }
}

impl Phase for Red {
    open spec fn phase() -> Light {
        Light::Red
    }
}

#[derive(Debug)]
pub struct GreenToYellow;

#[derive(Debug)]
pub struct YellowToGreen;

#[derive(Debug)]
pub struct YellowToRed;

#[derive(Debug)]
pub struct RedToGreen;

impl Trigger for GreenToYellow {
    open spec fn signal() -> Signal {
        Signal::GreenToYellow
    }
}

impl Trigger for YellowToGreen {
    open spec fn signal() -> Signal {
        Signal::YellowToGreen
    }
}

impl Trigger for YellowToRed {
    open spec fn signal() -> Signal {
        Signal::YellowToRed
    }
}

impl Trigger for RedToGreen {
    open spec fn signal() -> Signal {
        Signal::RedToGreen
    }
}

impl State<Green> {
    /// The machine in its initial state.
    pub fn new() -> (r: State<Green>)
        ensures
            Self::phase() == Light::Green,
    {
        State { _inner: Green }
    }
}

impl Event<GreenToYellow> for State<Green> {
    type Next = State<Yellow>;

    fn next(self, _event: GreenToYellow) -> (r: State<Yellow>) {
        State { _inner: Yellow }
    }
}

impl Event<YellowToGreen> for State<Yellow> {
    type Next = State<Green>;

    fn next(self, _event: YellowToGreen) -> (r: State<Green>) {
        State { _inner: Green }
    }
}

impl Event<YellowToRed> for State<Yellow> {
    type Next = State<Red>;

    fn next(self, _event: YellowToRed) -> (r: State<Red>) {
        State { _inner: Red }
    }
}

impl Event<RedToGreen> for State<Red> {
    type Next = State<Green>;

    fn next(self, _event: RedToGreen) -> (r: State<Green>) {
        State { _inner: Green }
    }
}

} // verus!
