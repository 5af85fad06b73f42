//! Bottle filler whose states and events are plain enums, advanced by one
//! total transition function. A pair that the table does not declare leads
//! to `State::Failure`, whose message names the state and the event.
//!
//! `Failure` is not a sink: feeding it another event yields a new failure.
//! Stopping there is left to the driver, as `drive` does.
use vstd::prelude::*;

verus! {

/// Where the filler is.
#[derive(Debug, PartialEq, Eq)]
pub enum State {
    Waiting { waiting_time: usize },
    Filling { rate: usize },
    Done,
    Failure(String),
}

/// A stimulus fed to the filler.
#[derive(Debug, Clone, Copy, PartialEq, Eq, Structural)]
pub enum Event {
    NothingHappened,
    InsertBottle,
    BottleFull,
    BottleEjected,
}

/// The work that belongs to a state, for the driver to carry out after a
/// transition. Choosing it never feeds back into the transition.
#[derive(Debug, Clone, Copy, PartialEq, Eq, Structural)]
pub enum Action {
    /// Report how long the filler has waited.
    ReportWait { waiting_time: usize },
    /// Fill the bottle at the given rate.
    Fill { rate: usize },
    /// Nothing to do.
    Idle,
}

/// The mathematical value of a `State`.
pub enum StateView {
    Waiting { waiting_time: nat },
    Filling { rate: nat },
    Done,
    Failure(Seq<char>),
}

impl View for State {
    type V = StateView;

    open spec fn view(&self) -> StateView {
        match self {
            State::Waiting { waiting_time } => StateView::Waiting { waiting_time: *waiting_time as nat },
            State::Filling { rate } => StateView::Filling { rate: *rate as nat },
            State::Done => StateView::Done,
            State::Failure(message) => StateView::Failure(message@),
        }
    }
}

/// The rate at which a newly inserted bottle is filled.
pub const FILL_RATE: usize = 10;

/// Whether the transition table declares the pair `(s, e)`.
pub open spec fn declared(s: StateView, e: Event) -> bool {
    match (s, e) {
        (StateView::Waiting { .. }, Event::NothingHappened) => true,
        (StateView::Waiting { .. }, Event::InsertBottle) => true,
        (StateView::Filling { .. }, Event::BottleFull) => true,
        (StateView::Done, Event::BottleEjected) => true,
        _ => false,
    }
}

/// The successor of `s` on `e`: the declared transition, or a failure that
/// names both.
pub open spec fn step(s: StateView, e: Event) -> StateView {
    match (s, e) {
        (StateView::Waiting { waiting_time }, Event::NothingHappened) => StateView::Waiting {
            waiting_time: waiting_time + 1,
        },
        (StateView::Waiting { .. }, Event::InsertBottle) => StateView::Filling {
            rate: FILL_RATE as nat,
        },
        (StateView::Filling { .. }, Event::BottleFull) => StateView::Done,
        (StateView::Done, Event::BottleEjected) => StateView::Waiting { waiting_time: 0 },
        _ => StateView::Failure(rejection_text(s, e)),
    }
}

/// Whether the successor of `s` on `e` has a counter that fits in `usize`.
pub open spec fn fits(s: StateView, e: Event) -> bool {
    match (s, e) {
        (StateView::Waiting { waiting_time }, Event::NothingHappened) => waiting_time
            < usize::MAX,
        _ => true,
    }
}

/// The character of the decimal digit `d`.
pub open spec fn digit_char(d: nat) -> char {
    if d == 0 {
        '0'
    } else if d == 1 {
        '1'
    } else if d == 2 {
        '2'
    } else if d == 3 {
        '3'
    } else if d == 4 {
        '4'
    } else if d == 5 {
        '5'
    } else if d == 6 {
        '6'
    } else if d == 7 {
        '7'
    } else if d == 8 {
        '8'
    } else {
        '9'
    }
}

/// `n` written in decimal, without leading zeros.
pub open spec fn decimal(n: nat) -> Seq<char>
    decreases n,
{
    if n < 10 {
        seq![digit_char(n)]
    } else {
        decimal(n / 10).push(digit_char(n % 10))
    }
}

/// The name of the variant that `s` is.
pub open spec fn state_name(s: StateView) -> Seq<char> {
    match s {
        StateView::Waiting { .. } => "Waiting"@,
        StateView::Filling { .. } => "Filling"@,
        StateView::Done => "Done"@,
        StateView::Failure(_) => "Failure"@,
    }
}

/// `s` as text: its name followed by its payload, as in `Waiting{1}`.
pub open spec fn state_text(s: StateView) -> Seq<char> {
    match s {
        StateView::Waiting { waiting_time } => "Waiting"@ + "{"@ + decimal(waiting_time) + "}"@,
        StateView::Filling { rate } => "Filling"@ + "{"@ + decimal(rate) + "}"@,
        StateView::Done => "Done"@,
        StateView::Failure(message) => "Failure"@ + "("@ + message + ")"@,
    }
}

/// The name of the event `e`.
pub open spec fn event_name(e: Event) -> Seq<char> {
    match e {
        Event::NothingHappened => "NothingHappened"@,
        Event::InsertBottle => "InsertBottle"@,
        Event::BottleFull => "BottleFull"@,
        Event::BottleEjected => "BottleEjected"@,
    }
}

/// The message of the failure reached from `s` on the undeclared event `e`.
pub open spec fn rejection_text(s: StateView, e: Event) -> Seq<char> {
    "Wrong state/event: "@ + state_text(s) + ", "@ + event_name(e)
}

/// Whether `word` occurs in `text` as a contiguous piece.
pub open spec fn mentions(text: Seq<char>, word: Seq<char>) -> bool {
    exists|i: int| 0 <= i && i + word.len() <= text.len() && #[trigger] text.subrange(i, i + word.len()) == word
}

/// The state in which driving `s` through `es` ends: after the first
/// failure, or after the last event.
pub open spec fn run_end(s: StateView, es: Seq<Event>) -> StateView
    decreases es.len(),
{
    if es.len() == 0 {
        s
    } else if step(s, es[0]) is Failure {
        step(s, es[0])
    } else {
        run_end(step(s, es[0]), es.drop_first())
    }
}

/// How many events of `es` driving `s` consumes: up to and including the
/// first that leads to a failure, or all of them.
pub open spec fn run_length(s: StateView, es: Seq<Event>) -> nat
    decreases es.len(),
{
    if es.len() == 0 {
        0
    } else if step(s, es[0]) is Failure {
        1
    } else {
        1 + run_length(step(s, es[0]), es.drop_first())
    }
}

/// Whether every transition taken while driving `s` through `es` keeps its
/// counter within `usize`.
pub open spec fn run_fits(s: StateView, es: Seq<Event>) -> bool
    decreases es.len(),
{
    es.len() == 0 || (fits(s, es[0]) && (step(s, es[0]) is Failure || run_fits(
        step(s, es[0]),
        es.drop_first(),
    )))
}

/// Appends the decimal digits of `n` to `out`.
fn push_decimal(out: &mut String, n: usize)
    ensures
        final(out)@ == old(out)@ + decimal(n as nat),
    decreases n,
{
    if n >= 10 {
        push_decimal(out, n / 10);
    }
    let d = n % 10;
    proof {
        reveal_strlit("0");
        reveal_strlit("1");
        reveal_strlit("2");
        reveal_strlit("3");
        reveal_strlit("4");
        reveal_strlit("5");
        reveal_strlit("6");
        reveal_strlit("7");
        reveal_strlit("8");
        reveal_strlit("9");
    }
    let digit: &str = if d == 0 {
        "0"
    } else if d == 1 {
        "1"
    } else if d == 2 {
        "2"
    } else if d == 3 {
        "3"
    } else if d == 4 {
        "4"
    } else if d == 5 {
        "5"
    } else if d == 6 {
        "6"
    } else if d == 7 {
        "7"
    } else if d == 8 {
        "8"
    } else {
        "9"
    };
    assert(digit@ == seq![digit_char(d as nat)]);
    out.append(digit);
    assert(out@ =~= old(out)@ + decimal(n as nat));
}

impl Event {
    /// The event's name, as used in failure messages.
    pub fn name(&self) -> (r: &'static str)
        ensures
            r@ == event_name(*self),
    {
        match self {
            Event::NothingHappened => "NothingHappened",
            Event::InsertBottle => "InsertBottle",
            Event::BottleFull => "BottleFull",
            Event::BottleEjected => "BottleEjected",
        }
    }
}

impl State {
    /// The state as text: its name followed by its payload, as in `Waiting{1}`.
    pub fn describe(&self) -> (r: String)
        ensures
            r@ == state_text(self@),
    {
        match self {
            State::Waiting { waiting_time } => {
                let mut text = String::from_str("Waiting{");
                push_decimal(&mut text, *waiting_time);
                text.append("}");
                proof {
                    reveal_strlit("Waiting{");
                    reveal_strlit("Waiting");
                    reveal_strlit("{");
                }
                assert(text@ =~= state_text(self@));
                text
            },
            State::Filling { rate } => {
                let mut text = String::from_str("Filling{");
                push_decimal(&mut text, *rate);
                text.append("}");
                proof {
                    reveal_strlit("Filling{");
                    reveal_strlit("Filling");
                    reveal_strlit("{");
                }
                assert(text@ =~= state_text(self@));
                text
            },
            State::Done => String::from_str("Done"),
            State::Failure(message) => {
                let mut text = String::from_str("Failure(");
                text.append(message.as_str());
                text.append(")");
                proof {
                    reveal_strlit("Failure(");
                    reveal_strlit("Failure");
                    reveal_strlit("(");
                }
                assert(text@ =~= state_text(self@));
                text
            },
        }
    }

    /// The message of the failure reached from this state on `event`.
    fn rejection(&self, event: Event) -> (r: String)
        ensures
            r@ == rejection_text(self@, event),
    {
        let mut text = String::from_str("Wrong state/event: ");
        let described = self.describe();
        text.append(described.as_str());
        text.append(", ");
        text.append(event.name());
        assert(text@ =~= rejection_text(self@, event));
        text
    }

    /// Consumes the state and returns its successor on `event`: the declared
    /// transition where there is one, else a failure naming both.
    pub fn next(self, event: Event) -> (r: State)
        requires
            fits(self@, event),
        ensures
            r@ == step(self@, event),
    {
        match (self, event) {
            (State::Waiting { waiting_time }, Event::NothingHappened) => State::Waiting {
                waiting_time: waiting_time + 1,
            },
            (State::Waiting { .. }, Event::InsertBottle) => State::Filling { rate: FILL_RATE },
            (State::Filling { .. }, Event::BottleFull) => State::Done,
            (State::Done, Event::BottleEjected) => State::Waiting { waiting_time: 0 },
            (s, e) => State::Failure(s.rejection(e)),
        }
    }

    /// The work that belongs to this state: reporting the wait while
    /// waiting, filling at the stored rate while filling, nothing otherwise.
    pub fn action(&self) -> (r: Action)
        ensures
            r == match *self {
                State::Waiting { waiting_time } => Action::ReportWait { waiting_time },
                State::Filling { rate } => Action::Fill { rate },
                State::Done | State::Failure(_) => Action::Idle,
            },
    {
        match self {
            State::Waiting { waiting_time } => Action::ReportWait { waiting_time: *waiting_time },
            State::Filling { rate } => Action::Fill { rate: *rate },
            State::Done | State::Failure(_) => Action::Idle,
        }
    }

    /// Whether this is the failure state.
    pub fn is_failure(&self) -> (r: bool)
        ensures
            r == (self@ is Failure),
    {
        match self {
            State::Failure(_) => true,
            _ => false,
        }
    }
}

/// Feeds `events` to the machine one at a time, starting from `start`, and
/// stops at the first failure. Returns the state reached and the number of
/// events consumed.
pub fn drive(start: State, events: &[Event]) -> (r: (State, usize))
    requires
        run_fits(start@, events@),
    ensures
        r.0@ == run_end(start@, events@),
        r.1 == run_length(start@, events@),
{
    let mut state = start;
    let mut i: usize = 0;
    assert(events@.skip(0) =~= events@);
    while i < events.len()
        invariant
            0 <= i <= events@.len(),
            run_fits(state@, events@.skip(i as int)),
            run_end(start@, events@) == run_end(state@, events@.skip(i as int)),
            run_length(start@, events@) == i + run_length(state@, events@.skip(i as int)),
        decreases events@.len() - i,
    {
        let ghost rest = events@.skip(i as int);
        assert(rest[0] == events@[i as int]);
        assert(rest.drop_first() =~= events@.skip(i + 1));
        state = state.next(events[i]);
        i = i + 1;
        if state.is_failure() {
            return (state, i);
        }
    }
    assert(events@.skip(i as int).len() == 0);
    (state, i)
}

/// A pair yields a state other than `Failure` exactly when the transition
/// table declares it; every other pair yields a failure whose message
/// mentions the state's name and the event's name.
pub proof fn lemma_exhaustive(s: StateView, e: Event)
    ensures
        !(step(s, e) is Failure) <==> declared(s, e),
        step(s, e) is Failure ==> mentions(step(s, e)->Failure_0, state_name(s)) && mentions(
            step(s, e)->Failure_0,
            event_name(e),
        ),
{
    if step(s, e) is Failure {
        let message = step(s, e)->Failure_0;
        let prefix = "Wrong state/event: "@;
        let name = state_name(s);
        let event = event_name(e);
        assert(message =~= prefix + state_text(s) + ", "@ + event);
        assert(message.subrange(prefix.len() as int, (prefix.len() + name.len()) as int) =~= name);
        assert(message.subrange(message.len() - event.len(), message.len() as int) =~= event);
    }
}

/// The successor depends on nothing but the state's value and the event:
/// equal inputs give equal successors.
pub proof fn lemma_deterministic(s: StateView, t: StateView, e: Event, f: Event)
    requires
        s == t,
        e == f,
    ensures
        step(s, e) == step(t, f),
{
}

/// Waiting through one more uneventful step raises the counter by exactly one.
pub proof fn lemma_counter(n: nat)
    ensures
        step(StateView::Waiting { waiting_time: n }, Event::NothingHappened) == (StateView::Waiting {
            waiting_time: n + 1,
        }),
{
}

} // verus!
