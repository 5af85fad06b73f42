use fsm::associated;
use fsm::associated::Event as AssociatedEvent;
use fsm::bare;
use fsm::bare::Event as BareEvent;
use fsm::triple;
use fsm::triple::Event as TripleEvent;

#[test]
fn associated_light_cycles_through_declared_transitions() {
    let state: associated::State<associated::Green> = associated::State::new();
    let state: associated::State<associated::Yellow> = state.next(associated::GreenToYellow);
    let state: associated::State<associated::Red> = state.next(associated::YellowToRed);
    let state: associated::State<associated::Green> = state.next(associated::RedToGreen);
    let state: associated::State<associated::Yellow> = state.next(associated::GreenToYellow);
    let state: associated::State<associated::Green> = state.next(associated::YellowToGreen);
    let state: associated::State<associated::Yellow> = state.next(associated::GreenToYellow);
    assert_eq!(format!("{:?}", state), "State { _inner: Yellow }");
}

#[test]
fn triple_light_cycles_through_declared_transitions() {
    let state: triple::State<triple::Green> = triple::State::new();
    let state: triple::State<triple::Yellow> = state.next(triple::GreenToYellow);
    let state: triple::State<triple::Red> = state.next(triple::YellowToRed);
    let state: triple::State<triple::Green> = state.next(triple::RedToGreen);
    let state: triple::State<triple::Yellow> = state.next(triple::GreenToYellow);
    let state: triple::State<triple::Green> = state.next(triple::YellowToGreen);
    let state: triple::State<triple::Yellow> = state.next(triple::GreenToYellow);
    assert_eq!(format!("{:?}", state), "State { _inner: Yellow }");
}

#[test]
fn bare_light_cycles_through_declared_transitions() {
    let state: bare::Green = bare::Green::new();
    let state: bare::Yellow = state.next(bare::GreenToYellow);
    let state: bare::Red = state.next(bare::YellowToRed);
    let state: bare::Green = state.next(bare::RedToGreen);
    let state: bare::Yellow = state.next(bare::GreenToYellow);
    let state: bare::Green = state.next(bare::YellowToGreen);
    let state: bare::Yellow = state.next(bare::GreenToYellow);
    assert_eq!(format!("{:?}", state), "Yellow");
}

#[test]
fn initial_states_are_green() {
    assert_eq!(format!("{:?}", associated::State::new()), "State { _inner: Green }");
    assert_eq!(format!("{:?}", triple::State::new()), "State { _inner: Green }");
    assert_eq!(format!("{:?}", bare::Green::new()), "Green");
}
