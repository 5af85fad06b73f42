use fsm::bottle::{drive, Action, Event, State, FILL_RATE};

fn waiting(n: usize) -> State {
    State::Waiting { waiting_time: n }
}

#[test]
fn declared_transitions() {
    assert_eq!(waiting(0).next(Event::NothingHappened), waiting(1));
    assert_eq!(waiting(7).next(Event::InsertBottle), State::Filling { rate: 10 });
    assert_eq!(State::Filling { rate: 3 }.next(Event::BottleFull), State::Done);
    assert_eq!(State::Done.next(Event::BottleEjected), waiting(0));
    assert_eq!(FILL_RATE, 10);
}

#[test]
fn counter_rises_by_one() {
    for n in [0usize, 1, 9, 10, 99, 12345, usize::MAX - 1] {
        assert_eq!(waiting(n).next(Event::NothingHappened), waiting(n + 1));
    }
}

#[test]
fn next_is_deterministic() {
    let first = waiting(4).next(Event::BottleEjected);
    let second = waiting(4).next(Event::BottleEjected);
    assert_eq!(first, second);
    assert_eq!(waiting(4).next(Event::NothingHappened), waiting(4).next(Event::NothingHappened));
}

#[test]
fn undeclared_pairs_fail_with_both_names() {
    let states = [
        waiting(2),
        State::Filling { rate: 10 },
        State::Done,
        State::Failure(String::from("earlier")),
    ];
    let events = [
        Event::NothingHappened,
        Event::InsertBottle,
        Event::BottleFull,
        Event::BottleEjected,
    ];
    let state_names = ["Waiting", "Filling", "Done", "Failure"];
    let event_names = ["NothingHappened", "InsertBottle", "BottleFull", "BottleEjected"];
    let declared = [(0, 0), (0, 1), (1, 2), (2, 3)];
    for (si, state) in states.iter().enumerate() {
        for (ei, event) in events.iter().enumerate() {
            let input = match state {
                State::Waiting { waiting_time } => waiting(*waiting_time),
                State::Filling { rate } => State::Filling { rate: *rate },
                State::Done => State::Done,
                State::Failure(m) => State::Failure(m.clone()),
            };
            let result = input.next(*event);
            if declared.contains(&(si, ei)) {
                assert!(!result.is_failure());
            } else {
                match result {
                    State::Failure(message) => {
                        assert!(message.contains(state_names[si]));
                        assert!(message.contains(event_names[ei]));
                    }
                    other => panic!("expected a failure, got {:?}", other),
                }
            }
        }
    }
}

#[test]
fn failure_messages_are_exact() {
    assert_eq!(
        State::Done.next(Event::NothingHappened),
        State::Failure(String::from("Wrong state/event: Done, NothingHappened"))
    );
    assert_eq!(
        State::Filling { rate: 10 }.next(Event::InsertBottle),
        State::Failure(String::from("Wrong state/event: Filling{10}, InsertBottle"))
    );
    assert_eq!(
        State::Failure(String::from("x")).next(Event::BottleEjected),
        State::Failure(String::from("Wrong state/event: Failure(x), BottleEjected"))
    );
}

#[test]
fn failure_is_not_a_sink() {
    let failed = State::Done.next(Event::BottleFull);
    assert!(failed.is_failure());
    let again = failed.next(Event::NothingHappened);
    assert_eq!(
        again,
        State::Failure(String::from(
            "Wrong state/event: Failure(Wrong state/event: Done, BottleFull), NothingHappened"
        ))
    );
}

#[test]
fn describe_writes_payloads_in_decimal() {
    assert_eq!(waiting(0).describe(), "Waiting{0}");
    assert_eq!(waiting(10).describe(), "Waiting{10}");
    assert_eq!(waiting(907).describe(), "Waiting{907}");
    assert_eq!(waiting(usize::MAX).describe(), format!("Waiting{{{}}}", usize::MAX));
    assert_eq!(State::Filling { rate: 42 }.describe(), "Filling{42}");
    assert_eq!(State::Done.describe(), "Done");
    assert_eq!(State::Failure(String::from("oops")).describe(), "Failure(oops)");
}

#[test]
fn event_names() {
    assert_eq!(Event::NothingHappened.name(), "NothingHappened");
    assert_eq!(Event::InsertBottle.name(), "InsertBottle");
    assert_eq!(Event::BottleFull.name(), "BottleFull");
    assert_eq!(Event::BottleEjected.name(), "BottleEjected");
}

#[test]
fn actions_follow_the_state() {
    assert_eq!(waiting(5).action(), Action::ReportWait { waiting_time: 5 });
    assert_eq!(State::Filling { rate: 10 }.action(), Action::Fill { rate: 10 });
    assert_eq!(State::Done.action(), Action::Idle);
    assert_eq!(State::Failure(String::from("f")).action(), Action::Idle);
}

#[test]
fn bottle_scenario_step_by_step() {
    let events = [
        Event::NothingHappened,
        Event::NothingHappened,
        Event::InsertBottle,
        Event::BottleFull,
        Event::BottleEjected,
        Event::NothingHappened,
        Event::BottleFull,
    ];
    let expected = [
        waiting(1),
        waiting(2),
        State::Filling { rate: 10 },
        State::Done,
        waiting(0),
        waiting(1),
        State::Failure(String::from("Wrong state/event: Waiting{1}, BottleFull")),
    ];
    let mut state = waiting(0);
    for (event, want) in events.iter().zip(expected.iter()) {
        state = state.next(*event);
        assert_eq!(&state, want);
    }
}

#[test]
fn bottle_scenario_drive_stops_at_seventh_event() {
    let events = [
        Event::NothingHappened,
        Event::NothingHappened,
        Event::InsertBottle,
        Event::BottleFull,
        Event::BottleEjected,
        Event::NothingHappened,
        Event::BottleFull,
        Event::BottleEjected,
        Event::NothingHappened,
    ];
    let (end, consumed) = drive(waiting(0), &events);
    assert_eq!(consumed, 7);
    assert_eq!(
        end,
        State::Failure(String::from("Wrong state/event: Waiting{1}, BottleFull"))
    );
}

#[test]
fn drive_without_failure_consumes_everything() {
    let events = [Event::NothingHappened, Event::InsertBottle, Event::BottleFull];
    let (end, consumed) = drive(waiting(3), &events);
    assert_eq!(consumed, 3);
    assert_eq!(end, State::Done);
    let (end, consumed) = drive(State::Done, &[]);
    assert_eq!(consumed, 0);
    assert_eq!(end, State::Done);
}

#[test]
fn drive_from_failure_stops_at_once() {
    let (end, consumed) = drive(State::Failure(String::from("f")), &[Event::BottleFull, Event::BottleFull]);
    assert_eq!(consumed, 1);
    assert_eq!(
        end,
        State::Failure(String::from("Wrong state/event: Failure(f), BottleFull"))
    );
}
