//! State machines over numbers.
use oblivious_state_machine::state::{deliver_to, prepare, Delivery, State, Transition};
use oblivious_state_machine::state_machine::{
    produce, StateMachine, StateMachineId, TRANSITION_BUDGET,
};
use oblivious_state_machine::task::Poll;
use oblivious_state_machine::{Event, StateMachineTypes};
use std::task::Waker;

struct Types;

type Boxed = Box<dyn State<Types> + Send>;

impl StateMachineTypes for Types {
    type I = u32;
    type O = u32;
    type E = u32;
    type S = Boxed;
    type P = Box<dyn Fn(&StateMachineId, &mut Vec<u32>) -> Option<Boxed>>;
}

/// Announces its level, consumes numbers below it, fails on numbers from 100 on, and goes
/// one level down for each number that it has consumed.
struct Level {
    level: u32,
    consumed: u32,
}

impl Level {
    fn boxed(level: u32) -> Boxed {
        Box::new(Level { level, consumed: 0 })
    }
}

impl State<Types> for Level {
    fn describe(&self) -> String {
        format!("level {}", self.level)
    }

    fn initialize(&self) -> Vec<u32> {
        if self.level == 7 {
            Vec::new()
        } else {
            vec![self.level, self.level]
        }
    }

    fn deliver(&mut self, message: u32) -> Delivery<u32, u32> {
        if message >= 100 {
            Delivery::Error(message)
        } else if message < self.level && self.consumed == 0 {
            self.consumed += 1;
            Delivery::Delivered
        } else {
            Delivery::Unexpected(message)
        }
    }

    fn prepare_advance(&mut self) -> Result<bool, Vec<u32>> {
        if self.level == 13 {
            return Err(vec![13, 31]);
        }
        Ok(self.consumed > 0)
    }

    fn advance(self: Box<Self>) -> Transition<Types> {
        if self.level == 1 {
            Transition::<Types>::Final(Level::boxed(0))
        } else {
            Transition::<Types>::Next(Level::boxed(self.level - self.consumed))
        }
    }
}

/// A state that implements nothing it does not have to.
struct Closed;

impl State<Types> for Closed {
    fn describe(&self) -> String {
        "closed".to_string()
    }

    fn prepare_advance(&mut self) -> Result<bool, Vec<u32>> {
        Ok(false)
    }

    fn advance(self: Box<Self>) -> Transition<Types> {
        Transition::<Types>::Final(self)
    }
}

fn machine(state: Boxed, messages: &[u32]) -> StateMachine<Types> {
    let mut machine = StateMachine::<Types>::new_with_state(StateMachineId::from("level"), state);
    for message in messages {
        machine.deliver(*message);
    }
    machine
}

fn poll(machine: &mut StateMachine<Types>) -> Poll<Option<Event<Types>>> {
    machine.poll_next(Waker::noop())
}

fn output(machine: &mut StateMachine<Types>) -> Vec<u32> {
    match poll(machine) {
        Poll::Ready(Some(Event::Output(messages))) => messages,
        _ => panic!("Output is expected"),
    }
}

fn errors(machine: &mut StateMachine<Types>) -> Vec<u32> {
    match poll(machine) {
        Poll::Ready(Some(Event::Error(errors))) => errors,
        _ => panic!("Errors are expected"),
    }
}

#[test]
fn states_are_initialized_once_and_messages_wait_for_their_state() {
    let mut machine = machine(Level::boxed(3), &[2, 1]);
    assert_eq!(output(&mut machine), vec![3, 3]);
    // The first state takes the first message, the second one takes what is left.
    assert_eq!(output(&mut machine), vec![2, 2]);
    assert_eq!(output(&mut machine), vec![1, 1]);
    assert!(matches!(poll(&mut machine), Poll::Pending));
    assert!(matches!(poll(&mut machine), Poll::Pending));
    machine.deliver(5);
    assert!(matches!(poll(&mut machine), Poll::Pending));
    machine.deliver(0);
    machine.deliver(6);
    match poll(&mut machine) {
        Poll::Ready(Some(Event::Completion { state, buffer })) => {
            assert_eq!(state.describe(), "level 0");
            assert_eq!(buffer, vec![5, 6]);
        }
        _ => panic!("The machine must complete"),
    }
    assert!(matches!(poll(&mut machine), Poll::Ready(None)));
}

#[test]
fn empty_output_is_not_reported() {
    let mut machine = machine(Level::boxed(7), &[]);
    assert!(matches!(poll(&mut machine), Poll::Pending));
    machine.deliver(3);
    assert_eq!(output(&mut machine), vec![6, 6]);
}

#[test]
fn all_delivery_errors_are_reported_in_order() {
    let mut machine = machine(Level::boxed(7), &[102, 3, 9, 101]);
    assert_eq!(errors(&mut machine), vec![102, 101]);
    // The state is kept with what it has consumed, but not the messages.
    assert_eq!(output(&mut machine), vec![6, 6]);
    assert!(matches!(poll(&mut machine), Poll::Pending));
}

#[test]
fn delivery_errors_keep_the_state() {
    let mut machine = machine(Level::boxed(7), &[]);
    for message in [100, 200, 300] {
        machine.deliver(message);
        assert_eq!(errors(&mut machine), vec![message]);
        assert!(matches!(poll(&mut machine), Poll::Pending));
    }
    machine.deliver(0);
    assert_eq!(output(&mut machine), vec![6, 6]);
}

#[test]
fn preparation_errors_are_reported() {
    let mut machine = machine(Level::boxed(13), &[20]);
    // The state is initialized once, however often it fails.
    assert_eq!(output(&mut machine), vec![13, 13]);
    assert_eq!(errors(&mut machine), vec![13, 31]);
    assert_eq!(errors(&mut machine), vec![13, 31]);
    machine.deliver(100);
    assert_eq!(errors(&mut machine), vec![100]);
    assert_eq!(errors(&mut machine), vec![13, 31]);
}

#[test]
fn messages_are_consumed_by_one_state_or_left() {
    let mut machine = machine(Level::boxed(3), &[9, 2, 8, 1, 7, 0, 0]);
    assert_eq!(output(&mut machine), vec![3, 3]);
    assert_eq!(output(&mut machine), vec![2, 2]);
    assert_eq!(output(&mut machine), vec![1, 1]);
    // Three of the messages are consumed, one by each state.
    match poll(&mut machine) {
        Poll::Ready(Some(Event::Completion { buffer, .. })) => {
            assert_eq!(buffer, vec![9, 8, 7, 0])
        }
        _ => panic!("The machine must complete"),
    }
}

#[test]
fn unexpected_messages_are_buffered_in_order() {
    let mut machine = machine(Level::boxed(1), &[4, 5]);
    assert_eq!(output(&mut machine), vec![1, 1]);
    assert!(matches!(poll(&mut machine), Poll::Pending));
    machine.deliver(6);
    assert!(matches!(poll(&mut machine), Poll::Pending));
    machine.deliver(3);
    machine.deliver(0);
    machine.deliver(2);
    match poll(&mut machine) {
        Poll::Ready(Some(Event::Completion { buffer, .. })) => {
            assert_eq!(buffer, vec![4, 5, 6, 3, 2])
        }
        _ => panic!("The machine must complete"),
    }
}

#[test]
fn closed_state_waits_forever() {
    let mut machine = machine(Box::new(Closed), &[4, 5]);
    assert!(matches!(poll(&mut machine), Poll::Pending));
    machine.deliver(6);
    assert!(matches!(poll(&mut machine), Poll::Pending));
}

#[test]
fn producer_may_take_messages() {
    let producer: <Types as StateMachineTypes>::P = Box::new(|id, messages| {
        let wanted = messages.iter().position(|m| *m == 7)?;
        messages.remove(wanted);
        assert_eq!(id.display(), "[level]");
        Some(Level::boxed(7))
    });
    let id = StateMachineId::from("level");
    let (left, state) = produce::<Types>(&producer, &id, vec![1, 2]);
    assert_eq!(left, vec![1, 2]);
    assert!(state.is_none());
    let (left, state) = produce::<Types>(&producer, &id, vec![1, 7, 2]);
    assert_eq!(left, vec![1, 2]);
    assert_eq!(state.unwrap().describe(), "level 7");

    let mut machine = StateMachine::<Types>::new_with_message(id, 1, producer);
    assert!(matches!(poll(&mut machine), Poll::Pending));
    machine.deliver(7);
    assert_eq!(output(&mut machine), vec![6, 6]);
}

#[test]
fn state_is_driven_step_by_step() {
    let (state, delivery) = deliver_to::<Types, Boxed>(Level::boxed(4), 9);
    assert!(matches!(delivery, Delivery::Unexpected(9)));
    let (state, ready) = prepare::<Types, Boxed>(state);
    assert_eq!(ready, Ok(false));
    let (state, delivery) = deliver_to::<Types, Boxed>(state, 2);
    assert!(matches!(delivery, Delivery::Delivered));
    let (state, ready) = prepare::<Types, Boxed>(state);
    assert_eq!(ready, Ok(true));
    match state.advance() {
        Transition::Next(next) => assert_eq!(next.describe(), "level 3"),
        Transition::Final(_) => panic!("There are more levels"),
    }
}

#[test]
fn defaults_send_nothing_and_expect_nothing() {
    let mut closed = Closed;
    assert!(closed.initialize().is_empty());
    assert!(matches!(closed.deliver(8), Delivery::Unexpected(8)));
}

#[test]
fn many_transitions_fit_in_one_poll() {
    assert_eq!(TRANSITION_BUDGET, u64::MAX);

    /// Counts down silently.
    struct Countdown(u32);

    impl State<Types> for Countdown {
        fn describe(&self) -> String {
            format!("{}", self.0)
        }

        fn prepare_advance(&mut self) -> Result<bool, Vec<u32>> {
            Ok(true)
        }

        fn advance(self: Box<Self>) -> Transition<Types> {
            if self.0 == 0 {
                Transition::<Types>::Final(self)
            } else {
                Transition::<Types>::Next(Box::new(Countdown(self.0 - 1)))
            }
        }
    }

    let mut machine = machine(Box::new(Countdown(100_000)), &[1, 2, 3]);
    match poll(&mut machine) {
        Poll::Ready(Some(Event::Completion { state, buffer })) => {
            assert_eq!(state.describe(), "0");
            assert_eq!(buffer, vec![1, 2, 3]);
        }
        _ => panic!("The machine must complete"),
    }
}
