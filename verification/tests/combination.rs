//! Numbers are collected by one state machine and summed up by another one.
use downcast_rs::Downcast;
use oblivious_state_machine::combination::combined2::{
    Combined, CombinedError, CombinedIn, CombinedOut,
};
use oblivious_state_machine::combination::{
    start_new_sm, ConversionError, FinalSpec, IntermediateSpec,
};
use oblivious_state_machine::primitives::state::{
    downcast, DeliveryStatus, State, StateTypes, Transition,
};
use oblivious_state_machine::runner::{
    Either, RunnerError, RunnerTask, TimeBoundStateMachineRunner, Work,
};
use oblivious_state_machine::state_machine::StateMachineId;
use oblivious_state_machine::task::Poll;
use std::task::Waker;
use std::time::Duration;
use tokio::sync::mpsc;

struct Collecting;

trait CollectingState: State<Collecting> + Downcast {}

impl<S: State<Collecting> + Downcast> CollectingState for S {}

impl StateTypes for Collecting {
    type In = u32;
    type Out = ();
    type Err = u32;
    type State = Box<dyn CollectingState>;
}

/// Struct to collect 5 u32.
struct Collect {
    u32s: Vec<u32>,
}

impl State<Collecting> for Collect {
    fn desc(&self) -> String {
        "Collecting numbers".to_string()
    }

    fn deliver(&mut self, message: u32) -> DeliveryStatus<u32, u32> {
        if message == 0 {
            return DeliveryStatus::Error(message);
        }
        self.u32s.push(message);
        DeliveryStatus::Delivered
    }

    /// Transition if 5 u32-values have been collected.
    fn advance(&self) -> Result<Transition<Collecting>, u32> {
        Ok(if self.u32s.len() == 5 {
            Transition::Terminal
        } else {
            Transition::Same
        })
    }
}

/// A state that no computation starts from.
struct Lost;

impl State<Collecting> for Lost {
    fn desc(&self) -> String {
        "Lost".to_string()
    }

    fn advance(&self) -> Result<Transition<Collecting>, u32> {
        Ok(Transition::Terminal)
    }
}

struct Computing;

impl StateTypes for Computing {
    type In = ();
    type Out = u32;
    type Err = String;
    type State = Box<dyn State<Computing>>;
}

/// Struct to do a (dummy) computation.
struct Compute {
    value: u32,
}

impl State<Computing> for Compute {
    fn desc(&self) -> String {
        format!("Computing {}", self.value)
    }

    /// Dummy implementation.
    fn initialize(&self) -> Vec<u32> {
        vec![self.value]
    }

    fn advance(&self) -> Result<Transition<Computing>, String> {
        Ok(Transition::Terminal)
    }
}

type Converter =
    fn(Box<dyn CollectingState>) -> Result<Box<dyn State<Computing>>, ConversionError>;

fn convert(
    terminal: Box<dyn CollectingState>,
) -> Result<Box<dyn State<Computing>>, ConversionError> {
    downcast::<dyn CollectingState, Collect>(terminal)
        .map(|t| {
            Box::new(Compute {
                value: t.u32s.iter().sum(),
            }) as Box<dyn State<Computing>>
        })
        .map_err(|unexpected| ConversionError::UnexpectedFinalState {
            terminal_desc: unexpected.desc(),
            expected: "Collect".to_string(),
        })
}

fn combined(start: Box<dyn CollectingState>) -> Combined<Collecting, Computing, Converter> {
    Combined::new(
        StateMachineId::from("sum"),
        start,
        IntermediateSpec::new(Duration::from_secs(60), convert as Converter),
        FinalSpec {
            time_budget: Duration::from_secs(30),
        },
    )
}

/// Drives the state machine of a task as far as the messages at hand allow.
fn drive<T: StateTypes>(task: &mut RunnerTask<T>) -> Option<Result<(), RunnerError<T>>>
where
    T::State: State<T>,
{
    let messages = task.state.initialize();
    let sent = task.events.send(Either::Messages {
        from: task.id.clone(),
        messages,
    });
    assert!(sent.is_ok());
    loop {
        match task.state.advance() {
            Ok(Transition::Terminal) => return Some(Ok(())),
            Ok(Transition::Next(next)) => {
                task.state = next;
                task.feed.refresh();
            }
            Ok(Transition::Same) => match task.feed.next(Waker::noop()) {
                Poll::Ready(Some(message)) => match task.state.deliver(message) {
                    DeliveryStatus::Delivered => {}
                    DeliveryStatus::Unexpected(message) => task.feed.delay(message),
                    DeliveryStatus::Error(error) => return Some(Err(RunnerError::State(error))),
                },
                _ => return None,
            },
            Err(error) => return Some(Err(RunnerError::State(error))),
        }
    }
}

/// Drives the state machine of a task and reports its result.
fn complete<T: StateTypes>(mut task: RunnerTask<T>)
where
    T::State: State<T>,
{
    let result = drive(&mut task).expect("Messages must suffice");
    let RunnerTask {
        id, state, events, ..
    } = task;
    let sent = events.send(Either::Result {
        from: id,
        result: result.map(|()| state),
    });
    assert!(sent.is_ok());
}

fn first_task(combined: &mut Combined<Collecting, Computing, Converter>) -> RunnerTask<Collecting> {
    match combined {
        Combined::SM0 { sm, .. } => sm.take_task().expect("The task must be ready"),
        Combined::SM1 { .. } => panic!("The first state machine must be run"),
    }
}

fn second_task(combined: &mut Combined<Collecting, Computing, Converter>) -> RunnerTask<Computing> {
    match combined {
        Combined::SM0 { .. } => panic!("The second state machine must be run"),
        Combined::SM1 { sm, .. } => sm.take_task().expect("The task must be ready"),
    }
}

#[test]
fn second_machine_starts_from_what_the_first_ends_in() {
    let mut combined = combined(Box::new(Collect { u32s: Vec::new() }));
    assert!(matches!(combined.recv(Waker::noop()), Poll::Pending));
    for message in [1u32, 2, 3, 4, 5] {
        assert!(combined.takes(&CombinedIn::SM0(message)));
        assert!(!combined.takes(&CombinedIn::SM1(())));
        assert!(combined.deliver(CombinedIn::SM0(message)).is_ok());
    }
    let task = first_task(&mut combined);
    assert_eq!(task.id.display(), "[sum]");
    assert_eq!(task.time_budget, Duration::from_secs(60));
    complete(task);

    match combined.recv(Waker::noop()) {
        Poll::Ready(Some(Either::Messages {
            from,
            messages: CombinedOut::SM0(messages),
        })) => {
            assert_eq!(from.display(), "[sum]");
            assert!(messages.is_empty());
        }
        _ => panic!("Messages of the first state machine are expected"),
    }
    // The transition to the second state machine is not reported.
    assert!(matches!(combined.recv(Waker::noop()), Poll::Ready(None)));
    assert!(!combined.takes(&CombinedIn::SM0(6)));
    assert!(combined.takes(&CombinedIn::SM1(())));
    assert!(combined.deliver(CombinedIn::SM1(())).is_ok());

    let task = second_task(&mut combined);
    assert_eq!(task.id.display(), "[sum]");
    assert_eq!(task.time_budget, Duration::from_secs(30));
    assert_eq!(task.state.desc(), "Computing 15");
    complete(task);
    match combined.recv(Waker::noop()) {
        Poll::Ready(Some(Either::Messages {
            messages: CombinedOut::SM1(messages),
            ..
        })) => assert_eq!(messages, vec![15]),
        _ => panic!("Messages of the second state machine are expected"),
    }
    match combined.recv(Waker::noop()) {
        Poll::Ready(Some(Either::Result {
            from,
            result: Ok(terminal),
        })) => {
            assert_eq!(from.display(), "[sum]");
            assert_eq!(terminal.desc(), "Computing 15");
        }
        _ => panic!("The result is expected"),
    }
    // The task is gone.
    assert!(matches!(combined.recv(Waker::noop()), Poll::Ready(None)));
    assert!(matches!(
        combined.deliver(CombinedIn::SM1(())),
        Err(CombinedIn::SM1(()))
    ));
}

#[test]
fn errors_of_the_first_machine_are_passed_on() {
    let mut combined = combined(Box::new(Collect { u32s: Vec::new() }));
    assert!(combined.deliver(CombinedIn::SM0(0)).is_ok());
    let task = first_task(&mut combined);
    complete(task);
    assert!(matches!(
        combined.recv(Waker::noop()),
        Poll::Ready(Some(Either::Messages { .. }))
    ));
    assert!(matches!(
        combined.recv(Waker::noop()),
        Poll::Ready(Some(Either::Result {
            result: Err(CombinedError::SM0(RunnerError::State(0))),
            ..
        }))
    ));
    assert!(combined.takes(&CombinedIn::SM0(1)));
    assert!(matches!(
        combined.deliver(CombinedIn::SM0(7)),
        Err(CombinedIn::SM0(7))
    ));
    assert!(matches!(combined.recv(Waker::noop()), Poll::Ready(None)));
}

#[test]
fn errors_of_the_second_machine_are_passed_on() {
    let combined = combined(Box::new(Lost));
    let from = StateMachineId::from("sum");
    assert!(matches!(
        combined.handle_second(Some(Either::Result {
            from,
            result: Err(RunnerError::Timeout),
        })),
        Some(Either::Result {
            result: Err(CombinedError::SM1(RunnerError::Timeout)),
            ..
        })
    ));
    assert!(combined.handle_second(None).is_none());
}

#[test]
fn failed_conversion_is_reported() {
    let mut combined = combined(Box::new(Lost));
    let task = first_task(&mut combined);
    complete(task);
    assert!(matches!(
        combined.recv(Waker::noop()),
        Poll::Ready(Some(Either::Messages { .. }))
    ));
    match combined.recv(Waker::noop()) {
        Poll::Ready(Some(Either::Result {
            result: Err(CombinedError::ConversionError(error)),
            ..
        })) => assert_eq!(
            error.message(),
            "State machine completed in unexpected state: `Lost`. Expected: Collect"
        ),
        _ => panic!("A conversion error is expected"),
    }
    assert!(combined.takes(&CombinedIn::SM0(1)));
}

#[test]
fn conversion_error_without_details() {
    let error = ConversionError::CannotConstructNextState {
        from: "a".to_string(),
        to: "b".to_string(),
    };
    assert_eq!(error.message(), "Cannot construct `to` from `from`");
}

#[test]
fn runner_hands_over_its_task_once() {
    let budget = Duration::from_millis(5);
    let mut runner = TimeBoundStateMachineRunner::<Collecting>::new(
        StateMachineId::from("collect"),
        Box::new(Lost),
        budget,
    );
    assert!(matches!(runner.work, Work::Idle { .. }));
    assert!(runner.take_task().is_none());
    let (tx, _rx) = mpsc::unbounded_channel();
    runner.run(tx);
    assert!(matches!(runner.work, Work::Ready(_)));
    assert!(runner.deliver(3).is_ok());
    let mut task = runner.take_task().unwrap();
    assert_eq!(task.time_budget, budget);
    assert!(matches!(
        task.feed.next(Waker::noop()),
        Poll::Ready(Some(3))
    ));
    assert!(runner.take_task().is_none());
    let (tx, _rx) = mpsc::unbounded_channel();
    runner.run(tx);
    assert!(runner.take_task().is_none());
    drop(task);
    assert_eq!(runner.deliver(4), Err(4));
}

#[test]
fn started_machine_reports_to_its_receiver() {
    let (mut runner, mut rx) = start_new_sm::<Computing>(
        StateMachineId::from("compute"),
        Box::new(Compute { value: 4 }),
        Duration::from_secs(1),
    );
    let task = runner.take_task().unwrap();
    assert_eq!(task.state.desc(), "Computing 4");
    complete(task);
    assert!(matches!(rx.try_recv(), Ok(Either::Messages { messages, .. }) if messages == vec![4]));
    assert!(matches!(
        rx.try_recv(),
        Ok(Either::Result { result: Ok(_), .. })
    ));
    assert!(rx.try_recv().is_err());
}

#[test]
fn final_spec_is_cloned() {
    let spec = FinalSpec {
        time_budget: Duration::from_secs(7),
    };
    assert_eq!(spec.clone().time_budget, Duration::from_secs(7));
}
