//! An order state machine.
//! Item's lifecycle
//! OnDisplay -(PlaceOrder)-> Placed -(Verify)-> Verified -(FinalConfirmation)-> Shipped
//!                ↳(Cancel)-> Canceled             ↳(Cancel)-> Canceled
use downcast_rs::Downcast;
use oblivious_state_machine::state::{downcast, find, is, Delivery, State, Transition};
use oblivious_state_machine::state_machine::{StateMachine, StateMachineId};
use oblivious_state_machine::task::Poll;
use oblivious_state_machine::{Event, StateMachineTypes};
use std::collections::VecDeque;
use std::future::poll_fn;
use std::sync::atomic::{AtomicUsize, Ordering};
use std::sync::Arc;
use std::task::{Wake, Waker};
use tokio::sync::mpsc;

struct Types;

trait OrderState: State<Types> + Downcast + Send {}

impl<S: State<Types> + Downcast + Send> OrderState for S {}

type Boxed = Box<dyn OrderState>;

impl StateMachineTypes for Types {
    type I = Message;
    type O = ();
    type E = String;
    type S = Boxed;
    type P = Box<dyn Fn(&StateMachineId, &mut Vec<Message>) -> Option<Boxed> + Send>;
}

#[derive(Debug, PartialEq)]
enum Message {
    SetOnDisplay,
    PlaceOrder,
    Damage,
    Verify(Verify),
    FinalConfirmation,
    Cancel,
}

#[derive(Debug, PartialEq)]
enum Verify {
    Address,
    PaymentDetails,
}

// `OnDisplay` state ===========
#[derive(Debug)]
struct OnDisplay {
    is_ordered: bool,
    is_broken: bool,
}

impl OnDisplay {
    fn new() -> Self {
        Self {
            is_ordered: false,
            is_broken: false,
        }
    }
}

impl State<Types> for OnDisplay {
    fn describe(&self) -> String {
        "OnDisplay".to_string()
    }

    fn deliver(&mut self, message: Message) -> Delivery<Message, String> {
        match message {
            Message::PlaceOrder => self.is_ordered = true,
            Message::Damage => self.is_broken = true,
            _ => return Delivery::Unexpected(message),
        }
        Delivery::Delivered
    }

    fn prepare_advance(&mut self) -> Result<bool, Vec<String>> {
        if self.is_broken {
            return Err(vec!["Item is damaged".to_string()]);
        }

        Ok(self.is_ordered)
    }

    fn advance(self: Box<Self>) -> Transition<Types> {
        Transition::<Types>::Next(Box::new(Placed::new()))
    }
}
// ========================

// `Placed` state ===========
#[derive(Debug)]
struct Placed {
    is_address_present: bool,
    is_payment_ok: bool,
    is_canceled: bool,
}

impl Placed {
    fn new() -> Self {
        Self {
            is_address_present: false,
            is_payment_ok: false,
            is_canceled: false,
        }
    }
}

impl State<Types> for Placed {
    fn describe(&self) -> String {
        "Placed".to_string()
    }

    fn deliver(&mut self, message: Message) -> Delivery<Message, String> {
        match message {
            Message::Cancel => self.is_canceled = true,
            Message::Verify(Verify::Address) => self.is_address_present = true,
            Message::Verify(Verify::PaymentDetails) => self.is_payment_ok = true,
            _ => return Delivery::Unexpected(message),
        }

        Delivery::Delivered
    }

    fn prepare_advance(&mut self) -> Result<bool, Vec<String>> {
        if self.is_payment_ok && self.is_address_present {
            return Ok(true);
        }

        if self.is_canceled {
            return Ok(true);
        }

        Ok(false)
    }

    fn advance(self: Box<Self>) -> Transition<Types> {
        if self.is_canceled {
            Transition::<Types>::Final(Box::new(Canceled))
        } else {
            Transition::<Types>::Next(Box::new(Verified::new()))
        }
    }
}
// ========================

// `Verified` state ===========
#[derive(Debug)]
struct Verified {
    is_canceled: bool,
    is_confirmed: bool,
}

impl Verified {
    fn new() -> Self {
        Self {
            is_canceled: false,
            is_confirmed: false,
        }
    }
}

impl State<Types> for Verified {
    fn describe(&self) -> String {
        "Verified".to_string()
    }

    fn deliver(&mut self, message: Message) -> Delivery<Message, String> {
        match message {
            Message::Cancel => self.is_canceled = true,
            Message::FinalConfirmation => self.is_confirmed = true,
            _ => return Delivery::Unexpected(message),
        }

        Delivery::Delivered
    }

    fn prepare_advance(&mut self) -> Result<bool, Vec<String>> {
        if self.is_canceled {
            return Ok(true);
        }

        Ok(self.is_confirmed)
    }

    fn advance(self: Box<Self>) -> Transition<Types> {
        if self.is_canceled {
            Transition::<Types>::Next(Box::new(Canceled))
        } else {
            Transition::<Types>::Next(Box::new(Shipped))
        }
    }
}
// ========================

// `Shipped` state ===========
#[derive(Debug)]
struct Shipped;

impl State<Types> for Shipped {
    fn describe(&self) -> String {
        "Shipped".to_string()
    }

    fn prepare_advance(&mut self) -> Result<bool, Vec<String>> {
        Ok(true)
    }

    fn advance(self: Box<Self>) -> Transition<Types> {
        Transition::<Types>::Final(self)
    }
}
// ========================

// `Canceled` state ===========
#[derive(Debug)]
struct Canceled;

impl State<Types> for Canceled {
    fn describe(&self) -> String {
        "Canceled".to_string()
    }

    fn prepare_advance(&mut self) -> Result<bool, Vec<String>> {
        Ok(true)
    }

    fn advance(self: Box<Self>) -> Transition<Types> {
        Transition::<Types>::Final(self)
    }
}
// ========================

#[test]
fn future_use() {
    let runtime = tokio::runtime::Builder::new_current_thread()
        .build()
        .unwrap();

    runtime.block_on(async {
        let (mut messages, mut state_machine) = get_test_setup();

        let (message_tx, mut message_rx) = mpsc::channel(10);

        let handle = tokio::spawn(poll_fn(move |cx| loop {
            match state_machine.poll_next(cx.waker()) {
                Poll::Ready(Some(Event::Completion { state, buffer })) => {
                    // No new event must be produced by the state machine.
                    assert!(matches!(
                        state_machine.poll_next(cx.waker()),
                        Poll::Ready(None)
                    ));

                    return std::task::Poll::Ready((state, buffer));
                }
                Poll::Ready(Some(Event::Output(_output))) => panic!("No output is expected"),
                Poll::Ready(Some(Event::Error(errors))) => {
                    panic!("Inner state of the state machine is inconsistent: {errors:?}")
                }
                Poll::Ready(None) => panic!("The machine must complete"),
                Poll::Pending => match message_rx.poll_recv(cx) {
                    std::task::Poll::Ready(Some(m)) => state_machine.deliver(m),
                    std::task::Poll::Ready(None) => panic!("More messages are expected"),
                    std::task::Poll::Pending => return std::task::Poll::Pending,
                },
            }
        }));

        // Emulate a message sender.
        tokio::spawn(async move {
            while let Some(m) = messages.pop_front() {
                message_tx.send(m).await.expect("Message must be sent");
            }
        });

        let (terminal, buffer): (Boxed, _) = handle.await.unwrap();
        assert!(buffer.is_empty());
        assert!(is::<dyn OrderState, Shipped>(&*terminal));
    });
}

fn producer() -> <Types as StateMachineTypes>::P {
    Box::new(|_id, messages| {
        if let Some(pos) = messages
            .iter()
            .position(|m| matches!(m, Message::SetOnDisplay))
        {
            let _ = messages.remove(pos);
            return Some(Box::new(OnDisplay::new()) as Boxed);
        }

        None
    })
}

fn get_test_setup() -> (VecDeque<Message>, StateMachine<Types>) {
    // Messages in random order.
    let mut messages = VecDeque::from([
        Message::Verify(Verify::Address),
        Message::FinalConfirmation,
        Message::SetOnDisplay,
        Message::PlaceOrder,
        Message::Verify(Verify::PaymentDetails),
    ]);

    let state_machine = StateMachine::<Types>::new_with_message(
        StateMachineId("Order".to_string()),
        messages.pop_front().unwrap(),
        producer(),
    );
    (messages, state_machine)
}

/// Counts how often a task is woken.
struct Alarm(AtomicUsize);

impl Wake for Alarm {
    fn wake(self: Arc<Self>) {
        self.0.fetch_add(1, Ordering::SeqCst);
    }
}

fn alarm() -> (Arc<Alarm>, Waker) {
    let alarm = Arc::new(Alarm(AtomicUsize::new(0)));
    (alarm.clone(), Waker::from(alarm))
}

fn rings(alarm: &Alarm) -> usize {
    alarm.0.load(Ordering::SeqCst)
}

fn named(name: &str) -> StateMachineId {
    StateMachineId::from(name)
}

#[test]
fn producer_waits_for_the_message_it_needs() {
    let (alarm, waker) = alarm();
    let mut machine: StateMachine<Types> = StateMachine::<Types>::new(named("Order"), producer());
    assert!(matches!(machine.poll(&waker), Poll::Pending));
    machine.deliver(Message::PlaceOrder);
    assert_eq!(rings(&alarm), 1);
    assert!(matches!(machine.poll(&waker), Poll::Pending));
    machine.deliver(Message::SetOnDisplay);
    assert_eq!(rings(&alarm), 2);
    // The item is placed and waits for verification.
    assert!(matches!(machine.poll(&waker), Poll::Pending));
    machine.deliver(Message::Cancel);
    assert_eq!(rings(&alarm), 3);
    match machine.poll(&waker) {
        Poll::Ready(Ok(Event::Completion { state, buffer })) => {
            assert_eq!(state.describe(), "Canceled");
            assert!(buffer.is_empty());
        }
        _ => panic!("The order must be canceled"),
    }
}

#[test]
fn waker_is_woken_once() {
    let (alarm, waker) = alarm();
    let mut machine: StateMachine<Types> = StateMachine::<Types>::new(named("Order"), producer());
    machine.deliver(Message::PlaceOrder);
    assert_eq!(rings(&alarm), 0);
    assert!(matches!(machine.poll(&waker), Poll::Pending));
    machine.deliver(Message::Cancel);
    machine.deliver(Message::Damage);
    assert_eq!(rings(&alarm), 1);
    assert!(matches!(machine.poll(&waker), Poll::Pending));
    match machine.accept(Message::FinalConfirmation) {
        Some(saved) => assert!(saved.will_wake(&waker)),
        None => panic!("A task is waiting"),
    }
    assert_eq!(rings(&alarm), 1);
    assert!(machine.accept(Message::FinalConfirmation).is_none());
}

#[test]
fn left_over_messages_keep_their_order() {
    let (_, waker) = alarm();
    let mut machine: StateMachine<Types> =
        StateMachine::<Types>::new_with_state(named("Order"), Box::new(Placed::new()));
    machine.deliver(Message::FinalConfirmation);
    machine.deliver(Message::Damage);
    machine.deliver(Message::Cancel);
    machine.deliver(Message::PlaceOrder);
    match machine.poll_next(&waker) {
        Poll::Ready(Some(Event::Completion { state, buffer })) => {
            assert!(is::<dyn OrderState, Canceled>(&*state));
            assert_eq!(
                buffer,
                vec![
                    Message::FinalConfirmation,
                    Message::Damage,
                    Message::PlaceOrder
                ]
            );
        }
        _ => panic!("The order must be canceled"),
    }
}

#[test]
fn failed_preparation_is_reported_and_keeps_the_state() {
    let (alarm, waker) = alarm();
    let mut machine =
        StateMachine::<Types>::new_with_state(named("Order"), Box::new(OnDisplay::new()));
    machine.deliver(Message::Damage);
    // The item stays on display, damaged as it is.
    for _ in 0..3 {
        match machine.poll(&waker) {
            Poll::Ready(Ok(Event::Error(errors))) => {
                assert_eq!(errors, vec!["Item is damaged".to_string()])
            }
            _ => panic!("The damage must be reported"),
        }
        machine.deliver(Message::PlaceOrder);
    }
    assert_eq!(rings(&alarm), 0);
}

#[test]
fn terminated_machine_stays_terminated() {
    let (_, waker) = alarm();
    let mut machine: StateMachine<Types> =
        StateMachine::<Types>::new_with_state(named("Order"), Box::new(Shipped));
    assert!(matches!(
        machine.poll(&waker),
        Poll::Ready(Ok(Event::Completion { .. }))
    ));
    machine.deliver(Message::Cancel);
    match machine.poll(&waker) {
        Poll::Ready(Err(error)) => {
            assert_eq!(error.message(), "[Order] terminated and cannot be polled")
        }
        _ => panic!("The machine must be terminated"),
    }
    assert!(matches!(machine.poll_next(&waker), Poll::Ready(None)));
}

#[test]
fn message_at_creation_is_delivered() {
    let (_, waker) = alarm();
    let mut one: StateMachine<Types> =
        StateMachine::<Types>::new_with_message(named("Order"), Message::SetOnDisplay, producer());
    let mut other: StateMachine<Types> = StateMachine::<Types>::new(named("Order"), producer());
    other.deliver(Message::SetOnDisplay);
    for machine in [&mut one, &mut other] {
        assert!(matches!(machine.poll(&waker), Poll::Pending));
        machine.deliver(Message::Damage);
        assert!(matches!(
            machine.poll(&waker),
            Poll::Ready(Ok(Event::Error(_)))
        ));
    }
}

#[test]
fn downcast_gives_the_concrete_state() {
    let placed = Placed {
        is_address_present: true,
        is_payment_ok: false,
        is_canceled: false,
    };
    let state: Boxed = Box::new(placed);
    assert!(is::<dyn OrderState, Placed>(&*state));
    assert!(!is::<dyn OrderState, Shipped>(&*state));
    match downcast::<dyn OrderState, Shipped>(state) {
        Ok(_) => panic!("The state is not `Shipped`"),
        Err(state) => match downcast::<dyn OrderState, Placed>(state) {
            Ok(placed) => {
                assert!(placed.is_address_present);
                assert!(!placed.is_payment_ok);
            }
            Err(_) => panic!("The state is `Placed`"),
        },
    }
}

#[test]
fn downcast_agrees_with_earlier_type_tests() {
    let state: Boxed = Box::new(Placed {
        is_address_present: false,
        is_payment_ok: true,
        is_canceled: false,
    });
    assert!(find::<dyn OrderState, Shipped>(&*state).is_none());
    let answer = is::<dyn OrderState, Placed>(&*state);
    let found = match find::<dyn OrderState, Placed>(&*state) {
        Some(placed) => (placed.is_address_present, placed.is_payment_ok, placed.is_canceled),
        None => panic!("The state is `Placed`"),
    };
    assert_eq!(found, (false, true, false));
    match downcast::<dyn OrderState, Placed>(state) {
        Ok(placed) => {
            assert!(answer);
            assert_eq!(
                (placed.is_address_present, placed.is_payment_ok, placed.is_canceled),
                found
            );
        }
        Err(_) => panic!("The state is `Placed`"),
    }
}

#[test]
fn id_is_shown_in_brackets() {
    assert_eq!(named("Order").display(), "[Order]");
    assert_eq!(named("Order").clone().0, "Order");
}
