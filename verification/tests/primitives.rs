use downcast_rs::Downcast;
use oblivious_state_machine::primitives::state::{
    downcast, is, DeliveryStatus, State, StateTypes, Transition,
};
use std::collections::VecDeque;

struct Types;
impl StateTypes for Types {
    type In = Incoming;
    type Out = ();
    type Err = String;
    type State = Box<dyn ProtocolState>;
}

trait ProtocolState: State<Types> + Downcast {}

impl<S: State<Types> + Downcast> ProtocolState for S {}

#[allow(dead_code)]
#[derive(Debug)]
enum Incoming {
    P1,
    P2(()),
    P3,
}

#[derive(Debug)]
pub(crate) struct Initialization;

impl State<Types> for Initialization {
    fn desc(&self) -> String {
        "Initialization".to_string()
    }

    fn deliver(
        &mut self,
        message: Incoming,
    ) -> DeliveryStatus<Incoming, <Types as StateTypes>::Err> {
        match message {
            Incoming::P1 => DeliveryStatus::Delivered,
            _ => DeliveryStatus::Unexpected(message),
        }
    }

    fn advance(&self) -> Result<Transition<Types>, <Types as StateTypes>::Err> {
        Ok(Transition::<Types>::Next(Box::new(Process::new())))
    }
}

#[derive(Debug, Eq, PartialEq)]
pub(crate) struct Process {
    messages: Vec<()>,
}

impl Process {
    pub fn new() -> Self {
        Self {
            messages: Vec::new(),
        }
    }

    fn _deliver(&mut self, message: ()) -> Result<(), String> {
        if self.messages.len() < 2 {
            self.messages.push(message);
            Ok(())
        } else {
            Err("I only need 2 messages".to_string())
        }
    }
}

impl State<Types> for Process {
    fn desc(&self) -> String {
        "Processing".to_string()
    }

    fn deliver(
        &mut self,
        message: Incoming,
    ) -> DeliveryStatus<Incoming, <Types as StateTypes>::Err> {
        match message {
            Incoming::P2(m) => match self._deliver(m) {
                Ok(_) => DeliveryStatus::Delivered,
                Err(err) => DeliveryStatus::Error(err),
            },
            _ => DeliveryStatus::Unexpected(message),
        }
    }

    fn advance(&self) -> Result<Transition<Types>, <Types as StateTypes>::Err> {
        println!("Attempting to advance: #(msg): {}", self.messages.len());
        Ok(if self.messages.len() == 2 {
            println!("Advancing");
            Transition::<Types>::Next(Box::new(Finish))
        } else {
            Transition::Same
        })
    }
}

#[derive(Debug)]
pub(crate) struct Finish;

impl State<Types> for Finish {
    fn desc(&self) -> String {
        "Finishing".to_string()
    }

    fn deliver(
        &mut self,
        _message: Incoming,
    ) -> DeliveryStatus<Incoming, <Types as StateTypes>::Err> {
        DeliveryStatus::Error("Not accepting messages".to_string())
    }

    fn advance(&self) -> Result<Transition<Types>, <Types as StateTypes>::Err> {
        Ok(Transition::Terminal)
    }
}

/// A state that implements nothing it does not have to.
struct Idle;

impl State<Types> for Idle {
    fn desc(&self) -> String {
        "Idle".to_string()
    }

    fn advance(&self) -> Result<Transition<Types>, <Types as StateTypes>::Err> {
        Err("Nothing to do".to_string())
    }
}

#[test]
fn advance_through_3_states() -> Result<(), String> {
    let mut feed = VecDeque::from([Incoming::P2(()), Incoming::P2(())]);

    let state: Box<dyn ProtocolState> = Box::new(Initialization);

    let mut prev = state;
    let mut is_initiated = false;
    let _next = loop {
        if !is_initiated {
            prev.initialize();
            is_initiated = true;
        }

        match prev
            .advance()
            .unwrap_or_else(|_| panic!("All states must be advancable"))
        {
            Transition::Same => {
                let _ = prev.deliver(feed.pop_front().expect("Queue must be sufficiently long"));
            }
            Transition::Next(next) => {
                is_initiated = false;
                prev = next;
            }
            Transition::Terminal => break prev,
        };
    };

    Ok(())
}

#[test]
fn defaults_expect_no_message() {
    let mut idle: Box<dyn ProtocolState> = Box::new(Idle);
    assert!(idle.initialize().is_empty());
    assert!(matches!(
        idle.deliver(Incoming::P3),
        DeliveryStatus::Unexpected(Incoming::P3)
    ));
    assert!(matches!(idle.advance(), Err(error) if error == "Nothing to do"));
    let mut process: Box<dyn ProtocolState> = Box::new(Process::new());
    assert!(matches!(
        process.deliver(Incoming::P2(())),
        DeliveryStatus::Delivered
    ));
    assert!(matches!(process.advance(), Ok(Transition::Same)));
}

#[test]
fn transitions_are_shown() {
    assert_eq!(Transition::<Types>::Same.display(), "Same");
    assert_eq!(Transition::<Types>::Terminal.display(), "Terminal");
    assert_eq!(
        Transition::<Types>::Next(Box::new(Process::new())).display(),
        "Next: <Processing>"
    );
}

#[test]
fn protocol_states_can_be_downcast() {
    let state: Box<dyn ProtocolState> = Box::new(Process { messages: vec![()] });
    assert!(!is::<dyn ProtocolState, Finish>(&*state));
    match downcast::<dyn ProtocolState, Process>(state) {
        Ok(process) => assert_eq!(*process, Process { messages: vec![()] }),
        Err(_) => panic!("The state is `Process`"),
    }
}
