//! States of a protocol.
pub use crate::object::{downcast, find, is};
use std::marker::PhantomData;
use vstd::prelude::*;

verus! {

/// `State` is an abstraction for any internal state of a protocol.
/// State may send out some messages at initialization and then only deliver messages in order
/// to advance to a next state.
pub trait State<Types: StateTypes> {
    /// A description of the state for a human reader.
    fn desc(&self) -> String;

    /// Messages to send out when the state is entered.
    fn initialize(&self) -> (messages: Vec<Types::Out>)
        default_ensures
            messages@ == Seq::<Types::Out>::empty(),
    {
        Vec::new()
    }

    /// Deliver a message to the state to make progress.
    /// Default implementation just returns the message marking it as Unexpected.
    fn deliver(&mut self, message: Types::In) -> (status: DeliveryStatus<Types::In, Types::Err>)
        default_ensures
            status == DeliveryStatus::<Types::In, Types::Err>::Unexpected(message),
            &*final(self) == &*old(self),
    {
        DeliveryStatus::Unexpected(message)
    }

    /// Attempts to advance the state forward.
    /// This function my accept `self: Box<Self>` and consume itself,
    /// which may seem more logical, on the other hand it shall present challenges treating
    /// self-consuming states:
    /// - all possible transitions must contain `self` even in the case when the state is not
    ///   advanceable or terminal,
    /// - in case of errors: `Types::Err` must also contain `self` to enable traceability of which
    ///   state errored.
    /// This conditions tip the scale in favor of `&self` (and thus some memory copying overhead).
    fn advance(&self) -> (transition: Result<Transition<Types>, Types::Err>);
}

/// Type bounds to use for a specific state machine.
///
/// All [State]s in the same state machine are required to be of the same [StateTypes].
pub trait StateTypes: 'static {
    /// Type of incoming messages
    type In;

    /// Type of outgoing messages
    type Out;

    /// Type of errors emitted from the state machine
    type Err;

    /// Representation of a state, e.g. `Box<dyn State<Self> + Send>`
    type State;
}

/// What has become of a message that was delivered to a state.
#[derive(Debug)]
pub enum DeliveryStatus<U, E> {
    Delivered,
    Unexpected(U),
    Error(E),
}

/// Representation of a state in the state machine over `Types`.
pub type BoxedState<Types> = <Types as StateTypes>::State;

/// Where a state machine goes from a state.
pub enum Transition<Types: StateTypes> {
    Same,
    Next(BoxedState<Types>),
    Terminal,
}

impl<Types: StateTypes> Transition<Types> where Types::State: State<Types> {
    /// The text that shows the transition to a human reader.
    pub fn display(&self) -> (text: String)
        ensures
            match self {
                Transition::Same => text@ == "Same"@,
                Transition::Next(state) => exists|desc: String|
                    #[trigger] call_ensures(<Types::State as State<Types>>::desc, (state,), desc)
                        && text@ == "Next: <"@ + desc@ + ">"@,
                Transition::Terminal => text@ == "Terminal"@,
            },
    {
        match self {
            Transition::Same => "Same".to_string(),
            Transition::Next(state) => {
                let desc = state.desc();
                "Next: <".to_string().concat(desc.as_str()).concat(">")
            },
            Transition::Terminal => "Terminal".to_string(),
        }
    }
}

fn forward_deliver<Types: StateTypes, S: State<Types> + ?Sized>(
    state: &mut S,
    message: Types::In,
) -> (status: DeliveryStatus<Types::In, Types::Err>)
    ensures
        exists|s: &mut S|
            #[trigger] call_ensures(S::deliver, (s, message), status) && &*s == &*old(state)
                && &*final(s) == &*final(state),
{
    state.deliver(message)
}

/// A boxed state, the box of a trait object included, behaves as the state in the box.
impl<Types: StateTypes, S: State<Types> + ?Sized> State<Types> for Box<S> {
    fn desc(&self) -> (desc: String)
        ensures
            call_ensures(S::desc, (&**self,), desc),
    {
        (**self).desc()
    }

    fn initialize(&self) -> (messages: Vec<Types::Out>)
        ensures
            call_ensures(S::initialize, (&**self,), messages),
    {
        (**self).initialize()
    }

    fn deliver(&mut self, message: Types::In) -> (status: DeliveryStatus<Types::In, Types::Err>)
        ensures
            exists|s: &mut S|
                #[trigger] call_ensures(S::deliver, (s, message), status) && &*s == &**old(self)
                    && &*final(s) == &**final(self),
    {
        forward_deliver::<Types, S>(&mut **self, message)
    }

    fn advance(&self) -> (transition: Result<Transition<Types>, Types::Err>)
        ensures
            call_ensures(S::advance, (&**self,), transition),
    {
        (**self).advance()
    }
}

/// A boxed state gives the answers of the state in the box.
pub proof fn law_box_answers_for_its_state<Types: StateTypes, S: State<Types> + ?Sized>(
    state: Box<S>,
    desc: String,
    messages: Vec<Types::Out>,
    transition: Result<Transition<Types>, Types::Err>,
)
    requires
        call_ensures(<Box<S> as State<Types>>::desc, (&state,), desc),
        call_ensures(<Box<S> as State<Types>>::initialize, (&state,), messages),
        call_ensures(<Box<S> as State<Types>>::advance, (&state,), transition),
    ensures
        call_ensures(S::desc, (&*state,), desc),
        call_ensures(S::initialize, (&*state,), messages),
        call_ensures(S::advance, (&*state,), transition),
{
}

/// A message that is delivered to a boxed state is delivered to the state in the box, which answers
/// and changes.
pub proof fn law_box_passes_messages_on<Types: StateTypes, S: State<Types> + ?Sized>(
    state: &mut Box<S>,
    message: Types::In,
    status: DeliveryStatus<Types::In, Types::Err>,
)
    requires
        call_ensures(<Box<S> as State<Types>>::deliver, (state, message), status),
    ensures
        exists|s: &mut S| #[trigger]
            call_ensures(S::deliver, (s, message), status) && &*s == &**old(state) && &*final(s)
                == &**final(state),
{
}

/// A transition is shown by what it is, and a transition to a next state also by the description of
/// that state, between angle brackets.
pub proof fn law_transition_shows_its_state<Types: StateTypes>(
    transition: &Transition<Types>,
    text: String,
) where Types::State: State<Types>
    requires
        call_ensures(Transition::<Types>::display, (transition,), text),
    ensures
        *transition is Same ==> text@ == seq!['S', 'a', 'm', 'e'],
        *transition is Terminal ==> text@ == seq!['T', 'e', 'r', 'm', 'i', 'n', 'a', 'l'],
        *transition matches Transition::Next(state) ==> exists|desc: String|
            {
                &&& #[trigger] call_ensures(
                    <Types::State as State<Types>>::desc,
                    (&state,),
                    desc,
                )
                &&& text@.len() == desc@.len() + 8
                &&& text@.take(7) == seq!['N', 'e', 'x', 't', ':', ' ', '<']
                &&& text@.subrange(7, text@.len() - 1) == desc@
                &&& text@.last() == '>'
            },
{
    reveal_strlit("Same");
    reveal_strlit("Terminal");
    reveal_strlit("Next: <");
    reveal_strlit(">");
    if let Transition::Next(state) = transition {
        let desc = choose|desc: String|
            #[trigger] call_ensures(<Types::State as State<Types>>::desc, (state,), desc) && text@
                == "Next: <"@ + desc@ + ">"@;
        assert(text@.take(7) =~= seq!['N', 'e', 'x', 't', ':', ' ', '<']);
        assert(text@.subrange(7, text@.len() - 1) =~= desc@);
    }
}

/// A state that leaves all it can to the defaults, and is terminal.
pub struct Bystander<Types: StateTypes> {
    pub types: PhantomData<Types>,
}

impl<Types: StateTypes> State<Types> for Bystander<Types> {
    fn desc(&self) -> String {
        "Bystander".to_string()
    }

    fn advance(&self) -> (transition: Result<Transition<Types>, Types::Err>)
        ensures
            transition == Ok::<Transition<Types>, Types::Err>(Transition::Terminal),
    {
        Ok(Transition::Terminal)
    }
}

/// By default a state sends out nothing when it is entered, and it hands back each message that is
/// delivered to it, unchanged as it is itself.
pub proof fn law_state_is_passive_by_default<Types: StateTypes>(
    state: &Bystander<Types>,
    messages: Vec<Types::Out>,
    message: Types::In,
    taking: &mut Bystander<Types>,
    status: DeliveryStatus<Types::In, Types::Err>,
)
    requires
        call_ensures(<Bystander<Types> as State<Types>>::initialize, (state,), messages),
        call_ensures(<Bystander<Types> as State<Types>>::deliver, (taking, message), status),
    ensures
        messages@.len() == 0,
        status matches DeliveryStatus::Unexpected(returned) && returned == message,
        *final(taking) == *old(taking),
{
}

} // verus!
