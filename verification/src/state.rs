//! States of a state machine, and what a state may do when it is driven.
use crate::StateMachineTypes;
pub use crate::object::{downcast, find, is};
use vstd::prelude::*;

verus! {

/// A state of a state machine.
///
/// Nothing is assumed of an implementation: contracts of this crate speak of
/// the outcomes that its methods may have.
pub trait State<T: StateMachineTypes> {
    /// A description of the state for a human reader.
    fn describe(&self) -> String;

    /// Messages to send out when the state is entered.
    fn initialize(&self) -> (messages: Vec<T::O>)
        default_ensures
            messages@ == Seq::<T::O>::empty(),
    {
        Vec::new()
    }

    /// Deliver a message to the state to make progress.
    /// Default implementation just returns the message marking it as unexpected.
    fn deliver(&mut self, message: T::I) -> (delivery: Delivery<T::I, T::E>)
        default_ensures
            delivery == Delivery::<T::I, T::E>::Unexpected(message),
            &*final(self) == &*old(self),
    {
        Delivery::Unexpected(message)
    }

    /// Complete all actions required for a successful [Transition] to the next state, e.g.,
    /// verify all conditions, compute extra data.
    fn prepare_advance(&mut self) -> (ready: Result<bool, Vec<T::E>>);

    /// Produce a [Transition] to the next state.
    fn advance(self: Box<Self>) -> (transition: Transition<T>);
}

/// Representation of a state in the state machine over `T`.
pub type BoxedState<T> = <T as StateMachineTypes>::S;

/// What has become of a message that was delivered to a state.
pub enum Delivery<I, E> {
    Delivered,
    Unexpected(I),
    Error(E),
}

/// Where a state machine goes from a state.
pub enum Transition<T: StateMachineTypes> {
    Next(BoxedState<T>),
    Final(BoxedState<T>),
}

/// Delivers `message` to `state` and returns what the state has become.
pub fn deliver_to<T: StateMachineTypes, S: State<T>>(state: S, message: T::I) -> (result: (
    S,
    Delivery<T::I, T::E>,
))
    ensures
        ({
            let (after, delivery) = result;
            exists|s: &mut S|
                #[trigger] call_ensures(S::deliver, (s, message), delivery) && *s == state
                    && *final(s) == after
        }),
{
    let mut state = state;
    let delivery = forward_deliver::<T, S>(&mut state, message);
    (state, delivery)
}

/// Prepares `state` for advancement and returns what the state has become.
pub fn prepare<T: StateMachineTypes, S: State<T>>(state: S) -> (result: (
    S,
    Result<bool, Vec<T::E>>,
))
    ensures
        ({
            let (after, ready) = result;
            exists|s: &mut S|
                #[trigger] call_ensures(S::prepare_advance, (s,), ready) && *s == state && *final(s)
                    == after
        }),
{
    let mut state = state;
    let ready = forward_prepare::<T, S>(&mut state);
    (state, ready)
}

fn forward_deliver<T: StateMachineTypes, S: State<T> + ?Sized>(
    state: &mut S,
    message: T::I,
) -> (delivery: Delivery<T::I, T::E>)
    ensures
        exists|s: &mut S|
            #[trigger] call_ensures(S::deliver, (s, message), delivery) && &*s == &*old(state)
                && &*final(s) == &*final(state),
{
    state.deliver(message)
}

fn forward_prepare<T: StateMachineTypes, S: State<T> + ?Sized>(state: &mut S) -> (ready: Result<
    bool,
    Vec<T::E>,
>)
    ensures
        exists|s: &mut S|
            #[trigger] call_ensures(S::prepare_advance, (s,), ready) && &*s == &*old(state)
                && &*final(s) == &*final(state),
{
    state.prepare_advance()
}

/// A boxed state, the box of a trait object included, behaves as the state in the box.
impl<T: StateMachineTypes, S: State<T> + ?Sized> State<T> for Box<S> {
    fn describe(&self) -> (description: String)
        ensures
            call_ensures(S::describe, (&**self,), description),
    {
        (**self).describe()
    }

    fn initialize(&self) -> (messages: Vec<T::O>)
        ensures
            call_ensures(S::initialize, (&**self,), messages),
    {
        (**self).initialize()
    }

    fn deliver(&mut self, message: T::I) -> (delivery: Delivery<T::I, T::E>)
        ensures
            exists|s: &mut S|
                #[trigger] call_ensures(S::deliver, (s, message), delivery) && &*s == &**old(self)
                    && &*final(s) == &**final(self),
    {
        forward_deliver::<T, S>(&mut **self, message)
    }

    fn prepare_advance(&mut self) -> (ready: Result<bool, Vec<T::E>>)
        ensures
            exists|s: &mut S|
                #[trigger] call_ensures(S::prepare_advance, (s,), ready) && &*s == &**old(self)
                    && &*final(s) == &**final(self),
    {
        forward_prepare::<T, S>(&mut **self)
    }

    fn advance(self: Box<Self>) -> (transition: Transition<T>)
        ensures
            call_ensures(S::advance, (*self,), transition),
    {
        (*self).advance()
    }
}

/// A boxed state gives the answers of the state in the box.
pub proof fn law_box_answers_for_its_state<T: StateMachineTypes, S: State<T> + ?Sized>(
    state: Box<S>,
    description: String,
    messages: Vec<T::O>,
    transition: Transition<T>,
)
    requires
        call_ensures(<Box<S> as State<T>>::describe, (&state,), description),
        call_ensures(<Box<S> as State<T>>::initialize, (&state,), messages),
        call_ensures(<Box<S> as State<T>>::advance, (Box::new(state),), transition),
    ensures
        call_ensures(S::describe, (&*state,), description),
        call_ensures(S::initialize, (&*state,), messages),
        call_ensures(S::advance, (state,), transition),
{
}

/// A message that is delivered to a boxed state is delivered to the state in the box, which answers
/// and changes; and so it is prepared for advancement.
pub proof fn law_box_passes_questions_on<T: StateMachineTypes, S: State<T> + ?Sized>(
    taking: &mut Box<S>,
    message: T::I,
    delivery: Delivery<T::I, T::E>,
    preparing: &mut Box<S>,
    ready: Result<bool, Vec<T::E>>,
)
    requires
        call_ensures(<Box<S> as State<T>>::deliver, (taking, message), delivery),
        call_ensures(<Box<S> as State<T>>::prepare_advance, (preparing,), ready),
    ensures
        exists|s: &mut S| #[trigger]
            call_ensures(S::deliver, (s, message), delivery) && &*s == &**old(taking)
                && &*final(s) == &**final(taking),
        exists|s: &mut S| #[trigger]
            call_ensures(S::prepare_advance, (s,), ready) && &*s == &**old(preparing)
                && &*final(s) == &**final(preparing),
{
}

/// A state that leaves all it can to the defaults, and gives way to `next` at once.
pub struct Bystander<T: StateMachineTypes> {
    pub next: BoxedState<T>,
}

impl<T: StateMachineTypes> State<T> for Bystander<T> {
    fn describe(&self) -> String {
        "Bystander".to_string()
    }

    fn prepare_advance(&mut self) -> (ready: Result<bool, Vec<T::E>>)
        ensures
            ready == Ok::<bool, Vec<T::E>>(true),
            *final(self) == *old(self),
    {
        Ok(true)
    }

    fn advance(self: Box<Self>) -> (transition: Transition<T>)
        ensures
            transition == Transition::<T>::Next(self.next),
    {
        let Bystander { next } = *self;
        Transition::Next(next)
    }
}

/// By default a state sends out nothing when it is entered, and it hands back each message that is
/// delivered to it, unchanged as it is itself.
pub proof fn law_state_is_passive_by_default<T: StateMachineTypes>(
    state: &Bystander<T>,
    messages: Vec<T::O>,
    taking: &mut Bystander<T>,
    message: T::I,
    delivery: Delivery<T::I, T::E>,
)
    requires
        call_ensures(<Bystander<T> as State<T>>::initialize, (state,), messages),
        call_ensures(<Bystander<T> as State<T>>::deliver, (taking, message), delivery),
    ensures
        messages@.len() == 0,
        delivery matches Delivery::Unexpected(returned) && returned == message,
        *final(taking) == *old(taking),
{
}

} // verus!
