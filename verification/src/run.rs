//! The course of a state machine: which runs its states admit.
//!
//! A state is a user's code, so what it answers is not known beforehand. The
//! predicates below say which answers are possible, in terms of the contracts
//! of the state's own methods, and what a state machine makes of them.
use crate::Event;
use crate::StateMachineTypes;
use crate::state::{Delivery, State, Transition, deliver_to, prepare};
use vstd::prelude::*;

verus! {

/// `state` may send out `messages` when it is initialized.
pub open spec fn initializes<T: StateMachineTypes>(state: T::S, messages: Vec<T::O>) -> bool where
    T::S: State<T>,
 {
    call_ensures(<T::S as State<T>>::initialize, (&state,), messages)
}

/// `state` may turn into `after` and answer `delivery` when `message` is delivered to it.
pub open spec fn delivers<T: StateMachineTypes>(
    state: T::S,
    message: T::I,
    after: T::S,
    delivery: Delivery<T::I, T::E>,
) -> bool where T::S: State<T> {
    call_ensures(deliver_to::<T, T::S>, (state, message), (after, delivery))
}

/// `state` may turn into `after` and answer `ready` when it is prepared for advancement.
pub open spec fn prepares<T: StateMachineTypes>(
    state: T::S,
    after: T::S,
    ready: Result<bool, Vec<T::E>>,
) -> bool where T::S: State<T> {
    call_ensures(prepare::<T, T::S>, (state,), (after, ready))
}

/// `state` may answer `transition` when it is advanced.
pub open spec fn advances<T: StateMachineTypes>(state: T::S, transition: Transition<T>) -> bool where
    T::S: State<T>,
 {
    call_ensures(<T::S as State<T>>::advance, (Box::new(state),), transition)
}

/// `state` may turn into `after` when `messages` are delivered to it one after another,
/// answering `deliveries[i]` to `messages[i]`.
pub open spec fn delivers_all<T: StateMachineTypes>(
    state: T::S,
    messages: Seq<T::I>,
    after: T::S,
    deliveries: Seq<Delivery<T::I, T::E>>,
) -> bool where T::S: State<T>
    decreases messages.len(),
{
    if messages.len() == 0 {
        deliveries.len() == 0 && after == state
    } else {
        &&& deliveries.len() == messages.len()
        &&& exists|before: T::S|
            delivers_all::<T>(state, messages.drop_last(), before, deliveries.drop_last())
                && #[trigger] delivers::<T>(before, messages.last(), after, deliveries.last())
    }
}

/// One more delivery continues a course of deliveries.
pub proof fn lemma_delivers_one_more<T: StateMachineTypes>(
    state: T::S,
    messages: Seq<T::I>,
    before: T::S,
    deliveries: Seq<Delivery<T::I, T::E>>,
    message: T::I,
    after: T::S,
    delivery: Delivery<T::I, T::E>,
) where T::S: State<T>
    requires
        delivers_all::<T>(state, messages, before, deliveries),
        delivers::<T>(before, message, after, delivery),
    ensures
        delivers_all::<T>(state, messages.push(message), after, deliveries.push(delivery)),
{
    let ms = messages.push(message);
    let ds = deliveries.push(delivery);
    assert(ms.drop_last() =~= messages);
    assert(ds.drop_last() =~= deliveries);
    assert(delivers::<T>(before, ms.last(), after, ds.last()));
}

/// The messages that were returned as unexpected, in the order of delivery.
pub open spec fn unexpected<I, E>(deliveries: Seq<Delivery<I, E>>) -> Seq<I>
    decreases deliveries.len(),
{
    if deliveries.len() == 0 {
        Seq::empty()
    } else {
        match deliveries.last() {
            Delivery::Unexpected(message) => unexpected(deliveries.drop_last()).push(message),
            _ => unexpected(deliveries.drop_last()),
        }
    }
}

/// The errors that deliveries have caused, in the order of delivery.
pub open spec fn errors<I, E>(deliveries: Seq<Delivery<I, E>>) -> Seq<E>
    decreases deliveries.len(),
{
    if deliveries.len() == 0 {
        Seq::empty()
    } else {
        match deliveries.last() {
            Delivery::Error(error) => errors(deliveries.drop_last()).push(error),
            _ => errors(deliveries.drop_last()),
        }
    }
}

/// An active state machine between two steps.
pub struct Snapshot<T: StateMachineTypes> {
    /// The current state.
    pub state: T::S,
    /// Whether the current state has been initialized.
    pub initialized: bool,
    /// The buffered messages.
    pub buffer: Seq<T::I>,
}

/// What is left of an active state machine when it has come to a halt.
pub struct Rest<T: StateMachineTypes> {
    /// The current state, unless it is given away at completion.
    pub state: Option<T::S>,
    /// Whether the current state has been initialized.
    pub initialized: bool,
    /// The buffered messages.
    pub buffer: Seq<T::I>,
}

/// Why an active state machine has come to a halt.
pub enum Halt<T: StateMachineTypes> {
    /// There is an event to report.
    Report(Event<T>),
    /// The buffered messages are insufficient to advance the current state.
    Starve,
}

/// The current state is initialized, or has nothing to send out when it is.
pub open spec fn is_silent<T: StateMachineTypes>(now: Snapshot<T>) -> bool where T::S: State<T> {
    now.initialized || exists|messages: Vec<T::O>|
        #[trigger] initializes::<T>(now.state, messages) && messages@.len() == 0
}

/// The buffered messages may be delivered to the current state with the answers
/// `deliveries`, the state being `after` then.
pub open spec fn digests<T: StateMachineTypes>(
    now: Snapshot<T>,
    after: T::S,
    deliveries: Seq<Delivery<T::I, T::E>>,
) -> bool where T::S: State<T> {
    is_silent(now) && delivers_all::<T>(now.state, now.buffer, after, deliveries)
}

/// The current state may halt the machine by sending out messages at its initialization.
/// It stays the current state and is not initialized again.
pub open spec fn halts_with_output<T: StateMachineTypes>(
    now: Snapshot<T>,
    halt: Halt<T>,
    rest: Rest<T>,
) -> bool where T::S: State<T> {
    &&& !now.initialized
    &&& halt matches Halt::Report(Event::Output(messages))
    &&& messages@.len() > 0
    &&& initializes::<T>(now.state, messages)
    &&& rest == (Rest::<T> { state: Some(now.state), initialized: true, buffer: now.buffer })
}

/// Deliveries may halt the machine with errors. All errors are reported, and the state is
/// kept; none of the messages is offered again.
pub open spec fn halts_on_delivery<T: StateMachineTypes>(
    now: Snapshot<T>,
    halt: Halt<T>,
    rest: Rest<T>,
) -> bool where T::S: State<T> {
    exists|after: T::S, deliveries: Seq<Delivery<T::I, T::E>>|
        {
            &&& #[trigger] digests(now, after, deliveries)
            &&& errors(deliveries).len() > 0
            &&& halt matches Halt::Report(Event::Error(reported))
            &&& reported@ == errors(deliveries)
            &&& rest == (Rest::<T> { state: Some(after), initialized: true, buffer: Seq::empty() })
        }
}

/// With all buffered messages delivered without an error, the current state may become
/// `after`, be asked whether it can advance and answer `ready`; `buffer` is what it did
/// not expect.
pub open spec fn is_asked<T: StateMachineTypes>(
    now: Snapshot<T>,
    buffer: Seq<T::I>,
    after: T::S,
    ready: Result<bool, Vec<T::E>>,
) -> bool where T::S: State<T> {
    exists|before: T::S, deliveries: Seq<Delivery<T::I, T::E>>|
        {
            &&& #[trigger] digests(now, before, deliveries)
            &&& errors(deliveries).len() == 0
            &&& buffer == unexpected(deliveries)
            &&& prepares::<T>(before, after, ready)
        }
}

/// The current state may turn out to be ready to advance, having become `after`;
/// `buffer` is what it did not expect.
pub open spec fn is_ready<T: StateMachineTypes>(
    now: Snapshot<T>,
    buffer: Seq<T::I>,
    after: T::S,
) -> bool where T::S: State<T> {
    is_asked(now, buffer, after, Ok(true))
}

/// Preparation for advancement may halt the machine with errors. The state is kept together
/// with the messages it did not expect.
pub open spec fn halts_on_preparation<T: StateMachineTypes>(
    now: Snapshot<T>,
    halt: Halt<T>,
    rest: Rest<T>,
) -> bool where T::S: State<T> {
    &&& halt matches Halt::Report(Event::Error(reported))
    &&& rest.initialized
    &&& rest.state matches Some(after)
    &&& is_asked(now, rest.buffer, after, Err(reported))
}

/// The machine may starve: the current state cannot advance with the messages
/// delivered so far. It is kept together with the messages it did not expect.
pub open spec fn halts_by_starving<T: StateMachineTypes>(
    now: Snapshot<T>,
    halt: Halt<T>,
    rest: Rest<T>,
) -> bool where T::S: State<T> {
    &&& halt is Starve
    &&& rest.initialized
    &&& rest.state matches Some(after)
    &&& is_asked(now, rest.buffer, after, Ok(false))
}

/// The current state may advance to the final state `state`; `buffer` is what it did not expect.
pub open spec fn completes<T: StateMachineTypes>(
    now: Snapshot<T>,
    state: T::S,
    buffer: Seq<T::I>,
) -> bool where T::S: State<T> {
    exists|last: T::S|
        #[trigger] is_ready(now, buffer, last) && advances::<T>(last, Transition::Final(state))
}

/// The machine may complete: the current state advances to a final one, which is
/// given away together with the messages that no state has consumed.
pub open spec fn halts_with_completion<T: StateMachineTypes>(
    now: Snapshot<T>,
    halt: Halt<T>,
    rest: Rest<T>,
) -> bool where T::S: State<T> {
    &&& halt matches Halt::Report(Event::Completion { state, buffer })
    &&& rest == (Rest::<T> { state: None, initialized: true, buffer: Seq::empty() })
    &&& completes(now, state, buffer@)
}

/// The machine may halt in its current state for the reason `halt`, leaving `rest`.
pub open spec fn halts<T: StateMachineTypes>(
    now: Snapshot<T>,
    halt: Halt<T>,
    rest: Rest<T>,
) -> bool where T::S: State<T> {
    ||| halts_with_output(now, halt, rest)
    ||| halts_on_delivery(now, halt, rest)
    ||| halts_on_preparation(now, halt, rest)
    ||| halts_by_starving(now, halt, rest)
    ||| halts_with_completion(now, halt, rest)
}

/// The machine may advance from its current state to the next one, which is yet to
/// be initialized and is offered the messages that the current state did not expect.
pub open spec fn moves<T: StateMachineTypes>(now: Snapshot<T>, next: Snapshot<T>) -> bool where
    T::S: State<T>,
 {
    &&& !next.initialized
    &&& exists|last: T::S|
        #[trigger] is_ready(now, next.buffer, last) && advances::<T>(
            last,
            Transition::Next(next.state),
        )
}

/// The machine may get from `start` to `now` in `steps` transitions.
pub open spec fn reaches<T: StateMachineTypes>(
    start: Snapshot<T>,
    steps: nat,
    now: Snapshot<T>,
) -> bool where T::S: State<T>
    decreases steps,
{
    if steps == 0 {
        now == start
    } else {
        exists|before: Snapshot<T>|
            reaches(start, (steps - 1) as nat, before) && #[trigger] moves(before, now)
    }
}

/// Started from `start`, the machine may halt for the reason `turn` after fewer than
/// `budget` transitions and leave `rest`, or still go on after `budget` transitions,
/// `rest` being what it has got to.
pub open spec fn turns<T: StateMachineTypes>(
    start: Snapshot<T>,
    budget: nat,
    turn: Option<Halt<T>>,
    rest: Rest<T>,
) -> bool where T::S: State<T> {
    match turn {
        Some(halt) => exists|steps: nat, now: Snapshot<T>|
            steps < budget && #[trigger] reaches(start, steps, now) && halts(now, halt, rest),
        None => {
            &&& rest.state matches Some(state)
            &&& reaches(
                start,
                budget,
                Snapshot::<T> { state, initialized: rest.initialized, buffer: rest.buffer },
            )
        },
    }
}

} // verus!
