//! The state machine itself.
use crate::Event;
use crate::StateMachineTypes;
use crate::run::{
    Halt, Rest, Snapshot, delivers_all, digests, errors, initializes, is_asked, is_ready,
    lemma_delivers_one_more, moves, reaches, turns, unexpected,
};
use crate::state::{BoxedState, Delivery, State, Transition, deliver_to, prepare};
use crate::task::Poll;
use std::task::Waker;
use vstd::prelude::*;

verus! {

/// State machine ID
#[derive(Debug)]
pub struct StateMachineId(pub String);

impl StateMachineId {
    /// The text that identifies the machine to a human reader.
    pub fn display(&self) -> (text: String)
        ensures
            text@ == "["@ + self.0@ + "]"@,
    {
        "[".to_string().concat(self.0.as_str()).concat("]")
    }
}

impl Clone for StateMachineId {
    fn clone(&self) -> (id: Self)
        ensures
            id == *self,
    {
        StateMachineId(self.0.clone())
    }
}

impl From<&str> for StateMachineId {
    fn from(value: &str) -> (id: Self)
        ensures
            id.0@ == value@,
    {
        StateMachineId(value.to_string())
    }
}

impl vstd::std_specs::convert::FromSpecImpl<&str> for StateMachineId {
    open spec fn obeys_from_spec() -> bool {
        false
    }

    open spec fn from_spec(value: &str) -> Self {
        arbitrary()
    }
}

/// Why a state machine cannot be polled.
#[derive(Debug)]
pub enum StateMachineError {
    /// The machine has produced its final result.
    PolledTerminated(StateMachineId),
}

impl StateMachineError {
    /// The text that explains the error to a human reader.
    pub fn message(&self) -> (text: String)
        ensures
            match self {
                StateMachineError::PolledTerminated(id) => text@ == "["@ + id.0@ + "]"@
                    + " terminated and cannot be polled"@,
            },
    {
        match self {
            StateMachineError::PolledTerminated(id) => {
                id.display().concat(" terminated and cannot be polled")
            },
        }
    }
}

/// Function that attempts to construct the initial state by looking at all buffered messages,
/// it may happen that one or more messages must be removed when constructing the initial state.
/// `Vec` is used instead of a slice to provide access to `Vec` specific methods, such as `remove`,
/// `retain`, etc.
pub type StateProducer<T> = <T as StateMachineTypes>::P;

/// `Pending` state of the state machine.
pub(crate) struct Pending<T: StateMachineTypes> {
    pub(crate) producer: StateProducer<T>,
}

/// The producer can be called with any ID and any messages.
pub open spec fn is_total<T: StateMachineTypes>(producer: StateProducer<T>) -> bool where
    T::P: Fn(&StateMachineId, &mut Vec<T::I>) -> Option<T::S>,
 {
    forall|id: &StateMachineId, messages: &mut Vec<T::I>| #[trigger]
        call_requires(producer, (id, messages))
}

/// Attempts to construct the initial state from `messages`. Returns the messages that are left.
pub fn produce<T: StateMachineTypes>(
    producer: &StateProducer<T>,
    id: &StateMachineId,
    messages: Vec<T::I>,
) -> (result: (Vec<T::I>, Option<T::S>)) where
    T::P: Fn(&StateMachineId, &mut Vec<T::I>) -> Option<T::S>,

    requires
        is_total::<T>(*producer),
    ensures
        ({
            let (left, state) = result;
            exists|m: &mut Vec<T::I>|
                #[trigger] call_ensures(*producer, (id, m), state) && *m == messages && *final(m)
                    == left
        }),
{
    let mut messages = messages;
    let state = producer(id, &mut messages);
    (messages, state)
}

/// The producer may turn `messages` into `left` and answer `state`.
pub open spec fn produces<T: StateMachineTypes>(
    producer: StateProducer<T>,
    id: StateMachineId,
    messages: Seq<T::I>,
    left: Seq<T::I>,
    state: Option<T::S>,
) -> bool where T::P: Fn(&StateMachineId, &mut Vec<T::I>) -> Option<T::S> {
    exists|before: Vec<T::I>, after: Vec<T::I>|
        before@ == messages && after@ == left && #[trigger] call_ensures(
            produce::<T>,
            (&producer, &id, before),
            (after, state),
        )
}

impl<T: StateMachineTypes> Pending<T> where
    T::P: Fn(&StateMachineId, &mut Vec<T::I>) -> Option<T::S>,
 {
    /// Checks if the current set of messages is sufficient to produce an initial state.
    pub(crate) fn poll(&mut self, id: &StateMachineId, buffer: &mut Vec<T::I>) -> (poll: Poll<
        Active<T>,
    >)
        requires
            is_total::<T>(old(self).producer),
        ensures
            final(self).producer == old(self).producer,
            match poll {
                Poll::Ready(active) => !active.is_state_initialized && active.state is Some
                    && produces::<T>(
                    old(self).producer,
                    *id,
                    old(buffer)@,
                    final(buffer)@,
                    active.state,
                ),
                Poll::Pending => produces::<T>(
                    old(self).producer,
                    *id,
                    old(buffer)@,
                    final(buffer)@,
                    None,
                ),
            },
    {
        let mut messages: Vec<T::I> = Vec::new();
        std::mem::swap(buffer, &mut messages);
        let (left, state) = produce::<T>(&self.producer, id, messages);
        *buffer = left;
        if let Some(state) = state {
            Poll::Ready(Active { is_state_initialized: false, state: Some(state) })
        } else {
            Poll::Pending
        }
    }
}

/// `Active` state of the state machine.
pub(crate) struct Active<T: StateMachineTypes> {
    pub(crate) is_state_initialized: bool,
    /// Current `State` of this state machine.
    /// `Option` is required to easier consume/advance the state when it is possible.
    pub(crate) state: Option<BoxedState<T>>,
}

/// How many transitions a state machine makes in one poll before it yields to other tasks.
/// No program lives to make that many; the bound is there so that every poll ends.
pub const TRANSITION_BUDGET: u64 = 0xffff_ffff_ffff_ffff;

/// `state` may turn into `after` when `messages` are delivered to it, returning `schedule`
/// as unexpected and causing `failures`.
spec fn delivers_in_bulk<T: StateMachineTypes>(
    state: T::S,
    messages: Seq<T::I>,
    after: T::S,
    schedule: Seq<T::I>,
    failures: Seq<T::E>,
) -> bool where T::S: State<T> {
    exists|deliveries: Seq<Delivery<T::I, T::E>>|
        #[trigger] delivers_all::<T>(state, messages, after, deliveries) && schedule == unexpected(
            deliveries,
        ) && failures == errors(deliveries)
}

/// Delivers `messages` to `state` in order. Returns what the state has become, the messages
/// it did not expect, and the errors.
fn deliver_all<T: StateMachineTypes>(state: T::S, messages: Vec<T::I>) -> (result: (
    T::S,
    Vec<T::I>,
    Vec<T::E>,
)) where T::S: State<T>
    ensures
        delivers_in_bulk::<T>(state, messages@, result.0, result.1@, result.2@),
{
    let ghost start = state;
    let ghost all = messages@;
    let mut state = state;
    let mut schedule: Vec<T::I> = Vec::new();
    let mut failures: Vec<T::E> = Vec::new();
    let ghost mut deliveries: Seq<Delivery<T::I, T::E>> = Seq::empty();
    for message in it: messages.into_iter()
        invariant
            it.seq() == all,
            delivers_all::<T>(start, all.take(it.index() as int), state, deliveries),
            deliveries.len() == it.index(),
            schedule@ == unexpected(deliveries),
            failures@ == errors(deliveries),
    {
        let ghost before = state;
        let (after, delivery) = deliver_to::<T, T::S>(state, message);
        proof {
            lemma_delivers_one_more::<T>(
                start,
                all.take(it.index() as int),
                before,
                deliveries,
                message,
                after,
                delivery,
            );
            assert(all.take(it.index() + 1) =~= all.take(it.index() as int).push(message));
            assert(deliveries.push(delivery).drop_last() =~= deliveries);
            deliveries = deliveries.push(delivery);
        }
        state = after;
        match delivery {
            Delivery::Delivered => {},
            Delivery::Unexpected(message) => {
                // Queue unexpected messages only for later delivery.
                schedule.push(message);
            },
            Delivery::Error(error) => {
                failures.push(error);
            },
        }
    }
    assert(all.take(all.len() as int) =~= all);
    (state, schedule, failures)
}

impl<T: StateMachineTypes> Active<T> {
    /// Where the machine stands with `state` as its current state.
    pub(crate) open spec fn snapshot_with(self, state: T::S, buffer: Seq<T::I>) -> Snapshot<T> {
        Snapshot { state, initialized: self.is_state_initialized, buffer }
    }

    /// Where the machine stands, provided that it has a state.
    pub(crate) open spec fn snapshot(self, buffer: Seq<T::I>) -> Snapshot<T> {
        self.snapshot_with(self.state->0, buffer)
    }

    /// What is left of the machine.
    pub(crate) open spec fn rest(self, buffer: Seq<T::I>) -> Rest<T> {
        Rest { state: self.state, initialized: self.is_state_initialized, buffer }
    }
}

impl<T: StateMachineTypes> Active<T> where T::S: State<T> {
    /// Advances the state as long as it is possible.
    pub(crate) fn poll(&mut self, buffer: &mut Vec<T::I>) -> (turn: Option<Halt<T>>)
        requires
            old(self).state is Some,
        ensures
            turns(
                old(self).snapshot(old(buffer)@),
                TRANSITION_BUDGET as nat,
                turn,
                final(self).rest(final(buffer)@),
            ),
    {
        let ghost start = self.snapshot(buffer@);
        let mut state = self.state.take().unwrap();
        let mut budget: u64 = TRANSITION_BUDGET;
        while budget > 0
            invariant
                start == old(self).snapshot(old(buffer)@),
                self.state is None,
                reaches(
                    start,
                    (TRANSITION_BUDGET - budget) as nat,
                    self.snapshot_with(state, buffer@),
                ),
            decreases budget,
        {
            let ghost now = self.snapshot_with(state, buffer@);
            // If state is not initialized, do so.
            if !self.is_state_initialized {
                self.is_state_initialized = true;
                let messages = state.initialize();
                if !messages.is_empty() {
                    self.state = Some(state);
                    return Some(Halt::Report(Event::Output(messages)));
                }
                assert(initializes::<T>(now.state, messages));
            }

            // If messages are buffered, try to deliver them.
            let ghost mut deliveries: Seq<Delivery<T::I, T::E>> = Seq::empty();
            if !buffer.is_empty() {
                let mut messages: Vec<T::I> = Vec::new();
                std::mem::swap(buffer, &mut messages);
                let (after, mut schedule, failures) = deliver_all::<T>(state, messages);
                proof {
                    deliveries =
                    choose|deliveries: Seq<Delivery<T::I, T::E>>|
                        #[trigger] delivers_all::<T>(state, now.buffer, after, deliveries)
                            && schedule@ == unexpected(deliveries) && failures@ == errors(
                            deliveries,
                        );
                    assert(digests(now, after, deliveries));
                }
                state = after;
                if !failures.is_empty() {
                    self.state = Some(state);
                    return Some(Halt::Report(Event::Error(failures)));
                }
                buffer.append(&mut schedule);
            }
            assert(digests(now, state, deliveries));
            assert(buffer@ == unexpected(deliveries));

            // If the state can be advanced, advance it.
            let (after, ready) = prepare::<T, T::S>(state);
            state = after;
            assert(is_asked(now, buffer@, state, ready));
            match ready {
                Ok(true) => {
                    let ghost last = state;
                    match Box::new(state).advance() {
                        Transition::Next(next) => {
                            state = next;
                            self.is_state_initialized = false;
                            proof {
                                let next = self.snapshot_with(state, buffer@);
                                assert(is_ready(now, next.buffer, last));
                                assert(moves(now, next));
                            }
                        },
                        Transition::Final(state) => {
                            let mut left_over: Vec<T::I> = Vec::new();
                            std::mem::swap(buffer, &mut left_over);
                            assert(is_ready(now, left_over@, last));
                            return Some(
                                Halt::Report(Event::Completion { state, buffer: left_over }),
                            );
                        },
                    }
                },
                Ok(false) => {
                    // Current buffer is insufficient for further advancement.
                    self.state = Some(state);
                    return Some(Halt::Starve);
                },
                Err(failures) => {
                    self.state = Some(state);
                    return Some(Halt::Report(Event::Error(failures)));
                },
            }
            budget -= 1;
        }
        self.state = Some(state);
        None
    }
}

/// State machine progresses through phases: `Pending`, `Active`, and `Terminated`.
enum StateMachinePhase<T: StateMachineTypes> {
    /// During `Pending` phase no actual state is maintained, because it cannot be produced
    /// from the available messages just yet.
    Pending(Pending<T>),
    /// During `Active` phase an actual state is maintained and attempted to be advanced as far as
    /// possible.
    Active(Active<T>),
    /// State machine has produced the final result, polling it will produce an error.
    Terminated,
}

/// A state machine.
pub struct StateMachine<T: StateMachineTypes> {
    id: StateMachineId,
    /// Messages scheduled for consumption by the inner state machine.
    buffer: Vec<T::I>,
    /// Wakes up the task that waits for the machine to make progress.
    waker: Option<Waker>,
    /// Describes the phase of this state machine lifecycle.
    phase: StateMachinePhase<T>,
}

/// The phase of a state machine.
pub enum Phase<T: StateMachineTypes> {
    /// The initial state is yet to be produced.
    Pending { producer: StateProducer<T> },
    /// A state is maintained.
    Active { state: Option<BoxedState<T>>, initialized: bool },
    /// The final result has been produced.
    Terminated,
}

/// A state machine as its contracts see it.
pub struct Machine<T: StateMachineTypes> {
    pub id: StateMachineId,
    /// The messages that are yet to be consumed, in the order of their arrival.
    pub buffer: Seq<T::I>,
    /// The waker to be woken when a message arrives.
    pub waker: Option<Waker>,
    pub phase: Phase<T>,
}

impl<T: StateMachineTypes> View for StateMachine<T> {
    type V = Machine<T>;

    closed spec fn view(&self) -> Machine<T> {
        Machine {
            id: self.id,
            buffer: self.buffer@,
            waker: self.waker,
            phase: match self.phase {
                StateMachinePhase::Pending(p) => Phase::Pending { producer: p.producer },
                StateMachinePhase::Active(a) => Phase::Active {
                    state: a.state,
                    initialized: a.is_state_initialized,
                },
                StateMachinePhase::Terminated => Phase::Terminated,
            },
        }
    }
}

/// Polled by the task of `current`, the active machine that stands at `start` may report
/// `outcome` and turn into `after`; `waker` is what was to be woken so far.
pub open spec fn polls_active<T: StateMachineTypes>(
    start: Snapshot<T>,
    waker: Option<Waker>,
    current: Waker,
    outcome: Poll<Result<Event<T>, StateMachineError>>,
    after: Machine<T>,
) -> bool where T::S: State<T> {
    exists|turn: Option<Halt<T>>, rest: Rest<T>|
        {
            &&& #[trigger] turns(start, TRANSITION_BUDGET as nat, turn, rest)
            &&& after.buffer == rest.buffer
            &&& match turn {
                Some(Halt::Report(event)) => {
                    &&& outcome == Poll::<Result<Event<T>, StateMachineError>>::Ready(Ok(event))
                    &&& after.waker == waker
                    &&& after.phase == if event is Completion {
                        Phase::<T>::Terminated
                    } else {
                        Phase::<T>::Active { state: rest.state, initialized: rest.initialized }
                    }
                },
                Some(Halt::Starve) | None => {
                    &&& outcome is Pending
                    &&& is_saved(after.waker, current)
                    &&& turn is None ==> is_notified(current)
                    &&& after.phase == Phase::<T>::Active {
                        state: rest.state,
                        initialized: rest.initialized,
                    }
                },
            }
        }
}

/// The waker has been used up to wake its task: `Waker::wake` has been called with it.
pub open spec fn is_woken(waker: Waker) -> bool {
    call_ensures(Waker::wake, (waker,), ())
}

/// The task of `current` has been woken.
pub open spec fn is_notified(current: Waker) -> bool {
    exists|waker: Waker| cloned(current, waker) && #[trigger] is_woken(waker)
}

/// The task of `current` is to be woken when a message arrives.
pub open spec fn is_saved(waker: Option<Waker>, current: Waker) -> bool {
    waker matches Some(w) && cloned(current, w)
}

/// Polled by the task of `current`, the machine may report `outcome` and turn into `after`.
pub open spec fn polls<T: StateMachineTypes>(
    before: Machine<T>,
    current: Waker,
    outcome: Poll<Result<Event<T>, StateMachineError>>,
    after: Machine<T>,
) -> bool where
    T::S: State<T>,
    T::P: Fn(&StateMachineId, &mut Vec<T::I>) -> Option<T::S>,
 {
    &&& after.id == before.id
    &&& match before.phase {
        Phase::Pending { producer } => {
            ||| polls_in_vain(before, producer, current, outcome, after)
            ||| exists|left: Seq<T::I>, state: T::S|
                #[trigger] starts(before, producer, left, state) && polls_active(
                    Snapshot { state, initialized: false, buffer: left },
                    before.waker,
                    current,
                    outcome,
                    after,
                )
        },
        Phase::Active { state, initialized } => {
            &&& state matches Some(state)
            &&& polls_active(
                Snapshot { state, initialized, buffer: before.buffer },
                before.waker,
                current,
                outcome,
                after,
            )
        },
        Phase::Terminated => {
            &&& outcome == Poll::<Result<Event<T>, StateMachineError>>::Ready(
                Err(StateMachineError::PolledTerminated(before.id)),
            )
            &&& after == before
        },
    }
}

/// The buffered messages may be insufficient for the producer.
pub open spec fn polls_in_vain<T: StateMachineTypes>(
    before: Machine<T>,
    producer: StateProducer<T>,
    current: Waker,
    outcome: Poll<Result<Event<T>, StateMachineError>>,
    after: Machine<T>,
) -> bool where T::P: Fn(&StateMachineId, &mut Vec<T::I>) -> Option<T::S> {
    &&& produces::<T>(producer, before.id, before.buffer, after.buffer, None)
    &&& outcome is Pending
    &&& is_saved(after.waker, current)
    &&& after.phase == before.phase
}

/// The producer may construct the initial state `state` and leave the messages `left`.
pub open spec fn starts<T: StateMachineTypes>(
    before: Machine<T>,
    producer: StateProducer<T>,
    left: Seq<T::I>,
    state: T::S,
) -> bool where T::P: Fn(&StateMachineId, &mut Vec<T::I>) -> Option<T::S> {
    produces::<T>(producer, before.id, before.buffer, left, Some(state))
}

/// An active machine maintains a state, and the producer of a pending one can be called.
pub open spec fn is_pollable<T: StateMachineTypes>(machine: Machine<T>) -> bool where
    T::P: Fn(&StateMachineId, &mut Vec<T::I>) -> Option<T::S>,
 {
    match machine.phase {
        Phase::Pending { producer } => is_total::<T>(producer),
        Phase::Active { state, .. } => state is Some,
        Phase::Terminated => true,
    }
}

/// A machine that awaits more messages than `buffer`, with no task waiting for it.
pub open spec fn pending_machine<T: StateMachineTypes>(
    id: StateMachineId,
    buffer: Seq<T::I>,
    producer: StateProducer<T>,
) -> Machine<T> {
    Machine { id, buffer, waker: None, phase: Phase::Pending { producer } }
}

/// A machine in the initial state `state`, with nothing buffered and no task waiting for it.
pub open spec fn active_machine<T: StateMachineTypes>(
    id: StateMachineId,
    state: BoxedState<T>,
) -> Machine<T> {
    Machine {
        id,
        buffer: Seq::empty(),
        waker: None,
        phase: Phase::Active { state: Some(state), initialized: false },
    }
}

/// The machine with one more message buffered, and with no task waiting for it anymore.
pub open spec fn with_message<T: StateMachineTypes>(
    machine: Machine<T>,
    message: T::I,
) -> Machine<T> {
    Machine { buffer: machine.buffer.push(message), waker: None, ..machine }
}

/// The machine with `messages` delivered to it one after another.
pub open spec fn with_messages<T: StateMachineTypes>(
    machine: Machine<T>,
    messages: Seq<T::I>,
) -> Machine<T>
    decreases messages.len(),
{
    if messages.len() == 0 {
        machine
    } else {
        with_message(with_messages(machine, messages.drop_last()), messages.last())
    }
}

impl<T: StateMachineTypes> StateMachine<T> {
    /// A machine that awaits the messages from which `producer` constructs the initial state.
    pub fn new(id: StateMachineId, producer: StateProducer<T>) -> (machine: Self)
        ensures
            machine@ == pending_machine::<T>(id, Seq::empty(), producer),
    {
        Self {
            id,
            buffer: Vec::new(),
            waker: None,
            phase: StateMachinePhase::Pending(Pending { producer }),
        }
    }

    /// A machine that has received `message` and awaits the other messages from which
    /// `producer` constructs the initial state.
    pub fn new_with_message(
        id: StateMachineId,
        message: T::I,
        producer: StateProducer<T>,
    ) -> (machine: Self)
        ensures
            machine@ == pending_machine::<T>(id, seq![message], producer),
    {
        let mut buffer: Vec<T::I> = Vec::new();
        buffer.push(message);
        Self { id, buffer, waker: None, phase: StateMachinePhase::Pending(Pending { producer }) }
    }

    /// A machine in the initial state `state`.
    pub fn new_with_state(id: StateMachineId, state: BoxedState<T>) -> (machine: Self)
        ensures
            machine@ == active_machine::<T>(id, state),
    {
        Self {
            id,
            buffer: Vec::new(),
            waker: None,
            phase: StateMachinePhase::Active(
                Active { is_state_initialized: false, state: Some(state) },
            ),
        }
    }

    /// Buffers the message and returns the waker that is to be woken because of it.
    pub fn accept(&mut self, message: T::I) -> (waker: Option<Waker>)
        ensures
            waker == old(self)@.waker,
            final(self)@ == with_message(old(self)@, message),
    {
        self.buffer.push(message);
        self.waker.take()
    }

    /// Buffers the message and wakes up the task that waits for the machine, if there is one.
    pub fn deliver(&mut self, message: T::I)
        ensures
            final(self)@ == with_message(old(self)@, message),
            old(self)@.waker matches Some(waker) ==> is_woken(waker),
    {
        if let Some(waker) = self.accept(message) {
            waker.wake();
        }
    }
}

impl<T: StateMachineTypes> StateMachine<T> where
    T::S: State<T>,
    T::P: Fn(&StateMachineId, &mut Vec<T::I>) -> Option<T::S>,
 {
    /// Advances the machine as far as the buffered messages allow. If there is nothing to report,
    /// the task of `current` is woken when a new message arrives. A machine that has made
    /// [`TRANSITION_BUDGET`] transitions wakes up that task at once.
    pub fn poll(&mut self, current: &Waker) -> (outcome: Poll<
        Result<Event<T>, StateMachineError>,
    >)
        requires
            is_pollable(old(self)@),
        ensures
            polls(old(self)@, *current, outcome, final(self)@),
            is_pollable(final(self)@),
    {
        if let StateMachinePhase::Pending(p) = &mut self.phase {
            match p.poll(&self.id, &mut self.buffer) {
                Poll::Ready(a) => {
                    // The inner state of `Active` may be immediately advanceable.
                    self.phase = StateMachinePhase::Active(a);
                },
                Poll::Pending => {
                    // The buffer contains insufficient messages to construct the initial state.
                    // Save the waker to wake yourself up when a new message arrives.
                    self.waker = Some(current.clone());
                    return Poll::Pending;
                },
            }
        }
        match &mut self.phase {
            StateMachinePhase::Active(a) => {
                let ghost start = a.snapshot(self.buffer@);
                let turn = a.poll(&mut self.buffer);
                let outcome = match turn {
                    Some(Halt::Report(event)) => {
                        if let Event::Completion { .. } = &event {
                            // Progress from `Active` to `Terminated`.
                            self.phase = StateMachinePhase::Terminated;
                        }
                        Poll::Ready(Ok(event))
                    },
                    Some(Halt::Starve) => {
                        // The buffer contains insufficient messages to advance the current state
                        // further. Save the waker to wake yourself up when a new message arrives.
                        self.waker = Some(current.clone());
                        Poll::Pending
                    },
                    None => {
                        // There is more to do, but other tasks have been kept waiting for long.
                        self.waker = Some(current.clone());
                        let waker = current.clone();
                        waker.wake();
                        assert(is_woken(waker));
                        Poll::Pending
                    },
                };
                proof {
                    if let Phase::Pending { producer } = old(self)@.phase {
                        assert(starts(old(self)@, producer, start.buffer, start.state));
                    }
                }
                outcome
            },
            _ => Poll::Ready(Err(StateMachineError::PolledTerminated(self.id.clone()))),
        }
    }

    /// Polls the machine as a stream of events, which ends when the machine has terminated.
    pub fn poll_next(&mut self, current: &Waker) -> (item: Poll<Option<Event<T>>>)
        requires
            is_pollable(old(self)@),
        ensures
            exists|outcome: Poll<Result<Event<T>, StateMachineError>>|
                #[trigger] polls(old(self)@, *current, outcome, final(self)@) && item
                    == as_item(outcome),
            exists|
                machine: &mut Self,
                outcome: Poll<Result<Event<T>, StateMachineError>>,
            |
                #[trigger] call_ensures(Self::poll, (machine, current), outcome) && *machine
                    == *old(self) && *final(machine) == *final(self) && item == as_item(outcome),
            is_pollable(final(self)@),
    {
        match self.poll(current) {
            Poll::Ready(Ok(event)) => Poll::Ready(Some(event)),
            Poll::Ready(Err(StateMachineError::PolledTerminated(_))) => Poll::Ready(None),
            Poll::Pending => Poll::Pending,
        }
    }
}

/// What a stream makes of the outcome of polling the machine.
pub open spec fn as_item<T: StateMachineTypes>(
    outcome: Poll<Result<Event<T>, StateMachineError>>,
) -> Poll<Option<Event<T>>> {
    match outcome {
        Poll::Ready(Ok(event)) => Poll::Ready(Some(event)),
        Poll::Ready(Err(_)) => Poll::Ready(None),
        Poll::Pending => Poll::Pending,
    }
}

/// An ID is shown between square brackets, whatever it is made from, and a copy is shown alike.
pub proof fn law_id_is_shown_in_brackets(
    value: &str,
    id: StateMachineId,
    copy: StateMachineId,
    text: String,
)
    requires
        call_ensures(<StateMachineId as From<&str>>::from, (value,), id),
        call_ensures(<StateMachineId as Clone>::clone, (&id,), copy),
        call_ensures(StateMachineId::display, (&copy,), text),
    ensures
        id.0@ == value@,
        copy == id,
        text@.len() == value@.len() + 2,
        text@.first() == '[',
        text@.subrange(1, text@.len() - 1) == value@,
        text@.last() == ']',
{
    reveal_strlit("[");
    reveal_strlit("]");
    assert(text@.subrange(1, text@.len() - 1) =~= value@);
}

/// The error of a machine that has terminated names the machine as its ID is shown. The machines
/// of two errors with the same text are the same.
pub proof fn law_error_names_the_machine(
    id: StateMachineId,
    shown: String,
    text: String,
    other: StateMachineId,
)
    requires
        call_ensures(StateMachineId::display, (&id,), shown),
        call_ensures(
            StateMachineError::message,
            (&StateMachineError::PolledTerminated(id),),
            text,
        ),
        call_ensures(
            StateMachineError::message,
            (&StateMachineError::PolledTerminated(other),),
            text,
        ),
    ensures
        text@.take(shown@.len() as int) == shown@,
        text@.skip(shown@.len() as int) == " terminated and cannot be polled"@,
        id.0@ == other.0@,
{
    reveal_strlit("[");
    reveal_strlit("]");
    let tail = " terminated and cannot be polled"@;
    assert(text@.take(shown@.len() as int) =~= shown@);
    assert(text@.skip(shown@.len() as int) =~= tail);
    assert(id.0@ =~= text@.subrange(1, text@.len() - tail.len() - 1));
    assert(other.0@ =~= text@.subrange(1, text@.len() - tail.len() - 1));
}

} // verus!
