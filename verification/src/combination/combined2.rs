//! Two state machines, of which the second starts from what the first ends in.
use crate::channel::{poll_recv, send};
use crate::combination::{ConversionError, FinalSpec, IntermediateSpec, start_new_sm};
use crate::primitives::state::{BoxedState, StateTypes};
use crate::runner::{
    Either, RunnerError, RunnerEvent, StateMachineRx, TimeBoundStateMachineRunner, Work,
    is_started,
};
use crate::state_machine::StateMachineId;
use crate::task::Poll;
use std::task::Waker;
use std::time::Duration;
use vstd::prelude::*;

verus! {

/// Two state machines that are run one after another. `C` converts the terminal state of
/// the first one to the initial state of the second one.
#[verifier::reject_recursive_types(T0)]
#[verifier::reject_recursive_types(T1)]
#[allow(inconsistent_fields)]
pub enum Combined<T0, T1, C> where T0: StateTypes, T1: StateTypes {
    /// The first state machine is run.
    SM0 {
        id: StateMachineId,
        sm: TimeBoundStateMachineRunner<T0>,
        rx: StateMachineRx<T0>,
        converter: C,
        t1: FinalSpec,
    },
    /// The second state machine is run.
    SM1 { sm: TimeBoundStateMachineRunner<T1>, rx: StateMachineRx<T1> },
}

/// Messages from one of the state machines.
#[verifier::reject_recursive_types(T0)]
#[verifier::reject_recursive_types(T1)]
pub enum CombinedOut<T0, T1> where T0: StateTypes, T1: StateTypes {
    SM0(Vec<T0::Out>),
    SM1(Vec<T1::Out>),
}

/// Why there is no terminal state of the second state machine.
#[verifier::reject_recursive_types(T0)]
#[verifier::reject_recursive_types(T1)]
pub enum CombinedError<T0, T1> where T0: StateTypes, T1: StateTypes {
    SM0(RunnerError<T0>),
    SM1(RunnerError<T1>),
    ConversionError(ConversionError),
}

/// Result of overall progression through both state machines.
pub type CombinedResult<T0, T1> = Result<BoxedState<T1>, CombinedError<T0, T1>>;

/// An event of the combination.
pub type CombinedEvent<T0, T1> = Either<CombinedOut<T0, T1>, CombinedResult<T0, T1>>;

/// A message for one of the state machines.
#[verifier::reject_recursive_types(T0)]
#[verifier::reject_recursive_types(T1)]
pub enum CombinedIn<T0, T1> where T0: StateTypes, T1: StateTypes {
    SM0(T0::In),
    SM1(T1::In),
}

/// The converter can be called with any state.
pub open spec fn is_total<T0: StateTypes, T1: StateTypes, C>(converter: C) -> bool where
    C: Fn(BoxedState<T0>) -> Result<BoxedState<T1>, ConversionError>,
 {
    forall|state: BoxedState<T0>| #[trigger] call_requires(converter, (state,))
}

/// The combination that runs the first state machine and has received `event` may answer
/// `answer` and turn into `after`.
pub open spec fn first_answers<T0: StateTypes, T1: StateTypes, C>(
    before: Combined<T0, T1, C>,
    event: Option<RunnerEvent<T0>>,
    answer: Option<CombinedEvent<T0, T1>>,
    after: Combined<T0, T1, C>,
) -> bool where C: Fn(BoxedState<T0>) -> Result<BoxedState<T1>, ConversionError> {
    match event {
        None => answer is None && after == before,
        Some(Either::Messages { from, messages }) => {
            &&& answer == Some(
                CombinedEvent::<T0, T1>::Messages { from, messages: CombinedOut::SM0(messages) },
            )
            &&& after == before
        },
        Some(Either::Result { from, result: Err(error) }) => {
            &&& answer == Some(
                CombinedEvent::<T0, T1>::Result { from, result: Err(CombinedError::SM0(error)) },
            )
            &&& after == before
        },
        Some(Either::Result { from, result: Ok(terminal) }) => {
            ||| exists|error: ConversionError|
                #[trigger] fails_to_convert(before, terminal, error) && answer == Some(
                    CombinedEvent::<T0, T1>::Result {
                        from,
                        result: Err(CombinedError::ConversionError(error)),
                    },
                ) && after == before
            ||| exists|initial: BoxedState<T1>|
                #[trigger] converts(before, terminal, initial) && answer is None && proceeds(
                    before,
                    initial,
                    after,
                )
        },
    }
}

/// The converter may make the initial state `initial` from `terminal`.
pub open spec fn converts<T0: StateTypes, T1: StateTypes, C>(
    before: Combined<T0, T1, C>,
    terminal: BoxedState<T0>,
    initial: BoxedState<T1>,
) -> bool where C: Fn(BoxedState<T0>) -> Result<BoxedState<T1>, ConversionError> {
    before matches Combined::SM0 { converter, .. } && call_ensures(
        converter,
        (terminal,),
        Ok(initial),
    )
}

/// The converter may fail on `terminal` with `error`.
pub open spec fn fails_to_convert<T0: StateTypes, T1: StateTypes, C>(
    before: Combined<T0, T1, C>,
    terminal: BoxedState<T0>,
    error: ConversionError,
) -> bool where C: Fn(BoxedState<T0>) -> Result<BoxedState<T1>, ConversionError> {
    before matches Combined::SM0 { converter, .. } && call_ensures(
        converter,
        (terminal,),
        Err(error),
    )
}

/// The second state machine is started from `initial`, under the ID of the first one and
/// with the time budget that is specified for it.
pub open spec fn proceeds<T0: StateTypes, T1: StateTypes, C>(
    before: Combined<T0, T1, C>,
    initial: BoxedState<T1>,
    after: Combined<T0, T1, C>,
) -> bool {
    &&& before matches Combined::SM0 { id, t1, .. }
    &&& after matches Combined::SM1 { sm, rx }
    &&& is_started(sm, rx, id, initial, t1.time_budget)
}

/// What the combination answers when it runs the second state machine and receives `event`.
pub open spec fn second_answer<T0: StateTypes, T1: StateTypes>(
    event: Option<RunnerEvent<T1>>,
) -> Option<CombinedEvent<T0, T1>> {
    match event {
        None => None,
        Some(Either::Messages { from, messages }) => Some(
            CombinedEvent::<T0, T1>::Messages { from, messages: CombinedOut::SM1(messages) },
        ),
        Some(Either::Result { from, result: Ok(terminal) }) => Some(
            CombinedEvent::<T0, T1>::Result { from, result: Ok(terminal) },
        ),
        Some(Either::Result { from, result: Err(error) }) => Some(
            CombinedEvent::<T0, T1>::Result { from, result: Err(CombinedError::SM1(error)) },
        ),
    }
}

impl<T0, T1, C> Combined<T0, T1, C> where T0: StateTypes, T1: StateTypes {
    /// Starts the first state machine in `initial_state`, under the name `id`.
    pub fn new(
        id: StateMachineId,
        initial_state: BoxedState<T0>,
        t0_t1: IntermediateSpec<C>,
        t1: FinalSpec,
    ) -> (combined: Self)
        ensures
            combined matches Combined::SM0 { id: name, sm, rx, converter, t1: spec_ } && name == id
                && spec_ == t1 && converter == t0_t1.converter() && is_started(
                sm,
                rx,
                id,
                initial_state,
                t0_t1.time_budget(),
            ),
    {
        proof {
            use_type_invariant(&t0_t1);
        }
        let (sm, rx) = start_new_sm::<T0>(id.clone(), initial_state, t0_t1.time_budget);
        let converter = t0_t1.converter.unwrap();
        Combined::SM0 { id, sm, rx, converter, t1 }
    }

    /// The message is for the state machine that is run now.
    pub open spec fn spec_takes(self, message: CombinedIn<T0, T1>) -> bool {
        self is SM0 <==> message is SM0
    }

    /// Whether the message is for the state machine that is run now.
    pub fn takes(&self, message: &CombinedIn<T0, T1>) -> (taken: bool)
        ensures
            taken == self.spec_takes(*message),
    {
        match (self, message) {
            (Combined::SM0 { .. }, CombinedIn::SM0(_)) => true,
            (Combined::SM1 { .. }, CombinedIn::SM1(_)) => true,
            _ => false,
        }
    }

    /// Delivers the message to the state machine that is run now, or returns it if that is gone.
    pub fn deliver(&self, message: CombinedIn<T0, T1>) -> (result: Result<(), CombinedIn<T0, T1>>)
        requires
            self.spec_takes(message),
        ensures
            result matches Err(returned) ==> returned == message,
            match (self, message) {
                (Combined::SM0 { sm, .. }, CombinedIn::SM0(m)) => exists|sent: Result<(), T0::In>|
                    #[trigger] call_ensures(send::<T0::In>, (&sm.sink, m), sent) && (sent is Ok
                        <==> result is Ok),
                (Combined::SM1 { sm, .. }, CombinedIn::SM1(m)) => exists|sent: Result<(), T1::In>|
                    #[trigger] call_ensures(send::<T1::In>, (&sm.sink, m), sent) && (sent is Ok
                        <==> result is Ok),
                _ => true,
            },
    {
        match message {
            CombinedIn::SM0(m) => match self {
                Combined::SM0 { sm, .. } => match sm.deliver(m) {
                    Ok(()) => Ok(()),
                    Err(m) => Err(CombinedIn::SM0(m)),
                },
                Combined::SM1 { .. } => Err(CombinedIn::SM0(m)),
            },
            CombinedIn::SM1(m) => match self {
                Combined::SM1 { sm, .. } => match sm.deliver(m) {
                    Ok(()) => Ok(()),
                    Err(m) => Err(CombinedIn::SM1(m)),
                },
                Combined::SM0 { .. } => Err(CombinedIn::SM1(m)),
            },
        }
    }
}

impl<T0, T1, C> Combined<T0, T1, C> where
    T0: StateTypes,
    T1: StateTypes,
    C: Fn(BoxedState<T0>) -> Result<BoxedState<T1>, ConversionError>,
 {
    /// Handles an event of the first state machine. If that has succeeded, its terminal state is
    /// used to construct the initial state of the second one, which is started then.
    pub fn handle_first(&mut self, event: Option<RunnerEvent<T0>>) -> (answer: Option<
        CombinedEvent<T0, T1>,
    >)
        requires
            *old(self) matches Combined::SM0 { converter, .. } && is_total::<T0, T1, C>(converter),
        ensures
            first_answers(*old(self), event, answer, *final(self)),
    {
        match event {
            None => None,
            Some(Either::Messages { from, messages }) => Some(
                Either::Messages { from, messages: CombinedOut::SM0(messages) },
            ),
            Some(Either::Result { from, result: Err(error) }) => Some(
                Either::Result { from, result: Err(CombinedError::SM0(error)) },
            ),
            Some(Either::Result { from, result: Ok(terminal) }) => {
                if let Combined::SM0 { id, converter, t1, .. } = &*self {
                    match converter(terminal) {
                        Ok(initial) => {
                            let (sm, rx) = start_new_sm::<T1>(id.clone(), initial, t1.time_budget);
                            assert(converts(*old(self), terminal, initial));
                            *self = Combined::SM1 { sm, rx };
                            None
                        },
                        Err(error) => {
                            assert(fails_to_convert(*old(self), terminal, error));
                            Some(
                                Either::Result {
                                    from,
                                    result: Err(CombinedError::ConversionError(error)),
                                },
                            )
                        },
                    }
                } else {
                    None
                }
            },
        }
    }

    /// Handles an event of the second state machine.
    pub fn handle_second(&self, event: Option<RunnerEvent<T1>>) -> (answer: Option<
        CombinedEvent<T0, T1>,
    >)
        ensures
            answer == second_answer::<T0, T1>(event),
    {
        match event {
            None => None,
            Some(Either::Messages { from, messages }) => Some(
                Either::Messages { from, messages: CombinedOut::SM1(messages) },
            ),
            Some(Either::Result { from, result: Ok(terminal) }) => Some(
                Either::Result { from, result: Ok(terminal) },
            ),
            Some(Either::Result { from, result: Err(error) }) => Some(
                Either::Result { from, result: Err(CombinedError::SM1(error)) },
            ),
        }
    }

    /// Polls for either a set of messages from some state machine,
    /// or a result of overall progression through all state machines.
    /// The result is constituted by either a terminal state of the final state machine,
    /// or any intermediate error, e.g., intermediate sm machine error or a conversion error
    /// between terminal state of one state machine and an initial state of another one.
    pub fn recv(&mut self, current: &Waker) -> (outcome: Poll<Option<CombinedEvent<T0, T1>>>)
        requires
            *old(self) matches Combined::SM0 { converter, .. } ==> is_total::<T0, T1, C>(converter),
        ensures
            match *old(self) {
                Combined::SM0 { id, sm, rx, converter, t1 } => exists|
                    channel: &mut StateMachineRx<T0>,
                    received: Poll<Option<RunnerEvent<T0>>>,
                |
                    {
                        let waiting = Combined::SM0 {
                            id,
                            sm,
                            rx: *final(channel),
                            converter,
                            t1,
                        };
                        &&& #[trigger] call_ensures(
                            poll_recv::<RunnerEvent<T0>>,
                            (channel, current),
                            received,
                        )
                        &&& *channel == rx
                        &&& match received {
                            Poll::Pending => outcome is Pending && *final(self) == waiting,
                            Poll::Ready(event) => {
                                &&& outcome matches Poll::Ready(answer)
                                &&& first_answers(waiting, event, answer, *final(self))
                                &&& exists|handled: &mut Self|
                                    #[trigger] call_ensures(
                                        Self::handle_first,
                                        (handled, event),
                                        answer,
                                    ) && *handled == waiting && *final(handled) == *final(self)
                            },
                        }
                    },
                Combined::SM1 { sm, rx } => exists|
                    channel: &mut StateMachineRx<T1>,
                    received: Poll<Option<RunnerEvent<T1>>>,
                |
                    {
                        &&& #[trigger] call_ensures(
                            poll_recv::<RunnerEvent<T1>>,
                            (channel, current),
                            received,
                        )
                        &&& *channel == rx
                        &&& *final(self) == Combined::<T0, T1, C>::SM1 { sm, rx: *final(channel) }
                        &&& match received {
                            Poll::Pending => outcome is Pending,
                            Poll::Ready(event) => {
                                &&& outcome == Poll::Ready(second_answer::<T0, T1>(event))
                                &&& call_ensures(
                                    Self::handle_second,
                                    (&*final(self), event),
                                    outcome->Ready_0,
                                )
                            },
                        }
                    },
            },
    {
        match self {
            Combined::SM0 { rx, .. } => match poll_recv(rx, current) {
                Poll::Ready(event) => Poll::Ready(self.handle_first(event)),
                Poll::Pending => Poll::Pending,
            },
            Combined::SM1 { rx, .. } => match poll_recv(rx, current) {
                Poll::Ready(event) => Poll::Ready(self.handle_second(event)),
                Poll::Pending => Poll::Pending,
            },
        }
    }
}

/// The second state machine is started when the first one has succeeded and its terminal state
/// has been converted, and then only; nothing is reported of that. What is reported while the
/// first one runs is never a success of the combination.
pub proof fn law_second_follows_success_of_first<T0: StateTypes, T1: StateTypes, C>(
    before: Combined<T0, T1, C>,
    event: Option<RunnerEvent<T0>>,
    answer: Option<CombinedEvent<T0, T1>>,
    after: Combined<T0, T1, C>,
) where C: Fn(BoxedState<T0>) -> Result<BoxedState<T1>, ConversionError>
    requires
        before is SM0,
        first_answers(before, event, answer, after),
    ensures
        after is SM1 <==> (answer is None && event is Some),
        after is SM1 ==> {
            &&& event matches Some(Either::Result { result: Ok(terminal), .. })
            &&& exists|initial: BoxedState<T1>| #[trigger]
                converts(before, terminal, initial) && proceeds(before, initial, after)
        },
        after is SM0 ==> after == before,
        answer matches Some(Either::Result { result, .. }) ==> result is Err,
{
}

/// While the first state machine runs, its messages are passed on as they are, under the same
/// name, and its failure is the failure of the combination, with the same error. The combination
/// goes on with the first machine as it was.
pub proof fn law_first_is_passed_on<T0: StateTypes, T1: StateTypes, C>(
    combined: &mut Combined<T0, T1, C>,
    event: Option<RunnerEvent<T0>>,
    answer: Option<CombinedEvent<T0, T1>>,
) where C: Fn(BoxedState<T0>) -> Result<BoxedState<T1>, ConversionError>
    requires
        call_ensures(Combined::<T0, T1, C>::handle_first, (combined, event), answer),
    ensures
        event is None ==> answer is None,
        event matches Some(Either::Messages { from, messages }) ==> {
            &&& answer matches Some(
                Either::Messages { from: name, messages: CombinedOut::SM0(passed) },
            )
            &&& name == from
            &&& passed@ == messages@
        },
        event matches Some(Either::Result { from, result: Err(error) }) ==> {
            &&& answer matches Some(
                Either::Result { from: name, result: Err(CombinedError::SM0(passed)) },
            )
            &&& name == from
            &&& passed == error
        },
        !(event matches Some(Either::Result { result: Ok(_), .. })) ==> *final(combined) == *old(
            combined,
        ),
{
}

/// When the first state machine has succeeded, its terminal state goes to the converter. If that
/// answers a state, the second machine is ready to be run from it, under the ID of the combination
/// and with the time that is specified for it, and nothing is reported. Otherwise the
/// error of the converter is reported, and the combination stays as it was.
pub proof fn law_success_of_first_is_converted<T0: StateTypes, T1: StateTypes, C>(
    combined: &mut Combined<T0, T1, C>,
    from: StateMachineId,
    terminal: BoxedState<T0>,
    answer: Option<CombinedEvent<T0, T1>>,
) where C: Fn(BoxedState<T0>) -> Result<BoxedState<T1>, ConversionError>
    requires
        *old(combined) is SM0,
        call_ensures(
            Combined::<T0, T1, C>::handle_first,
            (combined, Some(Either::Result { from, result: Ok(terminal) })),
            answer,
        ),
    ensures
        exists|converted: Result<BoxedState<T1>, ConversionError>|
            {
                &&& #[trigger] call_ensures(
                    old(combined)->SM0_converter,
                    (terminal,),
                    converted,
                )
                &&& match converted {
                    Ok(initial) => {
                        &&& answer is None
                        &&& *final(combined) matches Combined::SM1 { sm, rx }
                        &&& sm.id == old(combined)->SM0_id
                        &&& sm.time_budget == old(combined)->SM0_t1.time_budget
                        &&& sm.work matches Work::Ready(task)
                        &&& task.id == old(combined)->SM0_id
                        &&& task.state == initial
                        &&& task.time_budget == old(combined)->SM0_t1.time_budget
                        &&& task.feed@.queue.len() == 0
                        &&& task.feed@.delayed.len() == 0
                        &&& call_ensures(
                            tokio::sync::mpsc::unbounded_channel::<T1::In>,
                            (),
                            (sm.sink, task.feed@.channel),
                        )
                        &&& call_ensures(
                            tokio::sync::mpsc::unbounded_channel::<RunnerEvent<T1>>,
                            (),
                            (task.events, rx),
                        )
                    },
                    Err(error) => {
                        &&& answer matches Some(
                            Either::Result {
                                from: name,
                                result: Err(CombinedError::ConversionError(passed)),
                            },
                        )
                        &&& name == from
                        &&& passed == error
                        &&& *final(combined) == *old(combined)
                    },
                }
            },
{
    if let Combined::SM0 { converter, .. } = *old(combined) {
        if *final(combined) is SM0 {
            let error = choose|error: ConversionError|
                #[trigger] fails_to_convert(*old(combined), terminal, error) && answer == Some(
                    CombinedEvent::<T0, T1>::Result {
                        from,
                        result: Err(CombinedError::ConversionError(error)),
                    },
                ) && *final(combined) == *old(combined);
            assert(call_ensures(
                converter,
                (terminal,),
                Err::<BoxedState<T1>, ConversionError>(error),
            ));
        } else {
            let initial = choose|initial: BoxedState<T1>|
                #[trigger] converts(*old(combined), terminal, initial) && answer is None
                    && proceeds(*old(combined), initial, *final(combined));
            assert(call_ensures(
                converter,
                (terminal,),
                Ok::<BoxedState<T1>, ConversionError>(initial),
            ));
        }
    }
}

/// The events of the second state machine are the events of the combination: messages are passed
/// on as they are, its terminal state is the overall success, and its error is the overall error.
pub proof fn law_second_is_passed_on<T0: StateTypes, T1: StateTypes, C>(
    combined: &Combined<T0, T1, C>,
    event: Option<RunnerEvent<T1>>,
    answer: Option<CombinedEvent<T0, T1>>,
) where C: Fn(BoxedState<T0>) -> Result<BoxedState<T1>, ConversionError>
    requires
        call_ensures(Combined::<T0, T1, C>::handle_second, (combined, event), answer),
    ensures
        event is None <==> answer is None,
        event matches Some(Either::Messages { from, messages }) ==> {
            &&& answer matches Some(
                Either::Messages { from: name, messages: CombinedOut::SM1(passed) },
            )
            &&& name == from
            &&& passed@ == messages@
        },
        event matches Some(Either::Result { from, result: Ok(terminal) }) ==> {
            &&& answer matches Some(Either::Result { from: name, result: Ok(passed) })
            &&& name == from
            &&& passed == terminal
        },
        event matches Some(Either::Result { from, result: Err(error) }) ==> {
            &&& answer matches Some(
                Either::Result { from: name, result: Err(CombinedError::SM1(passed)) },
            )
            &&& name == from
            &&& passed == error
        },
{
}

/// Nothing is lost on the way: two events of the first state machine, other than its success,
/// get the same answer only if they are the same event.
pub proof fn law_answers_tell_events_of_first_apart<T0: StateTypes, T1: StateTypes, C>(
    combined: &mut Combined<T0, T1, C>,
    event: Option<RunnerEvent<T0>>,
    again: &mut Combined<T0, T1, C>,
    other: Option<RunnerEvent<T0>>,
    answer: Option<CombinedEvent<T0, T1>>,
) where C: Fn(BoxedState<T0>) -> Result<BoxedState<T1>, ConversionError>
    requires
        call_ensures(Combined::<T0, T1, C>::handle_first, (combined, event), answer),
        call_ensures(Combined::<T0, T1, C>::handle_first, (again, other), answer),
        !(event matches Some(Either::Result { result: Ok(_), .. })),
        !(other matches Some(Either::Result { result: Ok(_), .. })),
    ensures
        event == other,
{
}

/// Nothing is lost on the way: two events of the second state machine get the same answer only
/// if they are the same event.
pub proof fn law_answers_tell_events_of_second_apart<T0: StateTypes, T1: StateTypes, C>(
    combined: &Combined<T0, T1, C>,
    event: Option<RunnerEvent<T1>>,
    again: &Combined<T0, T1, C>,
    other: Option<RunnerEvent<T1>>,
    answer: Option<CombinedEvent<T0, T1>>,
) where C: Fn(BoxedState<T0>) -> Result<BoxedState<T1>, ConversionError>
    requires
        call_ensures(Combined::<T0, T1, C>::handle_second, (combined, event), answer),
        call_ensures(Combined::<T0, T1, C>::handle_second, (again, other), answer),
    ensures
        event == other,
{
}

/// A combination can be asked for its next event as long as the converter, if it is yet to be
/// used, can be called with any state.
pub proof fn law_combination_can_be_asked<T0: StateTypes, T1: StateTypes, C>(
    combined: &mut Combined<T0, T1, C>,
    current: &Waker,
) where C: Fn(BoxedState<T0>) -> Result<BoxedState<T1>, ConversionError>
    requires
        *old(combined) matches Combined::SM0 { converter, .. } ==> forall|state: BoxedState<T0>|
            #[trigger] call_requires(converter, (state,)),
    ensures
        call_requires(Combined::<T0, T1, C>::recv, (combined, current)),
{
}

/// What the combination reports is its answer to what the state machine that is run has reported:
/// it waits as long as there is nothing, and it is given each event once.
pub proof fn law_combination_answers_the_running_machine<T0: StateTypes, T1: StateTypes, C>(
    combined: &mut Combined<T0, T1, C>,
    current: &Waker,
    outcome: Poll<Option<CombinedEvent<T0, T1>>>,
) where C: Fn(BoxedState<T0>) -> Result<BoxedState<T1>, ConversionError>
    requires
        call_ensures(Combined::<T0, T1, C>::recv, (combined, current), outcome),
    ensures
        match *old(combined) {
            Combined::SM0 { id, sm, rx, converter, t1 } => exists|
                channel: &mut StateMachineRx<T0>,
                received: Poll<Option<RunnerEvent<T0>>>,
            |
                {
                    let waiting = Combined::<T0, T1, C>::SM0 {
                        id,
                        sm,
                        rx: *final(channel),
                        converter,
                        t1,
                    };
                    &&& #[trigger] call_ensures(
                        poll_recv::<RunnerEvent<T0>>,
                        (channel, current),
                        received,
                    )
                    &&& *channel == rx
                    &&& match received {
                        Poll::Pending => outcome is Pending && *final(combined) == waiting,
                        Poll::Ready(event) => {
                            &&& outcome matches Poll::Ready(answer)
                            &&& exists|handled: &mut Combined<T0, T1, C>|
                                #[trigger] call_ensures(
                                    Combined::<T0, T1, C>::handle_first,
                                    (handled, event),
                                    answer,
                                ) && *handled == waiting && *final(handled) == *final(combined)
                        },
                    }
                },
            Combined::SM1 { sm, rx } => exists|
                channel: &mut StateMachineRx<T1>,
                received: Poll<Option<RunnerEvent<T1>>>,
            |
                {
                    let waiting = Combined::<T0, T1, C>::SM1 { sm, rx: *final(channel) };
                    &&& #[trigger] call_ensures(
                        poll_recv::<RunnerEvent<T1>>,
                        (channel, current),
                        received,
                    )
                    &&& *channel == rx
                    &&& *final(combined) == waiting
                    &&& match received {
                        Poll::Pending => outcome is Pending,
                        Poll::Ready(event) => {
                            &&& outcome matches Poll::Ready(answer)
                            &&& call_ensures(
                                Combined::<T0, T1, C>::handle_second,
                                (&waiting, event),
                                answer,
                            )
                        },
                    }
                },
        },
{
}

/// What is received from the state machine that is run is reported by the combination: the same
/// messages, the same error, and, of the second machine, the same terminal state.
pub proof fn law_received_event_is_reported<T0: StateTypes, T1: StateTypes, C>(
    combined: &mut Combined<T0, T1, C>,
    current: &Waker,
    outcome: Poll<Option<CombinedEvent<T0, T1>>>,
) where C: Fn(BoxedState<T0>) -> Result<BoxedState<T1>, ConversionError>
    requires
        call_ensures(Combined::<T0, T1, C>::recv, (combined, current), outcome),
    ensures
        *old(combined) is SM0 ==> exists|
            channel: &mut StateMachineRx<T0>,
            received: Poll<Option<RunnerEvent<T0>>>,
        |
            {
                &&& #[trigger] call_ensures(
                    poll_recv::<RunnerEvent<T0>>,
                    (channel, current),
                    received,
                )
                &&& *channel == old(combined)->SM0_rx
                &&& received is Pending <==> outcome is Pending
                &&& received matches Poll::Ready(Some(Either::Messages { from, messages })) ==> {
                    &&& outcome matches Poll::Ready(
                        Some(Either::Messages { from: name, messages: CombinedOut::SM0(passed) }),
                    )
                    &&& name == from
                    &&& passed@ == messages@
                }
                &&& received matches Poll::Ready(
                    Some(Either::Result { from, result: Err(error) }),
                ) ==> {
                    &&& outcome matches Poll::Ready(
                        Some(
                            Either::Result { from: name, result: Err(CombinedError::SM0(passed)) },
                        ),
                    )
                    &&& name == from
                    &&& passed == error
                }
            },
        *old(combined) is SM1 ==> exists|
            channel: &mut StateMachineRx<T1>,
            received: Poll<Option<RunnerEvent<T1>>>,
        |
            {
                &&& #[trigger] call_ensures(
                    poll_recv::<RunnerEvent<T1>>,
                    (channel, current),
                    received,
                )
                &&& *channel == old(combined)->SM1_rx
                &&& received is Pending <==> outcome is Pending
                &&& received matches Poll::Ready(Some(Either::Messages { from, messages })) ==> {
                    &&& outcome matches Poll::Ready(
                        Some(Either::Messages { from: name, messages: CombinedOut::SM1(passed) }),
                    )
                    &&& name == from
                    &&& passed@ == messages@
                }
                &&& received matches Poll::Ready(Some(Either::Result { from, result })) ==> {
                    &&& outcome matches Poll::Ready(Some(Either::Result { from: name, result: r }))
                    &&& name == from
                    &&& result matches Ok(terminal) ==> r == Ok::<
                        BoxedState<T1>,
                        CombinedError<T0, T1>,
                    >(terminal)
                    &&& result matches Err(error) ==> r == Err::<
                        BoxedState<T1>,
                        CombinedError<T0, T1>,
                    >(CombinedError::SM1(error))
                }
            },
{
}

/// A message for the state machine that is run is sent to it, and it comes back if it cannot be
/// sent. Each machine takes the messages for it, and none for the other one.
pub proof fn law_message_reaches_the_running_machine<T0: StateTypes, T1: StateTypes, C>(
    combined: &Combined<T0, T1, C>,
    message: CombinedIn<T0, T1>,
    taken: bool,
    result: Result<(), CombinedIn<T0, T1>>,
)
    requires
        call_ensures(Combined::<T0, T1, C>::takes, (combined, &message), taken),
        taken ==> call_ensures(Combined::<T0, T1, C>::deliver, (combined, message), result),
    ensures
        taken <==> (*combined is SM0 && message is SM0 || *combined is SM1 && message is SM1),
        taken ==> call_requires(Combined::<T0, T1, C>::deliver, (combined, message)),
        taken && result is Err ==> result == Err::<(), CombinedIn<T0, T1>>(message),
        *combined matches Combined::SM0 { sm, .. } ==> {
            message matches CombinedIn::SM0(m) ==> exists|sent: Result<(), T0::In>| #[trigger]
                call_ensures(send::<T0::In>, (&sm.sink, m), sent) && (sent is Ok
                    <==> result is Ok)
        },
        *combined matches Combined::SM1 { sm, .. } ==> {
            message matches CombinedIn::SM1(m) ==> exists|sent: Result<(), T1::In>| #[trigger]
                call_ensures(send::<T1::In>, (&sm.sink, m), sent) && (sent is Ok
                    <==> result is Ok)
        },
{
}

/// A combination starts with the first state machine. That is ready to be run from the given
/// state, under the given name and with the time and the converter that have been specified;
/// what has been specified for the second machine is kept for it.
pub proof fn law_combination_starts_as_specified<T0: StateTypes, T1: StateTypes, C>(
    id: StateMachineId,
    state: BoxedState<T0>,
    time_budget: Duration,
    converter: C,
    specified: IntermediateSpec<C>,
    t1: FinalSpec,
    combined: Combined<T0, T1, C>,
)
    requires
        call_ensures(IntermediateSpec::<C>::new, (time_budget, converter), specified),
        call_ensures(Combined::<T0, T1, C>::new, (id, state, specified, t1), combined),
    ensures
        combined matches Combined::SM0 { id: name, sm, rx, converter: c, t1: second } && {
            &&& name == id
            &&& c == converter
            &&& second == t1
            &&& sm.id == id
            &&& sm.time_budget == time_budget
            &&& sm.work matches Work::Ready(task)
            &&& task.id == id
            &&& task.state == state
            &&& task.time_budget == time_budget
            &&& task.feed@.queue.len() == 0
            &&& task.feed@.delayed.len() == 0
            &&& call_ensures(
                tokio::sync::mpsc::unbounded_channel::<T0::In>,
                (),
                (sm.sink, task.feed@.channel),
            )
            &&& call_ensures(
                tokio::sync::mpsc::unbounded_channel::<RunnerEvent<T0>>,
                (),
                (task.events, rx),
            )
        },
{
}

} // verus!
