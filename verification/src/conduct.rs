//! The conduct of a state machine, told by what is asked of the states and the producer, and by
//! what they answer.
use crate::Event;
use crate::StateMachineTypes;
use crate::course::{
    Visit, is_visit, law_turn_has_a_course, law_visits_follow_one_another, leads_to,
};
use crate::run::{Halt, Rest, Snapshot, delivers, delivers_all, errors, turns, unexpected};
use crate::state::{Delivery, State, Transition, deliver_to, prepare};
use crate::state_machine::{
    Machine, Phase, StateMachine, StateMachineError, StateMachineId, TRANSITION_BUDGET,
    is_notified, is_saved, polls, polls_active, polls_in_vain, produce, produces, starts,
};
use crate::task::Poll;
use std::task::Waker;
use vstd::prelude::*;

verus! {

/// What happens in a poll: what the producer answers, if it is asked, and the states that are
/// visited then.
pub struct History<T: StateMachineTypes> {
    /// The answer of the producer.
    pub produced: Option<T::S>,
    /// The visits to the states, in order.
    pub visits: Seq<Visit<T>>,
    /// What a visited state is before each delivery, and after the last one.
    pub stages: Seq<Seq<T::S>>,
}

/// The messages that a state hands back are those that it has answered to be unexpected, and the
/// errors are those that it has answered, each in the order of the answers.
pub proof fn law_answers_are_sorted<I, E>(deliveries: Seq<Delivery<I, E>>)
    ensures
        unexpected(deliveries) == deliveries.filter_map(
            |delivery: Delivery<I, E>|
                match delivery {
                    Delivery::Unexpected(message) => Some(message),
                    _ => None,
                },
        ),
        errors(deliveries) == deliveries.filter_map(
            |delivery: Delivery<I, E>|
                match delivery {
                    Delivery::Error(error) => Some(error),
                    _ => None,
                },
        ),
    decreases deliveries.len(),
{
    if deliveries.len() > 0 {
        law_answers_are_sorted(deliveries.drop_last());
    }
}

proof fn lemma_deliveries_have_stages<T: StateMachineTypes>(
    state: T::S,
    messages: Seq<T::I>,
    after: T::S,
    deliveries: Seq<Delivery<T::I, T::E>>,
) -> (stages: Seq<T::S>) where T::S: State<T>
    requires
        delivers_all::<T>(state, messages, after, deliveries),
    ensures
        deliveries.len() == messages.len(),
        stages.len() == messages.len() + 1,
        stages[0] == state,
        stages[messages.len() as int] == after,
        forall|j: int|
            #![trigger stages[j]]
            0 <= j < messages.len() ==> delivers::<T>(
                stages[j],
                messages[j],
                stages[j + 1],
                deliveries[j],
            ),
    decreases messages.len(),
{
    if messages.len() == 0 {
        seq![state]
    } else {
        let before = choose|before: T::S|
            delivers_all::<T>(state, messages.drop_last(), before, deliveries.drop_last())
                && #[trigger] delivers::<T>(before, messages.last(), after, deliveries.last());
        let earlier = lemma_deliveries_have_stages::<T>(
            state,
            messages.drop_last(),
            before,
            deliveries.drop_last(),
        );
        let stages = earlier.push(after);
        assert forall|j: int| #![trigger stages[j]] 0 <= j < messages.len() implies delivers::<T>(
            stages[j],
            messages[j],
            stages[j + 1],
            deliveries[j],
        ) by {
            if j + 1 < messages.len() {
                assert(stages[j] == earlier[j]);
                assert(messages[j] == messages.drop_last()[j]);
                assert(deliveries[j] == deliveries.drop_last()[j]);
            }
        }
        stages
    }
}

/// What a delivery makes of a state comes from asking the state itself, once, to take the message.
pub proof fn law_delivery_asks_the_state<T: StateMachineTypes, S: State<T>>(
    state: S,
    message: T::I,
    after: S,
    delivery: Delivery<T::I, T::E>,
)
    requires
        call_ensures(deliver_to::<T, S>, (state, message), (after, delivery)),
    ensures
        exists|s: &mut S|
            #[trigger] call_ensures(S::deliver, (s, message), delivery) && *s == state && *final(s)
                == after,
{
}

/// What a preparation makes of a state comes from asking the state itself, once, to prepare.
pub proof fn law_preparation_asks_the_state<T: StateMachineTypes, S: State<T>>(
    state: S,
    after: S,
    ready: Result<bool, Vec<T::E>>,
)
    requires
        call_ensures(prepare::<T, S>, (state,), (after, ready)),
    ensures
        exists|s: &mut S|
            #[trigger] call_ensures(S::prepare_advance, (s,), ready) && *s == state && *final(s)
                == after,
{
}

proof fn lemma_producer_is_asked<T: StateMachineTypes>(
    producer: T::P,
    id: StateMachineId,
    messages: Seq<T::I>,
    left: Seq<T::I>,
    state: Option<T::S>,
) where T::P: Fn(&StateMachineId, &mut Vec<T::I>) -> Option<T::S>
    requires
        produces::<T>(producer, id, messages, left, state),
    ensures
        exists|buffer: &mut Vec<T::I>|
            #[trigger] call_ensures(producer, (&id, buffer), state) && buffer@ == messages
                && final(buffer)@ == left,
{
    let (before, after) = choose|before: Vec<T::I>, after: Vec<T::I>|
        before@ == messages && after@ == left && #[trigger] call_ensures(
            produce::<T>,
            (&producer, &id, before),
            (after, state),
        );
    assert(call_ensures(produce::<T>, (&producer, &id, before), (after, state)));
}

proof fn lemma_visits_have_stages<T: StateMachineTypes>(visits: Seq<Visit<T>>) -> (stages: Seq<
    Seq<T::S>,
>) where T::S: State<T>
    requires
        forall|i: int| 0 <= i < visits.len() ==> is_visit(#[trigger] visits[i]),
    ensures
        stages.len() == visits.len(),
        forall|i: int|
            0 <= i < visits.len() && ((#[trigger] visits[i]).output matches Some(messages)
                ==> messages@.len() == 0) ==> {
                &&& visits[i].deliveries.len() == visits[i].entry.buffer.len()
                &&& stages[i].len() == visits[i].entry.buffer.len() + 1
                &&& stages[i][0] == visits[i].entry.state
                &&& visits[i].delivered == stages[i][visits[i].entry.buffer.len() as int]
            },
        forall|i: int, j: int|
            0 <= i < visits.len() && (visits[i].output matches Some(messages) ==> messages@.len()
                == 0) && 0 <= j < visits[i].entry.buffer.len() ==> delivers::<T>(
                #[trigger] stages[i][j],
                visits[i].entry.buffer[j],
                stages[i][j + 1],
                visits[i].deliveries[j],
            ),
    decreases visits.len(),
{
    if visits.len() == 0 {
        Seq::empty()
    } else {
        let last = visits.last();
        assert(is_visit(visits[visits.len() - 1]));
        assert forall|i: int| 0 <= i < visits.len() - 1 implies is_visit(
            #[trigger] visits.drop_last()[i],
        ) by {
            assert(is_visit(visits[i]));
        }
        let earlier = lemma_visits_have_stages(visits.drop_last());
        let latest = if last.output matches Some(messages) && messages@.len() > 0 {
            Seq::empty()
        } else {
            lemma_deliveries_have_stages::<T>(
                last.entry.state,
                last.entry.buffer,
                last.delivered,
                last.deliveries,
            )
        };
        let stages = earlier.push(latest);
        assert forall|i: int| 0 <= i < visits.len() - 1 implies #[trigger] visits[i]
            == visits.drop_last()[i] && stages[i] == earlier[i] by {}
        stages
    }
}

proof fn lemma_run_has_a_history<T: StateMachineTypes>(
    start: Snapshot<T>,
    saved: Option<Waker>,
    current: Waker,
    outcome: Poll<Result<Event<T>, StateMachineError>>,
    after: Machine<T>,
) -> (history: History<T>) where T::S: State<T>
    requires
        polls_active(start, saved, current, outcome, after),
    ensures
        history.visits.len() > 0,
        history.visits[0].entry == start,
        // A state is initialized if it has not been.
        forall|i: int|
            0 <= i < history.visits.len() ==> match (#[trigger] history.visits[i]).output {
                None => history.visits[i].entry.initialized,
                Some(messages) => !history.visits[i].entry.initialized && call_ensures(
                    <T::S as State<T>>::initialize,
                    (&history.visits[i].entry.state,),
                    messages,
                ),
            },
        // What it sends out is reported, and it is not asked anything else.
        forall|i: int|
            0 <= i < history.visits.len() && ((#[trigger] history.visits[i]).output matches Some(
                messages,
            ) && messages@.len() > 0) ==> {
                &&& i == history.visits.len() - 1
                &&& outcome == Poll::<Result<Event<T>, StateMachineError>>::Ready(
                    Ok(Event::Output(history.visits[i].output->0)),
                )
                &&& after.buffer == history.visits[i].entry.buffer
                &&& after.phase == (Phase::<T>::Active {
                    state: Some(history.visits[i].entry.state),
                    initialized: true,
                })
            },
        // Otherwise it is offered all buffered messages, one after another.
        forall|i: int|
            0 <= i < history.visits.len() && ((#[trigger] history.visits[i]).output matches Some(
                messages,
            ) ==> messages@.len() == 0) ==> {
                &&& history.visits[i].deliveries.len() == history.visits[i].entry.buffer.len()
                &&& history.stages[i].len() == history.visits[i].entry.buffer.len() + 1
                &&& history.stages[i][0] == history.visits[i].entry.state
                &&& history.visits[i].delivered
                    == history.stages[i][history.visits[i].entry.buffer.len() as int]
            },
        forall|i: int, j: int|
            0 <= i < history.visits.len() && (history.visits[i].output matches Some(messages)
                ==> messages@.len() == 0) && 0 <= j < history.visits[i].entry.buffer.len()
                ==> call_ensures(
                deliver_to::<T, T::S>,
                (#[trigger] history.stages[i][j], history.visits[i].entry.buffer[j]),
                (history.stages[i][j + 1], history.visits[i].deliveries[j]),
            ),
        // Errors are reported, all of them.
        forall|i: int|
            0 <= i < history.visits.len() && ((#[trigger] history.visits[i]).output matches Some(
                messages,
            ) ==> messages@.len() == 0) ==> {
                let failures = history.visits[i].deliveries.filter_map(
                    |delivery: Delivery<T::I, T::E>|
                        match delivery {
                            Delivery::Error(error) => Some(error),
                            _ => None,
                        },
                );
                &&& failures.len() > 0 ==> {
                    &&& i == history.visits.len() - 1
                    &&& outcome matches Poll::Ready(Ok(Event::Error(reported)))
                    &&& reported@ == failures
                    &&& after.buffer.len() == 0
                    &&& after.phase == (Phase::<T>::Active {
                        state: Some(history.visits[i].delivered),
                        initialized: true,
                    })
                }
                &&& failures.len() == 0 ==> {
                    &&& history.visits[i].ready matches Some(ready)
                    &&& call_ensures(
                        prepare::<T, T::S>,
                        (history.visits[i].delivered,),
                        (history.visits[i].prepared, ready),
                    )
                }
            },
        forall|i: int|
            0 <= i < history.visits.len() && (#[trigger] history.visits[i]).ready is Some ==> {
                let kept = history.visits[i].deliveries.filter_map(
                    |delivery: Delivery<T::I, T::E>|
                        match delivery {
                            Delivery::Unexpected(message) => Some(message),
                            _ => None,
                        },
                );
                match history.visits[i].ready->0 {
                    // Errors of the preparation are reported.
                    Err(failures) => {
                        &&& i == history.visits.len() - 1
                        &&& outcome == Poll::<Result<Event<T>, StateMachineError>>::Ready(
                            Ok(Event::Error(failures)),
                        )
                        &&& after.buffer == kept
                        &&& after.phase == (Phase::<T>::Active {
                            state: Some(history.visits[i].prepared),
                            initialized: true,
                        })
                    },
                    // The state waits for more messages.
                    Ok(false) => {
                        &&& i == history.visits.len() - 1
                        &&& outcome is Pending
                        &&& after.buffer == kept
                        &&& after.phase == (Phase::<T>::Active {
                            state: Some(history.visits[i].prepared),
                            initialized: true,
                        })
                    },
                    // The state is advanced.
                    Ok(true) => {
                        &&& history.visits[i].transition matches Some(transition)
                        &&& call_ensures(
                            <T::S as State<T>>::advance,
                            (Box::new(history.visits[i].prepared),),
                            transition,
                        )
                        &&& match transition {
                            Transition::Final(state) => {
                                &&& i == history.visits.len() - 1
                                &&& outcome matches Poll::Ready(
                                    Ok(Event::Completion { state: end, buffer }),
                                )
                                &&& end == state
                                &&& buffer@ == kept
                                &&& after.buffer.len() == 0
                                &&& after.phase is Terminated
                            },
                            Transition::Next(state) => if i < history.visits.len() - 1 {
                                history.visits[i + 1].entry == (Snapshot::<T> {
                                    state,
                                    initialized: false,
                                    buffer: kept,
                                })
                            } else {
                                &&& history.visits.len() == 0xffff_ffff_ffff_ffff
                                &&& outcome is Pending
                                &&& after.buffer == kept
                                &&& after.phase == (Phase::<T>::Active {
                                    state: Some(state),
                                    initialized: false,
                                })
                            },
                        }
                    },
                }
            },
        // A machine that goes on after that many visits wakes its task at once.
        history.visits.len() > 0 && (history.visits.last().transition matches Some(
            Transition::Next(_),
        )) ==> exists|waker: Waker|
            cloned(current, waker) && #[trigger] call_ensures(Waker::wake, (waker,), ()),
{
    let (turn, rest) = choose|turn: Option<Halt<T>>, rest: Rest<T>|
        {
            &&& #[trigger] turns(start, TRANSITION_BUDGET as nat, turn, rest)
            &&& after.buffer == rest.buffer
            &&& match turn {
                Some(Halt::Report(event)) => {
                    &&& outcome == Poll::<Result<Event<T>, StateMachineError>>::Ready(Ok(event))
                    &&& after.waker == saved
                    &&& after.phase == if event is Completion {
                        Phase::<T>::Terminated
                    } else {
                        Phase::<T>::Active { state: rest.state, initialized: rest.initialized }
                    }
                },
                Some(Halt::Starve) | None => {
                    &&& outcome is Pending
                    &&& is_saved(after.waker, current)
                    &&& turn is None ==> is_notified(current)
                    &&& after.phase == Phase::<T>::Active {
                        state: rest.state,
                        initialized: rest.initialized,
                    }
                },
            }
        };
    let visits = law_turn_has_a_course(start, TRANSITION_BUDGET as nat, turn, rest);
    law_visits_follow_one_another(start, visits, turn, rest);
    let stages = lemma_visits_have_stages(visits);
    let history = History { produced: None, visits, stages };
    assert(is_visit(visits[visits.len() - 1]));
    assert forall|i: int| 0 <= i < visits.len() implies {
        &&& #[trigger] is_visit(visits[i])
        &&& i < visits.len() - 1 ==> leads_to(visits[i], visits[i + 1].entry)
    } by {
        assert(is_visit(visits[i]));
        if i < visits.len() - 1 {
            assert(leads_to(visits[i], visits[i + 1].entry));
        }
    }
    assert forall|i: int| 0 <= i < visits.len() implies {
        &&& unexpected((#[trigger] visits[i]).deliveries) == visits[i].deliveries.filter_map(
            |delivery: Delivery<T::I, T::E>|
                match delivery {
                    Delivery::Unexpected(message) => Some(message),
                    _ => None,
                },
        )
        &&& errors(visits[i].deliveries) == visits[i].deliveries.filter_map(
            |delivery: Delivery<T::I, T::E>|
                match delivery {
                    Delivery::Error(error) => Some(error),
                    _ => None,
                },
        )
    } by {
        law_answers_are_sorted(visits[i].deliveries);
    }
    history
}

/// A poll does what the producer and the states answer, and nothing else.
///
/// The producer of a pending machine works on the buffered messages in place, and the state that
/// it answers is visited first. Each visited state is initialized if it has not been, and
/// what it sends out is reported, if it sends out anything. Otherwise the buffered messages are
/// delivered to it in order. All errors are reported, if there are any, and otherwise the messages
/// that it did not expect are kept. Then the state is prepared for advancement, and it is advanced
/// if it is ready.
pub proof fn law_poll_follows_the_answers<T: StateMachineTypes>(
    before: StateMachine<T>,
    current: &Waker,
    outcome: Poll<Result<Event<T>, StateMachineError>>,
    after: StateMachine<T>,
) -> (history: History<T>) where
    T::S: State<T>,
    T::P: Fn(&StateMachineId, &mut Vec<T::I>) -> Option<T::S>,

    requires
        exists|machine: &mut StateMachine<T>|
            #[trigger] call_ensures(StateMachine::<T>::poll, (machine, current), outcome)
                && *machine == before && *final(machine) == after,
    ensures
        after@.id == before@.id,
        match before@.phase {
            Phase::Pending { producer } => exists|messages: &mut Vec<T::I>|
                {
                    &&& #[trigger] call_ensures(
                        producer,
                        (&before@.id, messages),
                        history.produced,
                    )
                    &&& messages@ == before@.buffer
                    &&& match history.produced {
                        Some(state) => history.visits.len() > 0 && history.visits[0].entry == (
                        Snapshot::<T> { state, initialized: false, buffer: final(messages)@ }),
                        None => {
                            &&& history.visits.len() == 0
                            &&& outcome is Pending
                            &&& after@.buffer == final(messages)@
                            &&& after@.phase == before@.phase
                        },
                    }
                },
            Phase::Active { state, initialized } => {
                &&& state matches Some(state)
                &&& history.visits.len() > 0
                &&& history.visits[0].entry == (Snapshot::<T> {
                    state,
                    initialized,
                    buffer: before@.buffer,
                })
            },
            Phase::Terminated => {
                &&& history.visits.len() == 0
                &&& outcome == Poll::<Result<Event<T>, StateMachineError>>::Ready(
                    Err(StateMachineError::PolledTerminated(before@.id)),
                )
                &&& after@ == before@
            },
        },
        // The task is to be woken unless there is something to report.
        outcome is Ready ==> after@.waker == before@.waker,
        outcome is Pending ==> (after@.waker matches Some(waker) && cloned(*current, waker)),
        // A state is initialized if it has not been.
        forall|i: int|
            0 <= i < history.visits.len() ==> match (#[trigger] history.visits[i]).output {
                None => history.visits[i].entry.initialized,
                Some(messages) => !history.visits[i].entry.initialized && call_ensures(
                    <T::S as State<T>>::initialize,
                    (&history.visits[i].entry.state,),
                    messages,
                ),
            },
        // What it sends out is reported, and it is not asked anything else.
        forall|i: int|
            0 <= i < history.visits.len() && ((#[trigger] history.visits[i]).output matches Some(
                messages,
            ) && messages@.len() > 0) ==> {
                &&& i == history.visits.len() - 1
                &&& outcome == Poll::<Result<Event<T>, StateMachineError>>::Ready(
                    Ok(Event::Output(history.visits[i].output->0)),
                )
                &&& after@.buffer == history.visits[i].entry.buffer
                &&& after@.phase == (Phase::<T>::Active {
                    state: Some(history.visits[i].entry.state),
                    initialized: true,
                })
            },
        // Otherwise it is offered all buffered messages, one after another.
        forall|i: int|
            0 <= i < history.visits.len() && ((#[trigger] history.visits[i]).output matches Some(
                messages,
            ) ==> messages@.len() == 0) ==> {
                &&& history.visits[i].deliveries.len() == history.visits[i].entry.buffer.len()
                &&& history.stages[i].len() == history.visits[i].entry.buffer.len() + 1
                &&& history.stages[i][0] == history.visits[i].entry.state
                &&& history.visits[i].delivered
                    == history.stages[i][history.visits[i].entry.buffer.len() as int]
            },
        forall|i: int, j: int|
            0 <= i < history.visits.len() && (history.visits[i].output matches Some(messages)
                ==> messages@.len() == 0) && 0 <= j < history.visits[i].entry.buffer.len()
                ==> call_ensures(
                deliver_to::<T, T::S>,
                (#[trigger] history.stages[i][j], history.visits[i].entry.buffer[j]),
                (history.stages[i][j + 1], history.visits[i].deliveries[j]),
            ),
        // Errors are reported, all of them.
        forall|i: int|
            0 <= i < history.visits.len() && ((#[trigger] history.visits[i]).output matches Some(
                messages,
            ) ==> messages@.len() == 0) ==> {
                let failures = history.visits[i].deliveries.filter_map(
                    |delivery: Delivery<T::I, T::E>|
                        match delivery {
                            Delivery::Error(error) => Some(error),
                            _ => None,
                        },
                );
                &&& failures.len() > 0 ==> {
                    &&& i == history.visits.len() - 1
                    &&& outcome matches Poll::Ready(Ok(Event::Error(reported)))
                    &&& reported@ == failures
                    &&& after@.buffer.len() == 0
                    &&& after@.phase == (Phase::<T>::Active {
                        state: Some(history.visits[i].delivered),
                        initialized: true,
                    })
                }
                &&& failures.len() == 0 ==> {
                    &&& history.visits[i].ready matches Some(ready)
                    &&& call_ensures(
                        prepare::<T, T::S>,
                        (history.visits[i].delivered,),
                        (history.visits[i].prepared, ready),
                    )
                }
            },
        forall|i: int|
            0 <= i < history.visits.len() && (#[trigger] history.visits[i]).ready is Some ==> {
                let kept = history.visits[i].deliveries.filter_map(
                    |delivery: Delivery<T::I, T::E>|
                        match delivery {
                            Delivery::Unexpected(message) => Some(message),
                            _ => None,
                        },
                );
                match history.visits[i].ready->0 {
                    // Errors of the preparation are reported.
                    Err(failures) => {
                        &&& i == history.visits.len() - 1
                        &&& outcome == Poll::<Result<Event<T>, StateMachineError>>::Ready(
                            Ok(Event::Error(failures)),
                        )
                        &&& after@.buffer == kept
                        &&& after@.phase == (Phase::<T>::Active {
                            state: Some(history.visits[i].prepared),
                            initialized: true,
                        })
                    },
                    // The state waits for more messages.
                    Ok(false) => {
                        &&& i == history.visits.len() - 1
                        &&& outcome is Pending
                        &&& after@.buffer == kept
                        &&& after@.phase == (Phase::<T>::Active {
                            state: Some(history.visits[i].prepared),
                            initialized: true,
                        })
                    },
                    // The state is advanced.
                    Ok(true) => {
                        &&& history.visits[i].transition matches Some(transition)
                        &&& call_ensures(
                            <T::S as State<T>>::advance,
                            (Box::new(history.visits[i].prepared),),
                            transition,
                        )
                        &&& match transition {
                            Transition::Final(state) => {
                                &&& i == history.visits.len() - 1
                                &&& outcome matches Poll::Ready(
                                    Ok(Event::Completion { state: end, buffer }),
                                )
                                &&& end == state
                                &&& buffer@ == kept
                                &&& after@.buffer.len() == 0
                                &&& after@.phase is Terminated
                            },
                            Transition::Next(state) => if i < history.visits.len() - 1 {
                                history.visits[i + 1].entry == (Snapshot::<T> {
                                    state,
                                    initialized: false,
                                    buffer: kept,
                                })
                            } else {
                                &&& history.visits.len() == 0xffff_ffff_ffff_ffff
                                &&& outcome is Pending
                                &&& after@.buffer == kept
                                &&& after@.phase == (Phase::<T>::Active {
                                    state: Some(state),
                                    initialized: false,
                                })
                            },
                        }
                    },
                }
            },
        // A machine that goes on after that many visits wakes its task at once.
        history.visits.len() > 0 && (history.visits.last().transition matches Some(
            Transition::Next(_),
        )) ==> exists|waker: Waker|
            cloned(*current, waker) && #[trigger] call_ensures(Waker::wake, (waker,), ()),
{
    let before = before@;
    let after = after@;
    match before.phase {
        Phase::Pending { producer } => {
            if polls_in_vain(before, producer, *current, outcome, after) {
                lemma_producer_is_asked::<T>(
                    producer,
                    before.id,
                    before.buffer,
                    after.buffer,
                    None,
                );
                History { produced: None, visits: Seq::empty(), stages: Seq::empty() }
            } else {
                let (left, state) = choose|left: Seq<T::I>, state: T::S|
                    #[trigger] starts(before, producer, left, state) && polls_active(
                        Snapshot { state, initialized: false, buffer: left },
                        before.waker,
                        *current,
                        outcome,
                        after,
                    );
                lemma_producer_is_asked::<T>(
                    producer,
                    before.id,
                    before.buffer,
                    left,
                    Some(state),
                );
                let history = lemma_run_has_a_history(
                    Snapshot { state, initialized: false, buffer: left },
                    before.waker,
                    *current,
                    outcome,
                    after,
                );
                History { produced: Some(state), ..history }
            }
        },
        Phase::Active { state, initialized } => lemma_run_has_a_history(
            Snapshot { state: state->0, initialized, buffer: before.buffer },
            before.waker,
            *current,
            outcome,
            after,
        ),
        Phase::Terminated => History {
            produced: None,
            visits: Seq::empty(),
            stages: Seq::empty(),
        },
    }
}

/// A state that a machine is created with is initialized in the first poll, and what it sends
/// out is reported, be it one message or many. It stays the current state.
pub proof fn law_initial_state_is_heard<T: StateMachineTypes>(
    id: StateMachineId,
    state: T::S,
    before: StateMachine<T>,
    current: &Waker,
    outcome: Poll<Result<Event<T>, StateMachineError>>,
    after: StateMachine<T>,
) where T::S: State<T>, T::P: Fn(&StateMachineId, &mut Vec<T::I>) -> Option<T::S>
    requires
        call_ensures(StateMachine::<T>::new_with_state, (id, state), before),
        exists|machine: &mut StateMachine<T>|
            #[trigger] call_ensures(StateMachine::<T>::poll, (machine, current), outcome)
                && *machine == before && *final(machine) == after,
    ensures
        exists|messages: Vec<T::O>|
            {
                &&& #[trigger] call_ensures(<T::S as State<T>>::initialize, (&state,), messages)
                &&& messages@.len() > 0 ==> {
                    &&& outcome == Poll::<Result<Event<T>, StateMachineError>>::Ready(
                        Ok(Event::Output(messages)),
                    )
                    &&& after@.buffer.len() == 0
                    &&& after@.phase == (Phase::<T>::Active {
                        state: Some(state),
                        initialized: true,
                    })
                }
            },
{
    let history = law_poll_follows_the_answers(before, current, outcome, after);
    let first = history.visits[0];
    assert(call_ensures(<T::S as State<T>>::initialize, (&state,), first.output->0));
}

/// A state that a producer answers is initialized in the same poll, before anything else is asked
/// of it, and what it sends out is reported. Meanwhile the messages are what the producer has left
/// of those that were buffered.
pub proof fn law_produced_state_is_heard<T: StateMachineTypes>(
    before: StateMachine<T>,
    current: &Waker,
    outcome: Poll<Result<Event<T>, StateMachineError>>,
    after: StateMachine<T>,
) where T::S: State<T>, T::P: Fn(&StateMachineId, &mut Vec<T::I>) -> Option<T::S>
    requires
        before@.phase is Pending,
        exists|machine: &mut StateMachine<T>|
            #[trigger] call_ensures(StateMachine::<T>::poll, (machine, current), outcome)
                && *machine == before && *final(machine) == after,
    ensures
        exists|buffer: &mut Vec<T::I>, produced: Option<T::S>|
            {
                &&& #[trigger] call_ensures(
                    before@.phase->Pending_producer,
                    (&before@.id, buffer),
                    produced,
                )
                &&& buffer@ == before@.buffer
                &&& match produced {
                    None => {
                        &&& outcome is Pending
                        &&& after@.phase == before@.phase
                        &&& after@.buffer == final(buffer)@
                    },
                    Some(state) => exists|messages: Vec<T::O>|
                        {
                            &&& #[trigger] call_ensures(
                                <T::S as State<T>>::initialize,
                                (&state,),
                                messages,
                            )
                            &&& messages@.len() > 0 ==> {
                                &&& outcome == Poll::<Result<Event<T>, StateMachineError>>::Ready(
                                    Ok(Event::Output(messages)),
                                )
                                &&& after@.phase == (Phase::<T>::Active {
                                    state: Some(state),
                                    initialized: true,
                                })
                                &&& after@.buffer == final(buffer)@
                            }
                        },
                }
            },
{
    let history = law_poll_follows_the_answers(before, current, outcome, after);
    if history.produced is Some {
        let first = history.visits[0];
        assert(call_ensures(
            <T::S as State<T>>::initialize,
            (&history.produced->0,),
            first.output->0,
        ));
    }
}

/// A poll of a machine whose producer answers goes on as a poll of a machine that has been
/// created with the state that was answered and to which the messages that were left have been
/// delivered: the two have the same course.
pub proof fn law_produced_state_is_driven_like_any_other<T: StateMachineTypes>(
    before: Machine<T>,
    current: Waker,
    outcome: Poll<Result<Event<T>, StateMachineError>>,
    after: Machine<T>,
) where T::S: State<T>, T::P: Fn(&StateMachineId, &mut Vec<T::I>) -> Option<T::S>
    requires
        before.phase is Pending,
        polls(before, current, outcome, after),
        !(after.phase is Pending),
    ensures
        exists|buffer: &mut Vec<T::I>, state: T::S|
            {
                &&& #[trigger] call_ensures(
                    before.phase->Pending_producer,
                    (&before.id, buffer),
                    Some(state),
                )
                &&& buffer@ == before.buffer
                &&& polls(
                    Machine::<T> {
                        id: before.id,
                        buffer: final(buffer)@,
                        waker: before.waker,
                        phase: Phase::Active { state: Some(state), initialized: false },
                    },
                    current,
                    outcome,
                    after,
                )
            },
{
    let producer = before.phase->Pending_producer;
    let (left, state) = choose|left: Seq<T::I>, state: T::S|
        #[trigger] starts(before, producer, left, state) && polls_active(
            Snapshot { state, initialized: false, buffer: left },
            before.waker,
            current,
            outcome,
            after,
        );
    lemma_producer_is_asked::<T>(producer, before.id, before.buffer, left, Some(state));
}

/// A stream yields the events that polling the machine reports, waits as long as
/// polling does, and ends when the machine cannot be polled anymore.
pub proof fn law_stream_yields_the_events<T: StateMachineTypes>(
    machine: &mut StateMachine<T>,
    current: &Waker,
    item: Poll<Option<Event<T>>>,
) where T::S: State<T>, T::P: Fn(&StateMachineId, &mut Vec<T::I>) -> Option<T::S>
    requires
        call_ensures(StateMachine::<T>::poll_next, (machine, current), item),
    ensures
        exists|polled: &mut StateMachine<T>, outcome: Poll<Result<Event<T>, StateMachineError>>|
            {
                &&& #[trigger] call_ensures(StateMachine::<T>::poll, (polled, current), outcome)
                &&& *polled == *old(machine)
                &&& *final(polled) == *final(machine)
                &&& item is Pending <==> outcome is Pending
                &&& forall|event: Event<T>|
                    item == Poll::Ready(Some(event)) <==> outcome == Poll::<
                        Result<Event<T>, StateMachineError>,
                    >::Ready(Ok(event))
                &&& (item matches Poll::Ready(None)) <==> (outcome matches Poll::Ready(Err(_)))
            },
{
}

/// A new machine has its ID, nothing buffered but the message that it is created with, and no
/// task waiting for it; it starts with its producer, or else with its state, which is yet
/// to be initialized.
pub proof fn law_machine_starts_as_created<T: StateMachineTypes>(
    id: StateMachineId,
    producer: T::P,
    message: T::I,
    state: T::S,
    silent: StateMachine<T>,
    addressed: StateMachine<T>,
    active: StateMachine<T>,
)
    requires
        call_ensures(StateMachine::<T>::new, (id, producer), silent),
        call_ensures(StateMachine::<T>::new_with_message, (id, message, producer), addressed),
        call_ensures(StateMachine::<T>::new_with_state, (id, state), active),
    ensures
        silent@.id == id && addressed@.id == id && active@.id == id,
        silent@.waker is None && addressed@.waker is None && active@.waker is None,
        silent@.buffer.len() == 0,
        addressed@.buffer.len() == 1 && addressed@.buffer[0] == message,
        active@.buffer.len() == 0,
        silent@.phase matches Phase::Pending { producer: p } && p == producer,
        addressed@.phase matches Phase::Pending { producer: p } && p == producer,
        active@.phase matches Phase::Active { state: Some(s), initialized } && s == state
            && !initialized,
{
}

/// A message that is delivered comes last in the buffer. The task that was to be woken is woken,
/// and none is left; nothing else changes.
pub proof fn law_delivery_appends<T: StateMachineTypes>(
    machine: &mut StateMachine<T>,
    message: T::I,
)
    requires
        call_ensures(StateMachine::<T>::deliver, (machine, message), ()),
    ensures
        final(machine)@.buffer.len() == old(machine)@.buffer.len() + 1,
        forall|i: int|
            0 <= i < old(machine)@.buffer.len() ==> #[trigger] final(machine)@.buffer[i] == old(
                machine,
            )@.buffer[i],
        final(machine)@.buffer.last() == message,
        final(machine)@.waker is None,
        old(machine)@.waker matches Some(waker) ==> call_ensures(Waker::wake, (waker,), ()),
        final(machine)@.id == old(machine)@.id,
        final(machine)@.phase == old(machine)@.phase,
{
}

/// A message that is accepted comes last in the buffer. The waker that was to be woken is handed
/// out, and none is left; nothing else changes.
pub proof fn law_acceptance_appends<T: StateMachineTypes>(
    machine: &mut StateMachine<T>,
    message: T::I,
    waker: Option<Waker>,
)
    requires
        call_ensures(StateMachine::<T>::accept, (machine, message), waker),
    ensures
        final(machine)@.buffer.len() == old(machine)@.buffer.len() + 1,
        forall|i: int|
            0 <= i < old(machine)@.buffer.len() ==> #[trigger] final(machine)@.buffer[i] == old(
                machine,
            )@.buffer[i],
        final(machine)@.buffer.last() == message,
        waker == old(machine)@.waker,
        final(machine)@.waker is None,
        final(machine)@.id == old(machine)@.id,
        final(machine)@.phase == old(machine)@.phase,
{
}

/// A machine can be polled as long as it has a state when it is active and its producer, if it
/// still has one, can be called with any messages.
pub proof fn law_machine_can_be_polled<T: StateMachineTypes>(
    machine: &mut StateMachine<T>,
    current: &Waker,
) where T::S: State<T>, T::P: Fn(&StateMachineId, &mut Vec<T::I>) -> Option<T::S>
    requires
        match old(machine)@.phase {
            Phase::Pending { producer } => forall|
                id: &StateMachineId,
                messages: &mut Vec<T::I>,
            | #[trigger] call_requires(producer, (id, messages)),
            Phase::Active { state, .. } => state is Some,
            Phase::Terminated => true,
        },
    ensures
        call_requires(StateMachine::<T>::poll, (machine, current)),
        call_requires(StateMachine::<T>::poll_next, (machine, current)),
{
}

/// A machine that has been polled can be polled again: it has a state if it is active, and it is
/// pending only with the producer that it had.
pub proof fn law_machine_can_be_polled_again<T: StateMachineTypes>(
    machine: &mut StateMachine<T>,
    current: &Waker,
    outcome: Poll<Result<Event<T>, StateMachineError>>,
) where T::S: State<T>, T::P: Fn(&StateMachineId, &mut Vec<T::I>) -> Option<T::S>
    requires
        call_ensures(StateMachine::<T>::poll, (machine, current), outcome),
    ensures
        final(machine)@.phase matches Phase::Active { state, .. } ==> state is Some,
        final(machine)@.phase is Pending ==> final(machine)@.phase == old(machine)@.phase,
        final(machine)@.phase is Terminated <==> old(machine)@.phase is Terminated || (
        outcome matches Poll::Ready(Ok(Event::Completion { .. }))),
{
}

} // verus!
