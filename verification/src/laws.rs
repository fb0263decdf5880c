//! Laws of the state machine: what holds of every run, whatever states it goes through.
use crate::Event;
use crate::StateMachineTypes;
use crate::run::{
    Halt, Rest, Snapshot, advances, delivers, delivers_all, digests, errors, halts,
    halts_by_starving, halts_on_preparation, halts_with_completion, is_asked, is_ready, moves,
    prepares, reaches, turns, unexpected,
};
use crate::state::{BoxedState, Delivery, State, Transition};
use crate::state_machine::{
    Machine, Phase, StateMachineError, StateMachineId, StateProducer, active_machine, as_item,
    is_notified, is_pollable, is_saved, is_woken, pending_machine, polls, produces, starts,
    with_message, with_messages,
};
use crate::task::Poll;
use std::task::Waker;
use vstd::prelude::*;

verus! {

/// Two runs, of which the second starts where the first has got to, make one run.
pub proof fn law_runs_compose<T: StateMachineTypes>(
    start: Snapshot<T>,
    steps: nat,
    middle: Snapshot<T>,
    more: nat,
    now: Snapshot<T>,
) where T::S: State<T>
    requires
        reaches(start, steps, middle),
        reaches(middle, more, now),
    ensures
        reaches(start, steps + more, now),
    decreases more,
{
    if more > 0 {
        let before = choose|before: Snapshot<T>|
            reaches(middle, (more - 1) as nat, before) && #[trigger] moves(before, now);
        law_runs_compose(start, steps, middle, (more - 1) as nat, before);
    }
}

/// A machine that has used up its budget and is polled again halts, if it does, as one
/// with the larger budget would have done: yielding to other tasks changes nothing else.
pub proof fn law_yielding_is_transparent<T: StateMachineTypes>(
    start: Snapshot<T>,
    budget: nat,
    yielded: Rest<T>,
    more: nat,
    turn: Option<Halt<T>>,
    rest: Rest<T>,
) where T::S: State<T>
    requires
        turns(start, budget, None, yielded),
        turns(
            Snapshot {
                state: yielded.state->0,
                initialized: yielded.initialized,
                buffer: yielded.buffer,
            },
            more,
            turn,
            rest,
        ),
    ensures
        turns(start, budget + more, turn, rest),
{
    let middle = Snapshot::<T> {
        state: yielded.state->0,
        initialized: yielded.initialized,
        buffer: yielded.buffer,
    };
    match turn {
        Some(halt) => {
            let (steps, now) = choose|steps: nat, now: Snapshot<T>|
                steps < more && #[trigger] reaches(middle, steps, now) && halts(now, halt, rest);
            law_runs_compose(start, budget, middle, steps, now);
        },
        None => {
            let now = Snapshot::<T> {
                state: rest.state->0,
                initialized: rest.initialized,
                buffer: rest.buffer,
            };
            law_runs_compose(start, budget, middle, more, now);
        },
    }
}

/// The first transition of a run comes before all others.
pub proof fn law_run_starts_with_a_move<T: StateMachineTypes>(
    start: Snapshot<T>,
    steps: nat,
    now: Snapshot<T>,
) -> (next: Snapshot<T>) where T::S: State<T>
    requires
        steps > 0,
        reaches(start, steps, now),
    ensures
        moves(start, next),
        reaches(next, (steps - 1) as nat, now),
    decreases steps,
{
    let before = choose|before: Snapshot<T>|
        reaches(start, (steps - 1) as nat, before) && #[trigger] moves(before, now);
    if steps == 1 {
        now
    } else {
        let next = law_run_starts_with_a_move(start, (steps - 1) as nat, before);
        next
    }
}

/// The place of a phase in the life of a state machine.
pub open spec fn rank<T: StateMachineTypes>(phase: Phase<T>) -> int {
    match phase {
        Phase::Pending { .. } => 0,
        Phase::Active { .. } => 1,
        Phase::Terminated => 2,
    }
}

/// A state machine goes through the phases in order and never back, and it keeps its ID.
pub proof fn law_phases_progress<T: StateMachineTypes>(
    before: Machine<T>,
    current: Waker,
    outcome: Poll<Result<Event<T>, StateMachineError>>,
    after: Machine<T>,
) where T::S: State<T>, T::P: Fn(&StateMachineId, &mut Vec<T::I>) -> Option<T::S>
    requires
        polls(before, current, outcome, after),
    ensures
        rank(before.phase) <= rank(after.phase),
        after.id == before.id,
{
}

/// A state machine terminates when it completes, and then only: it does so with nothing left
/// in the buffer, and from then on it produces no event, whatever messages are delivered.
pub proof fn law_completion_terminates<T: StateMachineTypes>(
    before: Machine<T>,
    current: Waker,
    outcome: Poll<Result<Event<T>, StateMachineError>>,
    after: Machine<T>,
    later: Machine<T>,
    next: Waker,
    answer: Poll<Result<Event<T>, StateMachineError>>,
    end: Machine<T>,
) where T::S: State<T>, T::P: Fn(&StateMachineId, &mut Vec<T::I>) -> Option<T::S>
    requires
        !(before.phase is Terminated),
        polls(before, current, outcome, after),
        later.phase == after.phase,
        polls(later, next, answer, end),
    ensures
        after.phase is Terminated <==> outcome matches Poll::Ready(Ok(Event::Completion { .. })),
        after.phase is Terminated ==> {
            &&& after.buffer == Seq::<T::I>::empty()
            &&& answer == Poll::<Result<Event<T>, StateMachineError>>::Ready(
                Err(StateMachineError::PolledTerminated(later.id)),
            )
            &&& as_item(answer) == Poll::Ready(None::<Event<T>>)
            &&& end == later
        },
{
}

/// A task that finds nothing to be reported is saved for being woken, and a task that
/// finds an event replaces no other.
pub proof fn law_waiting_task_is_saved<T: StateMachineTypes>(
    before: Machine<T>,
    current: Waker,
    outcome: Poll<Result<Event<T>, StateMachineError>>,
    after: Machine<T>,
) where T::S: State<T>, T::P: Fn(&StateMachineId, &mut Vec<T::I>) -> Option<T::S>
    requires
        polls(before, current, outcome, after),
    ensures
        outcome is Pending ==> is_saved(after.waker, current),
        outcome is Ready ==> after.waker == before.waker,
{
}

/// A message that is delivered to a machine wakes the task that has last found nothing to be
/// reported: delivery wakes the saved waker, if there is one.
pub proof fn law_delivery_wakes_the_waiting_task<T: StateMachineTypes>(
    before: Machine<T>,
    current: Waker,
    outcome: Poll<Result<Event<T>, StateMachineError>>,
    after: Machine<T>,
) where T::S: State<T>, T::P: Fn(&StateMachineId, &mut Vec<T::I>) -> Option<T::S>
    requires
        polls(before, current, outcome, after),
        outcome is Pending,
        after.waker matches Some(waker) ==> is_woken(waker),
    ensures
        is_notified(current),
{
}

/// Of any number of deliveries in a row, the first one alone finds a waker to wake: no task
/// is left waiting after it. All messages are buffered in the order of delivery, and nothing
/// else changes.
pub proof fn law_first_delivery_alone_wakes<T: StateMachineTypes>(
    machine: Machine<T>,
    messages: Seq<T::I>,
)
    ensures
        with_messages(machine, messages) == (Machine::<T> {
            buffer: machine.buffer + messages,
            waker: if messages.len() == 0 {
                machine.waker
            } else {
                None
            },
            ..machine
        }),
        forall|i: int|
            0 < i <= messages.len() ==> (#[trigger] with_messages(
                machine,
                messages.take(i),
            )).waker is None,
    decreases messages.len(),
{
    if messages.len() > 0 {
        law_first_delivery_alone_wakes(machine, messages.drop_last());
        assert((machine.buffer + messages.drop_last()).push(messages.last()) =~= machine.buffer
            + messages);
    }
}

/// The producer is asked in each poll until it answers with a state, and a machine that
/// has a state has no producer left to be asked: a pending machine either stays pending with the
/// same producer, or leaves that phase for good with what the producer has answered.
pub proof fn law_producer_is_asked_until_it_answers<T: StateMachineTypes>(
    before: Machine<T>,
    current: Waker,
    outcome: Poll<Result<Event<T>, StateMachineError>>,
    after: Machine<T>,
) where T::S: State<T>, T::P: Fn(&StateMachineId, &mut Vec<T::I>) -> Option<T::S>
    requires
        polls(before, current, outcome, after),
    ensures
        after.phase is Pending ==> {
            &&& after.phase == before.phase
            &&& outcome is Pending
            &&& produces::<T>(
                before.phase->Pending_producer,
                before.id,
                before.buffer,
                after.buffer,
                None,
            )
        },
        before.phase is Pending && !(after.phase is Pending) ==> exists|
            left: Seq<T::I>,
            state: T::S,
        | #[trigger]
            starts(before, before.phase->Pending_producer, left, state),
{
}

/// A machine can always be polled: whenever it is active it maintains a state, whatever it has
/// reported, errors included, and whatever messages have been delivered.
pub proof fn law_active_machine_maintains_a_state<T: StateMachineTypes>(
    id: StateMachineId,
    state: BoxedState<T>,
    before: Machine<T>,
    message: T::I,
    current: Waker,
    outcome: Poll<Result<Event<T>, StateMachineError>>,
    after: Machine<T>,
) where T::S: State<T>, T::P: Fn(&StateMachineId, &mut Vec<T::I>) -> Option<T::S>
    requires
        is_pollable(before),
        polls(before, current, outcome, after),
    ensures
        is_pollable(active_machine::<T>(id, state)),
        is_pollable(with_message(before, message)),
        is_pollable(after),
        after.phase matches Phase::Active { state, .. } ==> state is Some,
{
}

/// A machine that is created with a message is one to which the message is delivered
/// right after its creation.
pub proof fn law_message_at_creation_is_delivered<T: StateMachineTypes>(
    id: StateMachineId,
    message: T::I,
    producer: StateProducer<T>,
)
    ensures
        with_message(pending_machine::<T>(id, Seq::empty(), producer), message) == pending_machine::<T>(
            id,
            seq![message],
            producer,
        ),
{
}

/// `part` is what remains of `whole` when some of its items are left out.
pub open spec fn is_subsequence<A>(part: Seq<A>, whole: Seq<A>) -> bool
    decreases whole.len(),
{
    if part.len() == 0 {
        true
    } else if whole.len() == 0 {
        false
    } else {
        ||| part.last() == whole.last() && is_subsequence(part.drop_last(), whole.drop_last())
        ||| is_subsequence(part, whole.drop_last())
    }
}

proof fn lemma_subsequence_is_reflexive<A>(whole: Seq<A>)
    ensures
        is_subsequence(whole, whole),
    decreases whole.len(),
{
    if whole.len() > 0 {
        lemma_subsequence_is_reflexive(whole.drop_last());
    }
}

proof fn lemma_subsequence_is_transitive<A>(part: Seq<A>, middle: Seq<A>, whole: Seq<A>)
    requires
        is_subsequence(part, middle),
        is_subsequence(middle, whole),
    ensures
        is_subsequence(part, whole),
    decreases whole.len(),
{
    if part.len() > 0 && whole.len() > 0 {
        if is_subsequence(middle, whole.drop_last()) {
            lemma_subsequence_is_transitive(part, middle, whole.drop_last());
        } else if is_subsequence(part, middle.drop_last()) {
            lemma_subsequence_is_transitive(part, middle.drop_last(), whole.drop_last());
        } else {
            lemma_subsequence_is_transitive(
                part.drop_last(),
                middle.drop_last(),
                whole.drop_last(),
            );
        }
    }
}

/// The states of the machine return an unexpected message as they have got it.
pub open spec fn is_faithful<T: StateMachineTypes>() -> bool where T::S: State<T> {
    forall|state: T::S, message: T::I, after: T::S, returned: T::I| #[trigger]
        delivers::<T>(state, message, after, Delivery::Unexpected(returned)) ==> returned == message
}

/// The messages that a faithful state does not expect are left in the order in which
/// they were delivered.
pub proof fn law_unexpected_messages_keep_their_order<T: StateMachineTypes>(
    state: T::S,
    messages: Seq<T::I>,
    after: T::S,
    deliveries: Seq<Delivery<T::I, T::E>>,
) where T::S: State<T>
    requires
        is_faithful::<T>(),
        delivers_all::<T>(state, messages, after, deliveries),
    ensures
        is_subsequence(unexpected(deliveries), messages),
    decreases messages.len(),
{
    if messages.len() > 0 {
        let before = choose|before: T::S|
            delivers_all::<T>(state, messages.drop_last(), before, deliveries.drop_last())
                && #[trigger] delivers::<T>(before, messages.last(), after, deliveries.last());
        law_unexpected_messages_keep_their_order::<T>(
            state,
            messages.drop_last(),
            before,
            deliveries.drop_last(),
        );
        let earlier = unexpected(deliveries.drop_last());
        match deliveries.last() {
            Delivery::Unexpected(returned) => {
                assert(delivers::<T>(
                    before,
                    messages.last(),
                    after,
                    Delivery::Unexpected(returned),
                ));
                assert(earlier.push(returned).drop_last() =~= earlier);
            },
            _ => {},
        }
    }
}

/// Faithful states neither invent nor reorder messages: each state is offered messages
/// that were buffered when the run began, in the order in which they were buffered.
pub proof fn law_run_keeps_messages_in_order<T: StateMachineTypes>(
    start: Snapshot<T>,
    steps: nat,
    now: Snapshot<T>,
) where T::S: State<T>
    requires
        is_faithful::<T>(),
        reaches(start, steps, now),
    ensures
        is_subsequence(now.buffer, start.buffer),
    decreases steps,
{
    if steps == 0 {
        lemma_subsequence_is_reflexive(start.buffer);
    } else {
        let before = choose|before: Snapshot<T>|
            reaches(start, (steps - 1) as nat, before) && #[trigger] moves(before, now);
        law_run_keeps_messages_in_order(start, (steps - 1) as nat, before);
        let last = choose|last: T::S|
            #[trigger] is_ready(before, now.buffer, last) && advances::<T>(
                last,
                Transition::Next(now.state),
            );
        lemma_asking_keeps_messages_in_order(before, now.buffer, last, Ok(true));
        lemma_subsequence_is_transitive(now.buffer, before.buffer, start.buffer);
    }
}

proof fn lemma_asking_keeps_messages_in_order<T: StateMachineTypes>(
    now: Snapshot<T>,
    buffer: Seq<T::I>,
    after: T::S,
    ready: Result<bool, Vec<T::E>>,
) where T::S: State<T>
    requires
        is_faithful::<T>(),
        is_asked(now, buffer, after, ready),
    ensures
        is_subsequence(buffer, now.buffer),
{
    let (before, deliveries) = choose|before: T::S, deliveries: Seq<Delivery<T::I, T::E>>|
        {
            &&& #[trigger] digests(now, before, deliveries)
            &&& errors(deliveries).len() == 0
            &&& buffer == unexpected(deliveries)
            &&& prepares::<T>(before, after, ready)
        };
    law_unexpected_messages_keep_their_order::<T>(now.state, now.buffer, before, deliveries);
}

/// What a machine of faithful states gives away at its completion, or keeps otherwise, are
/// messages that were buffered when it was polled and that no state has consumed, in
/// the order in which they were buffered.
pub proof fn law_left_over_messages_keep_their_order<T: StateMachineTypes>(
    start: Snapshot<T>,
    budget: nat,
    turn: Option<Halt<T>>,
    rest: Rest<T>,
) where T::S: State<T>
    requires
        is_faithful::<T>(),
        turns(start, budget, turn, rest),
    ensures
        is_subsequence(rest.buffer, start.buffer),
        turn matches Some(Halt::Report(Event::Completion { buffer, .. })) ==> is_subsequence(
            buffer@,
            start.buffer,
        ),
{
    match turn {
        Some(halt) => {
            let (steps, now) = choose|steps: nat, now: Snapshot<T>|
                steps < budget && #[trigger] reaches(start, steps, now) && halts(now, halt, rest);
            law_run_keeps_messages_in_order(start, steps, now);
            if halts_with_completion(now, halt, rest) {
                if let Halt::Report(Event::Completion { state, buffer }) = halt {
                    let last = choose|last: T::S|
                        #[trigger] is_ready(now, buffer@, last) && advances::<T>(
                            last,
                            Transition::Final(state),
                        );
                    lemma_asking_keeps_messages_in_order(now, buffer@, last, Ok(true));
                    lemma_subsequence_is_transitive(buffer@, now.buffer, start.buffer);
                }
            } else if halts_by_starving(now, halt, rest) {
                lemma_asking_keeps_messages_in_order(now, rest.buffer, rest.state->0, Ok(false));
                lemma_subsequence_is_transitive(rest.buffer, now.buffer, start.buffer);
            } else if halts_on_preparation(now, halt, rest) {
                if let Halt::Report(Event::Error(reported)) = halt {
                    lemma_asking_keeps_messages_in_order(
                        now,
                        rest.buffer,
                        rest.state->0,
                        Err(reported),
                    );
                    lemma_subsequence_is_transitive(rest.buffer, now.buffer, start.buffer);
                }
            }
        },
        None => {
            let now = Snapshot::<T> {
                state: rest.state->0,
                initialized: rest.initialized,
                buffer: rest.buffer,
            };
            law_run_keeps_messages_in_order(start, budget, now);
        },
    }
}

} // verus!
