//! The course of a poll: the states that a machine visits, and what each of them is asked.
use crate::Event;
use crate::StateMachineTypes;
use crate::laws::is_faithful;
use crate::run::{
    Halt, Rest, Snapshot, advances, delivers, delivers_all, digests, errors, halts,
    halts_by_starving, halts_on_delivery, halts_on_preparation, halts_with_output, initializes,
    is_asked, is_ready, moves, prepares, reaches, turns, unexpected,
};
use crate::state::{Delivery, State, Transition};
use vstd::multiset::Multiset;
use vstd::prelude::*;

verus! {

/// What is asked of one state while the machine is in it, and what the state answers. A
/// question that is not asked has no answer.
pub struct Visit<T: StateMachineTypes> {
    /// Where the machine stands when it comes to the state.
    pub entry: Snapshot<T>,
    /// The answer to `initialize`.
    pub output: Option<Vec<T::O>>,
    /// The answers to `deliver`, one for each message.
    pub deliveries: Seq<Delivery<T::I, T::E>>,
    /// The state after the deliveries.
    pub delivered: T::S,
    /// The answer to `prepare_advance`.
    pub ready: Option<Result<bool, Vec<T::E>>>,
    /// The state after the preparation.
    pub prepared: T::S,
    /// The answer to `advance`.
    pub transition: Option<Transition<T>>,
}

/// The state has sent out messages at its initialization.
pub open spec fn is_loud<T: StateMachineTypes>(visit: Visit<T>) -> bool {
    visit.output matches Some(messages) && messages@.len() > 0
}

/// The state may give these answers, and is asked in this order: `initialize` once, and only
/// if it has not been asked that before; unless that sends out messages, `deliver` once for each
/// buffered message, in the order in which they are buffered; unless there are errors,
/// `prepare_advance` once; and `advance` once, and only if the state is ready.
pub open spec fn is_visit<T: StateMachineTypes>(visit: Visit<T>) -> bool where T::S: State<T> {
    &&& visit.output is None <==> visit.entry.initialized
    &&& visit.output matches Some(messages) ==> initializes::<T>(visit.entry.state, messages)
    &&& if is_loud(visit) {
        &&& visit.deliveries.len() == 0
        &&& visit.ready is None
        &&& visit.transition is None
    } else {
        &&& delivers_all::<T>(
            visit.entry.state,
            visit.entry.buffer,
            visit.delivered,
            visit.deliveries,
        )
        &&& if errors(visit.deliveries).len() > 0 {
            &&& visit.ready is None
            &&& visit.transition is None
        } else {
            &&& visit.ready matches Some(ready)
            &&& prepares::<T>(visit.delivered, visit.prepared, ready)
            &&& if ready == Ok::<bool, Vec<T::E>>(true) {
                visit.transition matches Some(transition) && advances::<T>(
                    visit.prepared,
                    transition,
                )
            } else {
                visit.transition is None
            }
        }
    }
}

/// The machine goes on from the visited state to the next one.
pub open spec fn leads_to<T: StateMachineTypes>(visit: Visit<T>, next: Snapshot<T>) -> bool where
    T::S: State<T>,
 {
    &&& is_visit(visit)
    &&& visit.transition == Some(Transition::<T>::Next(next.state))
    &&& !next.initialized
    &&& next.buffer == unexpected(visit.deliveries)
}

/// The machine halts in the visited state.
pub open spec fn ends_in<T: StateMachineTypes>(
    visit: Visit<T>,
    halt: Halt<T>,
    rest: Rest<T>,
) -> bool where T::S: State<T> {
    &&& is_visit(visit)
    &&& rest.initialized
    &&& if is_loud(visit) {
        &&& halt == Halt::<T>::Report(Event::Output(visit.output->0))
        &&& rest.state == Some(visit.entry.state)
        &&& rest.buffer == visit.entry.buffer
    } else if errors(visit.deliveries).len() > 0 {
        &&& halt matches Halt::Report(Event::Error(reported))
        &&& reported@ == errors(visit.deliveries)
        &&& rest.state == Some(visit.delivered)
        &&& rest.buffer.len() == 0
    } else {
        match visit.ready->0 {
            Err(reported) => {
                &&& halt == Halt::<T>::Report(Event::Error(reported))
                &&& rest.state == Some(visit.prepared)
                &&& rest.buffer == unexpected(visit.deliveries)
            },
            Ok(false) => {
                &&& halt == Halt::<T>::Starve
                &&& rest.state == Some(visit.prepared)
                &&& rest.buffer == unexpected(visit.deliveries)
            },
            Ok(true) => {
                &&& halt matches Halt::Report(Event::Completion { state, buffer })
                &&& visit.transition == Some(Transition::<T>::Final(state))
                &&& buffer@ == unexpected(visit.deliveries)
                &&& rest.state is None
                &&& rest.buffer.len() == 0
            },
        }
    }
}

/// The machine gets from `start` to `now` by way of `visits`.
pub open spec fn is_path<T: StateMachineTypes>(
    start: Snapshot<T>,
    visits: Seq<Visit<T>>,
    now: Snapshot<T>,
) -> bool where T::S: State<T>
    decreases visits.len(),
{
    if visits.len() == 0 {
        now == start
    } else {
        is_path(start, visits.drop_last(), visits.last().entry) && leads_to(visits.last(), now)
    }
}

/// Started from `start`, the machine makes `visits` and comes to `turn`, leaving `rest`.
pub open spec fn is_course<T: StateMachineTypes>(
    start: Snapshot<T>,
    visits: Seq<Visit<T>>,
    turn: Option<Halt<T>>,
    rest: Rest<T>,
) -> bool where T::S: State<T> {
    match turn {
        Some(halt) => {
            &&& visits.len() > 0
            &&& is_path(start, visits.drop_last(), visits.last().entry)
            &&& ends_in(visits.last(), halt, rest)
        },
        None => {
            &&& rest.state matches Some(state)
            &&& is_path(
                start,
                visits,
                Snapshot::<T> { state, initialized: rest.initialized, buffer: rest.buffer },
            )
        },
    }
}

/// Every poll has a course: what it makes of the machine comes from asking each visited
/// state the questions of a visit.
pub proof fn law_turn_has_a_course<T: StateMachineTypes>(
    start: Snapshot<T>,
    budget: nat,
    turn: Option<Halt<T>>,
    rest: Rest<T>,
) -> (visits: Seq<Visit<T>>) where T::S: State<T>
    requires
        turns(start, budget, turn, rest),
    ensures
        is_course(start, visits, turn, rest),
        visits.len() <= budget,
        turn is None ==> visits.len() == budget,
{
    match turn {
        Some(halt) => {
            let (steps, now) = choose|steps: nat, now: Snapshot<T>|
                steps < budget && #[trigger] reaches(start, steps, now) && halts(now, halt, rest);
            let path = lemma_run_is_a_path(start, steps, now);
            let last = lemma_halt_is_a_visit(now, halt, rest);
            let visits = path.push(last);
            assert(visits.drop_last() =~= path);
            visits
        },
        None => {
            let now = Snapshot::<T> {
                state: rest.state->0,
                initialized: rest.initialized,
                buffer: rest.buffer,
            };
            lemma_run_is_a_path(start, budget, now)
        },
    }
}

proof fn lemma_run_is_a_path<T: StateMachineTypes>(
    start: Snapshot<T>,
    steps: nat,
    now: Snapshot<T>,
) -> (visits: Seq<Visit<T>>) where T::S: State<T>
    requires
        reaches(start, steps, now),
    ensures
        is_path(start, visits, now),
        visits.len() == steps,
    decreases steps,
{
    if steps == 0 {
        Seq::empty()
    } else {
        let before = choose|before: Snapshot<T>|
            reaches(start, (steps - 1) as nat, before) && #[trigger] moves(before, now);
        let path = lemma_run_is_a_path(start, (steps - 1) as nat, before);
        let prepared = choose|prepared: T::S|
            #[trigger] is_ready(before, now.buffer, prepared) && advances::<T>(
                prepared,
                Transition::Next(now.state),
            );
        let asked = lemma_asking_is_a_visit(
            before,
            now.buffer,
            prepared,
            Ok(true),
            Some(Transition::Next(now.state)),
        );
        let visits = path.push(asked);
        assert(visits.drop_last() =~= path);
        visits
    }
}

/// What a state answers to `initialize` when it sends out nothing.
spec fn silence<T: StateMachineTypes>(now: Snapshot<T>) -> Option<Vec<T::O>> where T::S: State<T> {
    if now.initialized {
        None
    } else {
        Some(
            choose|messages: Vec<T::O>|
                #[trigger] initializes::<T>(now.state, messages) && messages@.len() == 0,
        )
    }
}

proof fn lemma_asking_is_a_visit<T: StateMachineTypes>(
    now: Snapshot<T>,
    buffer: Seq<T::I>,
    prepared: T::S,
    ready: Result<bool, Vec<T::E>>,
    transition: Option<Transition<T>>,
) -> (visit: Visit<T>) where T::S: State<T>
    requires
        is_asked(now, buffer, prepared, ready),
        if ready == Ok::<bool, Vec<T::E>>(true) {
            transition matches Some(t) && advances::<T>(prepared, t)
        } else {
            transition is None
        },
    ensures
        is_visit(visit),
        visit.entry == now,
        !is_loud(visit),
        errors(visit.deliveries).len() == 0,
        visit.ready == Some(ready),
        visit.prepared == prepared,
        visit.transition == transition,
        buffer == unexpected(visit.deliveries),
{
    let (delivered, deliveries) = choose|before: T::S, deliveries: Seq<Delivery<T::I, T::E>>|
        {
            &&& #[trigger] digests(now, before, deliveries)
            &&& errors(deliveries).len() == 0
            &&& buffer == unexpected(deliveries)
            &&& prepares::<T>(before, prepared, ready)
        };
    Visit {
        entry: now,
        output: silence(now),
        deliveries,
        delivered,
        ready: Some(ready),
        prepared,
        transition,
    }
}

proof fn lemma_halt_is_a_visit<T: StateMachineTypes>(
    now: Snapshot<T>,
    halt: Halt<T>,
    rest: Rest<T>,
) -> (visit: Visit<T>) where T::S: State<T>
    requires
        halts(now, halt, rest),
    ensures
        visit.entry == now,
        ends_in(visit, halt, rest),
{
    if halts_with_output(now, halt, rest) {
        Visit {
            entry: now,
            output: Some(halt->Report_0->Output_0),
            deliveries: Seq::empty(),
            delivered: now.state,
            ready: None,
            prepared: now.state,
            transition: None,
        }
    } else if halts_on_delivery(now, halt, rest) {
        let (delivered, deliveries) = choose|after: T::S, deliveries: Seq<Delivery<T::I, T::E>>|
            {
                &&& #[trigger] digests(now, after, deliveries)
                &&& errors(deliveries).len() > 0
                &&& halt matches Halt::Report(Event::Error(reported))
                &&& reported@ == errors(deliveries)
                &&& rest == (Rest::<T> {
                    state: Some(after),
                    initialized: true,
                    buffer: Seq::empty(),
                })
            };
        Visit {
            entry: now,
            output: silence(now),
            deliveries,
            delivered,
            ready: None,
            prepared: delivered,
            transition: None,
        }
    } else if halts_on_preparation(now, halt, rest) {
        lemma_asking_is_a_visit(
            now,
            rest.buffer,
            rest.state->0,
            Err(halt->Report_0->Error_0),
            None,
        )
    } else if halts_by_starving(now, halt, rest) {
        lemma_asking_is_a_visit(now, rest.buffer, rest.state->0, Ok(false), None)
    } else {
        let state = halt->Report_0->Completion_state;
        let buffer = halt->Report_0->Completion_buffer;
        let prepared = choose|last: T::S|
            #[trigger] is_ready(now, buffer@, last) && advances::<T>(
                last,
                Transition::Final(state),
            );
        lemma_asking_is_a_visit(
            now,
            buffer@,
            prepared,
            Ok(true),
            Some(Transition::Final(state)),
        )
    }
}

/// The states that a machine visits follow one another: the first one is where the machine
/// starts, and each other one is what its predecessor has advanced to.
pub proof fn law_visits_follow_one_another<T: StateMachineTypes>(
    start: Snapshot<T>,
    visits: Seq<Visit<T>>,
    turn: Option<Halt<T>>,
    rest: Rest<T>,
) where T::S: State<T>
    requires
        is_course(start, visits, turn, rest),
    ensures
        visits.len() > 0 ==> visits[0].entry == start,
        forall|i: int|
            #![trigger visits[i]]
            0 <= i < visits.len() - 1 ==> leads_to(visits[i], visits[i + 1].entry),
        forall|i: int| 0 <= i < visits.len() ==> is_visit(#[trigger] visits[i]),
{
    if turn is Some {
        lemma_path_is_connected(start, visits.drop_last(), visits.last().entry);
        assert forall|i: int| 0 <= i < visits.len() - 1 implies leads_to(
            #[trigger] visits[i],
            visits[i + 1].entry,
        ) by {
            assert(visits[i] == visits.drop_last()[i]);
        }
    } else {
        lemma_path_is_connected(
            start,
            visits,
            Snapshot {
                state: rest.state->0,
                initialized: rest.initialized,
                buffer: rest.buffer,
            },
        );
    }
}

proof fn lemma_path_is_connected<T: StateMachineTypes>(
    start: Snapshot<T>,
    visits: Seq<Visit<T>>,
    now: Snapshot<T>,
) where T::S: State<T>
    requires
        is_path(start, visits, now),
    ensures
        visits.len() > 0 ==> visits[0].entry == start,
        forall|i: int|
            0 <= i < visits.len() ==> leads_to(
                #[trigger] visits[i],
                if i + 1 < visits.len() {
                    visits[i + 1].entry
                } else {
                    now
                },
            ),
    decreases visits.len(),
{
    if visits.len() > 0 {
        let earlier = visits.drop_last();
        lemma_path_is_connected(start, earlier, visits.last().entry);
        assert forall|i: int| 0 <= i < visits.len() implies leads_to(
            #[trigger] visits[i],
            if i + 1 < visits.len() {
                visits[i + 1].entry
            } else {
                now
            },
        ) by {
            if i + 1 < visits.len() {
                assert(visits[i] == earlier[i]);
            }
        }
        assert(is_path(start, earlier, visits.last().entry));
    }
}

/// Each state is initialized once over all polls, before anything else is asked of it: in the
/// poll that comes to it, and not again in a later one, whether that follows an output,
/// an error or starvation, and whatever messages have been delivered in between.
pub proof fn law_state_is_initialized_once<T: StateMachineTypes>(
    start: Snapshot<T>,
    visits: Seq<Visit<T>>,
    turn: Option<Halt<T>>,
    rest: Rest<T>,
    buffer: Seq<T::I>,
    later_visits: Seq<Visit<T>>,
    later_turn: Option<Halt<T>>,
    later_rest: Rest<T>,
) where T::S: State<T>
    requires
        is_course(start, visits, turn, rest),
        rest.state is Some,
        is_course(
            Snapshot { state: rest.state->0, initialized: rest.initialized, buffer },
            later_visits,
            later_turn,
            later_rest,
        ),
    ensures
        turn is Some ==> rest.initialized,
        turn is None && visits.len() > 0 ==> !rest.initialized,
        visits.len() > 0 ==> (visits[0].output is Some <==> !start.initialized),
        forall|i: int| 0 < i < visits.len() ==> (#[trigger] visits[i]).output is Some,
        later_visits.len() > 0 ==> (later_visits[0].output is Some <==> !rest.initialized),
        forall|i: int| 0 < i < later_visits.len() ==> (#[trigger] later_visits[i]).output is Some,
{
    lemma_newcomers_are_initialized(start, visits, turn, rest);
    lemma_newcomers_are_initialized(
        Snapshot { state: rest.state->0, initialized: rest.initialized, buffer },
        later_visits,
        later_turn,
        later_rest,
    );
}

proof fn lemma_newcomers_are_initialized<T: StateMachineTypes>(
    start: Snapshot<T>,
    visits: Seq<Visit<T>>,
    turn: Option<Halt<T>>,
    rest: Rest<T>,
) where T::S: State<T>
    requires
        is_course(start, visits, turn, rest),
    ensures
        visits.len() > 0 ==> (visits[0].output is Some <==> !start.initialized),
        forall|i: int| 0 < i < visits.len() ==> (#[trigger] visits[i]).output is Some,
{
    law_visits_follow_one_another(start, visits, turn, rest);
    assert forall|i: int| 0 < i < visits.len() implies (#[trigger] visits[i]).output is Some by {
        assert(leads_to(visits[i - 1], visits[i].entry));
    }
}

/// A poll that halts leaves no state that is yet to be initialized.
pub proof fn law_halted_machine_is_initialized<T: StateMachineTypes>(
    start: Snapshot<T>,
    budget: nat,
    halt: Halt<T>,
    rest: Rest<T>,
) where T::S: State<T>
    requires
        turns(start, budget, Some(halt), rest),
    ensures
        rest.initialized,
{
}

/// A state is asked in order: every message buffered when the machine comes to it is delivered
/// to it once, unless it sends out messages first; it is prepared for advancement unless there
/// are errors; and it is advanced if and only if it has declared itself ready.
pub proof fn law_states_are_asked_in_order<T: StateMachineTypes>(
    start: Snapshot<T>,
    visits: Seq<Visit<T>>,
    turn: Option<Halt<T>>,
    rest: Rest<T>,
    i: int,
) where T::S: State<T>
    requires
        is_course(start, visits, turn, rest),
        0 <= i < visits.len(),
    ensures
        is_visit(visits[i]),
        is_loud(visits[i]) ==> visits[i].deliveries.len() == 0,
        !is_loud(visits[i]) ==> visits[i].deliveries.len() == visits[i].entry.buffer.len(),
        visits[i].ready is Some <==> !is_loud(visits[i]) && errors(visits[i].deliveries).len()
            == 0,
        visits[i].transition is Some <==> visits[i].ready == Some(Ok::<bool, Vec<T::E>>(true)),
{
    law_visits_follow_one_another(start, visits, turn, rest);
}

/// The messages that were consumed, in the order of delivery.
pub open spec fn consumed<I, E>(messages: Seq<I>, deliveries: Seq<Delivery<I, E>>) -> Seq<I>
    decreases deliveries.len(),
{
    if deliveries.len() == 0 {
        Seq::empty()
    } else {
        match deliveries.last() {
            Delivery::Delivered => consumed(messages.drop_last(), deliveries.drop_last()).push(
                messages.last(),
            ),
            _ => consumed(messages.drop_last(), deliveries.drop_last()),
        }
    }
}

/// The messages that the visited states have consumed, each as often as it was.
pub open spec fn consumed_on<T: StateMachineTypes>(visits: Seq<Visit<T>>) -> Multiset<T::I>
    decreases visits.len(),
{
    if visits.len() == 0 {
        Multiset::empty()
    } else {
        consumed_on(visits.drop_last()).add(
            consumed(visits.last().entry.buffer, visits.last().deliveries).to_multiset(),
        )
    }
}

/// The messages that are left: given away at completion, or else buffered.
pub open spec fn left<T: StateMachineTypes>(turn: Option<Halt<T>>, rest: Rest<T>) -> Seq<T::I> {
    match turn {
        Some(Halt::Report(Event::Completion { buffer, .. })) => buffer@,
        _ => rest.buffer,
    }
}

/// No message is lost or duplicated: if no error is reported, each message that was buffered has
/// been consumed by one of the visited states or is left, provided that the states are faithful.
pub proof fn law_messages_are_conserved<T: StateMachineTypes>(
    start: Snapshot<T>,
    visits: Seq<Visit<T>>,
    turn: Option<Halt<T>>,
    rest: Rest<T>,
) where T::S: State<T>
    requires
        is_faithful::<T>(),
        is_course(start, visits, turn, rest),
        !(turn matches Some(Halt::Report(Event::Error(_)))),
    ensures
        start.buffer.to_multiset() == consumed_on(visits).add(left(turn, rest).to_multiset()),
{
    if turn is Some {
        let last = visits.last();
        lemma_path_conserves(start, visits.drop_last(), last.entry);
        if is_loud(last) {
            broadcast use vstd::seq_lib::group_to_multiset_ensures;

        } else {
            lemma_deliveries_conserve::<T>(
                last.entry.state,
                last.entry.buffer,
                last.delivered,
                last.deliveries,
            );
        }
        assert(start.buffer.to_multiset() =~= consumed_on(visits).add(
            left(turn, rest).to_multiset(),
        ));
    } else {
        lemma_path_conserves(
            start,
            visits,
            Snapshot {
                state: rest.state->0,
                initialized: rest.initialized,
                buffer: rest.buffer,
            },
        );
    }
}

/// Whatever the states return as unexpected, and if no error is reported, as many messages as
/// were buffered have been consumed by the visited states or are left.
pub proof fn law_messages_are_counted<T: StateMachineTypes>(
    start: Snapshot<T>,
    visits: Seq<Visit<T>>,
    turn: Option<Halt<T>>,
    rest: Rest<T>,
) where T::S: State<T>
    requires
        is_course(start, visits, turn, rest),
        !(turn matches Some(Halt::Report(Event::Error(_)))),
    ensures
        start.buffer.len() == consumed_on(visits).len() + left(turn, rest).len(),
{
    broadcast use vstd::seq_lib::group_to_multiset_ensures;

    if turn is Some {
        let last = visits.last();
        lemma_path_counts(start, visits.drop_last(), last.entry);
        if !is_loud(last) {
            law_deliveries_are_accounted_for::<T>(
                last.entry.state,
                last.entry.buffer,
                last.delivered,
                last.deliveries,
            );
        }
    } else {
        lemma_path_counts(
            start,
            visits,
            Snapshot {
                state: rest.state->0,
                initialized: rest.initialized,
                buffer: rest.buffer,
            },
        );
    }
}

/// A poll that reports no error loses and duplicates no message: it has a course on which each
/// buffered message is consumed by one of the visited states, or it is left.
pub proof fn law_turn_conserves_messages<T: StateMachineTypes>(
    start: Snapshot<T>,
    budget: nat,
    turn: Option<Halt<T>>,
    rest: Rest<T>,
) -> (visits: Seq<Visit<T>>) where T::S: State<T>
    requires
        turns(start, budget, turn, rest),
        !(turn matches Some(Halt::Report(Event::Error(_)))),
    ensures
        is_course(start, visits, turn, rest),
        start.buffer.len() == consumed_on(visits).len() + left(turn, rest).len(),
        is_faithful::<T>() ==> start.buffer.to_multiset() == consumed_on(visits).add(
            left(turn, rest).to_multiset(),
        ),
{
    let visits = law_turn_has_a_course(start, budget, turn, rest);
    law_messages_are_counted(start, visits, turn, rest);
    if is_faithful::<T>() {
        law_messages_are_conserved(start, visits, turn, rest);
    }
    visits
}

proof fn lemma_path_conserves<T: StateMachineTypes>(
    start: Snapshot<T>,
    visits: Seq<Visit<T>>,
    now: Snapshot<T>,
) where T::S: State<T>
    requires
        is_faithful::<T>(),
        is_path(start, visits, now),
    ensures
        start.buffer.to_multiset() == consumed_on(visits).add(now.buffer.to_multiset()),
    decreases visits.len(),
{
    if visits.len() > 0 {
        let last = visits.last();
        lemma_path_conserves(start, visits.drop_last(), last.entry);
        lemma_deliveries_conserve::<T>(
            last.entry.state,
            last.entry.buffer,
            last.delivered,
            last.deliveries,
        );
    }
}

proof fn lemma_path_counts<T: StateMachineTypes>(
    start: Snapshot<T>,
    visits: Seq<Visit<T>>,
    now: Snapshot<T>,
) where T::S: State<T>
    requires
        is_path(start, visits, now),
    ensures
        start.buffer.len() == consumed_on(visits).len() + now.buffer.len(),
    decreases visits.len(),
{
    broadcast use vstd::seq_lib::group_to_multiset_ensures;

    if visits.len() > 0 {
        let last = visits.last();
        lemma_path_counts(start, visits.drop_last(), last.entry);
        law_deliveries_are_accounted_for::<T>(
            last.entry.state,
            last.entry.buffer,
            last.delivered,
            last.deliveries,
        );
    }
}

proof fn lemma_deliveries_conserve<T: StateMachineTypes>(
    state: T::S,
    messages: Seq<T::I>,
    after: T::S,
    deliveries: Seq<Delivery<T::I, T::E>>,
) where T::S: State<T>
    requires
        is_faithful::<T>(),
        delivers_all::<T>(state, messages, after, deliveries),
        errors(deliveries).len() == 0,
    ensures
        messages.to_multiset() == consumed(messages, deliveries).to_multiset().add(
            unexpected(deliveries).to_multiset(),
        ),
    decreases messages.len(),
{
    broadcast use vstd::seq_lib::group_to_multiset_ensures;

    if messages.len() > 0 {
        let before = choose|before: T::S|
            delivers_all::<T>(state, messages.drop_last(), before, deliveries.drop_last())
                && #[trigger] delivers::<T>(before, messages.last(), after, deliveries.last());
        lemma_deliveries_conserve::<T>(
            state,
            messages.drop_last(),
            before,
            deliveries.drop_last(),
        );
        assert(messages =~= messages.drop_last().push(messages.last()));
    }
    assert(messages.to_multiset() =~= consumed(messages, deliveries).to_multiset().add(
        unexpected(deliveries).to_multiset(),
    ));
}

/// Every message is accounted for: it is consumed, returned as unexpected, or the cause
/// of an error.
pub proof fn law_deliveries_are_accounted_for<T: StateMachineTypes>(
    state: T::S,
    messages: Seq<T::I>,
    after: T::S,
    deliveries: Seq<Delivery<T::I, T::E>>,
) where T::S: State<T>
    requires
        delivers_all::<T>(state, messages, after, deliveries),
    ensures
        messages.len() == consumed(messages, deliveries).len() + unexpected(deliveries).len()
            + errors(deliveries).len(),
    decreases messages.len(),
{
    if messages.len() > 0 {
        let before = choose|before: T::S|
            delivers_all::<T>(state, messages.drop_last(), before, deliveries.drop_last())
                && #[trigger] delivers::<T>(before, messages.last(), after, deliveries.last());
        law_deliveries_are_accounted_for::<T>(
            state,
            messages.drop_last(),
            before,
            deliveries.drop_last(),
        );
    }
}

} // verus!
