//! Runners of state machines: what a spawned task needs to drive a state machine, and the
//! handle by which others reach it.
use crate::channel::send;
use crate::feed::Feed;
use crate::primitives::state::{BoxedState, StateTypes};
use crate::state_machine::StateMachineId;
use std::time::Duration;
use tokio::sync::mpsc::{UnboundedReceiver, UnboundedSender};
use vstd::prelude::*;

verus! {

/// What a runner reports: messages of a state, or the result of the whole state machine.
pub enum Either<M, R> {
    /// Messages to be sent out.
    Messages { from: StateMachineId, messages: M },
    /// Result of the state machine.
    Result { from: StateMachineId, result: R },
}

/// Why a runner has not brought its state machine to a terminal state.
#[verifier::reject_recursive_types(T)]
pub enum RunnerError<T: StateTypes> {
    /// A state has failed.
    State(T::Err),
    /// The time budget is used up.
    Timeout,
}

/// An event that a runner reports.
pub type RunnerEvent<T> = Either<
    Vec<<T as StateTypes>::Out>,
    Result<<T as StateTypes>::State, RunnerError<T>>,
>;

/// Channel to receive the events of a runner.
pub type StateMachineRx<T> = UnboundedReceiver<RunnerEvent<T>>;

/// All that a task needs to drive a state machine.
#[verifier::reject_recursive_types(T)]
pub struct RunnerTask<T: StateTypes> {
    pub id: StateMachineId,
    /// The state to start from.
    pub state: BoxedState<T>,
    /// The time within which the state machine is to complete.
    pub time_budget: Duration,
    /// The messages to deliver.
    pub feed: Feed<T::In>,
    /// Where to report events.
    pub events: UnboundedSender<RunnerEvent<T>>,
}

/// How far a runner has been brought.
#[verifier::reject_recursive_types(T)]
pub enum Work<T: StateTypes> {
    /// The runner has been created.
    Idle { state: BoxedState<T>, feed: Feed<T::In> },
    /// The task is ready to be spawned.
    Ready(RunnerTask<T>),
    /// The task has been handed over.
    HandedOver,
}

/// Handle of a state machine that is driven by a task and has limited time to complete.
#[verifier::reject_recursive_types(T)]
pub struct TimeBoundStateMachineRunner<T: StateTypes> {
    pub id: StateMachineId,
    /// The time within which the state machine is to complete.
    pub time_budget: Duration,
    /// Channel by which the task receives messages.
    pub sink: UnboundedSender<T::In>,
    /// What the task needs.
    pub work: Work<T>,
}

/// The feed has no messages but those that are sent to `sink`: the two share a channel.
pub open spec fn is_fresh<T: StateTypes>(sink: UnboundedSender<T::In>, feed: Feed<T::In>) -> bool {
    &&& feed@.queue == Seq::<T::In>::empty()
    &&& feed@.delayed == Seq::<T::In>::empty()
    &&& call_ensures(
        tokio::sync::mpsc::unbounded_channel::<T::In>,
        (),
        (sink, feed@.channel),
    )
}

/// The runner has a task that is ready to be spawned: it drives a state machine from `state`,
/// under the name `id` and within `time_budget`, and reports its events to `rx`.
pub open spec fn is_started<T: StateTypes>(
    runner: TimeBoundStateMachineRunner<T>,
    rx: StateMachineRx<T>,
    id: StateMachineId,
    state: BoxedState<T>,
    time_budget: Duration,
) -> bool {
    &&& runner.id == id
    &&& runner.time_budget == time_budget
    &&& runner.work matches Work::Ready(task)
    &&& task.id == id
    &&& task.state == state
    &&& task.time_budget == time_budget
    &&& is_fresh::<T>(runner.sink, task.feed)
    &&& call_ensures(
        tokio::sync::mpsc::unbounded_channel::<RunnerEvent<T>>,
        (),
        (task.events, rx),
    )
}

impl<T: StateTypes> TimeBoundStateMachineRunner<T> {
    /// A runner that is yet to be run.
    pub fn new(
        id: StateMachineId,
        initial_state: BoxedState<T>,
        time_budget: Duration,
    ) -> (runner: Self)
        ensures
            runner.id == id,
            runner.time_budget == time_budget,
            runner.work matches Work::Idle { state, feed } && state == initial_state
                && is_fresh::<T>(runner.sink, feed),
    {
        let (sink, source) = tokio::sync::mpsc::unbounded_channel::<T::In>();
        let feed = Feed::new(source);
        TimeBoundStateMachineRunner {
            id,
            time_budget,
            sink,
            work: Work::Idle { state: initial_state, feed },
        }
    }

    /// Makes the task of the runner ready to be spawned. A runner is run once; running it
    /// again has no effect.
    pub fn run(&mut self, events: UnboundedSender<RunnerEvent<T>>)
        ensures
            final(self).id == old(self).id,
            final(self).time_budget == old(self).time_budget,
            final(self).sink == old(self).sink,
            final(self).work == match old(self).work {
                Work::Idle { state, feed } => Work::Ready(
                    RunnerTask {
                        id: old(self).id,
                        state,
                        time_budget: old(self).time_budget,
                        feed,
                        events,
                    },
                ),
                work => work,
            },
    {
        let mut work = Work::HandedOver;
        std::mem::swap(&mut work, &mut self.work);
        self.work = match work {
            Work::Idle { state, feed } => Work::Ready(
                RunnerTask {
                    id: self.id.clone(),
                    state,
                    time_budget: self.time_budget,
                    feed,
                    events,
                },
            ),
            work => work,
        };
    }

    /// Hands over the task that is ready to be spawned, if there is one.
    pub fn take_task(&mut self) -> (task: Option<RunnerTask<T>>)
        ensures
            final(self).id == old(self).id,
            final(self).time_budget == old(self).time_budget,
            final(self).sink == old(self).sink,
            match old(self).work {
                Work::Ready(ready) => task == Some(ready) && final(self).work is HandedOver,
                work => task is None && final(self).work == work,
            },
    {
        let mut work = Work::HandedOver;
        std::mem::swap(&mut work, &mut self.work);
        match work {
            Work::Ready(task) => Some(task),
            work => {
                self.work = work;
                None
            },
        }
    }

    /// Delivers a message to the state machine, or returns it if the task is gone.
    pub fn deliver(&self, message: T::In) -> (result: Result<(), T::In>)
        ensures
            call_ensures(send::<T::In>, (&self.sink, message), result),
            result matches Err(returned) ==> returned == message,
    {
        send(&self.sink, message)
    }
}

/// A runner that is created and run has a task that drives a state machine from the given state,
/// under its name and within its time. The task draws what is sent to the runner, and nothing
/// else, and it reports to the given channel.
pub proof fn law_runner_prepares_its_task<T: StateTypes>(
    id: StateMachineId,
    state: BoxedState<T>,
    time_budget: Duration,
    runner: &mut TimeBoundStateMachineRunner<T>,
    events: UnboundedSender<RunnerEvent<T>>,
)
    requires
        call_ensures(
            TimeBoundStateMachineRunner::<T>::new,
            (id, state, time_budget),
            *old(runner),
        ),
        call_ensures(TimeBoundStateMachineRunner::<T>::run, (runner, events), ()),
    ensures
        final(runner).id == id,
        final(runner).time_budget == time_budget,
        final(runner).work matches Work::Ready(task) && {
            &&& task.id == id
            &&& task.state == state
            &&& task.time_budget == time_budget
            &&& task.events == events
            &&& task.feed@.queue.len() == 0
            &&& task.feed@.delayed.len() == 0
            &&& call_ensures(
                tokio::sync::mpsc::unbounded_channel::<T::In>,
                (),
                (final(runner).sink, task.feed@.channel),
            )
        },
{
}

/// A runner is run once: running it again changes nothing, before its task is handed over
/// and after that.
pub proof fn law_runner_is_run_once<T: StateTypes>(
    runner: &mut TimeBoundStateMachineRunner<T>,
    events: UnboundedSender<RunnerEvent<T>>,
)
    requires
        !(old(runner).work is Idle),
        call_ensures(TimeBoundStateMachineRunner::<T>::run, (runner, events), ()),
    ensures
        *final(runner) == *old(runner),
{
}

/// A task is handed over once: whoever takes it first gets the one that is ready, and from
/// then on there is none. A runner that has none ready keeps what it has.
pub proof fn law_task_is_handed_over_once<T: StateTypes>(
    runner: &mut TimeBoundStateMachineRunner<T>,
    task: Option<RunnerTask<T>>,
    again: &mut TimeBoundStateMachineRunner<T>,
    second: Option<RunnerTask<T>>,
)
    requires
        call_ensures(TimeBoundStateMachineRunner::<T>::take_task, (runner,), task),
        *old(again) == *final(runner),
        call_ensures(TimeBoundStateMachineRunner::<T>::take_task, (again,), second),
    ensures
        old(runner).work matches Work::Ready(ready) ==> task == Some(ready),
        !(old(runner).work is Ready) ==> task is None && *final(runner) == *old(runner),
        final(runner).id == old(runner).id,
        final(runner).time_budget == old(runner).time_budget,
        final(runner).sink == old(runner).sink,
        task is Some ==> final(runner).work is HandedOver,
        second is None,
        *final(again) == *old(again),
{
}

/// A message that is delivered to a runner is sent to its task, and it comes back if it cannot be.
pub proof fn law_runner_sends_or_returns<T: StateTypes>(
    runner: &TimeBoundStateMachineRunner<T>,
    message: T::In,
    result: Result<(), T::In>,
)
    requires
        call_ensures(TimeBoundStateMachineRunner::<T>::deliver, (runner, message), result),
    ensures
        call_ensures(send::<T::In>, (&runner.sink, message), result),
        result is Err ==> result->Err_0 == message,
{
}

} // verus!
