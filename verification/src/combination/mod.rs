//! State machines that are run one after another.
use crate::primitives::state::{BoxedState, StateTypes};
use crate::runner::{
    RunnerEvent, StateMachineRx, TimeBoundStateMachineRunner, Work, is_started,
};
use crate::state_machine::StateMachineId;
use std::time::Duration;
use vstd::prelude::*;

pub mod combined2;

verus! {

/// Specification to run an intermediate state machine.
pub struct IntermediateSpec<C> {
    /// Time budget for state machine to complete.
    time_budget: Duration,
    /// Converter from the final state of the current state machine to an initial state of the
    /// next state machine.
    converter: Option<C>,
}

impl<C> IntermediateSpec<C> {
    #[verifier::type_invariant]
    spec fn has_converter(self) -> bool {
        self.converter is Some
    }

    /// Time budget for state machine to complete.
    pub closed spec fn time_budget(self) -> Duration {
        self.time_budget
    }

    /// Converter to an initial state of the next state machine.
    pub closed spec fn converter(self) -> C {
        self.converter->0
    }

    /// Specification of a state machine that has `time_budget` to complete and whose final state
    /// goes through `converter`.
    pub fn new(time_budget: Duration, converter: C) -> (specification: Self)
        ensures
            specification.time_budget() == time_budget,
            specification.converter() == converter,
    {
        Self { time_budget, converter: Some(converter) }
    }
}

/// Specification for the final state machine.
pub struct FinalSpec {
    /// Time budget for state machine to complete.
    pub time_budget: Duration,
}

impl Clone for FinalSpec {
    fn clone(&self) -> (copy: Self)
        ensures
            copy == *self,
    {
        FinalSpec { time_budget: self.time_budget }
    }
}

/// Why a final state cannot be converted to an initial state of the next state machine.
#[derive(Debug)]
pub enum ConversionError {
    UnexpectedFinalState { terminal_desc: String, expected: String },
    CannotConstructNextState { from: String, to: String },
}

impl ConversionError {
    /// The text that explains the error to a human reader.
    pub fn message(&self) -> (text: String)
        ensures
            match self {
                ConversionError::UnexpectedFinalState { terminal_desc, expected } => text@
                    == "State machine completed in unexpected state: `"@ + terminal_desc@
                    + "`. Expected: "@ + expected@,
                ConversionError::CannotConstructNextState { .. } => text@
                    == "Cannot construct `to` from `from`"@,
            },
    {
        match self {
            ConversionError::UnexpectedFinalState { terminal_desc, expected } => {
                "State machine completed in unexpected state: `".to_string().concat(
                    terminal_desc.as_str(),
                ).concat("`. Expected: ").concat(expected.as_str())
            },
            ConversionError::CannotConstructNextState { .. } => {
                "Cannot construct `to` from `from`".to_string()
            },
        }
    }
}

/// Convenience function starting a new state machine with the given parameters.
pub fn start_new_sm<T: StateTypes>(
    state_machine_id: StateMachineId,
    initial_state: BoxedState<T>,
    time_budget: Duration,
) -> (started: (TimeBoundStateMachineRunner<T>, StateMachineRx<T>))
    ensures
        is_started(started.0, started.1, state_machine_id, initial_state, time_budget),
{
    let mut sm = TimeBoundStateMachineRunner::<T>::new(
        state_machine_id,
        initial_state,
        time_budget,
    );
    let (tx, rx) = tokio::sync::mpsc::unbounded_channel::<RunnerEvent<T>>();
    sm.run(tx);
    (sm, rx)
}

/// A state machine that is started is ready to be run from the given state, under the given name
/// and within the given time. Its events come out of the channel that is returned with it.
pub proof fn law_machine_is_started_as_asked<T: StateTypes>(
    id: StateMachineId,
    state: BoxedState<T>,
    time_budget: Duration,
    sm: TimeBoundStateMachineRunner<T>,
    rx: StateMachineRx<T>,
)
    requires
        call_ensures(start_new_sm::<T>, (id, state, time_budget), (sm, rx)),
    ensures
        sm.id == id,
        sm.time_budget == time_budget,
        sm.work matches Work::Ready(task) && {
            &&& task.id == id
            &&& task.state == state
            &&& task.time_budget == time_budget
            &&& task.feed@.queue.len() == 0
            &&& task.feed@.delayed.len() == 0
            &&& call_ensures(
                tokio::sync::mpsc::unbounded_channel::<T::In>,
                (),
                (sm.sink, task.feed@.channel),
            )
            &&& call_ensures(
                tokio::sync::mpsc::unbounded_channel::<RunnerEvent<T>>,
                (),
                (task.events, rx),
            )
        },
{
}

/// A specification keeps what it is made from, and so does a copy of the final one.
pub proof fn law_specification_keeps_its_parts<C>(
    time_budget: Duration,
    converter: C,
    intermediate: IntermediateSpec<C>,
    last: FinalSpec,
    copy: FinalSpec,
)
    requires
        call_ensures(IntermediateSpec::<C>::new, (time_budget, converter), intermediate),
        call_ensures(<FinalSpec as Clone>::clone, (&last,), copy),
    ensures
        intermediate.time_budget() == time_budget,
        intermediate.converter() == converter,
        copy.time_budget == last.time_budget,
{
}

/// The explanation of an unexpected final state holds the description of the state that was found,
/// between backquotes, and ends in what was expected.
pub proof fn law_conversion_error_explains_itself(error: &ConversionError, text: String)
    requires
        call_ensures(ConversionError::message, (error,), text),
    ensures
        *error matches ConversionError::UnexpectedFinalState { terminal_desc, expected } ==> {
            let start = "State machine completed in unexpected state: `"@.len() as int;
            let end = start + terminal_desc@.len();
            &&& text@.take(start) == "State machine completed in unexpected state: `"@
            &&& text@.subrange(start, end) == terminal_desc@
            &&& text@.subrange(end, text@.len() - expected@.len()) == "`. Expected: "@
            &&& text@.skip(text@.len() - expected@.len()) == expected@
        },
        *error is CannotConstructNextState ==> text@ == "Cannot construct `to` from `from`"@,
{
    if let ConversionError::UnexpectedFinalState { terminal_desc, expected } = error {
        let start = "State machine completed in unexpected state: `"@.len() as int;
        let end = start + terminal_desc@.len();
        assert(text@.take(start) =~= "State machine completed in unexpected state: `"@);
        assert(text@.subrange(start, end) =~= terminal_desc@);
        assert(text@.subrange(end, text@.len() - expected@.len()) =~= "`. Expected: "@);
        assert(text@.skip(text@.len() - expected@.len()) =~= expected@);
    }
}

} // verus!
