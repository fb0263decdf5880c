//! State machines that are driven by messages and know nothing of the states
//! they go through.
//!
//! A user implements [`state::State`] for each state and hands the initial one,
//! or a producer of it, to a [`state_machine::StateMachine`]. The machine buffers
//! incoming messages, offers them to the current state, and advances through
//! the states as far as the buffered messages allow.
use vstd::prelude::*;

pub mod channel;
pub mod combination;
pub mod conduct;
pub mod course;
pub mod feed;
pub mod laws;
pub mod object;
pub mod primitives;
pub mod run;
pub mod runner;
pub mod state;
pub mod state_machine;
pub mod task;

verus! {

/// State machine types.
pub trait StateMachineTypes: 'static {
    /// State machine accepts messages of type `I`.
    type I;

    /// State machine produces messages of type `O`.
    type O;

    /// Error type.
    type E;

    /// Representation of a state, e.g. `Box<dyn State<Self> + Send>`.
    type S;

    /// Function that attempts to construct the initial state, e.g. a boxed closure
    /// (see [`state_machine::StateProducer`]).
    type P;
}

/// What a state machine reports to its driver.
pub enum Event<T: StateMachineTypes> {
    /// Record produced on successfully achieving the final state.
    Completion {
        /// Final state.
        state: T::S,
        /// Left-over unconsumed messages.
        buffer: Vec<T::I>,
    },
    /// Messages produced by a state at its initialization.
    Output(Vec<T::O>),
    /// Errors produced by a state on delivery of messages or on advancement.
    Error(Vec<T::E>),
}

} // verus!
