# Oblivious state machine

A state machine that is driven by messages and knows nothing of the states it
goes through. A user implements the trait `State` for each state; the machine
buffers messages, offers them to the current state, reports what the states send
out or fail with, and advances as far as the buffered messages allow. What a state
does not expect is kept for the states that follow.

The library is written in Verus. A state is a user's code, so contracts do not
say what it answers: they say what the machine makes of every answer that the
contracts of the state's own methods admit.

- `src/state.rs`, `src/object.rs`: states, and the recovery of their concrete types.
- `src/run.rs`: which runs of a machine its states admit.
- `src/state_machine.rs`: the machine, polled by a task and woken by messages.
- `src/laws.rs`, `src/course.rs`: what holds of every run, and of every state on the way.
- `src/feed.rs`, `src/channel.rs`, `src/task.rs`: messages, channels and tasks.
- `src/primitives/`, `src/runner.rs`, `src/combination/`: states that are advanced by
  reference, handles of the tasks that drive them, and two machines in a row.
- `app/`: streams, trait objects and tasks of an asynchronous program.
