//! The consumer: the single loop that takes tasks from the dispatch channel
//! and keeps a bounded number of them in flight.
use vstd::prelude::*;

verus! {

/// Where the consumer stands.
#[derive(Debug, Clone, Copy, PartialEq, Eq, Structural)]
pub enum ConsumerState {
    /// Waiting for the next task from the channel, with `in_flight` tasks
    /// running.
    Receiving { in_flight: usize },
    /// As many tasks are running as may run at once: waiting for one of
    /// them to end before another is taken.
    Throttled { in_flight: usize },
    /// The channel is closed and empty: waiting for the `in_flight` tasks
    /// that still run.
    Draining { in_flight: usize },
    /// The channel is closed and no task runs.
    Done,
}

/// What has just happened.
#[derive(Debug, Clone, Copy, PartialEq, Eq, Structural)]
pub enum ConsumerEvent {
    /// A task came out of the channel.
    TaskReceived,
    /// The channel is closed and holds no task.
    ChannelClosed,
    /// One of the running tasks has ended.
    TaskCompleted,
}

/// What the consumer does next.
#[derive(Debug, Clone, Copy, PartialEq, Eq, Structural)]
pub enum ConsumerAction {
    /// Start the task that was received, then take the next from the
    /// channel.
    SpawnAndReceive,
    /// Start the task that was received, then wait for a running task to
    /// end.
    SpawnAndAwait,
    /// Take the next task from the channel.
    Receive,
    /// Wait for a running task to end.
    AwaitCompletion,
    /// Return: nothing is left to do.
    Finish,
}

/// A step of the consumer.
#[derive(Debug, Clone, Copy, PartialEq, Eq, Structural)]
pub struct ConsumerStep {
    pub state: ConsumerState,
    pub action: ConsumerAction,
}

/// The number of tasks that run in a state.
pub open spec fn in_flight_of(state: ConsumerState) -> int {
    match state {
        ConsumerState::Receiving { in_flight } => in_flight as int,
        ConsumerState::Throttled { in_flight } => in_flight as int,
        ConsumerState::Draining { in_flight } => in_flight as int,
        ConsumerState::Done => 0,
    }
}

/// The most tasks that ever run at once with the given number of workers:
/// that number, and one where it is zero.
pub open spec fn in_flight_limit(thread_count: int) -> int {
    if thread_count < 1 {
        1
    } else {
        thread_count
    }
}

/// The states that a consumer with the given number of workers can be in:
/// no more tasks run than may, it takes a task only while fewer run than
/// may, it is throttled only while as many run as may, and it drains only
/// while some run.
pub open spec fn consumer_invariant(thread_count: int, state: ConsumerState) -> bool {
    match state {
        ConsumerState::Receiving { in_flight } => in_flight < in_flight_limit(thread_count),
        ConsumerState::Throttled { in_flight } => 0 < in_flight <= in_flight_limit(thread_count)
            && in_flight >= thread_count,
        ConsumerState::Draining { in_flight } => 0 < in_flight <= in_flight_limit(thread_count),
        ConsumerState::Done => true,
    }
}

/// The step that an event leads to, or `None` where the event cannot
/// happen in the state.
pub open spec fn consumer_step_spec(
    thread_count: usize,
    state: ConsumerState,
    event: ConsumerEvent,
) -> Option<ConsumerStep> {
    match (state, event) {
        (ConsumerState::Receiving { in_flight }, ConsumerEvent::TaskReceived) => {
            if in_flight == usize::MAX {
                None
            } else if in_flight + 1 >= thread_count {
                Some(
                    ConsumerStep {
                        state: ConsumerState::Throttled { in_flight: (in_flight + 1) as usize },
                        action: ConsumerAction::SpawnAndAwait,
                    },
                )
            } else {
                Some(
                    ConsumerStep {
                        state: ConsumerState::Receiving { in_flight: (in_flight + 1) as usize },
                        action: ConsumerAction::SpawnAndReceive,
                    },
                )
            }
        },
        (ConsumerState::Receiving { in_flight }, ConsumerEvent::ChannelClosed) => {
            if in_flight == 0 {
                Some(ConsumerStep { state: ConsumerState::Done, action: ConsumerAction::Finish })
            } else {
                Some(
                    ConsumerStep {
                        state: ConsumerState::Draining { in_flight },
                        action: ConsumerAction::AwaitCompletion,
                    },
                )
            }
        },
        (ConsumerState::Throttled { in_flight }, ConsumerEvent::TaskCompleted) => {
            if in_flight == 0 {
                None
            } else if in_flight - 1 >= thread_count && in_flight - 1 > 0 {
                Some(
                    ConsumerStep {
                        state: ConsumerState::Throttled { in_flight: (in_flight - 1) as usize },
                        action: ConsumerAction::AwaitCompletion,
                    },
                )
            } else {
                Some(
                    ConsumerStep {
                        state: ConsumerState::Receiving { in_flight: (in_flight - 1) as usize },
                        action: ConsumerAction::Receive,
                    },
                )
            }
        },
        (ConsumerState::Draining { in_flight }, ConsumerEvent::TaskCompleted) => {
            if in_flight == 0 {
                None
            } else if in_flight == 1 {
                Some(ConsumerStep { state: ConsumerState::Done, action: ConsumerAction::Finish })
            } else {
                Some(
                    ConsumerStep {
                        state: ConsumerState::Draining { in_flight: (in_flight - 1) as usize },
                        action: ConsumerAction::AwaitCompletion,
                    },
                )
            }
        },
        _ => None,
    }
}

/// The state in which the consumer begins: waiting for the first task,
/// with none in flight.
pub fn consumer_start() -> (state: ConsumerState)
    ensures
        state == (ConsumerState::Receiving { in_flight: 0 }),
        forall|thread_count: int| consumer_invariant(thread_count, state),
{
    ConsumerState::Receiving { in_flight: 0 }
}

/// Decides what the consumer does next. `None` where the event cannot
/// happen in the state; the consumer then stays where it is.
pub fn consumer_step(thread_count: usize, state: ConsumerState, event: ConsumerEvent) -> (step:
    Option<ConsumerStep>)
    ensures
        step == consumer_step_spec(thread_count, state, event),
{
    match state {
        ConsumerState::Receiving { in_flight } => match event {
            ConsumerEvent::TaskReceived => {
                if in_flight == usize::MAX {
                    None
                } else if in_flight + 1 >= thread_count {
                    Some(
                        ConsumerStep {
                            state: ConsumerState::Throttled { in_flight: in_flight + 1 },
                            action: ConsumerAction::SpawnAndAwait,
                        },
                    )
                } else {
                    Some(
                        ConsumerStep {
                            state: ConsumerState::Receiving { in_flight: in_flight + 1 },
                            action: ConsumerAction::SpawnAndReceive,
                        },
                    )
                }
            },
            ConsumerEvent::ChannelClosed => {
                if in_flight == 0 {
                    Some(
                        ConsumerStep { state: ConsumerState::Done, action: ConsumerAction::Finish },
                    )
                } else {
                    Some(
                        ConsumerStep {
                            state: ConsumerState::Draining { in_flight },
                            action: ConsumerAction::AwaitCompletion,
                        },
                    )
                }
            },
            ConsumerEvent::TaskCompleted => None,
        },
        ConsumerState::Throttled { in_flight } => match event {
            ConsumerEvent::TaskCompleted => {
                if in_flight == 0 {
                    None
                } else if in_flight - 1 >= thread_count && in_flight - 1 > 0 {
                    Some(
                        ConsumerStep {
                            state: ConsumerState::Throttled { in_flight: in_flight - 1 },
                            action: ConsumerAction::AwaitCompletion,
                        },
                    )
                } else {
                    Some(
                        ConsumerStep {
                            state: ConsumerState::Receiving { in_flight: in_flight - 1 },
                            action: ConsumerAction::Receive,
                        },
                    )
                }
            },
            _ => None,
        },
        ConsumerState::Draining { in_flight } => match event {
            ConsumerEvent::TaskCompleted => {
                if in_flight == 0 {
                    None
                } else if in_flight == 1 {
                    Some(
                        ConsumerStep { state: ConsumerState::Done, action: ConsumerAction::Finish },
                    )
                } else {
                    Some(
                        ConsumerStep {
                            state: ConsumerState::Draining { in_flight: in_flight - 1 },
                            action: ConsumerAction::AwaitCompletion,
                        },
                    )
                }
            },
            _ => None,
        },
        ConsumerState::Done => None,
    }
}

/// The bound on the tasks in flight: from a state that a consumer can be
/// in, every step leads to such a state again, so that never more tasks
/// run than there are workers (one, where there is no worker).
pub proof fn lemma_consumer_keeps_bound(
    thread_count: usize,
    state: ConsumerState,
    event: ConsumerEvent,
)
    requires
        consumer_invariant(thread_count as int, state),
        consumer_step_spec(thread_count, state, event).is_some(),
    ensures
        consumer_invariant(
            thread_count as int,
            consumer_step_spec(thread_count, state, event).unwrap().state,
        ),
        in_flight_of(consumer_step_spec(thread_count, state, event).unwrap().state)
            <= in_flight_limit(thread_count as int),
{
}

/// The consumer finishes only when it is idle: the step that ends it comes
/// only once the channel is closed, and leaves no task in flight.
pub proof fn lemma_consumer_finishes_idle(
    thread_count: usize,
    state: ConsumerState,
    event: ConsumerEvent,
)
    requires
        consumer_step_spec(thread_count, state, event).is_some(),
    ensures
        consumer_step_spec(thread_count, state, event).unwrap().action == ConsumerAction::Finish
            <==> consumer_step_spec(thread_count, state, event).unwrap().state
            == ConsumerState::Done,
        consumer_step_spec(thread_count, state, event).unwrap().state == ConsumerState::Done ==> (
        state == (ConsumerState::Receiving { in_flight: 0 }) && event
            == ConsumerEvent::ChannelClosed) || (state == (ConsumerState::Draining {
            in_flight: 1,
        }) && event == ConsumerEvent::TaskCompleted),
        state is Receiving && event == ConsumerEvent::TaskReceived ==> in_flight_of(
            consumer_step_spec(thread_count, state, event).unwrap().state,
        ) == in_flight_of(state) + 1,
        event == ConsumerEvent::TaskCompleted ==> in_flight_of(
            consumer_step_spec(thread_count, state, event).unwrap().state,
        ) == in_flight_of(state) - 1,
        event == ConsumerEvent::ChannelClosed ==> in_flight_of(
            consumer_step_spec(thread_count, state, event).unwrap().state,
        ) == in_flight_of(state),
{
}

/// A consumer that can be in its state is never stuck: while it receives,
/// a task or the closing of the channel moves it on, and while it is
/// throttled or drains, the end of a task does.
pub proof fn lemma_consumer_progress(thread_count: usize, state: ConsumerState)
    requires
        consumer_invariant(thread_count as int, state),
    ensures
        state is Receiving ==> consumer_step_spec(
            thread_count,
            state,
            ConsumerEvent::ChannelClosed,
        ).is_some(),
        state is Receiving && in_flight_of(state) < usize::MAX ==> consumer_step_spec(
            thread_count,
            state,
            ConsumerEvent::TaskReceived,
        ).is_some(),
        state is Throttled || state is Draining ==> consumer_step_spec(
            thread_count,
            state,
            ConsumerEvent::TaskCompleted,
        ).is_some(),
{
}

} // verus!
