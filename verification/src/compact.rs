//! The context-compaction task: one dispatch decision per invocation.
//!
//! A run first plans its launch — which strategy to use (remote when the
//! provider is remote-capable, local otherwise), the one usage counter to
//! emit, and what input the strategy receives — and afterwards concludes
//! from the strategy's outcome: a failure becomes exactly one session error
//! event, never a raised error, and the task's own summary is `None` in
//! this slice either way.

use vstd::prelude::*;

use crate::protocol::ErrorEvent;
use crate::protocol::EventMsg;
use crate::protocol::UserInput;

verus! {

/// Stable tag identifying a kind of session task, used for bookkeeping and
/// cancellation targeting.
#[derive(Clone, Copy, Debug, PartialEq, Eq)]
pub enum TaskKind {
    Compact,
}

/// The two compaction strategies a run can choose between.
#[derive(Clone, Copy, Debug, PartialEq, Eq)]
pub enum CompactStrategy {
    Remote,
    Local,
}

/// One fire-and-forget usage-counter emission: a name, an increment, and
/// its tags.
#[derive(Clone, Debug, PartialEq, Eq)]
pub struct CounterEmission {
    pub name: String,
    pub delta: u64,
    pub tags: Vec<(String, String)>,
}

/// Everything a compaction run decides before any work happens: the chosen
/// strategy, the single counter to emit, and the input handed to the
/// strategy (none in the remote branch, which operates on session-held
/// state).
#[derive(Clone, Debug, PartialEq, Eq)]
pub struct CompactLaunch {
    pub strategy: CompactStrategy,
    pub counter: CounterEmission,
    pub strategy_input: Option<Vec<UserInput>>,
}

/// What a finished run reports: at most one event for the session channel,
/// and the task's own summary result.
#[derive(Clone, Debug, PartialEq, Eq)]
pub struct RunConclusion {
    pub event: Option<EventMsg>,
    pub summary: Option<String>,
}

/// The context line an error event carries for the given strategy.
pub open spec fn spec_failure_context(strategy: CompactStrategy) -> Seq<char> {
    match strategy {
        CompactStrategy::Remote => "Error running remote compact task"@,
        CompactStrategy::Local => "Error running local compact task"@,
    }
}

/// The compaction task itself: stateless, cheap to share.
#[derive(Clone, Copy, Debug, Default, PartialEq, Eq)]
pub struct CompactTask;

impl CompactTask {
    /// The task's kind tag.
    pub fn kind(&self) -> (r: TaskKind)
        ensures
            r == TaskKind::Compact,
    {
        TaskKind::Compact
    }

    /// Plans a run from the provider capability answer: remote-capable
    /// picks the remote strategy with no direct input, otherwise the local
    /// strategy receives the original input; either way exactly one counter
    /// emission, tagged with the chosen branch.
    pub fn plan_run(&self, remote_capable: bool, input: Vec<UserInput>) -> (launch: CompactLaunch)
        ensures
            launch.strategy == (if remote_capable {
                CompactStrategy::Remote
            } else {
                CompactStrategy::Local
            }),
            remote_capable ==> launch.strategy_input is None,
            !remote_capable ==> launch.strategy_input == Some(input),
            launch.counter.name@ == "codex.task.compact"@,
            launch.counter.delta == 1,
            launch.counter.tags@.len() == 1,
            launch.counter.tags@[0].0@ == "type"@,
            launch.counter.tags@[0].1@ == (if remote_capable {
                "remote"@
            } else {
                "local"@
            }),
    {
        let strategy = if remote_capable {
            CompactStrategy::Remote
        } else {
            CompactStrategy::Local
        };
        let tag = if remote_capable {
            String::from_str("remote")
        } else {
            String::from_str("local")
        };
        let mut tags: Vec<(String, String)> = Vec::new();
        tags.push((String::from_str("type"), tag));
        let counter = CounterEmission { name: String::from_str("codex.task.compact"), delta: 1, tags };
        let strategy_input = if remote_capable {
            None
        } else {
            Some(input)
        };
        CompactLaunch { strategy, counter, strategy_input }
    }

    /// Concludes a run from the strategy's outcome, rendered as the error's
    /// display text on failure: a failure yields exactly one error event
    /// carrying that text under the branch-naming context line; the summary
    /// is `None` either way — a task never raises to its caller.
    pub fn conclude_run(&self, strategy: CompactStrategy, outcome: Result<(), String>) -> (r:
        RunConclusion)
        ensures
            r.summary is None,
            match outcome {
                Ok(_) => r.event is None,
                Err(message) => match r.event {
                    Some(EventMsg::Error(ev)) => ev.message == message && (match ev.context {
                        Some(c) => c@ == spec_failure_context(strategy),
                        None => false,
                    }),
                    None => false,
                },
            },
    {
        match outcome {
            Ok(_) => RunConclusion { event: None, summary: None },
            Err(message) => {
                let context = match strategy {
                    CompactStrategy::Remote => String::from_str("Error running remote compact task"),
                    CompactStrategy::Local => String::from_str("Error running local compact task"),
                };
                let event = EventMsg::Error(ErrorEvent { message, context: Some(context) });
                RunConclusion { event: Some(event), summary: None }
            },
        }
    }
}

} // verus!
