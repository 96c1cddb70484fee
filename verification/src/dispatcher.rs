//! The dispatcher: from the stream of raw events to build triggers, one
//! chain at a time, with a quiet window after each.
//!
//! The dispatcher does no work of its own. It is told what happened, and
//! answers with what to do next; whoever drives it waits for events, runs
//! the build command and sleeps.

use crate::event::RawEvent;
use crate::extension::{filter_accepts, match_ext, members, PathExtension};
use crate::outcome::BuildOutcome;
use crate::rerun::{after_build, chain_length, chain_step, ChainStep};
use crate::signal::{contains_marker, SignalMatcher};
use vstd::prelude::*;

verus! {

/// Seconds of the quiet window after a build chain. The watch source
/// debounces raw notifications over the same span.
pub const DEBOUNCE_SECS: u64 = 10;

/// What is fixed at startup.
#[derive(Debug, Clone, PartialEq, Eq)]
pub struct WatchConfig {
    /// The accepted extensions; `None` accepts every path.
    pub extensions: Option<Vec<String>>,
    /// How many reruns one build chain may make.
    pub budget: u8,
}

impl WatchConfig {
    /// A configuration from the list of extensions as given, where an empty
    /// list stands for no restriction.
    pub fn new(extensions: Vec<String>, budget: u8) -> (config: WatchConfig)
        ensures
            config.budget == budget,
            config.extensions == (if extensions@.len() == 0 {
                None
            } else {
                Some(extensions)
            }),
    {
        if extensions.len() == 0 {
            WatchConfig { extensions: None, budget }
        } else {
            WatchConfig { extensions: Some(extensions), budget }
        }
    }

    /// The set of extensions that the configuration stands for.
    pub open spec fn accepted(self) -> Option<Set<Seq<char>>> {
        match self.extensions {
            None => None,
            Some(list) => Some(members(list@)),
        }
    }

    /// Whether a change to a path with extension `ext` is relevant.
    pub fn admits(&self, ext: &PathExtension) -> (r: bool)
        ensures
            r == filter_accepts(self.accepted(), *ext),
    {
        match &self.extensions {
            None => match_ext(None, ext),
            Some(list) => match_ext(Some(list.as_slice()), ext),
        }
    }
}

/// Where the dispatcher stands.
#[derive(Debug, Clone, Copy, PartialEq, Eq, Structural)]
pub enum DispatchState {
    /// Waiting for the next raw event.
    Idle,
    /// A build chain is in progress: an invocation is running, and
    /// `remaining` reruns may follow it.
    Triggering { remaining: u8 },
    /// The chain is over and the quiet window runs; queued events are
    /// thrown away.
    Draining,
}

/// What the driver reports to the dispatcher.
#[derive(Debug, Clone, PartialEq, Eq)]
pub enum Input {
    /// The source delivered an event.
    Event(RawEvent),
    /// Receiving failed this once; the source may deliver again.
    ReceiveError,
    /// The source is closed for good.
    SourceClosed,
    /// The build command ran to its end.
    Built(BuildOutcome),
    /// The build command could not be started.
    SpawnFailed,
    /// The quiet window has passed and the queue holds nothing more.
    QueueEmpty,
}

/// What the dispatcher asks of the driver.
#[derive(Debug, Clone, Copy, PartialEq, Eq, Structural)]
pub enum Action {
    /// The event names no path to act on. Wait for the next event.
    Discard,
    /// The extension filter rejected the event's path. Report the event as
    /// dropped and wait for the next.
    DropFiltered,
    /// Report the receive error and wait for the next event.
    ReportReceiveError,
    /// Run the build command once in the watched directory and report how it
    /// went.
    InvokeBuild,
    /// Sleep for the quiet window of `quiet_secs` seconds, then report what
    /// the queue holds, event by event, and at last that it is empty.
    Settle { quiet_secs: u64 },
    /// The event arrived by the end of the quiet window. Report it as
    /// dropped; it is not looked at.
    DropDrained,
    /// The quiet window is over. Wait for the next event.
    Resume,
    /// Surface the failure to start the build command.
    SurfaceSpawnFailure,
    /// Nothing more will arrive. Exit and report the failure.
    Exit,
    /// The input does not answer what was asked. Nothing has changed.
    OutOfTurn,
}

/// The transition rule: the next state and the action, for a state and an
/// input.
pub open spec fn transition(config: WatchConfig, state: DispatchState, input: Input) -> (
    DispatchState,
    Action,
) {
    match (state, input) {
        (DispatchState::Idle, Input::Event(event)) => match event.path() {
            None => (DispatchState::Idle, Action::Discard),
            Some(ext) => if filter_accepts(config.accepted(), ext) {
                (DispatchState::Triggering { remaining: config.budget }, Action::InvokeBuild)
            } else {
                (DispatchState::Idle, Action::DropFiltered)
            },
        },
        (DispatchState::Idle, Input::ReceiveError) => (
            DispatchState::Idle,
            Action::ReportReceiveError,
        ),
        (DispatchState::Idle, Input::SourceClosed) => (DispatchState::Idle, Action::Exit),
        (DispatchState::Triggering { remaining }, Input::Built(outcome)) => match chain_step(
            remaining,
            outcome.stdout@,
        ) {
            ChainStep::Rerun(rest) => (
                DispatchState::Triggering { remaining: rest },
                Action::InvokeBuild,
            ),
            ChainStep::Finished => (
                DispatchState::Draining,
                Action::Settle { quiet_secs: DEBOUNCE_SECS },
            ),
        },
        (DispatchState::Triggering { .. }, Input::SpawnFailed) => (
            DispatchState::Idle,
            Action::SurfaceSpawnFailure,
        ),
        (DispatchState::Draining, Input::Event(_)) => (DispatchState::Draining, Action::DropDrained),
        (DispatchState::Draining, Input::QueueEmpty) => (DispatchState::Idle, Action::Resume),
        _ => (state, Action::OutOfTurn),
    }
}

/// The dispatcher: its configuration and where it stands.
#[derive(Debug, Clone, PartialEq, Eq)]
pub struct Dispatcher {
    /// What was fixed at startup.
    pub config: WatchConfig,
    /// The current state.
    pub state: DispatchState,
}

impl Dispatcher {
    /// A dispatcher that waits for its first event.
    pub fn new(config: WatchConfig) -> (dispatcher: Dispatcher)
        ensures
            dispatcher.config == config,
            dispatcher.state == DispatchState::Idle,
    {
        Dispatcher { config, state: DispatchState::Idle }
    }

    /// Takes one input, moves to the next state and says what to do.
    pub fn step(&mut self, matcher: &SignalMatcher, input: &Input) -> (action: Action)
        ensures
            final(self).config == old(self).config,
            (final(self).state, action) == transition(old(self).config, old(self).state, *input),
    {
        match (self.state, input) {
            (DispatchState::Idle, Input::Event(event)) => match event.actionable_path() {
                None => Action::Discard,
                Some(ext) => {
                    if self.config.admits(ext) {
                        self.state = DispatchState::Triggering { remaining: self.config.budget };
                        Action::InvokeBuild
                    } else {
                        Action::DropFiltered
                    }
                },
            },
            (DispatchState::Idle, Input::ReceiveError) => Action::ReportReceiveError,
            (DispatchState::Idle, Input::SourceClosed) => Action::Exit,
            (DispatchState::Triggering { remaining }, Input::Built(outcome)) => {
                match after_build(matcher, remaining, outcome.stdout.as_slice()) {
                    ChainStep::Rerun(rest) => {
                        self.state = DispatchState::Triggering { remaining: rest };
                        Action::InvokeBuild
                    },
                    ChainStep::Finished => {
                        self.state = DispatchState::Draining;
                        Action::Settle { quiet_secs: DEBOUNCE_SECS }
                    },
                }
            },
            (DispatchState::Triggering { .. }, Input::SpawnFailed) => {
                self.state = DispatchState::Idle;
                Action::SurfaceSpawnFailure
            },
            (DispatchState::Draining, Input::Event(_)) => Action::DropDrained,
            (DispatchState::Draining, Input::QueueEmpty) => {
                self.state = DispatchState::Idle;
                Action::Resume
            },
            _ => Action::OutOfTurn,
        }
    }
}

/// The event names a path, and the path passes the configured filter.
pub open spec fn is_relevant(config: WatchConfig, event: RawEvent) -> bool {
    match event.path() {
        Some(ext) => filter_accepts(config.accepted(), ext),
        None => false,
    }
}

/// A build is asked for in two cases only: in `Idle`, for a relevant event;
/// and within a chain, for an output that holds the marker while budget is
/// left.
pub proof fn build_starts_only_when_due(config: WatchConfig, state: DispatchState, input: Input)
    ensures
        transition(config, state, input).1 == Action::InvokeBuild <==> (match (state, input) {
            (DispatchState::Idle, Input::Event(event)) => is_relevant(config, event),
            (DispatchState::Triggering { remaining }, Input::Built(outcome)) => remaining != 0
                && contains_marker(outcome.stdout@),
            _ => false,
        }),
{
}

/// While a chain is in progress or the quiet window runs, no event starts a
/// build or moves the dispatcher: one chain is over before the next event is
/// looked at.
pub proof fn events_wait_for_idle(config: WatchConfig, state: DispatchState, event: RawEvent)
    requires
        state != DispatchState::Idle,
    ensures
        transition(config, state, Input::Event(event)).0 == state,
        transition(config, state, Input::Event(event)).1 != Action::InvokeBuild,
{
}

/// An event that is not relevant leaves an idle dispatcher idle, and no
/// build follows: it is discarded if it names no path, and reported as
/// dropped if the filter rejects its path.
pub proof fn irrelevant_events_keep_idle(config: WatchConfig, event: RawEvent)
    requires
        !is_relevant(config, event),
    ensures
        transition(config, DispatchState::Idle, Input::Event(event)) == (
            DispatchState::Idle,
            if event.is_actionable() {
                Action::DropFiltered
            } else {
                Action::Discard
            },
        ),
{
}

/// A relevant event moves an idle dispatcher into a chain with the full
/// configured budget, and asks for the first build.
pub proof fn relevant_event_starts_chain(config: WatchConfig, event: RawEvent)
    requires
        is_relevant(config, event),
    ensures
        transition(config, DispatchState::Idle, Input::Event(event)) == (
            DispatchState::Triggering { remaining: config.budget },
            Action::InvokeBuild,
        ),
{
}

/// A chain leaves `Triggering` only into the quiet window, after a build
/// that ran, or back to `Idle`, when the command could not be started; the
/// quiet window ends only when the queue is reported empty.
pub proof fn chain_then_quiet_then_idle(config: WatchConfig, state: DispatchState, input: Input)
    ensures
        ({
            let next = transition(config, state, input).0;
            match state {
                DispatchState::Idle => true,
                DispatchState::Triggering { remaining } => match next {
                    DispatchState::Idle => input is SpawnFailed,
                    DispatchState::Triggering { remaining: rest } => rest == remaining || rest + 1
                        == remaining,
                    DispatchState::Draining => input is Built,
                },
                DispatchState::Draining => match next {
                    DispatchState::Idle => input is QueueEmpty,
                    DispatchState::Triggering { .. } => false,
                    DispatchState::Draining => true,
                },
            }
        }),
{
}

/// The state reached when the inputs are taken in order, and the actions
/// given on the way.
pub open spec fn run(config: WatchConfig, state: DispatchState, inputs: Seq<Input>) -> (
    DispatchState,
    Seq<Action>,
)
    decreases inputs.len(),
{
    if inputs.len() == 0 {
        (state, Seq::empty())
    } else {
        let (next, action) = transition(config, state, inputs[0]);
        let (last, actions) = run(config, next, inputs.drop_first());
        (last, seq![action] + actions)
    }
}

/// The reports that these builds ran to their end, in order.
pub open spec fn built(outcomes: Seq<BuildOutcome>) -> Seq<Input> {
    Seq::new(outcomes.len(), |i: int| Input::Built(outcomes[i]))
}

/// A dispatcher whose first build of a chain is running, with `budget`
/// reruns to follow at most, is told how each invocation of the chain went.
/// It asks for a further build after each but the last, then for the quiet
/// window: the builds it asks for, the first included, are as many as the
/// chain is long.
pub proof fn dispatcher_runs_chain_to_its_length(
    config: WatchConfig,
    budget: u8,
    outcomes: Seq<BuildOutcome>,
    output_of: spec_fn(nat) -> Seq<u8>,
    from: nat,
)
    requires
        outcomes.len() == chain_length(budget, output_of, from),
        forall|i: int|
            0 <= i < outcomes.len() ==> (#[trigger] outcomes[i]).stdout@ == output_of(
                (from + i) as nat,
            ),
    ensures
        run(config, DispatchState::Triggering { remaining: budget }, built(outcomes)).0
            == DispatchState::Draining,
        run(config, DispatchState::Triggering { remaining: budget }, built(outcomes)).1
            =~= Seq::new((outcomes.len() - 1) as nat, |i: int| Action::InvokeBuild).push(
            Action::Settle { quiet_secs: DEBOUNCE_SECS },
        ),
    decreases budget,
{
    let inputs = built(outcomes);
    let later = outcomes.drop_first();
    assert(inputs.drop_first() =~= built(later));
    match chain_step(budget, output_of(from)) {
        ChainStep::Finished => {
            assert(run(config, DispatchState::Draining, built(later)).1 =~= Seq::empty());
        },
        ChainStep::Rerun(rest) => {
            dispatcher_runs_chain_to_its_length(config, rest, later, output_of, from + 1);
        },
    }
}

} // verus!
