//! The poll loop: the long-lived state machine that decides when a refresh
//! runs.
//!
//! The loop performs an initial refresh when a startup location was given,
//! then reacts to whichever comes first: a user-submitted location or the
//! fixed re-poll timer. At most one refresh is ever in flight; a location
//! submitted while one is running is queued (latest wins) and picked up only
//! once the running attempt has delivered its terminal outcome. A remote
//! failure never stops the loop; only the input channel closing shuts it
//! down.
//!
//! The loop's owner drives it: it waits on the timer and the input channel,
//! feeds each [`PollEvent`] into [`PollLoop::step`], delivers the returned
//! outcomes to the dispatcher in order, and performs the refresh the step
//! asks for.

use vstd::prelude::*;

use crate::client::RefreshError;
use crate::client::RefreshErrorView;
use crate::client::RefreshOutcome;
use crate::client::RefreshOutcomeView;
use crate::client::WeatherForecastResponse;
use crate::client::WeatherForecastResponseView;

verus! {

/// The re-poll interval used when the caller has no preference.
pub const DEFAULT_POLL_INTERVAL_SECS: u64 = 10;

/// Whether a refresh is currently in flight.
#[derive(Debug, Clone, Copy, PartialEq, Eq)]
pub enum PollState {
    Idle,
    Refreshing,
}

/// What the loop's owner reports into the state machine.
#[derive(Debug, PartialEq)]
pub enum PollEvent {
    /// The user confirmed a new location.
    NewLocation(String),
    /// The fixed re-poll interval elapsed with no new location.
    TimerElapsed,
    /// The refresh in flight delivered its result.
    RefreshFinished(Result<WeatherForecastResponse, RefreshError>),
    /// The input channel is permanently closed: fatal shutdown.
    InputClosed,
}

/// Mathematical model of a poll event.
pub enum PollEventView {
    NewLocation(Seq<char>),
    TimerElapsed,
    RefreshFinished(Result<WeatherForecastResponseView, RefreshErrorView>),
    InputClosed,
}

impl View for PollEvent {
    type V = PollEventView;

    open spec fn view(&self) -> PollEventView {
        match self {
            PollEvent::NewLocation(loc) => PollEventView::NewLocation(loc@),
            PollEvent::TimerElapsed => PollEventView::TimerElapsed,
            PollEvent::RefreshFinished(r) => PollEventView::RefreshFinished(
                match r {
                    Ok(resp) => Ok(resp@),
                    Err(e) => Err(e@),
                },
            ),
            PollEvent::InputClosed => PollEventView::InputClosed,
        }
    }
}

/// What the loop asks its owner to do after one event: deliver these
/// outcomes to the dispatcher in order, then perform a refresh for this
/// location (if any), or shut down.
#[derive(Debug, PartialEq)]
pub struct PollStep {
    pub emits: Vec<RefreshOutcome>,
    pub start_refresh: Option<String>,
    pub shutdown: bool,
}

/// Mathematical model of a poll step.
pub struct PollStepView {
    pub emits: Seq<RefreshOutcomeView>,
    pub start_refresh: Option<Seq<char>>,
    pub shutdown: bool,
}

impl View for PollStep {
    type V = PollStepView;

    open spec fn view(&self) -> PollStepView {
        PollStepView {
            emits: self.emits@.map_values(|o: RefreshOutcome| o@),
            start_refresh: match self.start_refresh {
                Some(ref loc) => Some(loc@),
                None => None,
            },
            shutdown: self.shutdown,
        }
    }
}

/// The poll loop state: whether a refresh is in flight, the location being
/// (or last) refreshed, and the location queued while one is in flight.
#[derive(Debug, PartialEq)]
pub struct PollLoop {
    state: PollState,
    current_location: Option<String>,
    pending_location: Option<String>,
    poll_interval_secs: u64,
}

/// Mathematical model of the poll loop state.
pub struct PollLoopView {
    pub state: PollState,
    pub current_location: Option<Seq<char>>,
    pub pending_location: Option<Seq<char>>,
    pub poll_interval_secs: int,
}

/// Mathematical model of an optional location.
pub open spec fn opt_location_view(o: Option<String>) -> Option<Seq<char>> {
    match o {
        Some(loc) => Some(loc@),
        None => None,
    }
}

impl View for PollLoop {
    type V = PollLoopView;

    closed spec fn view(&self) -> PollLoopView {
        PollLoopView {
            state: self.state,
            current_location: opt_location_view(self.current_location),
            pending_location: opt_location_view(self.pending_location),
            poll_interval_secs: self.poll_interval_secs as int,
        }
    }
}

impl PollLoopView {
    /// A location is queued only while a refresh is in flight, and a refresh
    /// in flight always has a location.
    pub open spec fn wf(self) -> bool {
        &&& (self.pending_location is Some ==> self.state is Refreshing)
        &&& (self.state is Refreshing ==> self.current_location is Some)
    }
}

/// A step that emits nothing, starts nothing and keeps the loop running.
pub open spec fn empty_step_view() -> PollStepView {
    PollStepView { emits: Seq::empty(), start_refresh: None, shutdown: false }
}

/// The terminal outcome of a refresh attempt: the forecast on success, the
/// human-readable cause on failure.
pub open spec fn terminal_outcome_view(
    result: Result<WeatherForecastResponseView, RefreshErrorView>,
) -> RefreshOutcomeView {
    match result {
        Ok(resp) => RefreshOutcomeView::Received(resp),
        Err(e) => RefreshOutcomeView::Error(e.message_view()),
    }
}

/// The initial transition: with a startup location the loop immediately
/// enters `Refreshing` for it (announcing `Waiting`); without one it starts
/// idle with no forecast yet loaded.
pub open spec fn poll_init_spec(location: Option<Seq<char>>, poll_interval_secs: int) -> (
    PollLoopView,
    PollStepView,
) {
    match location {
        Some(loc) => (
            PollLoopView {
                state: PollState::Refreshing,
                current_location: Some(loc),
                pending_location: None,
                poll_interval_secs: poll_interval_secs,
            },
            PollStepView {
                emits: seq![RefreshOutcomeView::Waiting],
                start_refresh: Some(loc),
                shutdown: false,
            },
        ),
        None => (
            PollLoopView {
                state: PollState::Idle,
                current_location: None,
                pending_location: None,
                poll_interval_secs: poll_interval_secs,
            },
            empty_step_view(),
        ),
    }
}

/// The transition function of the poll loop.
///
/// * A new location while idle starts a refresh for it at once (announcing
///   `Waiting`); while refreshing it is only queued, the latest submission
///   winning, and nothing is emitted.
/// * The timer while idle re-polls the current location, if there ever was
///   one; while refreshing it is ignored.
/// * A finished refresh emits its terminal outcome; if a location was queued
///   meanwhile, the loop stays refreshing and starts the queued location's
///   refresh (its `Waiting` following the terminal outcome, never preceding
///   it); otherwise the loop returns to idle.
/// * The input channel closing shuts the loop down.
pub open spec fn poll_step_spec(s: PollLoopView, e: PollEventView) -> (PollLoopView, PollStepView) {
    match e {
        PollEventView::InputClosed => (
            s,
            PollStepView { emits: Seq::empty(), start_refresh: None, shutdown: true },
        ),
        PollEventView::NewLocation(loc) => match s.state {
            PollState::Idle => (
                PollLoopView {
                    state: PollState::Refreshing,
                    current_location: Some(loc),
                    pending_location: None,
                    poll_interval_secs: s.poll_interval_secs,
                },
                PollStepView {
                    emits: seq![RefreshOutcomeView::Waiting],
                    start_refresh: Some(loc),
                    shutdown: false,
                },
            ),
            PollState::Refreshing => (
                PollLoopView {
                    state: PollState::Refreshing,
                    current_location: s.current_location,
                    pending_location: Some(loc),
                    poll_interval_secs: s.poll_interval_secs,
                },
                empty_step_view(),
            ),
        },
        PollEventView::TimerElapsed => match s.state {
            PollState::Idle => match s.current_location {
                Some(loc) => (
                    PollLoopView {
                        state: PollState::Refreshing,
                        current_location: Some(loc),
                        pending_location: None,
                        poll_interval_secs: s.poll_interval_secs,
                    },
                    PollStepView {
                        emits: seq![RefreshOutcomeView::Waiting],
                        start_refresh: Some(loc),
                        shutdown: false,
                    },
                ),
                None => (s, empty_step_view()),
            },
            PollState::Refreshing => (s, empty_step_view()),
        },
        PollEventView::RefreshFinished(result) => match s.state {
            PollState::Refreshing => {
                let terminal = terminal_outcome_view(result);
                match s.pending_location {
                    Some(loc) => (
                        PollLoopView {
                            state: PollState::Refreshing,
                            current_location: Some(loc),
                            pending_location: None,
                            poll_interval_secs: s.poll_interval_secs,
                        },
                        PollStepView {
                            emits: seq![terminal, RefreshOutcomeView::Waiting],
                            start_refresh: Some(loc),
                            shutdown: false,
                        },
                    ),
                    None => (
                        PollLoopView {
                            state: PollState::Idle,
                            current_location: s.current_location,
                            pending_location: None,
                            poll_interval_secs: s.poll_interval_secs,
                        },
                        PollStepView {
                            emits: seq![terminal],
                            start_refresh: None,
                            shutdown: false,
                        },
                    ),
                }
            },
            PollState::Idle => (s, empty_step_view()),
        },
    }
}

impl PollLoop {
    /// Set the loop up, performing the initial transition for the optional
    /// startup location.
    pub fn new(location: Option<String>, poll_interval_secs: u64) -> (r: (PollLoop, PollStep))
        ensures
            (r.0@, r.1@) == poll_init_spec(opt_location_view(location), poll_interval_secs as int),
            r.0@.wf(),
    {
        match location {
            Some(loc) => {
                let me = PollLoop {
                    state: PollState::Refreshing,
                    current_location: Some(loc.clone()),
                    pending_location: None,
                    poll_interval_secs,
                };
                let mut emits: Vec<RefreshOutcome> = Vec::new();
                emits.push(RefreshOutcome::Waiting);
                let step = PollStep { emits, start_refresh: Some(loc), shutdown: false };
                proof {
                    assert(step@.emits =~= seq![RefreshOutcomeView::Waiting]);
                }
                (me, step)
            },
            None => {
                let me = PollLoop {
                    state: PollState::Idle,
                    current_location: None,
                    pending_location: None,
                    poll_interval_secs,
                };
                let step = PollStep { emits: Vec::new(), start_refresh: None, shutdown: false };
                proof {
                    assert(step@.emits =~= Seq::<RefreshOutcomeView>::empty());
                }
                (me, step)
            },
        }
    }

    /// The configured re-poll interval.
    pub fn poll_interval_secs(&self) -> (r: u64)
        ensures
            r as int == self@.poll_interval_secs,
    {
        self.poll_interval_secs
    }

    /// Whether a refresh is currently in flight.
    pub fn is_refreshing(&self) -> (r: bool)
        ensures
            r == (self@.state is Refreshing),
    {
        match self.state {
            PollState::Refreshing => true,
            PollState::Idle => false,
        }
    }

    /// React to one event, exactly as [`poll_step_spec`] says.
    pub fn step(&mut self, event: PollEvent) -> (step: PollStep)
        ensures
            (final(self)@, step@) == poll_step_spec(old(self)@, event@),
            old(self)@.wf() ==> final(self)@.wf(),
    {
        match event {
            PollEvent::InputClosed => {
                let step = PollStep { emits: Vec::new(), start_refresh: None, shutdown: true };
                proof {
                    assert(step@.emits =~= Seq::<RefreshOutcomeView>::empty());
                }
                step
            },
            PollEvent::NewLocation(loc) => {
                match self.state {
                    PollState::Idle => {
                        self.state = PollState::Refreshing;
                        self.current_location = Some(loc.clone());
                        self.pending_location = None;
                        let mut emits: Vec<RefreshOutcome> = Vec::new();
                        emits.push(RefreshOutcome::Waiting);
                        let step = PollStep { emits, start_refresh: Some(loc), shutdown: false };
                        proof {
                            assert(step@.emits =~= seq![RefreshOutcomeView::Waiting]);
                        }
                        step
                    },
                    PollState::Refreshing => {
                        self.pending_location = Some(loc);
                        let step = PollStep {
                            emits: Vec::new(),
                            start_refresh: None,
                            shutdown: false,
                        };
                        proof {
                            assert(step@.emits =~= Seq::<RefreshOutcomeView>::empty());
                        }
                        step
                    },
                }
            },
            PollEvent::TimerElapsed => {
                match self.state {
                    PollState::Idle => {
                        match &self.current_location {
                            Some(loc) => {
                                let loc = loc.clone();
                                self.state = PollState::Refreshing;
                                self.pending_location = None;
                                let mut emits: Vec<RefreshOutcome> = Vec::new();
                                emits.push(RefreshOutcome::Waiting);
                                let step = PollStep {
                                    emits,
                                    start_refresh: Some(loc),
                                    shutdown: false,
                                };
                                proof {
                                    assert(step@.emits =~= seq![RefreshOutcomeView::Waiting]);
                                }
                                step
                            },
                            None => {
                                let step = PollStep {
                                    emits: Vec::new(),
                                    start_refresh: None,
                                    shutdown: false,
                                };
                                proof {
                                    assert(step@.emits =~= Seq::<RefreshOutcomeView>::empty());
                                }
                                step
                            },
                        }
                    },
                    PollState::Refreshing => {
                        let step = PollStep {
                            emits: Vec::new(),
                            start_refresh: None,
                            shutdown: false,
                        };
                        proof {
                            assert(step@.emits =~= Seq::<RefreshOutcomeView>::empty());
                        }
                        step
                    },
                }
            },
            PollEvent::RefreshFinished(result) => {
                match self.state {
                    PollState::Refreshing => {
                        let terminal = match result {
                            Ok(resp) => RefreshOutcome::Received(resp),
                            Err(e) => RefreshOutcome::Error(e.message()),
                        };
                        let mut emits: Vec<RefreshOutcome> = Vec::new();
                        emits.push(terminal);
                        let ghost terminal_v = emits@.map_values(|o: RefreshOutcome| o@)[0];
                        match self.pending_location.take() {
                            Some(loc) => {
                                self.current_location = Some(loc.clone());
                                emits.push(RefreshOutcome::Waiting);
                                let step = PollStep {
                                    emits,
                                    start_refresh: Some(loc),
                                    shutdown: false,
                                };
                                proof {
                                    assert(step@.emits =~= seq![
                                        terminal_v,
                                        RefreshOutcomeView::Waiting,
                                    ]);
                                }
                                step
                            },
                            None => {
                                self.state = PollState::Idle;
                                let step = PollStep {
                                    emits,
                                    start_refresh: None,
                                    shutdown: false,
                                };
                                proof {
                                    assert(step@.emits =~= seq![terminal_v]);
                                }
                                step
                            },
                        }
                    },
                    PollState::Idle => {
                        let step = PollStep {
                            emits: Vec::new(),
                            start_refresh: None,
                            shutdown: false,
                        };
                        proof {
                            assert(step@.emits =~= Seq::<RefreshOutcomeView>::empty());
                        }
                        step
                    },
                }
            },
        }
    }
}

/// `Waiting` always precedes the terminal outcome of the same attempt: a
/// refresh begun from idle announces `Waiting` at once and starts exactly
/// that location's refresh, and the attempt's terminal outcome is emitted
/// exactly once, when the refresh finishes, after which the loop is idle
/// again.
pub proof fn lemma_waiting_precedes_terminal(
    s: PollLoopView,
    loc: Seq<char>,
    result: Result<WeatherForecastResponseView, RefreshErrorView>,
)
    requires
        s.wf(),
        s.state is Idle,
    ensures
        ({
            let (s1, begun) = poll_step_spec(s, PollEventView::NewLocation(loc));
            &&& begun.emits =~= seq![RefreshOutcomeView::Waiting]
            &&& begun.start_refresh == Some(loc)
            &&& !begun.shutdown
            &&& {
                let (s2, finished) = poll_step_spec(s1, PollEventView::RefreshFinished(result));
                &&& finished.emits =~= seq![terminal_outcome_view(result)]
                &&& finished.start_refresh is None
                &&& !finished.shutdown
                &&& s2.state is Idle
            }
        }),
{
}

/// Only the input channel closing ever shuts the loop down: no refresh
/// outcome, a failure included, terminates it.
pub proof fn lemma_only_input_closed_shuts_down(s: PollLoopView, e: PollEventView)
    ensures
        poll_step_spec(s, e).1.shutdown ==> e is InputClosed,
{
}

/// A second location submitted while a refresh is in flight starts nothing
/// and announces nothing: no second `Waiting` appears until the running
/// attempt's terminal outcome has been emitted. Only when that attempt
/// finishes does the queued location's refresh begin, its `Waiting` emitted
/// directly after (never before) the terminal outcome.
pub proof fn lemma_no_concurrent_refresh(
    s: PollLoopView,
    loc: Seq<char>,
    result: Result<WeatherForecastResponseView, RefreshErrorView>,
)
    requires
        s.wf(),
        s.state is Refreshing,
    ensures
        ({
            let (s1, submitted) = poll_step_spec(s, PollEventView::NewLocation(loc));
            &&& submitted.emits.len() == 0
            &&& submitted.start_refresh is None
            &&& s1.state is Refreshing
            &&& {
                let (s2, finished) = poll_step_spec(s1, PollEventView::RefreshFinished(result));
                &&& finished.emits =~= seq![
                    terminal_outcome_view(result),
                    RefreshOutcomeView::Waiting,
                ]
                &&& finished.start_refresh == Some(loc)
                &&& s2.current_location == Some(loc)
                &&& s2.wf()
            }
        }),
{
}

} // verus!
