//! The agent: one state machine that connects, runs sessions, backs off after
//! failures, and stops.
//!
//! The agent never waits and never talks to anyone. It answers every event
//! with the action to take next; whoever drives it carries the action out and
//! comes back with the event that ends it. `Connect` is answered by
//! `Connected`, `Sleep` by `Woke` or `Interrupted`, `Ship` by `Shipped`, and
//! `Stop` by nothing.

use vstd::prelude::*;
use crate::app_run::AppRun;
use crate::clock::Clock;
use crate::collector::RpmError;
use crate::config::Config;
use crate::harvest::Harvest;
use crate::harvest::HarvestReady;
use crate::limits::NANOS_PER_SEC;
use crate::limits::TICK;
use crate::transaction::is_recorded;
use crate::transaction::record_transaction;
use crate::transaction::Transaction;
use crate::transaction::WebRequest;

verus! {

/// What the agent is to the application.
pub enum AppState {
    /// Not connected yet.
    Init,
    /// In a session: transactions are recorded.
    Running { run: AppRun, harvest: Harvest },
    /// Stopped for good.
    Dead,
}

/// What the agent waits for.
#[derive(Debug, Clone, Copy, PartialEq, Eq, Structural)]
pub enum Phase {
    /// To be started.
    Idle,
    /// The outcome of a handshake.
    Connecting,
    /// The end of a pause before the next handshake.
    Backoff,
    /// The end of a pause within a session.
    Waiting,
    /// The outcome of sending a harvest.
    Shipping,
    /// Nothing any more.
    Stopped,
}

/// What happened.
pub enum Event {
    /// The agent was started.
    Started,
    /// A handshake ended, with a session or an error.
    Connected(Result<AppRun, RpmError>),
    /// A pause ran its time.
    Woke,
    /// A pause was cut short because the agent is to shut down.
    Interrupted,
    /// The harvest was sent, or sending it broke off.
    Shipped(Result<(), RpmError>),
}

/// A harvest to send, and the session to send it in.
pub struct Flush {
    pub run: AppRun,
    pub ready: HarvestReady,
}

/// What to do next.
pub enum Action {
    /// Try a handshake.
    Connect,
    /// Pause for so many nanoseconds, unless a shutdown cuts the pause short.
    Sleep(u64),
    /// Send this harvest.
    Ship(Flush),
    /// Stop driving the agent; before that, try once to send what is left.
    Stop(Option<Flush>),
}

/// The agent.
pub struct Agent {
    pub config: Config,
    pub state: AppState,
    /// How many handshakes in a row have failed.
    pub attempt: u32,
    pub phase: Phase,
}

/// The pauses after the first, second, ... failed handshake in a row, in
/// seconds.
pub open spec fn backoff_seconds() -> Seq<u64> {
    seq![15, 15, 30, 60, 120, 300]
}

/// The pause before the next handshake when `attempt` handshakes in a row
/// have failed: the entry of that number in `backoff_seconds`, the last one
/// for every larger number, and no pause when none has failed.
pub open spec fn backoff(attempt: u32) -> u64 {
    if attempt == 0 {
        0
    } else if attempt <= 6 {
        (backoff_seconds()[attempt - 1] * NANOS_PER_SEC) as u64
    } else {
        (backoff_seconds()[5] * NANOS_PER_SEC) as u64
    }
}

/// The pause, in nanoseconds, before the next handshake when `attempt`
/// handshakes in a row have failed.
pub fn connect_backoff_time(attempt: u32) -> (pause: u64)
    ensures
        pause == backoff(attempt),
{
    let seconds: u64 = match attempt {
        0 => 0,
        1 => 15,
        2 => 15,
        3 => 30,
        4 => 60,
        5 => 120,
        _ => 300,
    };
    seconds * NANOS_PER_SEC
}

/// Whether `state` and `flush` are what is left when an agent in the state
/// `before` shuts down at `now`. The state is `Dead`. A session gives up its
/// whole harvest, due or not, to be sent one last time.
pub open spec fn is_shut_down(
    before: AppState,
    now: Clock,
    flush: Option<Flush>,
    state: AppState,
) -> bool {
    &&& state is Dead
    &&& match before {
        AppState::Running { run, harvest } => {
            &&& flush matches Some(last)
            &&& last.run == run
            &&& exists|rest: Harvest| #[trigger]
                harvest.is_swapped(now.monotonic, true, last.ready, rest)
        },
        _ => flush is None,
    }
}

/// Whether `action` and `after` are the answer of the agent `before` to
/// `event` at `now`.
pub open spec fn is_step(
    before: Agent,
    event: Event,
    now: Clock,
    action: Action,
    after: Agent,
) -> bool {
    &&& after.config == before.config
    &&& match (before.phase, event) {
        (Phase::Idle, Event::Started) => {
            // A disabled agent is dead from the start and is never driven.
            &&& after.state == before.state
            &&& after.attempt == before.attempt
            &&& if before.state is Dead {
                after.phase == Phase::Stopped && action == Action::Stop(None)
            } else {
                after.phase == Phase::Connecting && action == Action::Connect
            }
        },
        (Phase::Connecting, Event::Connected(Ok(run))) => {
            // A session begins; it is looked after once every tick.
            &&& after.attempt == 0
            &&& after.phase == Phase::Waiting
            &&& action == Action::Sleep(TICK)
            &&& after.state matches AppState::Running { run: session, harvest }
            &&& session == run
            &&& harvest.is_fresh(run, now.monotonic)
        },
        (Phase::Connecting, Event::Connected(Err(error))) => {
            // One more failure. The collector may have said that the agent
            // is not wanted; otherwise the next handshake waits.
            &&& after.attempt == before.attempt.saturating_add(1)
            &&& if error.disconnects() {
                &&& after.state is Dead
                &&& after.phase == Phase::Stopped
                &&& action == Action::Stop(None)
            } else {
                &&& after.state == before.state
                &&& after.phase == Phase::Backoff
                &&& action == Action::Sleep(backoff(after.attempt))
            }
        },
        (Phase::Backoff, Event::Woke) => {
            &&& after.state == before.state
            &&& after.attempt == before.attempt
            &&& after.phase == Phase::Connecting
            &&& action == Action::Connect
        },
        (Phase::Backoff, Event::Interrupted) => {
            &&& after.state is Dead
            &&& after.attempt == before.attempt
            &&& after.phase == Phase::Stopped
            &&& action == Action::Stop(None)
        },
        (Phase::Waiting, Event::Woke) => {
            // What is due leaves the harvest and is sent.
            &&& after.attempt == before.attempt
            &&& match before.state {
                AppState::Running { run, harvest } => {
                    &&& after.phase == Phase::Shipping
                    &&& after.state matches AppState::Running { run: session, harvest: rest }
                    &&& session == run
                    &&& action matches Action::Ship(flush)
                    &&& flush.run@ == run@
                    &&& harvest.is_swapped(now.monotonic, false, flush.ready, rest)
                },
                _ => {
                    &&& after.state == before.state
                    &&& after.phase == Phase::Waiting
                    &&& action == Action::Sleep(TICK)
                },
            }
        },
        (Phase::Waiting, Event::Interrupted) => {
            &&& after.attempt == before.attempt
            &&& after.phase == Phase::Stopped
            &&& action matches Action::Stop(flush)
            &&& is_shut_down(before.state, now, flush, after.state)
        },
        (Phase::Shipping, Event::Shipped(Err(error))) => {
            if error.disconnects() {
                // The agent ends. A shutdown still sends what is left.
                &&& after.attempt == before.attempt
                &&& after.phase == Phase::Stopped
                &&& after.state is Dead
                &&& action matches Action::Stop(flush)
                &&& if error is Shutdown {
                    is_shut_down(before.state, now, flush, after.state)
                } else {
                    flush is None
                }
            } else if error.restarts() {
                // The session ends; the next handshake follows at once.
                &&& after.attempt == 0
                &&& after.phase == Phase::Backoff
                &&& after.state == before.state
                &&& action == Action::Sleep(backoff(0))
            } else {
                // The harvest is lost, the session goes on.
                &&& after.attempt == before.attempt
                &&& after.phase == Phase::Waiting
                &&& after.state == before.state
                &&& action == Action::Sleep(TICK)
            }
        },
        (Phase::Shipping, Event::Shipped(Ok(_))) => {
            &&& after.attempt == before.attempt
            &&& after.phase == Phase::Waiting
            &&& after.state == before.state
            &&& action == Action::Sleep(TICK)
        },
        _ => {
            // A stopped agent stays stopped, and an event that answers no
            // action of the agent stops it.
            &&& after.attempt == before.attempt
            &&& after.phase == Phase::Stopped
            &&& after.state is Dead
            &&& action == Action::Stop(None)
        },
    }
}

/// Whether `after` is the agent `before` after a transaction ended that the
/// application called `name` and that ran from `start` to `end` on the wall
/// clock. In a session the transaction is added to the harvest; outside of
/// one nothing changes.
pub open spec fn is_ingested(
    before: Agent,
    after: Agent,
    name: Seq<char>,
    web_request: Option<&WebRequest>,
    start: u64,
    end: u64,
    draw: u64,
) -> bool {
    &&& after.config == before.config
    &&& after.attempt == before.attempt
    &&& after.phase == before.phase
    &&& match before.state {
        AppState::Running { run, harvest } => {
            &&& after.state matches AppState::Running { run: session, harvest: grown }
            &&& session == run
            &&& is_recorded(
                harvest,
                grown,
                run,
                before.config.transaction_tracer.enabled,
                name,
                web_request,
                start,
                end,
                draw,
            )
        },
        _ => after.state == before.state,
    }
}

impl Agent {
    /// Whether state and phase fit together, as they do in every agent that
    /// was made by `new` and has only been driven since: the agent is dead
    /// exactly when it has stopped, and is in a session whenever it waits for
    /// a tick or for a harvest to be sent; before the first session it counts
    /// no failures that it did not see, and within a session none at all.
    pub open spec fn is_consistent(self) -> bool {
        &&& self.phase == Phase::Stopped <==> self.state is Dead
        &&& self.phase == Phase::Idle ==> self.state is Init && self.attempt == 0
        &&& self.phase == Phase::Waiting || self.phase == Phase::Shipping ==> self.state is Running
            && self.attempt == 0
    }
}

/// Driving a consistent agent leaves it consistent. Its state moves only
/// forward: from `Init` to `Running` by a handshake, from `Running` to
/// `Running`, and from anywhere to `Dead`, where it stays. The agent says
/// `Stop` exactly when it has stopped.
pub proof fn law_state_moves_forward(
    before: Agent,
    event: Event,
    now: Clock,
    action: Action,
    after: Agent,
)
    requires
        before.is_consistent(),
        is_step(before, event, now, action, after),
    ensures
        after.is_consistent(),
        before.state is Dead ==> after.state is Dead,
        before.state is Running ==> !(after.state is Init),
        before.state is Init && after.state is Running ==> event matches Event::Connected(Ok(_)),
        action is Stop <==> after.phase == Phase::Stopped,
{
}

/// Recording a transaction leaves a consistent agent consistent, in the same
/// kind of state.
pub proof fn law_ingest_keeps_state(
    before: Agent,
    after: Agent,
    name: Seq<char>,
    web_request: Option<&WebRequest>,
    start: u64,
    end: u64,
    draw: u64,
)
    requires
        before.is_consistent(),
        is_ingested(before, after, name, web_request, start, end, draw),
    ensures
        after.is_consistent(),
        after.state is Init <==> before.state is Init,
        after.state is Running <==> before.state is Running,
        after.state is Dead <==> before.state is Dead,
{
}

/// Shutting down twice is as good as once: the second time nothing changes
/// and nothing is handed out.
pub proof fn law_shutdown_is_idempotent(
    before: AppState,
    first: Clock,
    flush: Option<Flush>,
    between: AppState,
    second: Clock,
    again: Option<Flush>,
    after: AppState,
)
    requires
        is_shut_down(before, first, flush, between),
        is_shut_down(between, second, again, after),
    ensures
        between is Dead,
        after == between,
        again is None,
{
}

/// A stopped agent answers every event with `Stop`, hands nothing out, and
/// stays stopped and dead.
pub proof fn law_stopped_is_final(
    before: Agent,
    event: Event,
    now: Clock,
    action: Action,
    after: Agent,
)
    requires
        before.phase == Phase::Stopped,
        is_step(before, event, now, action, after),
    ensures
        after.phase == Phase::Stopped,
        after.state is Dead,
        action == Action::Stop(None),
{
}

/// Whenever a pause is cut short by a shutdown, the agent stops and is dead.
pub proof fn law_interrupt_stops(before: Agent, now: Clock, action: Action, after: Agent)
    requires
        is_step(before, Event::Interrupted, now, action, after),
    ensures
        after.phase == Phase::Stopped,
        after.state is Dead,
        action is Stop,
{
}

/// When the collector asks for a restart, the failures in a row are counted
/// from zero again and the next handshake follows without a pause.
pub proof fn law_restart_reconnects_at_once(
    before: Agent,
    error: RpmError,
    now: Clock,
    action: Action,
    between: Agent,
    later: Clock,
    next: Action,
    after: Agent,
)
    requires
        before.phase == Phase::Shipping,
        error.restarts(),
        is_step(before, Event::Shipped(Err(error)), now, action, between),
        is_step(between, Event::Woke, later, next, after),
    ensures
        action == Action::Sleep(0),
        between.attempt == 0,
        between.state == before.state,
        next == Action::Connect,
{
}

/// The pauses between handshakes never get shorter as failures add up, and
/// never longer than five minutes.
pub proof fn law_backoff_grows(fewer: u32, more: u32)
    requires
        fewer <= more,
    ensures
        backoff(fewer) <= backoff(more) <= 300 * NANOS_PER_SEC,
{
}

impl Agent {
    /// The agent for `config`, not yet started. A disabled agent is dead
    /// from the start.
    pub fn new(config: &Config) -> (agent: Agent)
        ensures
            agent.config@ == config@,
            agent.attempt == 0,
            config.enabled ==> agent.state is Init && agent.phase == Phase::Idle,
            !config.enabled ==> agent.state is Dead && agent.phase == Phase::Stopped,
            agent.is_consistent(),
    {
        if config.enabled {
            Agent { config: config.clone(), state: AppState::Init, attempt: 0, phase: Phase::Idle }
        } else {
            Agent {
                config: config.clone(),
                state: AppState::Dead,
                attempt: 0,
                phase: Phase::Stopped,
            }
        }
    }

    /// Whether the agent has stopped for good.
    pub fn is_dead(&self) -> (dead: bool)
        ensures
            dead == (self.state is Dead),
    {
        match &self.state {
            AppState::Dead => true,
            _ => false,
        }
    }

    /// Whether the agent is in a session.
    pub fn is_running(&self) -> (running: bool)
        ensures
            running == (self.state is Running),
    {
        match &self.state {
            AppState::Running { .. } => true,
            _ => false,
        }
    }

    /// Stops the agent at `now`: the state becomes `Dead`, and a session
    /// hands out its whole harvest to be sent one last time. On a dead agent
    /// this changes nothing and hands out nothing.
    pub fn shutdown(&mut self, now: Clock) -> (flush: Option<Flush>)
        ensures
            is_shut_down(old(self).state, now, flush, final(self).state),
            final(self).config == old(self).config,
            final(self).attempt == old(self).attempt,
            final(self).phase == Phase::Stopped,
    {
        self.phase = Phase::Stopped;
        let mut state = AppState::Dead;
        std::mem::swap(&mut self.state, &mut state);
        match state {
            AppState::Running { run, mut harvest } => {
                let ready = harvest.ready(now.monotonic, true);
                Some(Flush { run, ready })
            },
            _ => None,
        }
    }

    /// Answers `event`, which happened at `now`, with the action to take
    /// next.
    pub fn step(&mut self, event: Event, now: Clock) -> (action: Action)
        ensures
            is_step(*old(self), event, now, action, *final(self)),
    {
        match (self.phase, event) {
            (Phase::Idle, Event::Started) => {
                if self.is_dead() {
                    self.phase = Phase::Stopped;
                    Action::Stop(None)
                } else {
                    self.phase = Phase::Connecting;
                    Action::Connect
                }
            },
            (Phase::Connecting, Event::Connected(Ok(run))) => {
                let harvest = Harvest::new(&run, now.monotonic);
                self.attempt = 0;
                self.state = AppState::Running { run, harvest };
                self.phase = Phase::Waiting;
                Action::Sleep(TICK)
            },
            (Phase::Connecting, Event::Connected(Err(error))) => {
                self.attempt = self.attempt.saturating_add(1);
                if error.is_disconnect() {
                    self.state = AppState::Dead;
                    self.phase = Phase::Stopped;
                    Action::Stop(None)
                } else {
                    self.phase = Phase::Backoff;
                    Action::Sleep(connect_backoff_time(self.attempt))
                }
            },
            (Phase::Backoff, Event::Woke) => {
                self.phase = Phase::Connecting;
                Action::Connect
            },
            (Phase::Backoff, Event::Interrupted) => {
                self.state = AppState::Dead;
                self.phase = Phase::Stopped;
                Action::Stop(None)
            },
            (Phase::Waiting, Event::Woke) => {
                match &mut self.state {
                    AppState::Running { run, harvest } => {
                        let ready = harvest.ready(now.monotonic, false);
                        let flush = Flush { run: run.clone(), ready };
                        self.phase = Phase::Shipping;
                        Action::Ship(flush)
                    },
                    _ => Action::Sleep(TICK),
                }
            },
            (Phase::Waiting, Event::Interrupted) => {
                let flush = self.shutdown(now);
                Action::Stop(flush)
            },
            (Phase::Shipping, Event::Shipped(Err(error))) => {
                if error.is_disconnect() {
                    let flush = match error {
                        RpmError::Shutdown => self.shutdown(now),
                        _ => {
                            self.state = AppState::Dead;
                            None
                        },
                    };
                    self.phase = Phase::Stopped;
                    Action::Stop(flush)
                } else if error.is_restart_exception() {
                    self.attempt = 0;
                    self.phase = Phase::Backoff;
                    Action::Sleep(connect_backoff_time(0))
                } else {
                    self.phase = Phase::Waiting;
                    Action::Sleep(TICK)
                }
            },
            (Phase::Shipping, Event::Shipped(Ok(_))) => {
                self.phase = Phase::Waiting;
                Action::Sleep(TICK)
            },
            _ => {
                self.state = AppState::Dead;
                self.phase = Phase::Stopped;
                Action::Stop(None)
            },
        }
    }

    /// Begins to time a transaction called `name` at `now` on the monotonic
    /// clock.
    pub fn start_transaction(&self, name: &str, now: u64) -> (txn: Transaction)
        ensures
            txn.is_begun(name@, None, now),
    {
        Transaction::new(name, None, now)
    }

    /// Begins to time a transaction called `name`, which answers `request`,
    /// at `now` on the monotonic clock.
    pub fn start_web_transaction(&self, name: &str, request: WebRequest, now: u64) -> (txn:
        Transaction)
        ensures
            txn.is_begun(name@, Some(request), now),
    {
        Transaction::new(name, Some(request), now)
    }

    /// Records the end of a transaction that the application called `name`
    /// and that ran from `start` to `end` on the wall clock. `draw` is a
    /// random number for the event reservoir. Outside of a session nothing
    /// is recorded.
    pub fn on_transaction_end(
        &mut self,
        name: &str,
        web_request: Option<&WebRequest>,
        start: u64,
        end: u64,
        draw: u64,
    )
        ensures
            is_ingested(*old(self), *final(self), name@, web_request, start, end, draw),
    {
        let tracing = self.config.transaction_tracer.enabled;
        match &mut self.state {
            AppState::Running { run, harvest } => {
                record_transaction(harvest, run, tracing, name, web_request, start, end, draw);
            },
            _ => {},
        }
    }
}

} // verus!
