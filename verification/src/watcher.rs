use crate::device::{emitted, polled, retained, Cycle, DeviceProvider, NeighborReply};
use crate::error::{AuthError, PollError, TransportError};
use crate::events::{event_views, Event, EventModel};
use crate::presence::{Mac, Snapshot};
use crate::session::{
    needs_login, reported, GuardAction, SessionGuard, SessionState, StatusReply,
};
use vstd::prelude::*;

verus! {

/// The time between two polls that suits a logger of presence, in
/// milliseconds.
pub const LOGGER_INTERVAL_MILLIS: u64 = 1000;

/// The time between two polls that suits a bot that sends messages, in
/// milliseconds.
pub const BOT_INTERVAL_MILLIS: u64 = 5000;

/// Where a watcher stands in its cycle, by what it waits for.
#[derive(Debug, Clone, Copy, PartialEq, Eq, Structural)]
pub enum Phase {
    /// Nothing was done yet; the first login comes next.
    Starting,
    /// The cycle has ended and the watcher sleeps.
    Idle,
    /// The status of the session was asked for.
    CheckingSession,
    /// A login was called for.
    Authenticating,
    /// The neighbour table was asked for.
    Fetching,
}

/// What the outside reports to the watcher: the end of a sleep, or the
/// outcome of the request that the last command called for.
#[derive(Debug)]
pub enum Reply {
    /// The polling interval has passed (or the watcher is to start).
    Woke,
    /// The outcome of a status query.
    Status(StatusReply),
    /// The outcome of a login.
    Login(Result<(), TransportError>),
    /// The outcome of a request for the neighbour table.
    Neighbors(NeighborReply),
}

/// What the watcher asks of the outside next.
#[derive(Debug)]
pub enum Command {
    /// Ask the router whether the session is live; report `Reply::Status`.
    CheckSession,
    /// Log in with these credentials; report `Reply::Login`.
    Reauthenticate { username: String, password: String },
    /// Ask for the neighbour table; report `Reply::Neighbors`.
    FetchSnapshot,
    /// Hand `events` to the consumers in order, report `failure` to the
    /// operator if there is one, sleep, then report `Reply::Woke`.
    Deliver { events: Vec<Event>, failure: Option<PollError>, sleep_millis: u64 },
    /// A login failed: the watcher has ended.
    Stop(AuthError),
    /// The watcher was cancelled: there is nothing more to do.
    Finished,
}

/// The mathematical model of a [`Command`].
pub enum CommandModel {
    CheckSession,
    Reauthenticate { username: Seq<char>, password: Seq<char> },
    FetchSnapshot,
    Deliver { events: Seq<EventModel>, failure: Option<PollError>, sleep_millis: u64 },
    Stop(AuthError),
    Finished,
}

impl View for Command {
    type V = CommandModel;

    open spec fn view(&self) -> CommandModel {
        match *self {
            Command::CheckSession => CommandModel::CheckSession,
            Command::Reauthenticate { username, password } => CommandModel::Reauthenticate {
                username: username@,
                password: password@,
            },
            Command::FetchSnapshot => CommandModel::FetchSnapshot,
            Command::Deliver { events, failure, sleep_millis } => CommandModel::Deliver {
                events: event_views(events@),
                failure,
                sleep_millis,
            },
            Command::Stop(failure) => CommandModel::Stop(failure),
            Command::Finished => CommandModel::Finished,
        }
    }
}

/// The mathematical model of a [`PresenceWatcher`].
pub struct WatcherModel {
    pub phase: Phase,
    pub session: SessionState,
    pub known: Seq<Mac>,
    pub username: Seq<char>,
    pub password: Seq<char>,
    pub interval_millis: u64,
    pub cancelled: bool,
}

/// The failure that a poll outcome carries, if it is one.
pub open spec fn failure_of(outcome: Result<Seq<Mac>, PollError>) -> Option<PollError> {
    match outcome {
        Ok(_) => None,
        Err(failure) => Some(failure),
    }
}

/// The command that calls for a login with the watcher's credentials.
pub open spec fn login_command(watcher: WatcherModel) -> CommandModel {
    CommandModel::Reauthenticate { username: watcher.username, password: watcher.password }
}

/// One step of the watcher: the state it moves to and the command it gives.
///
/// A watcher that was cancelled stays as it is and answers `Finished`; this
/// is looked at first, at every step. One whose login has failed stays as it
/// is and answers `Stop`. Otherwise the cycle runs: status query, login where the session calls for
/// one, request for the neighbour table, delivery and sleep. The first cycle
/// begins with the login and has no status query. A watcher that waits for
/// the outcome of a request passes over any other reply and gives the
/// pending command again; one that waits for nothing (at the start, or
/// asleep) takes any reply as the call to go on.
pub open spec fn step(watcher: WatcherModel, reply: Reply) -> (WatcherModel, CommandModel) {
    if watcher.cancelled {
        (watcher, CommandModel::Finished)
    } else if let SessionState::Failed(failure) = watcher.session {
        (watcher, CommandModel::Stop(failure))
    } else {
        match watcher.phase {
            Phase::Starting => (
                WatcherModel {
                    phase: Phase::Authenticating,
                    session: SessionState::Authenticating,
                    ..watcher
                },
                login_command(watcher),
            ),
            Phase::Idle => (
                WatcherModel { phase: Phase::CheckingSession, ..watcher },
                CommandModel::CheckSession,
            ),
            Phase::CheckingSession => match reply {
                Reply::Status(status) => if needs_login(reported(status)) {
                    (
                        WatcherModel {
                            phase: Phase::Authenticating,
                            session: SessionState::Authenticating,
                            ..watcher
                        },
                        login_command(watcher),
                    )
                } else {
                    (
                        WatcherModel {
                            phase: Phase::Fetching,
                            session: reported(status),
                            ..watcher
                        },
                        CommandModel::FetchSnapshot,
                    )
                },
                _ => (watcher, CommandModel::CheckSession),
            },
            Phase::Authenticating => match reply {
                Reply::Login(Ok(_)) => (
                    WatcherModel {
                        phase: Phase::Fetching,
                        session: SessionState::Active,
                        ..watcher
                    },
                    CommandModel::FetchSnapshot,
                ),
                Reply::Login(Err(cause)) => (
                    WatcherModel {
                        session: SessionState::Failed(AuthError { cause }),
                        ..watcher
                    },
                    CommandModel::Stop(AuthError { cause }),
                ),
                _ => (
                    WatcherModel { session: SessionState::Authenticating, ..watcher },
                    login_command(watcher),
                ),
            },
            Phase::Fetching => match reply {
                Reply::Neighbors(neighbors) => (
                    WatcherModel {
                        phase: Phase::Idle,
                        known: retained(watcher.known, polled(neighbors)),
                        ..watcher
                    },
                    CommandModel::Deliver {
                        events: emitted(watcher.known, polled(neighbors)),
                        failure: failure_of(polled(neighbors)),
                        sleep_millis: watcher.interval_millis,
                    },
                ),
                _ => (watcher, CommandModel::FetchSnapshot),
            },
        }
    }
}

/// The polling loop as a machine: it owns the retained snapshot, the session
/// guard and the interval, and is driven by `advance`. The caller performs
/// each command and reports its outcome.
pub struct PresenceWatcher {
    guard: SessionGuard,
    devices: DeviceProvider,
    phase: Phase,
    interval_millis: u64,
    cancelled: bool,
}

impl PresenceWatcher {
    /// The model of the watcher.
    pub closed spec fn model(&self) -> WatcherModel {
        WatcherModel {
            phase: self.phase,
            session: self.guard.state(),
            known: self.devices.known(),
            username: self.guard.username(),
            password: self.guard.password(),
            interval_millis: self.interval_millis,
            cancelled: self.cancelled,
        }
    }

    /// A watcher that has seen no device and has no session yet.
    pub fn new(username: String, password: String, interval_millis: u64) -> (watcher: Self)
        ensures
            watcher.model() == (WatcherModel {
                phase: Phase::Starting,
                session: SessionState::Unknown(None),
                known: Seq::<Mac>::empty(),
                username: username@,
                password: password@,
                interval_millis,
                cancelled: false,
            }),
    {
        PresenceWatcher {
            guard: SessionGuard::new(username, password),
            devices: DeviceProvider::new(),
            phase: Phase::Starting,
            interval_millis,
            cancelled: false,
        }
    }

    /// Where the watcher stands in its cycle.
    pub fn phase(&self) -> (phase: Phase)
        ensures
            phase == self.model().phase,
    {
        self.phase
    }

    /// The time to sleep between two polls, in milliseconds.
    pub fn interval_millis(&self) -> (millis: u64)
        ensures
            millis == self.model().interval_millis,
    {
        self.interval_millis
    }

    /// Whether a failed login has ended the watcher.
    pub fn is_stopped(&self) -> (stopped: bool)
        ensures
            stopped == (self.model().session is Failed),
    {
        self.guard.failure().is_some()
    }

    /// Whether the watcher was cancelled.
    pub fn is_cancelled(&self) -> (cancelled: bool)
        ensures
            cancelled == self.model().cancelled,
    {
        self.cancelled
    }

    /// Cancels the watcher: from the next step on it answers `Finished` and
    /// changes no more. What it retains stays as it is.
    pub fn cancel(&mut self)
        ensures
            final(self).model() == (WatcherModel { cancelled: true, ..old(self).model() }),
    {
        self.cancelled = true;
    }

    /// The snapshot of the last successful poll.
    pub fn current_devices(&self) -> (snapshot: &Snapshot)
        ensures
            snapshot.ids() == self.model().known,
    {
        self.devices.current_devices()
    }

    /// Takes in what the outside reports and gives the next command.
    pub fn advance(&mut self, reply: Reply) -> (command: Command)
        ensures
            final(self).model() == step(old(self).model(), reply).0,
            command@ == step(old(self).model(), reply).1,
    {
        if self.cancelled {
            return Command::Finished;
        }
        if let Some(failure) = self.guard.failure() {
            return Command::Stop(failure);
        }
        match self.phase {
            Phase::Starting => match self.guard.login() {
                Ok(GuardAction::Reauthenticate { username, password }) => {
                    self.phase = Phase::Authenticating;
                    Command::Reauthenticate { username, password }
                },
                Ok(GuardAction::Proceed) => Command::FetchSnapshot,
                Err(failure) => Command::Stop(failure),
            },
            Phase::Idle => {
                self.phase = Phase::CheckingSession;
                Command::CheckSession
            },
            Phase::CheckingSession => match reply {
                Reply::Status(status) => match self.guard.ensure_active(status) {
                    Ok(GuardAction::Reauthenticate { username, password }) => {
                        self.phase = Phase::Authenticating;
                        Command::Reauthenticate { username, password }
                    },
                    Ok(GuardAction::Proceed) => {
                        self.phase = Phase::Fetching;
                        Command::FetchSnapshot
                    },
                    Err(failure) => Command::Stop(failure),
                },
                _ => Command::CheckSession,
            },
            Phase::Authenticating => match reply {
                Reply::Login(outcome) => match self.guard.reauthenticated(outcome) {
                    Ok(_) => {
                        self.phase = Phase::Fetching;
                        Command::FetchSnapshot
                    },
                    Err(failure) => Command::Stop(failure),
                },
                _ => match self.guard.login() {
                    Ok(GuardAction::Reauthenticate { username, password }) => {
                        Command::Reauthenticate { username, password }
                    },
                    Ok(GuardAction::Proceed) => Command::FetchSnapshot,
                    Err(failure) => Command::Stop(failure),
                },
            },
            Phase::Fetching => match reply {
                Reply::Neighbors(neighbors) => {
                    let Cycle { events, failure } = self.devices.hoist(neighbors);
                    self.phase = Phase::Idle;
                    Command::Deliver { events, failure, sleep_millis: self.interval_millis }
                },
                _ => Command::FetchSnapshot,
            },
        }
    }
}

/// A request for the neighbour table that fails in transport skips the
/// cycle: the retained snapshot stays as it was, no event is delivered, and
/// the watcher sleeps for its interval.
pub proof fn failed_fetch_skips_the_cycle(watcher: WatcherModel, failure: TransportError)
    requires
        !watcher.cancelled,
        watcher.phase == Phase::Fetching,
        !(watcher.session is Failed),
    ensures
        step(watcher, Reply::Neighbors(Err(failure))).0 == (WatcherModel {
            phase: Phase::Idle,
            ..watcher
        }),
        step(watcher, Reply::Neighbors(Err(failure))).1 == (CommandModel::Deliver {
            events: Seq::<EventModel>::empty(),
            failure: Some(PollError::Transport(failure)),
            sleep_millis: watcher.interval_millis,
        }),
{
}

/// A session reported as expired is renewed by one login before the next
/// request for the neighbour table: the status reply is answered by the
/// login command, and the login that goes through by the fetch command,
/// with the retained snapshot untouched.
pub proof fn expired_session_logs_in_once(watcher: WatcherModel, status: StatusReply)
    requires
        !watcher.cancelled,
        watcher.phase == Phase::CheckingSession,
        !(watcher.session is Failed),
        reported(status) is Inactive,
    ensures
        step(watcher, Reply::Status(status)).1 == login_command(watcher),
        ({
            let asked = step(watcher, Reply::Status(status)).0;
            let renewed = step(asked, Reply::Login(Ok(())));
            &&& asked.phase == Phase::Authenticating
            &&& renewed.1 == CommandModel::FetchSnapshot
            &&& renewed.0.phase == Phase::Fetching
            &&& renewed.0.session is Active
            &&& renewed.0.known == watcher.known
        }),
{
}

/// A login that fails ends the watcher: that step and every later one
/// answer `Stop` with the failure, whatever is reported.
pub proof fn failed_login_stops_the_watcher(
    watcher: WatcherModel,
    cause: TransportError,
    later: Reply,
)
    requires
        !watcher.cancelled,
        watcher.phase == Phase::Authenticating,
        !(watcher.session is Failed),
    ensures
        step(watcher, Reply::Login(Err(cause))).1 == CommandModel::Stop(AuthError { cause }),
        step(step(watcher, Reply::Login(Err(cause))).0, later) == (
            step(watcher, Reply::Login(Err(cause))).0,
            CommandModel::Stop(AuthError { cause }),
        ),
{
}

/// A cancelled watcher does nothing more: every step answers `Finished`
/// and leaves the watcher, with the snapshot it retains, as it is.
pub proof fn cancelled_watcher_is_finished(watcher: WatcherModel, reply: Reply)
    requires
        watcher.cancelled,
    ensures
        step(watcher, reply) == (watcher, CommandModel::Finished),
{
}

} // verus!
