//! The order in which the process starts and stops.
//!
//! The coordinator is a state machine. The program performs each action
//! that `Coordinator::step` hands out (loads the configuration, runs the
//! first-run dialogue, opens the session, serves, stops the listener) and
//! reports what came of it as the next event. The coordinator also says
//! when the stop flag that the listener polls is to be set.

use vstd::prelude::*;
use crate::config::{ConfigError, ConfigFile, ConfigModel};

verus! {

/// How the process ended.
#[derive(Clone, Copy, Debug, PartialEq, Eq, Structural)]
pub enum ExitReason {
    /// The server returned and the listener was joined.
    Completed,
    /// The first-run dialogue wrote no configuration.
    NoConfiguration,
    /// The configuration file is unusable.
    ConfigParseError,
    /// The session manager could not open the session.
    InitializationError,
    /// The configuration file or the terminal could not be read or written.
    IoError,
}

/// The coordinator was handed an event that its phase does not wait for.
#[derive(Clone, Copy, Debug, PartialEq, Eq, Structural)]
pub enum LifecycleError {
    UnexpectedEvent,
}

pub enum PhaseModel {
    Unconfigured,
    Configuring { wizard_ran: bool },
    Initializing(ConfigModel),
    Running(ConfigModel),
    ShuttingDown,
    Stopped(ExitReason),
}

/// The phase of the process, with the configuration once there is one.
#[derive(Clone, Debug, PartialEq, Eq)]
pub enum Phase {
    /// The configuration is being loaded for the first time.
    Unconfigured,
    /// There was no configuration: the first-run dialogue runs, then the
    /// configuration is loaded again.
    Configuring { wizard_ran: bool },
    /// The session is being opened for the configured identity.
    Initializing(ConfigFile),
    /// The listener and the server run on the one session.
    Running(ConfigFile),
    /// The server has returned; the listener is being stopped.
    ShuttingDown,
    /// Nothing runs any more.
    Stopped(ExitReason),
}

impl View for Phase {
    type V = PhaseModel;

    open spec fn view(&self) -> PhaseModel {
        match *self {
            Phase::Unconfigured => PhaseModel::Unconfigured,
            Phase::Configuring { wizard_ran } => PhaseModel::Configuring { wizard_ran },
            Phase::Initializing(config) => PhaseModel::Initializing(config@),
            Phase::Running(config) => PhaseModel::Running(config@),
            Phase::ShuttingDown => PhaseModel::ShuttingDown,
            Phase::Stopped(reason) => PhaseModel::Stopped(reason),
        }
    }
}

pub enum SignalModel {
    Loaded(Result<ConfigModel, ConfigError>),
    WizardFinished,
    IoFailed,
    SessionReady,
    SessionFailed,
    ServerReturned,
    ListenerJoined,
}

/// What the program reports to the coordinator.
#[derive(Debug, PartialEq, Eq)]
pub enum LifecycleEvent {
    /// What loading the configuration file gave.
    Loaded(Result<ConfigFile, ConfigError>),
    /// The first-run dialogue is over, with or without a configuration.
    WizardFinished,
    /// The configuration file or the terminal failed.
    IoFailed,
    /// The session manager opened the session.
    SessionReady,
    /// The session manager could not open the session.
    SessionFailed,
    /// The server's blocking call returned, for whatever reason.
    ServerReturned,
    /// The listener saw the stop flag and returned.
    ListenerJoined,
}

impl View for LifecycleEvent {
    type V = SignalModel;

    open spec fn view(&self) -> SignalModel {
        match *self {
            LifecycleEvent::Loaded(Ok(config)) => SignalModel::Loaded(Ok(config@)),
            LifecycleEvent::Loaded(Err(e)) => SignalModel::Loaded(Err(e)),
            LifecycleEvent::WizardFinished => SignalModel::WizardFinished,
            LifecycleEvent::IoFailed => SignalModel::IoFailed,
            LifecycleEvent::SessionReady => SignalModel::SessionReady,
            LifecycleEvent::SessionFailed => SignalModel::SessionFailed,
            LifecycleEvent::ServerReturned => SignalModel::ServerReturned,
            LifecycleEvent::ListenerJoined => SignalModel::ListenerJoined,
        }
    }
}

pub enum CommandModel {
    LoadConfig,
    RunWizard,
    InitSession { identity: Seq<char> },
    Serve { listen_address: Seq<char>, cert_path: Seq<char>, cert_passphrase: Seq<char> },
    StopListener,
    Exit(ExitReason),
}

/// What the program is to do next.
#[derive(Clone, Debug, PartialEq, Eq)]
pub enum LifecycleAction {
    /// Load the configuration file and report the result.
    LoadConfig,
    /// Run the first-run dialogue and report its end.
    RunWizard,
    /// Open the session for this identity and report whether it opened.
    InitSession { identity: String },
    /// Start the listener on the session with a fresh, unset stop flag, then
    /// serve on the same session until the server returns, and report that.
    Serve { listen_address: String, cert_path: String, cert_passphrase: String },
    /// Set the stop flag, wait for the listener to return, and report that.
    StopListener,
    /// End the process.
    Exit(ExitReason),
}

impl View for LifecycleAction {
    type V = CommandModel;

    open spec fn view(&self) -> CommandModel {
        match *self {
            LifecycleAction::LoadConfig => CommandModel::LoadConfig,
            LifecycleAction::RunWizard => CommandModel::RunWizard,
            LifecycleAction::InitSession { identity } => CommandModel::InitSession {
                identity: identity@,
            },
            LifecycleAction::Serve {
                listen_address,
                cert_path,
                cert_passphrase,
            } => CommandModel::Serve {
                listen_address: listen_address@,
                cert_path: cert_path@,
                cert_passphrase: cert_passphrase@,
            },
            LifecycleAction::StopListener => CommandModel::StopListener,
            LifecycleAction::Exit(reason) => CommandModel::Exit(reason),
        }
    }
}

/// The coordinator, as plain values: its phase and whether it has asked the
/// listener to stop.
pub struct CoordinatorModel {
    pub phase: PhaseModel,
    pub stop_requested: bool,
}

/// The coordinator of the process.
#[derive(Clone, Debug, PartialEq, Eq)]
pub struct Coordinator {
    phase: Phase,
    stop_requested: bool,
}

impl View for Coordinator {
    type V = CoordinatorModel;

    closed spec fn view(&self) -> CoordinatorModel {
        CoordinatorModel { phase: self.phase@, stop_requested: self.stop_requested }
    }
}

/// The coordinator of a process that has just started.
pub open spec fn initial_coordinator() -> CoordinatorModel {
    CoordinatorModel { phase: PhaseModel::Unconfigured, stop_requested: false }
}

/// The coordinator once everything has ended for `reason`.
pub open spec fn stopped(m: CoordinatorModel, reason: ExitReason) -> (
    CoordinatorModel,
    CommandModel,
) {
    (CoordinatorModel { phase: PhaseModel::Stopped(reason), ..m }, CommandModel::Exit(reason))
}

/// The coordinator once the session is to be opened for `config`.
pub open spec fn initializing(m: CoordinatorModel, config: ConfigModel) -> (
    CoordinatorModel,
    CommandModel,
) {
    (
        CoordinatorModel { phase: PhaseModel::Initializing(config), ..m },
        CommandModel::InitSession { identity: config.identity },
    )
}

/// The coordinator's rule: the state and the action that follow an event,
/// or nothing where the phase does not wait for that event.
pub open spec fn lifecycle_next(m: CoordinatorModel, e: SignalModel) -> Option<
    (CoordinatorModel, CommandModel),
> {
    match (m.phase, e) {
        (PhaseModel::Unconfigured, SignalModel::Loaded(Ok(config))) => Some(initializing(m, config)),
        (PhaseModel::Unconfigured, SignalModel::Loaded(Err(ConfigError::Missing))) => Some(
            (
                CoordinatorModel { phase: PhaseModel::Configuring { wizard_ran: false }, ..m },
                CommandModel::RunWizard,
            ),
        ),
        (PhaseModel::Unconfigured, SignalModel::Loaded(Err(ConfigError::Parse))) => Some(
            stopped(m, ExitReason::ConfigParseError),
        ),
        (PhaseModel::Unconfigured, SignalModel::IoFailed) => Some(stopped(m, ExitReason::IoError)),
        (PhaseModel::Configuring { wizard_ran: false }, SignalModel::WizardFinished) => Some(
            (
                CoordinatorModel { phase: PhaseModel::Configuring { wizard_ran: true }, ..m },
                CommandModel::LoadConfig,
            ),
        ),
        (PhaseModel::Configuring { wizard_ran: true }, SignalModel::Loaded(Ok(config))) => Some(
            initializing(m, config),
        ),
        (
            PhaseModel::Configuring { wizard_ran: true },
            SignalModel::Loaded(Err(ConfigError::Missing)),
        ) => Some(stopped(m, ExitReason::NoConfiguration)),
        (
            PhaseModel::Configuring { wizard_ran: true },
            SignalModel::Loaded(Err(ConfigError::Parse)),
        ) => Some(stopped(m, ExitReason::ConfigParseError)),
        (PhaseModel::Configuring { wizard_ran: _ }, SignalModel::IoFailed) => Some(
            stopped(m, ExitReason::IoError),
        ),
        (PhaseModel::Initializing(config), SignalModel::SessionReady) => Some(
            (
                CoordinatorModel { phase: PhaseModel::Running(config), ..m },
                CommandModel::Serve {
                    listen_address: config.listen_address,
                    cert_path: config.cert_path,
                    cert_passphrase: config.cert_passphrase,
                },
            ),
        ),
        (PhaseModel::Initializing(_), SignalModel::SessionFailed) => Some(
            stopped(m, ExitReason::InitializationError),
        ),
        (PhaseModel::Running(_), SignalModel::ServerReturned) => Some(
            (
                CoordinatorModel { phase: PhaseModel::ShuttingDown, stop_requested: true },
                CommandModel::StopListener,
            ),
        ),
        (PhaseModel::ShuttingDown, SignalModel::ListenerJoined) => Some(
            stopped(m, ExitReason::Completed),
        ),
        _ => None,
    }
}

/// Whether `taken` is what the rule gives for `m` and `e`: the state and
/// action that follow, or the state unchanged and the event refused.
pub open spec fn follows(
    m: CoordinatorModel,
    e: SignalModel,
    taken: (Coordinator, Result<LifecycleAction, LifecycleError>),
) -> bool {
    match lifecycle_next(m, e) {
        Some((n, a)) => taken.0@ == n && taken.1 is Ok && taken.1->Ok_0@ == a,
        None => taken.0@ == m && taken.1 == Err::<LifecycleAction, LifecycleError>(
            LifecycleError::UnexpectedEvent,
        ),
    }
}

impl Coordinator {
    /// The coordinator of a process that has just started, and its first
    /// action.
    pub fn start() -> (started: (Coordinator, LifecycleAction))
        ensures
            started.0@ == initial_coordinator(),
            started.1@ == CommandModel::LoadConfig,
    {
        (Coordinator { phase: Phase::Unconfigured, stop_requested: false }, LifecycleAction::LoadConfig)
    }

    /// Whether the stop flag is to be set: the listener may see it set from
    /// the moment this returns true, and not before.
    pub fn stop_requested(&self) -> (requested: bool)
        ensures
            requested == self@.stop_requested,
    {
        self.stop_requested
    }

    /// The reason for which the process ended, once it has.
    pub fn exit_reason(&self) -> (reason: Option<ExitReason>)
        ensures
            reason == match self@.phase {
                PhaseModel::Stopped(r) => Some(r),
                _ => None,
            },
    {
        match &self.phase {
            Phase::Stopped(r) => Some(*r),
            _ => None,
        }
    }

    fn stop(self, reason: ExitReason) -> (taken: (
        Coordinator,
        Result<LifecycleAction, LifecycleError>,
    ))
        ensures
            taken.0@ == stopped(self@, reason).0,
            taken.1 is Ok,
            taken.1->Ok_0@ == stopped(self@, reason).1,
    {
        (
            Coordinator { phase: Phase::Stopped(reason), stop_requested: self.stop_requested },
            Ok(LifecycleAction::Exit(reason)),
        )
    }

    fn initialize(self, config: ConfigFile) -> (taken: (
        Coordinator,
        Result<LifecycleAction, LifecycleError>,
    ))
        ensures
            taken.0@ == initializing(self@, config@).0,
            taken.1 is Ok,
            taken.1->Ok_0@ == initializing(self@, config@).1,
    {
        let identity = config.identity().to_owned();
        (
            Coordinator { phase: Phase::Initializing(config), stop_requested: self.stop_requested },
            Ok(LifecycleAction::InitSession { identity }),
        )
    }

    fn on_load(self, loaded: Result<ConfigFile, ConfigError>) -> (taken: (
        Coordinator,
        Result<LifecycleAction, LifecycleError>,
    ))
        ensures
            follows(self@, LifecycleEvent::Loaded(loaded)@, taken),
    {
        let first = match &self.phase {
            Phase::Unconfigured => true,
            Phase::Configuring { wizard_ran: true } => false,
            _ => { return (self, Err(LifecycleError::UnexpectedEvent)); },
        };
        match loaded {
            Ok(config) => self.initialize(config),
            Err(ConfigError::Parse) => self.stop(ExitReason::ConfigParseError),
            Err(ConfigError::Missing) => if first {
                (
                    Coordinator {
                        phase: Phase::Configuring { wizard_ran: false },
                        stop_requested: self.stop_requested,
                    },
                    Ok(LifecycleAction::RunWizard),
                )
            } else {
                self.stop(ExitReason::NoConfiguration)
            },
        }
    }

    /// Takes one event and hands out the action that follows it. An event
    /// that the phase does not wait for is refused and changes nothing.
    pub fn step(self, event: LifecycleEvent) -> (taken: (
        Coordinator,
        Result<LifecycleAction, LifecycleError>,
    ))
        ensures
            follows(self@, event@, taken),
    {
        match event {
            LifecycleEvent::Loaded(loaded) => self.on_load(loaded),
            LifecycleEvent::WizardFinished => match self.phase {
                Phase::Configuring { wizard_ran: false } => (
                    Coordinator {
                        phase: Phase::Configuring { wizard_ran: true },
                        stop_requested: self.stop_requested,
                    },
                    Ok(LifecycleAction::LoadConfig),
                ),
                _ => (self, Err(LifecycleError::UnexpectedEvent)),
            },
            LifecycleEvent::IoFailed => match self.phase {
                Phase::Unconfigured => self.stop(ExitReason::IoError),
                Phase::Configuring { wizard_ran: _ } => self.stop(ExitReason::IoError),
                _ => (self, Err(LifecycleError::UnexpectedEvent)),
            },
            LifecycleEvent::SessionReady => match self.phase {
                Phase::Initializing(config) => {
                    let listen_address = config.listen_address().to_owned();
                    let cert_path = config.cert_path().to_owned();
                    let cert_passphrase = config.cert_passphrase().to_owned();
                    (
                        Coordinator {
                            phase: Phase::Running(config),
                            stop_requested: self.stop_requested,
                        },
                        Ok(LifecycleAction::Serve { listen_address, cert_path, cert_passphrase }),
                    )
                },
                phase => (
                    Coordinator { phase, stop_requested: self.stop_requested },
                    Err(LifecycleError::UnexpectedEvent),
                ),
            },
            LifecycleEvent::SessionFailed => match self.phase {
                Phase::Initializing(_) => self.stop(ExitReason::InitializationError),
                _ => (self, Err(LifecycleError::UnexpectedEvent)),
            },
            LifecycleEvent::ServerReturned => match self.phase {
                Phase::Running(_) => (
                    Coordinator { phase: Phase::ShuttingDown, stop_requested: true },
                    Ok(LifecycleAction::StopListener),
                ),
                _ => (self, Err(LifecycleError::UnexpectedEvent)),
            },
            LifecycleEvent::ListenerJoined => match self.phase {
                Phase::ShuttingDown => self.stop(ExitReason::Completed),
                _ => (self, Err(LifecycleError::UnexpectedEvent)),
            },
        }
    }
}

/// The state after one event, taken or refused.
pub open spec fn succeeding(m: CoordinatorModel, e: SignalModel) -> CoordinatorModel {
    match lifecycle_next(m, e) {
        Some((n, _)) => n,
        None => m,
    }
}

/// The action that one event brings, where the event is taken.
pub open spec fn handed_out(m: CoordinatorModel, e: SignalModel) -> Option<CommandModel> {
    match lifecycle_next(m, e) {
        Some((_, a)) => Some(a),
        None => None,
    }
}

/// The state after a run of events, each taken or refused in its turn.
pub open spec fn state_after(m: CoordinatorModel, events: Seq<SignalModel>) -> CoordinatorModel
    decreases events.len(),
{
    if events.len() == 0 {
        m
    } else {
        match lifecycle_next(m, events[0]) {
            Some((n, _)) => state_after(n, events.drop_first()),
            None => state_after(m, events.drop_first()),
        }
    }
}

/// The actions handed out along a run of events, in their order.
pub open spec fn actions_along(m: CoordinatorModel, events: Seq<SignalModel>) -> Seq<CommandModel>
    decreases events.len(),
{
    if events.len() == 0 {
        Seq::empty()
    } else {
        match lifecycle_next(m, events[0]) {
            Some((n, a)) => seq![a] + actions_along(n, events.drop_first()),
            None => actions_along(m, events.drop_first()),
        }
    }
}

/// Whether the listener and the server may touch the session: it has been
/// opened, and the process has not ended.
pub open spec fn session_in_use(m: CoordinatorModel) -> bool {
    m.phase is Running || m.phase is ShuttingDown
}

/// A stopped coordinator takes no event: whatever is reported to it, it
/// hands out no further action and stays as it is.
pub proof fn stopped_is_final(m: CoordinatorModel, events: Seq<SignalModel>)
    requires
        m.phase is Stopped,
    ensures
        actions_along(m, events) == Seq::<CommandModel>::empty(),
        state_after(m, events) == m,
    decreases events.len(),
{
    if events.len() > 0 {
        stopped_is_final(m, events.drop_first());
    }
}

/// When the session cannot be opened, the process ends for that reason and
/// does nothing more: neither the listener nor the server is ever started,
/// whatever is reported afterwards.
pub proof fn failed_session_starts_nothing(
    config: ConfigModel,
    stop_requested: bool,
    later: Seq<SignalModel>,
)
    ensures
        ({
            let m = CoordinatorModel { phase: PhaseModel::Initializing(config), stop_requested };
            actions_along(m, seq![SignalModel::SessionFailed] + later) == seq![
                CommandModel::Exit(ExitReason::InitializationError),
            ]
        }),
{
    let m = CoordinatorModel { phase: PhaseModel::Initializing(config), stop_requested };
    let events = seq![SignalModel::SessionFailed] + later;
    assert(events[0] == SignalModel::SessionFailed);
    assert(events.drop_first() =~= later);
    stopped_is_final(stopped(m, ExitReason::InitializationError).0, later);
}

/// When the first-run dialogue has ended and there is still no
/// configuration file, the process ends with `NoConfiguration` and does
/// nothing more: no session is opened and nothing is started, whatever is
/// reported afterwards.
pub proof fn missing_configuration_starts_nothing(stop_requested: bool, later: Seq<SignalModel>)
    ensures
        ({
            let m = CoordinatorModel {
                phase: PhaseModel::Configuring { wizard_ran: true },
                stop_requested,
            };
            actions_along(m, seq![SignalModel::Loaded(Err(ConfigError::Missing))] + later) == seq![
                CommandModel::Exit(ExitReason::NoConfiguration),
            ]
        }),
{
    let m = CoordinatorModel { phase: PhaseModel::Configuring { wizard_ran: true }, stop_requested };
    let events = seq![SignalModel::Loaded(Err(ConfigError::Missing))] + later;
    assert(events[0] == SignalModel::Loaded(Err(ConfigError::Missing)));
    assert(events.drop_first() =~= later);
    stopped_is_final(stopped(m, ExitReason::NoConfiguration).0, later);
}

/// The stop flag changes in one step only: from unset to set, when the
/// server's return is reported to a running coordinator. No step unsets it.
pub proof fn stop_is_set_once(m: CoordinatorModel, e: SignalModel)
    requires
        lifecycle_next(m, e) is Some,
    ensures
        m.stop_requested ==> succeeding(m, e).stop_requested,
        !m.stop_requested && succeeding(m, e).stop_requested ==> m.phase is Running && e
            is ServerReturned,
        handed_out(m, e)->0 is StopListener <==> m.phase is Running && e is ServerReturned,
{
}

/// In every run, the stop flag is set only after the server's return has
/// been reported: while no such report is among the events, a flag that was
/// unset stays unset.
pub proof fn stop_follows_server_return(m: CoordinatorModel, events: Seq<SignalModel>)
    requires
        !m.stop_requested,
        state_after(m, events).stop_requested,
    ensures
        events.contains(SignalModel::ServerReturned),
    decreases events.len(),
{
    if events.len() > 0 {
        let rest = events.drop_first();
        let n = match lifecycle_next(m, events[0]) {
            Some((n, _)) => n,
            None => m,
        };
        if n.stop_requested {
            assert(events[0] == SignalModel::ServerReturned);
        } else {
            stop_follows_server_return(n, rest);
            let i = choose|i: int| 0 <= i < rest.len() && rest[i] == SignalModel::ServerReturned;
            assert(events[i + 1] == SignalModel::ServerReturned);
        }
    }
}

/// The listener and the server are started by one step only: when the
/// session is reported open to an initializing coordinator, with the listen
/// address and certificate of the configuration whose identity the session
/// was opened for.
pub proof fn serving_needs_open_session(m: CoordinatorModel, e: SignalModel)
    requires
        lifecycle_next(m, e) is Some,
        handed_out(m, e)->0 is Serve,
    ensures
        e is SessionReady,
        m.phase is Initializing,
        succeeding(m, e).phase == PhaseModel::Running(m.phase->Initializing_0),
        handed_out(m, e)->0 == (CommandModel::Serve {
            listen_address: m.phase->Initializing_0.listen_address,
            cert_path: m.phase->Initializing_0.cert_path,
            cert_passphrase: m.phase->Initializing_0.cert_passphrase,
        }),
{
}

/// The session is in use only between the step that starts the listener
/// and the server and the step that ends the process: a step brings it into
/// use only by `Serve`, and never while the coordinator is still loading,
/// configuring or stopped.
pub proof fn session_used_only_once_open(m: CoordinatorModel, e: SignalModel)
    requires
        lifecycle_next(m, e) is Some,
        !session_in_use(m),
        session_in_use(succeeding(m, e)),
    ensures
        m.phase is Initializing,
        e is SessionReady,
        handed_out(m, e)->0 is Serve,
{
}

/// A process that finds its configuration and whose session opens goes
/// through its phases in order: it opens the session for the configured
/// identity, serves, asks the listener to stop once the server has
/// returned, and ends once the listener is joined.
pub proof fn ordinary_run(config: ConfigModel)
    ensures
        actions_along(
            initial_coordinator(),
            seq![
                SignalModel::Loaded(Ok(config)),
                SignalModel::SessionReady,
                SignalModel::ServerReturned,
                SignalModel::ListenerJoined,
            ],
        ) == seq![
            CommandModel::InitSession { identity: config.identity },
            CommandModel::Serve {
                listen_address: config.listen_address,
                cert_path: config.cert_path,
                cert_passphrase: config.cert_passphrase,
            },
            CommandModel::StopListener,
            CommandModel::Exit(ExitReason::Completed),
        ],
{
    let e0 = SignalModel::Loaded(Ok(config));
    let events = seq![
        e0,
        SignalModel::SessionReady,
        SignalModel::ServerReturned,
        SignalModel::ListenerJoined,
    ];
    let m0 = initial_coordinator();
    let m1 = succeeding(m0, events[0]);
    let r1 = events.drop_first();
    let m2 = succeeding(m1, r1[0]);
    let r2 = r1.drop_first();
    let m3 = succeeding(m2, r2[0]);
    let r3 = r2.drop_first();
    let m4 = succeeding(m3, r3[0]);
    let r4 = r3.drop_first();
    assert(r4.len() == 0);
    assert(actions_along(m4, r4) =~= Seq::<CommandModel>::empty());
    assert(actions_along(m3, r3) =~= seq![CommandModel::Exit(ExitReason::Completed)]);
    assert(actions_along(m2, r2) =~= seq![
        CommandModel::StopListener,
        CommandModel::Exit(ExitReason::Completed),
    ]);
    assert(actions_along(m1, r1).len() == 3);
    assert(actions_along(m0, events).len() == 4);
}

/// How far a process has come: each phase counts more than those before it.
pub open spec fn progress(phase: PhaseModel) -> int {
    match phase {
        PhaseModel::Unconfigured => 0,
        PhaseModel::Configuring { wizard_ran: false } => 1,
        PhaseModel::Configuring { wizard_ran: true } => 2,
        PhaseModel::Initializing(_) => 3,
        PhaseModel::Running(_) => 4,
        PhaseModel::ShuttingDown => 5,
        PhaseModel::Stopped(_) => 6,
    }
}

/// Every step that is taken moves the process forward: no phase is entered
/// twice, so nothing is retried, and a configuration exists before the
/// session is opened, which is open before anything runs on it.
pub proof fn phases_advance(m: CoordinatorModel, e: SignalModel)
    requires
        lifecycle_next(m, e) is Some,
    ensures
        progress(m.phase) < progress(succeeding(m, e).phase),
{
}

/// The session is asked for by the step that enters `Initializing`, for the
/// identity of the configuration just loaded, and by no other step; with
/// `phases_advance`, it is opened at most once.
pub proof fn session_opened_for_loaded_identity(m: CoordinatorModel, e: SignalModel)
    requires
        lifecycle_next(m, e) is Some,
    ensures
        handed_out(m, e)->0 is InitSession <==> succeeding(m, e).phase is Initializing,
        handed_out(m, e)->0 is InitSession ==> e == SignalModel::Loaded(
            Ok(succeeding(m, e).phase->Initializing_0),
        ) && handed_out(m, e)->0->identity == succeeding(m, e).phase->Initializing_0.identity,
{
}

/// Whether the stop flag agrees with the phase: it is set exactly from the
/// moment the server has returned, through the shutdown and after a
/// completed run.
pub open spec fn flag_agrees(m: CoordinatorModel) -> bool {
    m.stop_requested <==> (m.phase is ShuttingDown || m.phase == PhaseModel::Stopped(
        ExitReason::Completed,
    ))
}

/// In every run of a process, whatever is reported and in whatever order,
/// the stop flag agrees with the phase: it is unset while the process
/// loads, configures, initializes and runs, set as soon as the server's
/// return is taken, and never set in a process that ended for any other
/// reason.
pub proof fn stop_flag_tracks_shutdown(m: CoordinatorModel, events: Seq<SignalModel>)
    requires
        flag_agrees(m),
    ensures
        flag_agrees(state_after(m, events)),
        flag_agrees(initial_coordinator()),
    decreases events.len(),
{
    if events.len() > 0 {
        stop_flag_tracks_shutdown(succeeding(m, events[0]), events.drop_first());
    }
}

} // verus!
