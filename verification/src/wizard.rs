//! The first-run dialogue that gathers a configuration.
//!
//! The dialogue is a state machine. The caller performs each action that
//! `Wizard::step` hands out (asks a question and reads a line, adds an
//! account, waits, lists the accounts) and reports what came of it as the
//! next event.

use vstd::prelude::*;
use crate::config::{ConfigFile, ConfigModel};
use crate::text::{answer, answer_or, choice_of, clean, clean_string, is_yes, means_yes, parse_choice};

verus! {

/// An account of the daemon, as plain text.
pub struct AccountModel {
    pub id: Seq<char>,
    pub label: Seq<char>,
}

/// An account of the daemon: its identifier and the label shown for it.
#[derive(Clone, Debug, PartialEq, Eq)]
pub struct AccountDescriptor {
    pub id: String,
    pub label: String,
}

impl View for AccountDescriptor {
    type V = AccountModel;

    open spec fn view(&self) -> AccountModel {
        AccountModel { id: self.id@, label: self.label@ }
    }
}

/// A list of accounts, each as plain text, in the order of the list.
pub open spec fn accounts_of(list: Seq<AccountDescriptor>) -> Seq<AccountModel> {
    list.map_values(|a: AccountDescriptor| a@)
}

/// Where the dialogue stands: the answer or the report it waits for.
#[derive(Clone, Copy, Debug, PartialEq, Eq, Structural)]
pub enum Stage {
    ListenAddress,
    CertPath,
    CertPassphrase,
    CreateAccount,
    ImportArchive,
    MainInfo,
    Secret,
    AddingAccount,
    Settling,
    Listing,
    Choice,
    Finished,
}

/// A question put to the operator.
#[derive(Clone, Copy, Debug, PartialEq, Eq, Structural)]
pub enum Question {
    ListenAddress,
    CertPath,
    CertPassphrase,
    CreateAccount,
    ImportArchive,
    ArchivePath,
    Alias,
    Secret,
    Choice,
}

/// The dialogue was handed an event that its stage does not wait for.
#[derive(Clone, Copy, Debug, PartialEq, Eq, Structural)]
pub enum WizardError {
    UnexpectedEvent,
}

pub enum EventModel {
    Line(Seq<char>),
    AccountAdded,
    DelayElapsed,
    Accounts(Seq<AccountModel>),
}

/// What the caller reports to the dialogue.
#[derive(Clone, Debug, PartialEq, Eq)]
pub enum WizardEvent {
    /// A line as it was read from the terminal, with its ending.
    Line(String),
    /// The session manager was asked to add the account.
    AccountAdded,
    /// The delay has passed.
    DelayElapsed,
    /// The accounts that the session manager lists, in its order.
    Accounts(Vec<AccountDescriptor>),
}

impl View for WizardEvent {
    type V = EventModel;

    open spec fn view(&self) -> EventModel {
        match *self {
            WizardEvent::Line(line) => EventModel::Line(line@),
            WizardEvent::AccountAdded => EventModel::AccountAdded,
            WizardEvent::DelayElapsed => EventModel::DelayElapsed,
            WizardEvent::Accounts(list) => EventModel::Accounts(accounts_of(list@)),
        }
    }
}

pub enum ActionModel {
    Ask(Question),
    AddAccount { main_info: Seq<char>, secret: Seq<char>, from_archive: bool },
    Wait { millis: u64 },
    ListAccounts,
    Save(ConfigModel),
    Abort,
}

/// What the caller is to do next.
#[derive(Clone, Debug, PartialEq, Eq)]
pub enum WizardAction {
    /// Put the question, read one line and report it.
    Ask(Question),
    /// Have the session manager add an account, then report that.
    AddAccount { main_info: String, secret: String, from_archive: bool },
    /// Wait that long, so that the daemon can register the account.
    Wait { millis: u64 },
    /// Have the session manager list the accounts and report them.
    ListAccounts,
    /// Write this configuration; the dialogue is over.
    Save(ConfigFile),
    /// Write nothing; the dialogue is over.
    Abort,
}

impl View for WizardAction {
    type V = ActionModel;

    open spec fn view(&self) -> ActionModel {
        match *self {
            WizardAction::Ask(question) => ActionModel::Ask(question),
            WizardAction::AddAccount { main_info, secret, from_archive } => ActionModel::AddAccount {
                main_info: main_info@,
                secret: secret@,
                from_archive,
            },
            WizardAction::Wait { millis } => ActionModel::Wait { millis },
            WizardAction::ListAccounts => ActionModel::ListAccounts,
            WizardAction::Save(config) => ActionModel::Save(config@),
            WizardAction::Abort => ActionModel::Abort,
        }
    }
}

/// The state of the dialogue, as plain values.
pub struct WizardModel {
    pub stage: Stage,
    pub listen_address: Seq<char>,
    pub cert_path: Seq<char>,
    pub cert_passphrase: Seq<char>,
    pub from_archive: bool,
    pub main_info: Seq<char>,
    pub accounts: Seq<AccountModel>,
}

/// The dialogue that gathers a configuration.
pub struct Wizard {
    stage: Stage,
    listen_address: String,
    cert_path: String,
    cert_passphrase: String,
    from_archive: bool,
    main_info: String,
    accounts: Vec<AccountDescriptor>,
}

/// The address that the server listens on when none is given.
pub open spec fn default_listen_address() -> Seq<char> {
    "0.0.0.0:1412"@
}

/// How long the daemon is given to register a new account, in milliseconds.
pub const SETTLE_MILLIS: u64 = 3000;

/// The dialogue before its first question is answered.
pub open spec fn initial_model() -> WizardModel {
    WizardModel {
        stage: Stage::ListenAddress,
        listen_address: Seq::empty(),
        cert_path: Seq::empty(),
        cert_passphrase: Seq::empty(),
        from_archive: false,
        main_info: Seq::empty(),
        accounts: Seq::empty(),
    }
}

/// What the dialogue does with a line, by the question that the line
/// answers.
pub open spec fn next_on_line(m: WizardModel, line: Seq<char>) -> Option<(WizardModel, ActionModel)> {
    match m.stage {
        Stage::ListenAddress => Some(
            (
                WizardModel {
                    stage: Stage::CertPath,
                    listen_address: answer(line, default_listen_address()),
                    ..m
                },
                ActionModel::Ask(Question::CertPath),
            ),
        ),
        Stage::CertPath => Some(
            (
                WizardModel { stage: Stage::CertPassphrase, cert_path: clean(line), ..m },
                ActionModel::Ask(Question::CertPassphrase),
            ),
        ),
        Stage::CertPassphrase => Some(
            (
                WizardModel { stage: Stage::CreateAccount, cert_passphrase: clean(line), ..m },
                ActionModel::Ask(Question::CreateAccount),
            ),
        ),
        Stage::CreateAccount => if means_yes(clean(line)) {
            Some(
                (
                    WizardModel { stage: Stage::ImportArchive, ..m },
                    ActionModel::Ask(Question::ImportArchive),
                ),
            )
        } else {
            Some((WizardModel { stage: Stage::Listing, ..m }, ActionModel::ListAccounts))
        },
        Stage::ImportArchive => Some(
            (
                WizardModel { stage: Stage::MainInfo, from_archive: means_yes(clean(line)), ..m },
                ActionModel::Ask(
                    if means_yes(clean(line)) {
                        Question::ArchivePath
                    } else {
                        Question::Alias
                    },
                ),
            ),
        ),
        Stage::MainInfo => Some(
            (
                WizardModel { stage: Stage::Secret, main_info: clean(line), ..m },
                ActionModel::Ask(Question::Secret),
            ),
        ),
        Stage::Secret => Some(
            (
                WizardModel { stage: Stage::AddingAccount, ..m },
                ActionModel::AddAccount {
                    main_info: m.main_info,
                    secret: clean(line),
                    from_archive: m.from_archive,
                },
            ),
        ),
        Stage::Choice => Some(
            (WizardModel { stage: Stage::Finished, ..m }, outcome(m, choice_of(clean(line)))),
        ),
        _ => None,
    }
}

/// How the dialogue ends on a choice: with the configuration of the chosen
/// account and the gathered answers, or, when the choice names no listed
/// account, without one.
pub open spec fn outcome(m: WizardModel, choice: usize) -> ActionModel {
    if choice >= m.accounts.len() {
        ActionModel::Abort
    } else {
        ActionModel::Save(
            ConfigModel {
                identity: m.accounts[choice as int].id,
                listen_address: m.listen_address,
                cert_path: m.cert_path,
                cert_passphrase: m.cert_passphrase,
            },
        )
    }
}

/// The dialogue's rule: the state and the action that follow an event, or
/// nothing where the stage does not wait for that event.
pub open spec fn wizard_next(m: WizardModel, e: EventModel) -> Option<(WizardModel, ActionModel)> {
    match e {
        EventModel::Line(line) => next_on_line(m, line),
        EventModel::AccountAdded => if m.stage == Stage::AddingAccount {
            Some(
                (
                    WizardModel { stage: Stage::Settling, ..m },
                    ActionModel::Wait { millis: SETTLE_MILLIS },
                ),
            )
        } else {
            None
        },
        EventModel::DelayElapsed => if m.stage == Stage::Settling {
            Some((WizardModel { stage: Stage::Listing, ..m }, ActionModel::ListAccounts))
        } else {
            None
        },
        EventModel::Accounts(list) => if m.stage == Stage::Listing {
            Some(
                (
                    WizardModel { stage: Stage::Choice, accounts: list, ..m },
                    ActionModel::Ask(Question::Choice),
                ),
            )
        } else {
            None
        },
    }
}

impl View for Wizard {
    type V = WizardModel;

    closed spec fn view(&self) -> WizardModel {
        WizardModel {
            stage: self.stage,
            listen_address: self.listen_address@,
            cert_path: self.cert_path@,
            cert_passphrase: self.cert_passphrase@,
            from_archive: self.from_archive,
            main_info: self.main_info@,
            accounts: accounts_of(self.accounts@),
        }
    }
}

impl Wizard {
    /// Opens the dialogue and hands out its first question.
    pub fn begin() -> (opened: (Wizard, WizardAction))
        ensures
            opened.0@ == initial_model(),
            opened.1@ == ActionModel::Ask(Question::ListenAddress),
    {
        let wizard = Wizard {
            stage: Stage::ListenAddress,
            listen_address: String::new(),
            cert_path: String::new(),
            cert_passphrase: String::new(),
            from_archive: false,
            main_info: String::new(),
            accounts: Vec::new(),
        };
        proof {
            assert(accounts_of(wizard.accounts@) =~= Seq::<AccountModel>::empty());
        }
        (wizard, WizardAction::Ask(Question::ListenAddress))
    }

    /// Where the dialogue stands.
    pub fn stage(&self) -> (stage: Stage)
        ensures
            stage == self@.stage,
    {
        self.stage
    }

    /// Takes the answer to the pending question.
    fn on_line(&mut self, line: String) -> (next: Result<WizardAction, WizardError>)
        ensures
            match next_on_line(old(self)@, line@) {
                Some((m, a)) => next is Ok && next->Ok_0@ == a && final(self)@ == m,
                None => next == Err::<WizardAction, WizardError>(WizardError::UnexpectedEvent)
                    && final(self)@ == old(self)@,
            },
    {
        match self.stage {
            Stage::ListenAddress => {
                self.listen_address = answer_or(line, "0.0.0.0:1412");
                self.stage = Stage::CertPath;
                Ok(WizardAction::Ask(Question::CertPath))
            },
            Stage::CertPath => {
                self.cert_path = clean_string(line);
                self.stage = Stage::CertPassphrase;
                Ok(WizardAction::Ask(Question::CertPassphrase))
            },
            Stage::CertPassphrase => {
                self.cert_passphrase = clean_string(line);
                self.stage = Stage::CreateAccount;
                Ok(WizardAction::Ask(Question::CreateAccount))
            },
            Stage::CreateAccount => {
                let cleaned = clean_string(line);
                if is_yes(cleaned.as_str()) {
                    self.stage = Stage::ImportArchive;
                    Ok(WizardAction::Ask(Question::ImportArchive))
                } else {
                    self.stage = Stage::Listing;
                    Ok(WizardAction::ListAccounts)
                }
            },
            Stage::ImportArchive => {
                let cleaned = clean_string(line);
                let from_archive = is_yes(cleaned.as_str());
                self.from_archive = from_archive;
                self.stage = Stage::MainInfo;
                if from_archive {
                    Ok(WizardAction::Ask(Question::ArchivePath))
                } else {
                    Ok(WizardAction::Ask(Question::Alias))
                }
            },
            Stage::MainInfo => {
                self.main_info = clean_string(line);
                self.stage = Stage::Secret;
                Ok(WizardAction::Ask(Question::Secret))
            },
            Stage::Secret => {
                let secret = clean_string(line);
                self.stage = Stage::AddingAccount;
                Ok(
                    WizardAction::AddAccount {
                        main_info: self.main_info.clone(),
                        secret,
                        from_archive: self.from_archive,
                    },
                )
            },
            Stage::Choice => {
                let cleaned = clean_string(line);
                let choice: usize = parse_choice(cleaned.as_str());
                self.stage = Stage::Finished;
                if choice >= self.accounts.len() {
                    Ok(WizardAction::Abort)
                } else {
                    let identity = self.accounts[choice].id.clone();
                    Ok(
                        WizardAction::Save(
                            ConfigFile::new(
                                identity,
                                self.listen_address.clone(),
                                self.cert_path.clone(),
                                self.cert_passphrase.clone(),
                            ),
                        ),
                    )
                }
            },
            _ => Err(WizardError::UnexpectedEvent),
        }
    }

    /// Takes one event and hands out the action that follows it. An event
    /// that the stage does not wait for is refused and changes nothing.
    pub fn step(&mut self, event: WizardEvent) -> (next: Result<WizardAction, WizardError>)
        ensures
            match wizard_next(old(self)@, event@) {
                Some((m, a)) => next is Ok && next->Ok_0@ == a && final(self)@ == m,
                None => next == Err::<WizardAction, WizardError>(WizardError::UnexpectedEvent)
                    && final(self)@ == old(self)@,
            },
    {
        match event {
            WizardEvent::Line(line) => self.on_line(line),
            WizardEvent::AccountAdded => match self.stage {
                Stage::AddingAccount => {
                    self.stage = Stage::Settling;
                    Ok(WizardAction::Wait { millis: SETTLE_MILLIS })
                },
                _ => Err(WizardError::UnexpectedEvent),
            },
            WizardEvent::DelayElapsed => match self.stage {
                Stage::Settling => {
                    self.stage = Stage::Listing;
                    Ok(WizardAction::ListAccounts)
                },
                _ => Err(WizardError::UnexpectedEvent),
            },
            WizardEvent::Accounts(list) => match self.stage {
                Stage::Listing => {
                    self.accounts = list;
                    self.stage = Stage::Choice;
                    Ok(WizardAction::Ask(Question::Choice))
                },
                _ => Err(WizardError::UnexpectedEvent),
            },
        }
    }
}

/// The state after an event, where the event is taken.
pub open spec fn after(m: WizardModel, e: EventModel) -> WizardModel {
    match wizard_next(m, e) {
        Some((n, _)) => n,
        None => m,
    }
}

/// The action that an event brings, where the event is taken.
pub open spec fn emitted(m: WizardModel, e: EventModel) -> Option<ActionModel> {
    match wizard_next(m, e) {
        Some((_, a)) => Some(a),
        None => None,
    }
}

/// The state once the listen address, the certificate's path and its
/// passphrase are answered.
pub open spec fn after_basics(
    listen: Seq<char>,
    path: Seq<char>,
    passphrase: Seq<char>,
) -> WizardModel {
    after(
        after(after(initial_model(), EventModel::Line(listen)), EventModel::Line(path)),
        EventModel::Line(passphrase),
    )
}

/// The configuration that a finished dialogue writes for the given answers
/// and the chosen account.
pub open spec fn written(
    listen: Seq<char>,
    path: Seq<char>,
    passphrase: Seq<char>,
    account: AccountModel,
) -> ConfigModel {
    ConfigModel {
        identity: account.id,
        listen_address: answer(listen, default_listen_address()),
        cert_path: clean(path),
        cert_passphrase: clean(passphrase),
    }
}

/// How a dialogue with the given answers ends on the listed accounts.
pub open spec fn ending(
    listen: Seq<char>,
    path: Seq<char>,
    passphrase: Seq<char>,
    accounts: Seq<AccountModel>,
    choice: Seq<char>,
) -> ActionModel {
    if choice_of(clean(choice)) >= accounts.len() {
        ActionModel::Abort
    } else {
        ActionModel::Save(written(listen, path, passphrase, accounts[choice_of(clean(choice)) as int]))
    }
}

/// A dialogue in which no account is created: after the three basic answers
/// and a "no", the accounts are listed at once, and the choice among them
/// ends the dialogue. It writes the configuration of the chosen account's
/// identifier and the answers given, each value unchanged, or nothing when
/// the choice names no listed account.
pub proof fn dialogue_without_new_account(
    listen: Seq<char>,
    path: Seq<char>,
    passphrase: Seq<char>,
    create: Seq<char>,
    accounts: Seq<AccountModel>,
    choice: Seq<char>,
)
    requires
        !means_yes(clean(create)),
    ensures
        ({
            let basics = after_basics(listen, path, passphrase);
            let listing = after(basics, EventModel::Line(create));
            let choosing = after(listing, EventModel::Accounts(accounts));
            &&& emitted(basics, EventModel::Line(create)) == Some(ActionModel::ListAccounts)
            &&& emitted(listing, EventModel::Accounts(accounts)) == Some(
                ActionModel::Ask(Question::Choice),
            )
            &&& emitted(choosing, EventModel::Line(choice)) == Some(
                ending(listen, path, passphrase, accounts, choice),
            )
            &&& after(choosing, EventModel::Line(choice)).stage == Stage::Finished
        }),
{
}

/// A dialogue in which an account is created: after the three basic answers
/// and a "yes", the account is added with the cleaned answers, the daemon is
/// given its delay, and only then the accounts are listed. The dialogue ends
/// as one without a new account does.
pub proof fn dialogue_with_new_account(
    listen: Seq<char>,
    path: Seq<char>,
    passphrase: Seq<char>,
    create: Seq<char>,
    import: Seq<char>,
    main_info: Seq<char>,
    secret: Seq<char>,
    accounts: Seq<AccountModel>,
    choice: Seq<char>,
)
    requires
        means_yes(clean(create)),
    ensures
        ({
            let basics = after_basics(listen, path, passphrase);
            let importing = after(basics, EventModel::Line(create));
            let naming = after(importing, EventModel::Line(import));
            let securing = after(naming, EventModel::Line(main_info));
            let adding = after(securing, EventModel::Line(secret));
            let settling = after(adding, EventModel::AccountAdded);
            let listing = after(settling, EventModel::DelayElapsed);
            let choosing = after(listing, EventModel::Accounts(accounts));
            &&& emitted(basics, EventModel::Line(create)) == Some(
                ActionModel::Ask(Question::ImportArchive),
            )
            &&& emitted(importing, EventModel::Line(import)) == Some(
                ActionModel::Ask(
                    if means_yes(clean(import)) {
                        Question::ArchivePath
                    } else {
                        Question::Alias
                    },
                ),
            )
            &&& emitted(securing, EventModel::Line(secret)) == Some(
                ActionModel::AddAccount {
                    main_info: clean(main_info),
                    secret: clean(secret),
                    from_archive: means_yes(clean(import)),
                },
            )
            &&& emitted(adding, EventModel::AccountAdded) == Some(
                ActionModel::Wait { millis: SETTLE_MILLIS },
            )
            &&& emitted(settling, EventModel::DelayElapsed) == Some(ActionModel::ListAccounts)
            &&& emitted(choosing, EventModel::Line(choice)) == Some(
                ending(listen, path, passphrase, accounts, choice),
            )
            &&& after(choosing, EventModel::Line(choice)).stage == Stage::Finished
        }),
{
}

/// Whatever was answered before, the choice of a listed account writes a
/// configuration whose identity is that account's identifier and whose
/// other values are the answers gathered, and a choice beyond the list
/// writes none. Either way the dialogue is over.
pub proof fn choice_decides_what_is_written(m: WizardModel, line: Seq<char>)
    requires
        m.stage == Stage::Choice,
    ensures
        ({
            let choice = choice_of(clean(line));
            let action = emitted(m, EventModel::Line(line));
            &&& choice < m.accounts.len() ==> action == Some(
                ActionModel::Save(
                    ConfigModel {
                        identity: m.accounts[choice as int].id,
                        listen_address: m.listen_address,
                        cert_path: m.cert_path,
                        cert_passphrase: m.cert_passphrase,
                    },
                ),
            )
            &&& choice >= m.accounts.len() ==> action == Some(ActionModel::Abort)
            &&& after(m, EventModel::Line(line)).stage == Stage::Finished
        }),
{
}

/// A finished dialogue takes no further event: nothing is asked, added,
/// listed or written after its end.
pub proof fn finished_takes_nothing(m: WizardModel, e: EventModel)
    requires
        m.stage == Stage::Finished,
    ensures
        wizard_next(m, e) is None,
{
}

/// A configuration is written only as the last action of a dialogue, and
/// only on a choice among listed accounts.
pub proof fn written_only_on_choice(m: WizardModel, e: EventModel)
    requires
        emitted(m, e) is Some,
        emitted(m, e)->0 is Save || emitted(m, e)->0 is Abort,
    ensures
        m.stage == Stage::Choice,
        e is Line,
        after(m, e).stage == Stage::Finished,
{
}

/// How far a dialogue has come: each stage counts more than those before
/// it.
pub open spec fn progress(stage: Stage) -> int {
    match stage {
        Stage::ListenAddress => 0,
        Stage::CertPath => 1,
        Stage::CertPassphrase => 2,
        Stage::CreateAccount => 3,
        Stage::ImportArchive => 4,
        Stage::MainInfo => 5,
        Stage::Secret => 6,
        Stage::AddingAccount => 7,
        Stage::Settling => 8,
        Stage::Listing => 9,
        Stage::Choice => 10,
        Stage::Finished => 11,
    }
}

/// Every event that is taken moves the dialogue forward: no question is
/// asked twice, and at most one account is added.
pub proof fn stages_advance(m: WizardModel, e: EventModel)
    requires
        wizard_next(m, e) is Some,
    ensures
        progress(m.stage) < progress(after(m, e).stage),
{
}

} // verus!
