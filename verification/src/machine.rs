//! The driver as a state machine. Each step takes what the caller reports
//! and answers with the next thing to do.
//!
//! A run goes through these phases: idle, confirming and awaiting the target
//! (downgrades only), loading, backing up, converting, writing, finished.
//! Every failure and every refusal ends the run at once.

use crate::driver::{
    decide, declared_version, declared_version_of, migration_of, outcome_of, select_migration,
    verdict_on, Command, DriverError, Migration, Outcome, Request, Verdict,
};
use vstd::prelude::*;

verus! {

/// Where a run stands.
#[derive(Debug, Clone, PartialEq, Eq)]
pub enum Phase {
    /// Nothing has happened yet.
    Idle,
    /// The user was asked to confirm a downgrade.
    Confirming,
    /// The target version of a downgrade was asked for.
    AwaitingTarget,
    /// The document was asked for, to be judged against this request.
    Loading(Request),
    /// The backup was asked for; `text` is the document as it was read.
    BackingUp { request: Request, text: String },
    /// The conversion was asked for.
    Converting(Migration),
    /// The write of the converted document was asked for.
    Writing(Migration),
    /// The run is over.
    Finished(Outcome),
}

/// What the caller reports to the driver.
#[derive(Debug, Clone, PartialEq, Eq)]
pub enum Event {
    /// Start the run.
    Begin,
    /// The user's answer to the confirmation.
    Answered(bool),
    /// The target version that the user gave.
    Target(u64),
    /// What the user gave as target is no version number.
    TargetUnreadable,
    /// The document's text.
    DocumentRead(String),
    DocumentMissing,
    BackupWritten,
    BackupFailed,
    /// The text of the converted document.
    Converted(String),
    /// The text was not a document of the version to convert from.
    DocumentRejected,
    /// The converted document could not be put into text.
    BuildFailed,
    DocumentWritten,
    WriteFailed,
}

/// What the driver asks of the caller.
#[derive(Debug, Clone, PartialEq, Eq)]
pub enum Action {
    /// Ask the user whether to go on with a downgrade.
    AskConfirmation,
    /// Read the target version that the user gave.
    AskTarget,
    /// Read the save document.
    ReadDocument,
    /// Store this text, the document as it was read, as a new backup.
    WriteBackup(String),
    /// Convert this text, the document as it was read.
    Convert(Migration, String),
    /// Replace the save document by this text.
    WriteDocument(String),
    /// Nothing more is to be done.
    Stop(Outcome),
}

/// Mathematical value of a [`Phase`].
pub enum PhaseModel {
    Idle,
    Confirming,
    AwaitingTarget,
    Loading(Request),
    BackingUp { request: Request, text: Seq<char> },
    Converting(Migration),
    Writing(Migration),
    Finished(Outcome),
}

/// Mathematical value of an [`Event`].
pub enum EventModel {
    Begin,
    Answered(bool),
    Target(u64),
    TargetUnreadable,
    DocumentRead(Seq<char>),
    DocumentMissing,
    BackupWritten,
    BackupFailed,
    Converted(Seq<char>),
    DocumentRejected,
    BuildFailed,
    DocumentWritten,
    WriteFailed,
}

/// Mathematical value of an [`Action`].
pub enum ActionModel {
    AskConfirmation,
    AskTarget,
    ReadDocument,
    WriteBackup(Seq<char>),
    Convert(Migration, Seq<char>),
    WriteDocument(Seq<char>),
    Stop(Outcome),
}

/// Mathematical value of a [`Driver`].
pub struct DriverModel {
    pub command: Command,
    pub phase: PhaseModel,
}

impl View for Phase {
    type V = PhaseModel;

    open spec fn view(&self) -> PhaseModel {
        match *self {
            Phase::Idle => PhaseModel::Idle,
            Phase::Confirming => PhaseModel::Confirming,
            Phase::AwaitingTarget => PhaseModel::AwaitingTarget,
            Phase::Loading(request) => PhaseModel::Loading(request),
            Phase::BackingUp { request, text } => PhaseModel::BackingUp { request, text: text@ },
            Phase::Converting(migration) => PhaseModel::Converting(migration),
            Phase::Writing(migration) => PhaseModel::Writing(migration),
            Phase::Finished(outcome) => PhaseModel::Finished(outcome),
        }
    }
}

impl View for Event {
    type V = EventModel;

    open spec fn view(&self) -> EventModel {
        match *self {
            Event::Begin => EventModel::Begin,
            Event::Answered(yes) => EventModel::Answered(yes),
            Event::Target(target) => EventModel::Target(target),
            Event::TargetUnreadable => EventModel::TargetUnreadable,
            Event::DocumentRead(text) => EventModel::DocumentRead(text@),
            Event::DocumentMissing => EventModel::DocumentMissing,
            Event::BackupWritten => EventModel::BackupWritten,
            Event::BackupFailed => EventModel::BackupFailed,
            Event::Converted(text) => EventModel::Converted(text@),
            Event::DocumentRejected => EventModel::DocumentRejected,
            Event::BuildFailed => EventModel::BuildFailed,
            Event::DocumentWritten => EventModel::DocumentWritten,
            Event::WriteFailed => EventModel::WriteFailed,
        }
    }
}

impl View for Action {
    type V = ActionModel;

    open spec fn view(&self) -> ActionModel {
        match *self {
            Action::AskConfirmation => ActionModel::AskConfirmation,
            Action::AskTarget => ActionModel::AskTarget,
            Action::ReadDocument => ActionModel::ReadDocument,
            Action::WriteBackup(text) => ActionModel::WriteBackup(text@),
            Action::Convert(migration, text) => ActionModel::Convert(migration, text@),
            Action::WriteDocument(text) => ActionModel::WriteDocument(text@),
            Action::Stop(outcome) => ActionModel::Stop(outcome),
        }
    }
}

// ---------------------------------------------------------------------------
// The transition
// ---------------------------------------------------------------------------

/// The run ends with `outcome`.
pub open spec fn finish(command: Command, outcome: Outcome) -> (DriverModel, ActionModel) {
    (DriverModel { command, phase: PhaseModel::Finished(outcome) }, ActionModel::Stop(outcome))
}

/// The run goes on in `phase` with `action`.
pub open spec fn go_on(command: Command, phase: PhaseModel, action: ActionModel) -> (
    DriverModel,
    ActionModel,
) {
    (DriverModel { command, phase }, action)
}

/// The step taken from an idle driver: an update goes straight for the
/// document, a downgrade first asks the user.
pub open spec fn next_from_idle(command: Command, event: EventModel) -> (DriverModel, ActionModel) {
    match event {
        EventModel::Begin => match command {
            Command::Update => go_on(
                command,
                PhaseModel::Loading(Request::Update),
                ActionModel::ReadDocument,
            ),
            Command::Downgrade => go_on(
                command,
                PhaseModel::Confirming,
                ActionModel::AskConfirmation,
            ),
        },
        _ => finish(command, Outcome::Failed(DriverError::OutOfTurn)),
    }
}

/// The step taken while the user's answer is awaited.
pub open spec fn next_from_confirming(command: Command, event: EventModel) -> (
    DriverModel,
    ActionModel,
) {
    match event {
        EventModel::Answered(yes) => if yes {
            go_on(command, PhaseModel::AwaitingTarget, ActionModel::AskTarget)
        } else {
            finish(command, Outcome::Aborted)
        },
        _ => finish(command, Outcome::Failed(DriverError::OutOfTurn)),
    }
}

/// The step taken while the target version is awaited.
pub open spec fn next_from_awaiting_target(command: Command, event: EventModel) -> (
    DriverModel,
    ActionModel,
) {
    match event {
        EventModel::Target(target) => go_on(
            command,
            PhaseModel::Loading(Request::Downgrade { target }),
            ActionModel::ReadDocument,
        ),
        EventModel::TargetUnreadable => finish(
            command,
            Outcome::Failed(DriverError::TargetUnreadable),
        ),
        _ => finish(command, Outcome::Failed(DriverError::OutOfTurn)),
    }
}

/// The step taken while the document is awaited. A document that is to be
/// converted is backed up first, as it was read.
pub open spec fn next_from_loading(command: Command, request: Request, event: EventModel) -> (
    DriverModel,
    ActionModel,
) {
    match event {
        EventModel::DocumentRead(text) => match verdict_on(request, declared_version_of(text)) {
            Verdict::Proceed => go_on(
                command,
                PhaseModel::BackingUp { request, text },
                ActionModel::WriteBackup(text),
            ),
            Verdict::UpToDate => finish(command, Outcome::UpToDate),
            Verdict::Refuse(error) => finish(command, Outcome::Failed(error)),
        },
        EventModel::DocumentMissing => finish(command, Outcome::Failed(DriverError::DocumentMissing)),
        _ => finish(command, Outcome::Failed(DriverError::OutOfTurn)),
    }
}

/// The step taken while the backup is awaited. Where no conversion is known
/// for the request, the run ends here, with the backup written and nothing
/// else.
pub open spec fn next_from_backing_up(
    command: Command,
    request: Request,
    text: Seq<char>,
    event: EventModel,
) -> (DriverModel, ActionModel) {
    match event {
        EventModel::BackupWritten => match migration_of(request) {
            Some(migration) => go_on(
                command,
                PhaseModel::Converting(migration),
                ActionModel::Convert(migration, text),
            ),
            None => finish(command, Outcome::Failed(DriverError::UnsupportedVersion)),
        },
        EventModel::BackupFailed => finish(command, Outcome::Failed(DriverError::BackupFailed)),
        _ => finish(command, Outcome::Failed(DriverError::OutOfTurn)),
    }
}

/// The step taken while the conversion is awaited.
pub open spec fn next_from_converting(command: Command, migration: Migration, event: EventModel) -> (
    DriverModel,
    ActionModel,
) {
    match event {
        EventModel::Converted(text) => go_on(
            command,
            PhaseModel::Writing(migration),
            ActionModel::WriteDocument(text),
        ),
        EventModel::DocumentRejected => finish(
            command,
            Outcome::Failed(DriverError::MalformedDocument),
        ),
        EventModel::BuildFailed => finish(command, Outcome::Failed(DriverError::BuildFailed)),
        _ => finish(command, Outcome::Failed(DriverError::OutOfTurn)),
    }
}

/// The step taken while the write is awaited.
pub open spec fn next_from_writing(command: Command, migration: Migration, event: EventModel) -> (
    DriverModel,
    ActionModel,
) {
    match event {
        EventModel::DocumentWritten => finish(command, outcome_of(migration)),
        EventModel::WriteFailed => finish(command, Outcome::Failed(DriverError::WriteFailed)),
        _ => finish(command, Outcome::Failed(DriverError::OutOfTurn)),
    }
}

/// The driver's transition: the state after `event` and what the caller is
/// asked to do next. A finished driver stays as it is.
pub open spec fn next(state: DriverModel, event: EventModel) -> (DriverModel, ActionModel) {
    match state.phase {
        PhaseModel::Idle => next_from_idle(state.command, event),
        PhaseModel::Confirming => next_from_confirming(state.command, event),
        PhaseModel::AwaitingTarget => next_from_awaiting_target(state.command, event),
        PhaseModel::Loading(request) => next_from_loading(state.command, request, event),
        PhaseModel::BackingUp { request, text } => next_from_backing_up(
            state.command,
            request,
            text,
            event,
        ),
        PhaseModel::Converting(migration) => next_from_converting(state.command, migration, event),
        PhaseModel::Writing(migration) => next_from_writing(state.command, migration, event),
        PhaseModel::Finished(outcome) => (state, ActionModel::Stop(outcome)),
    }
}

// ---------------------------------------------------------------------------
// The driver
// ---------------------------------------------------------------------------

/// A run of one command.
#[derive(Debug, Clone, PartialEq, Eq)]
pub struct Driver {
    pub command: Command,
    pub phase: Phase,
}

impl View for Driver {
    type V = DriverModel;

    open spec fn view(&self) -> DriverModel {
        DriverModel { command: self.command, phase: self.phase@ }
    }
}

/// The outcome of a run, once it is over.
pub open spec fn outcome_so_far(state: DriverModel) -> Option<Outcome> {
    match state.phase {
        PhaseModel::Finished(outcome) => Some(outcome),
        _ => None,
    }
}

impl Driver {
    /// A driver for `command` that has not begun.
    pub fn new(command: Command) -> (driver: Driver)
        ensures
            driver@ == (DriverModel { command, phase: PhaseModel::Idle }),
    {
        Driver { command, phase: Phase::Idle }
    }

    /// The outcome, or `None` while the run is going on.
    pub fn outcome(&self) -> (o: Option<Outcome>)
        ensures
            o == outcome_so_far(self@),
    {
        match &self.phase {
            Phase::Finished(outcome) => Some(*outcome),
            _ => None,
        }
    }

    /// Takes one step: the driver after `event`, and what to do next.
    pub fn step(self, event: Event) -> (r: (Driver, Action))
        ensures
            (r.0@, r.1@) == next(self@, event@),
    {
        let command = self.command;
        match self.phase {
            Phase::Idle => match event {
                Event::Begin => match command {
                    Command::Update => (
                        Driver { command, phase: Phase::Loading(Request::Update) },
                        Action::ReadDocument,
                    ),
                    Command::Downgrade => (
                        Driver { command, phase: Phase::Confirming },
                        Action::AskConfirmation,
                    ),
                },
                _ => finished(command, Outcome::Failed(DriverError::OutOfTurn)),
            },
            Phase::Confirming => match event {
                Event::Answered(yes) => if yes {
                    (Driver { command, phase: Phase::AwaitingTarget }, Action::AskTarget)
                } else {
                    finished(command, Outcome::Aborted)
                },
                _ => finished(command, Outcome::Failed(DriverError::OutOfTurn)),
            },
            Phase::AwaitingTarget => match event {
                Event::Target(target) => (
                    Driver { command, phase: Phase::Loading(Request::Downgrade { target }) },
                    Action::ReadDocument,
                ),
                Event::TargetUnreadable => finished(
                    command,
                    Outcome::Failed(DriverError::TargetUnreadable),
                ),
                _ => finished(command, Outcome::Failed(DriverError::OutOfTurn)),
            },
            Phase::Loading(request) => match event {
                Event::DocumentRead(text) => take_document(command, request, text),
                Event::DocumentMissing => finished(
                    command,
                    Outcome::Failed(DriverError::DocumentMissing),
                ),
                _ => finished(command, Outcome::Failed(DriverError::OutOfTurn)),
            },
            Phase::BackingUp { request, text } => match event {
                Event::BackupWritten => match select_migration(request) {
                    Some(migration) => (
                        Driver { command, phase: Phase::Converting(migration) },
                        Action::Convert(migration, text),
                    ),
                    None => finished(command, Outcome::Failed(DriverError::UnsupportedVersion)),
                },
                Event::BackupFailed => finished(command, Outcome::Failed(DriverError::BackupFailed)),
                _ => finished(command, Outcome::Failed(DriverError::OutOfTurn)),
            },
            Phase::Converting(migration) => match event {
                Event::Converted(text) => (
                    Driver { command, phase: Phase::Writing(migration) },
                    Action::WriteDocument(text),
                ),
                Event::DocumentRejected => finished(
                    command,
                    Outcome::Failed(DriverError::MalformedDocument),
                ),
                Event::BuildFailed => finished(command, Outcome::Failed(DriverError::BuildFailed)),
                _ => finished(command, Outcome::Failed(DriverError::OutOfTurn)),
            },
            Phase::Writing(migration) => match event {
                Event::DocumentWritten => {
                    let outcome = match migration {
                        Migration::UpgradeToV2 => Outcome::Upgraded,
                        Migration::DowngradeToV1 => Outcome::Downgraded,
                    };
                    finished(command, outcome)
                },
                Event::WriteFailed => finished(command, Outcome::Failed(DriverError::WriteFailed)),
                _ => finished(command, Outcome::Failed(DriverError::OutOfTurn)),
            },
            Phase::Finished(outcome) => (
                Driver { command, phase: Phase::Finished(outcome) },
                Action::Stop(outcome),
            ),
        }
    }
}

/// A driver that has ended with `outcome`, and the action that says so.
fn finished(command: Command, outcome: Outcome) -> (r: (Driver, Action))
    ensures
        (r.0@, r.1@) == finish(command, outcome),
{
    (Driver { command, phase: Phase::Finished(outcome) }, Action::Stop(outcome))
}

/// The step on a document that was just read: its declared version is
/// read and the request is judged against it.
fn take_document(command: Command, request: Request, text: String) -> (r: (Driver, Action))
    ensures
        (r.0@, r.1@) == next_from_loading(command, request, EventModel::DocumentRead(text@)),
{
    let declared = declared_version(text.as_str());
    match decide(request, declared) {
        Verdict::Proceed => {
            let copy = text.clone();
            (
                Driver { command, phase: Phase::BackingUp { request, text } },
                Action::WriteBackup(copy),
            )
        },
        Verdict::UpToDate => finished(command, Outcome::UpToDate),
        Verdict::Refuse(error) => finished(command, Outcome::Failed(error)),
    }
}

} // verus!
