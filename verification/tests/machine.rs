use save_updater::driver::{Command, DriverError, Migration, Outcome, Request};
use save_updater::machine::{Action, Driver, Event, Phase};

const V1: &str = "{\"version\": 1, \"weeks\": []}";
const V2: &str = "{\"version\": 2, \"weeks\": []}";
const V3: &str = "{\"version\": 3, \"weeks\": []}";

fn read(text: &str) -> Event {
    Event::DocumentRead(text.to_string())
}

fn run(command: Command, events: Vec<Event>) -> (Driver, Vec<Action>) {
    let mut driver = Driver::new(command);
    let mut actions = Vec::new();
    for event in events {
        let (next, action) = driver.step(event);
        driver = next;
        actions.push(action);
    }
    (driver, actions)
}

fn downgrade(target: u64, text: &str) -> (Driver, Vec<Action>) {
    run(
        Command::Downgrade,
        vec![Event::Begin, Event::Answered(true), Event::Target(target), read(text)],
    )
}

#[test]
fn new_driver_is_idle() {
    let driver = Driver::new(Command::Update);
    assert_eq!(driver.phase, Phase::Idle);
    assert_eq!(driver.command, Command::Update);
    assert_eq!(driver.outcome(), None);
}

#[test]
fn update_of_a_version_one_document() {
    let (driver, actions) = run(
        Command::Update,
        vec![
            Event::Begin,
            read(V1),
            Event::BackupWritten,
            Event::Converted("{\"version\":2}".to_string()),
            Event::DocumentWritten,
        ],
    );
    assert_eq!(
        actions,
        vec![
            Action::ReadDocument,
            Action::WriteBackup(V1.to_string()),
            Action::Convert(Migration::UpgradeToV2, V1.to_string()),
            Action::WriteDocument("{\"version\":2}".to_string()),
            Action::Stop(Outcome::Upgraded),
        ]
    );
    assert_eq!(driver.outcome(), Some(Outcome::Upgraded));
}

#[test]
fn update_of_a_document_that_is_up_to_date() {
    for text in [V2, V3, "{\"version\": 0}"] {
        let (driver, actions) = run(Command::Update, vec![Event::Begin, read(text)]);
        assert_eq!(actions, vec![Action::ReadDocument, Action::Stop(Outcome::UpToDate)]);
        assert_eq!(driver.outcome(), Some(Outcome::UpToDate));
    }
}

#[test]
fn second_update_does_nothing() {
    let written = "{\"version\":2,\"weeks\":[]}";
    let (_, first) = run(
        Command::Update,
        vec![
            Event::Begin,
            read(V1),
            Event::BackupWritten,
            Event::Converted(written.to_string()),
            Event::DocumentWritten,
        ],
    );
    assert_eq!(first[3], Action::WriteDocument(written.to_string()));
    let (driver, second) = run(Command::Update, vec![Event::Begin, read(written)]);
    assert_eq!(second, vec![Action::ReadDocument, Action::Stop(Outcome::UpToDate)]);
    assert_eq!(driver.outcome(), Some(Outcome::UpToDate));
}

#[test]
fn update_without_a_document() {
    let (driver, actions) = run(Command::Update, vec![Event::Begin, Event::DocumentMissing]);
    assert_eq!(
        actions,
        vec![
            Action::ReadDocument,
            Action::Stop(Outcome::Failed(DriverError::DocumentMissing)),
        ]
    );
    assert_eq!(driver.outcome(), Some(Outcome::Failed(DriverError::DocumentMissing)));
}

#[test]
fn update_of_text_that_is_not_a_document() {
    let (_, actions) = run(Command::Update, vec![Event::Begin, read("not json")]);
    assert_eq!(actions[1], Action::Stop(Outcome::Failed(DriverError::MalformedDocument)));
    let (_, actions) = run(Command::Update, vec![Event::Begin, read("{\"weeks\": []}")]);
    assert_eq!(actions[1], Action::Stop(Outcome::Failed(DriverError::VersionUnreadable)));
}

#[test]
fn downgrade_asks_for_confirmation_first() {
    let (driver, actions) = run(Command::Downgrade, vec![Event::Begin]);
    assert_eq!(actions, vec![Action::AskConfirmation]);
    assert_eq!(driver.phase, Phase::Confirming);
}

#[test]
fn downgrade_that_the_user_declines() {
    let (driver, actions) = run(Command::Downgrade, vec![Event::Begin, Event::Answered(false)]);
    assert_eq!(actions, vec![Action::AskConfirmation, Action::Stop(Outcome::Aborted)]);
    assert_eq!(driver.outcome(), Some(Outcome::Aborted));
}

#[test]
fn downgrade_asks_for_the_target_after_the_confirmation() {
    let (driver, actions) = run(Command::Downgrade, vec![Event::Begin, Event::Answered(true)]);
    assert_eq!(actions, vec![Action::AskConfirmation, Action::AskTarget]);
    assert_eq!(driver.phase, Phase::AwaitingTarget);
    let (driver, action) = driver.step(Event::Target(1));
    assert_eq!(action, Action::ReadDocument);
    assert_eq!(driver.phase, Phase::Loading(Request::Downgrade { target: 1 }));
}

#[test]
fn downgrade_with_a_target_that_is_no_number() {
    let (driver, actions) = run(
        Command::Downgrade,
        vec![Event::Begin, Event::Answered(true), Event::TargetUnreadable],
    );
    assert_eq!(
        actions,
        vec![
            Action::AskConfirmation,
            Action::AskTarget,
            Action::Stop(Outcome::Failed(DriverError::TargetUnreadable)),
        ]
    );
    assert_eq!(driver.outcome(), Some(Outcome::Failed(DriverError::TargetUnreadable)));
}

#[test]
fn declined_downgrade_never_asks_for_the_target() {
    let (driver, actions) = run(
        Command::Downgrade,
        vec![Event::Begin, Event::Answered(false), Event::TargetUnreadable],
    );
    assert_eq!(
        actions,
        vec![
            Action::AskConfirmation,
            Action::Stop(Outcome::Aborted),
            Action::Stop(Outcome::Aborted),
        ]
    );
    assert_eq!(driver.outcome(), Some(Outcome::Aborted));
}

#[test]
fn downgrade_of_a_version_two_document() {
    let (driver, actions) = run(
        Command::Downgrade,
        vec![
            Event::Begin,
            Event::Answered(true),
            Event::Target(1),
            read(V2),
            Event::BackupWritten,
            Event::Converted("{\"version\":1}".to_string()),
            Event::DocumentWritten,
        ],
    );
    assert_eq!(
        actions,
        vec![
            Action::AskConfirmation,
            Action::AskTarget,
            Action::ReadDocument,
            Action::WriteBackup(V2.to_string()),
            Action::Convert(Migration::DowngradeToV1, V2.to_string()),
            Action::WriteDocument("{\"version\":1}".to_string()),
            Action::Stop(Outcome::Downgraded),
        ]
    );
    assert_eq!(driver.outcome(), Some(Outcome::Downgraded));
}

#[test]
fn downgrade_to_zero_or_to_the_same_version_touches_nothing() {
    for target in [0u64, 2] {
        let (driver, actions) = downgrade(target, V2);
        assert_eq!(
            actions,
            vec![
                Action::AskConfirmation,
                Action::AskTarget,
                Action::ReadDocument,
                Action::Stop(Outcome::Failed(DriverError::NotPreviousVersion)),
            ]
        );
        assert_eq!(driver.outcome(), Some(Outcome::Failed(DriverError::NotPreviousVersion)));
    }
}

#[test]
fn downgrade_by_more_than_one_version_is_refused() {
    let (_, actions) = downgrade(1, V3);
    assert_eq!(actions[3], Action::Stop(Outcome::Failed(DriverError::NotPreviousVersion)));
}

#[test]
fn downgrade_from_an_unknown_version_stops_after_the_backup() {
    let (driver, mut actions) = downgrade(2, V3);
    let (driver, last) = driver.step(Event::BackupWritten);
    actions.push(last);
    assert_eq!(
        actions,
        vec![
            Action::AskConfirmation,
            Action::AskTarget,
            Action::ReadDocument,
            Action::WriteBackup(V3.to_string()),
            Action::Stop(Outcome::Failed(DriverError::UnsupportedVersion)),
        ]
    );
    assert_eq!(driver.outcome(), Some(Outcome::Failed(DriverError::UnsupportedVersion)));
}

#[test]
fn failed_backup_stops_the_run() {
    let (driver, actions) =
        run(Command::Update, vec![Event::Begin, read(V1), Event::BackupFailed]);
    assert_eq!(actions[2], Action::Stop(Outcome::Failed(DriverError::BackupFailed)));
    assert_eq!(driver.outcome(), Some(Outcome::Failed(DriverError::BackupFailed)));
}

#[test]
fn failed_conversion_stops_the_run() {
    let (_, actions) = run(
        Command::Update,
        vec![Event::Begin, read(V1), Event::BackupWritten, Event::DocumentRejected],
    );
    assert_eq!(actions[3], Action::Stop(Outcome::Failed(DriverError::MalformedDocument)));
    let (_, actions) =
        run(Command::Update, vec![Event::Begin, read(V1), Event::BackupWritten, Event::BuildFailed]);
    assert_eq!(actions[3], Action::Stop(Outcome::Failed(DriverError::BuildFailed)));
}

#[test]
fn failed_write_stops_the_run() {
    let (driver, actions) = run(
        Command::Update,
        vec![
            Event::Begin,
            read(V1),
            Event::BackupWritten,
            Event::Converted("{}".to_string()),
            Event::WriteFailed,
        ],
    );
    assert_eq!(actions[4], Action::Stop(Outcome::Failed(DriverError::WriteFailed)));
    assert_eq!(driver.outcome(), Some(Outcome::Failed(DriverError::WriteFailed)));
}

#[test]
fn report_out_of_turn_ends_the_run() {
    let (_, actions) = run(Command::Update, vec![Event::BackupWritten]);
    assert_eq!(actions, vec![Action::Stop(Outcome::Failed(DriverError::OutOfTurn))]);
    let (_, actions) = run(Command::Update, vec![Event::Begin, Event::Answered(true)]);
    assert_eq!(actions[1], Action::Stop(Outcome::Failed(DriverError::OutOfTurn)));
    let (_, actions) = run(Command::Downgrade, vec![Event::Begin, Event::Target(1)]);
    assert_eq!(actions[1], Action::Stop(Outcome::Failed(DriverError::OutOfTurn)));
    let (_, actions) = run(Command::Downgrade, vec![Event::Begin, Event::Answered(true), read(V2)]);
    assert_eq!(actions[2], Action::Stop(Outcome::Failed(DriverError::OutOfTurn)));
    let (_, actions) = run(
        Command::Update,
        vec![Event::Begin, read(V1), Event::Converted("{}".to_string())],
    );
    assert_eq!(actions[2], Action::Stop(Outcome::Failed(DriverError::OutOfTurn)));
    let (_, actions) = run(
        Command::Update,
        vec![Event::Begin, read(V1), Event::BackupWritten, Event::DocumentWritten],
    );
    assert_eq!(actions[3], Action::Stop(Outcome::Failed(DriverError::OutOfTurn)));
}

#[test]
fn finished_run_stays_finished() {
    let (driver, _) = run(Command::Update, vec![Event::Begin, read(V2)]);
    let before = driver.clone();
    let (driver, action) = driver.step(Event::Begin);
    assert_eq!(action, Action::Stop(Outcome::UpToDate));
    assert_eq!(driver, before);
    let (driver, action) = driver.step(read(V1));
    assert_eq!(action, Action::Stop(Outcome::UpToDate));
    assert_eq!(driver, before);
}

#[test]
fn step_from_a_given_phase() {
    let driver = Driver {
        command: Command::Update,
        phase: Phase::BackingUp { request: Request::Update, text: "abc".to_string() },
    };
    let (driver, action) = driver.step(Event::BackupWritten);
    assert_eq!(action, Action::Convert(Migration::UpgradeToV2, "abc".to_string()));
    assert_eq!(driver.phase, Phase::Converting(Migration::UpgradeToV2));
    let driver =
        Driver { command: Command::Downgrade, phase: Phase::Writing(Migration::DowngradeToV1) };
    let (driver, action) = driver.step(Event::DocumentWritten);
    assert_eq!(action, Action::Stop(Outcome::Downgraded));
    assert_eq!(driver.phase, Phase::Finished(Outcome::Downgraded));
}

#[test]
fn every_run_is_over_after_seven_steps() {
    let longest = vec![
        Event::Begin,
        Event::Answered(true),
        Event::Target(1),
        read(V2),
        Event::BackupWritten,
        Event::Converted("{}".to_string()),
        Event::DocumentWritten,
    ];
    let (driver, _) = run(Command::Downgrade, longest[..6].to_vec());
    assert_eq!(driver.outcome(), None);
    let (driver, _) = run(Command::Downgrade, longest);
    assert_eq!(driver.outcome(), Some(Outcome::Downgraded));
    let (driver, _) = run(Command::Update, vec![Event::Begin; 7]);
    assert_eq!(driver.outcome(), Some(Outcome::Failed(DriverError::OutOfTurn)));
}
