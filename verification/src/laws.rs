//! What holds of every upgrade, every downgrade and every run of the
//! driver, stated over the mathematical values of documents and states.

use crate::calendar::ReferenceDate;
use crate::driver::{
    command_of, declared_version_of, downgrade_allowed, migration_of, source_version,
    target_version, verdict_on, Command, DriverError, Migration, Outcome, Request, Verdict,
};
use crate::machine::{finish, next, ActionModel, DriverModel, EventModel, PhaseModel};
use crate::model_version_1::{SaveModel1, WeekModel1};
use crate::model_version_2::{
    day_is_past, downgraded_save, downgraded_week, upgraded_save, upgraded_template, upgraded_week,
    SaveModel2, WeekModel2,
};
use vstd::prelude::*;

verus! {

/// Whether two version-2 weeks bear the same week number and hold the same
/// break, start and end in each of the five weekday slots. Their flags may
/// differ.
pub open spec fn alike_but_for_flags(a: WeekModel2, b: WeekModel2) -> bool {
    &&& a.week_number == b.week_number
    &&& forall|slot: int|
        0 <= slot < 5 ==> {
            &&& (#[trigger] a.day(slot)).break_time == b.day(slot).break_time
            &&& a.day(slot).start == b.day(slot).start
            &&& a.day(slot).end == b.day(slot).end
        }
}

/// Whether a version-2 week holds the same break, start and end as a
/// version-1 week in each of the five weekday slots.
pub open spec fn same_schedule(a: WeekModel2, b: WeekModel1) -> bool {
    forall|slot: int|
        0 <= slot < 5 ==> {
            &&& (#[trigger] a.day(slot)).break_time == b.day(slot).break_time
            &&& a.day(slot).start == b.day(slot).start
            &&& a.day(slot).end == b.day(slot).end
        }
}

/// Whether two reference dates sort every day of the document's calendar
/// weeks alike into past and not past.
pub open spec fn dates_agree_on(s: SaveModel1, first: ReferenceDate, second: ReferenceDate) -> bool {
    forall|k: int, slot: int|
        0 <= k < s.weeks.len() && 0 <= slot < 5 ==> #[trigger] day_is_past(
            s.weeks[k].week_number,
            slot,
            first,
        ) == day_is_past(s.weeks[k].week_number, slot, second)
}

/// An upgrade keeps the number and order of the weeks, every week number,
/// and the break, start and end of every day, in the template and in each
/// calendar week.
pub proof fn lemma_upgrade_preserves_days(s: SaveModel1, today: ReferenceDate)
    ensures
        upgraded_save(s, today).weeks.len() == s.weeks.len(),
        upgraded_save(s, today).template.week_number == s.template.week_number,
        same_schedule(upgraded_save(s, today).template, s.template),
        forall|k: int|
            0 <= k < s.weeks.len() ==> {
                &&& (#[trigger] upgraded_save(s, today).weeks[k]).week_number
                    == s.weeks[k].week_number
                &&& same_schedule(upgraded_save(s, today).weeks[k], s.weeks[k])
            },
{
}

/// A downgrade keeps the number and order of the weeks, every week number,
/// and the break, start and end of every day, in the template and in each
/// calendar week.
pub proof fn lemma_downgrade_preserves_days(s: SaveModel2)
    ensures
        downgraded_save(s).weeks.len() == s.weeks.len(),
        downgraded_save(s).template.week_number == s.template.week_number,
        same_schedule(s.template, downgraded_save(s).template),
        forall|k: int|
            0 <= k < s.weeks.len() ==> {
                &&& (#[trigger] downgraded_save(s).weeks[k]).week_number == s.weeks[k].week_number
                &&& same_schedule(s.weeks[k], downgraded_save(s).weeks[k])
            },
{
}

/// The version tag of the result does not depend on the tag of the input:
/// an upgrade always yields 2 and a downgrade always yields 1.
pub proof fn lemma_version_is_overwritten(old_save: SaveModel1, new_save: SaveModel2, today: ReferenceDate)
    ensures
        upgraded_save(old_save, today).version == 2,
        downgraded_save(new_save).version == 1,
{
}

/// After an upgrade no day of the template is validated, whatever the
/// reference date.
pub proof fn lemma_template_never_validated(s: SaveModel1, today: ReferenceDate)
    ensures
        forall|slot: int|
            0 <= slot < 5 ==> !(#[trigger] upgraded_save(s, today).template.day(slot)).validate,
{
}

/// After an upgrade every day of a week numbered below the current week is
/// validated.
pub proof fn lemma_past_week_validated(s: SaveModel1, today: ReferenceDate, k: int)
    requires
        0 <= k < s.weeks.len(),
        s.weeks[k].week_number < today.week,
    ensures
        forall|slot: int|
            0 <= slot < 5 ==> (#[trigger] upgraded_save(s, today).weeks[k].day(slot)).validate,
{
}

/// After an upgrade no day of a week numbered above the current week is
/// validated.
pub proof fn lemma_future_week_not_validated(s: SaveModel1, today: ReferenceDate, k: int)
    requires
        0 <= k < s.weeks.len(),
        s.weeks[k].week_number > today.week,
    ensures
        forall|slot: int|
            0 <= slot < 5 ==> !(#[trigger] upgraded_save(s, today).weeks[k].day(slot)).validate,
{
}

/// After an upgrade a day of the current week is validated exactly when its
/// weekday comes strictly before today's. On a Wednesday that is Monday and
/// Tuesday and no other day; on a Monday it is none.
pub proof fn lemma_current_week_boundary(s: SaveModel1, today: ReferenceDate, k: int)
    requires
        0 <= k < s.weeks.len(),
        s.weeks[k].week_number == today.week,
    ensures
        forall|slot: int|
            0 <= slot < 5 ==> (#[trigger] upgraded_save(s, today).weeks[k].day(slot)).validate == (
            slot < today.weekday),
        today.weekday == 2 ==> {
            let week = upgraded_save(s, today).weeks[k];
            &&& week.monday.validate
            &&& week.tuesday.validate
            &&& !week.wednesday.validate
            &&& !week.thurday.validate
            &&& !week.friday.validate
        },
        today.weekday == 0 ==> {
            let week = upgraded_save(s, today).weeks[k];
            &&& !week.monday.validate
            &&& !week.tuesday.validate
            &&& !week.wednesday.validate
            &&& !week.thurday.validate
            &&& !week.friday.validate
        },
{
}

/// A downgrade undoes an upgrade but for the version tag: what comes back
/// is the version-1 document that was upgraded, tagged version 1, whatever
/// the reference date was. The flags leave no trace.
pub proof fn lemma_downgrade_after_upgrade(s: SaveModel1, today: ReferenceDate)
    ensures
        downgraded_save(upgraded_save(s, today)) == (SaveModel1 { version: 1, ..s }),
{
    assert(downgraded_week(upgraded_template(s.template)) == s.template);
    assert(downgraded_save(upgraded_save(s, today)).weeks =~= s.weeks) by {
        assert forall|k: int| 0 <= k < s.weeks.len() implies downgraded_week(
            #[trigger] upgraded_week(s.weeks[k], today),
        ) == s.weeks[k] by {}
    }
}

/// Two version-2 documents that differ at most in their flags and version
/// tags have the same downgrade: the flags of the input cannot be read off
/// the result.
pub proof fn lemma_downgrade_forgets_flags(a: SaveModel2, b: SaveModel2)
    requires
        alike_but_for_flags(a.template, b.template),
        a.weeks.len() == b.weeks.len(),
        forall|k: int| 0 <= k < a.weeks.len() ==> alike_but_for_flags(a.weeks[k], b.weeks[k]),
    ensures
        downgraded_save(a) == downgraded_save(b),
{
    lemma_alike_weeks_downgrade_alike(a.template, b.template);
    assert forall|k: int| 0 <= k < a.weeks.len() implies downgraded_week(a.weeks[k])
        == downgraded_week(b.weeks[k]) by {
        lemma_alike_weeks_downgrade_alike(a.weeks[k], b.weeks[k]);
    }
    assert(downgraded_save(a).weeks =~= downgraded_save(b).weeks);
}

/// Two weeks that differ at most in their flags have the same downgrade.
pub proof fn lemma_alike_weeks_downgrade_alike(a: WeekModel2, b: WeekModel2)
    requires
        alike_but_for_flags(a, b),
    ensures
        downgraded_week(a) == downgraded_week(b),
{
    assert(a.day(0).break_time == b.day(0).break_time);
    assert(a.day(1).break_time == b.day(1).break_time);
    assert(a.day(2).break_time == b.day(2).break_time);
    assert(a.day(3).break_time == b.day(3).break_time);
    assert(a.day(4).break_time == b.day(4).break_time);
}

/// Upgrading a downgraded document sets every flag from the new reference
/// date alone; the flags that the document held before the downgrade play
/// no part.
pub proof fn lemma_reupgrade_recomputes_flags(d: SaveModel2, today: ReferenceDate)
    ensures
        upgraded_save(downgraded_save(d), today).weeks.len() == d.weeks.len(),
        forall|slot: int|
            0 <= slot < 5 ==> !(#[trigger] upgraded_save(downgraded_save(d), today).template.day(
                slot,
            )).validate,
        forall|k: int, slot: int|
            0 <= k < d.weeks.len() && 0 <= slot < 5 ==> (#[trigger] upgraded_save(
                downgraded_save(d),
                today,
            ).weeks[k].day(slot)).validate == day_is_past(d.weeks[k].week_number, slot, today),
{
}

/// Upgrading, downgrading and upgrading again gives back the first upgrade
/// exactly when the two reference dates sort every day of the calendar weeks
/// alike; with the same date it always does.
pub proof fn lemma_reupgrade_reproduces(s: SaveModel1, first: ReferenceDate, second: ReferenceDate)
    ensures
        upgraded_save(downgraded_save(upgraded_save(s, first)), second) == upgraded_save(s, first)
            <==> dates_agree_on(s, first, second),
        upgraded_save(downgraded_save(upgraded_save(s, first)), first) == upgraded_save(s, first),
{
    lemma_downgrade_after_upgrade(s, first);
    let back = downgraded_save(upgraded_save(s, first));
    assert(back.weeks == s.weeks);
    assert(back.template == s.template);
    assert(upgraded_save(back, first) == upgraded_save(s, first)) by {
        assert(upgraded_save(back, first).weeks =~= upgraded_save(s, first).weeks);
    }
    let again = upgraded_save(back, second);
    let once = upgraded_save(s, first);
    if dates_agree_on(s, first, second) {
        assert forall|k: int| 0 <= k < s.weeks.len() implies again.weeks[k] == once.weeks[k] by {
            let n = s.weeks[k].week_number;
            assert(day_is_past(n, 0, first) == day_is_past(n, 0, second));
            assert(day_is_past(n, 1, first) == day_is_past(n, 1, second));
            assert(day_is_past(n, 2, first) == day_is_past(n, 2, second));
            assert(day_is_past(n, 3, first) == day_is_past(n, 3, second));
            assert(day_is_past(n, 4, first) == day_is_past(n, 4, second));
        }
        assert(again.weeks =~= once.weeks);
    }
    if again == once {
        assert forall|k: int, slot: int|
            0 <= k < s.weeks.len() && 0 <= slot < 5 implies #[trigger] day_is_past(
            s.weeks[k].week_number,
            slot,
            first,
        ) == day_is_past(s.weeks[k].week_number, slot, second) by {
            assert(again.weeks[k].day(slot).validate == once.weeks[k].day(slot).validate);
        }
    }
}

// ---------------------------------------------------------------------------
// The driver
// ---------------------------------------------------------------------------

/// How far a run has come: each phase has its place in the order idle,
/// confirming, awaiting the target, loading, backing up, converting,
/// writing, finished.
pub open spec fn progress(phase: PhaseModel) -> nat {
    match phase {
        PhaseModel::Idle => 0,
        PhaseModel::Confirming => 1,
        PhaseModel::AwaitingTarget => 2,
        PhaseModel::Loading(_) => 3,
        PhaseModel::BackingUp { .. } => 4,
        PhaseModel::Converting(_) => 5,
        PhaseModel::Writing(_) => 6,
        PhaseModel::Finished(_) => 7,
    }
}

/// The command that a conversion serves.
pub open spec fn command_for(migration: Migration) -> Command {
    match migration {
        Migration::UpgradeToV2 => Command::Update,
        Migration::DowngradeToV1 => Command::Downgrade,
    }
}

/// What holds of every state that a run can reach: the user is only asked
/// for a downgrade; the request in hand belongs to the command; a document
/// that is being backed up has passed the verdict on its declared version;
/// a conversion under way serves the command; and the outcome fits the
/// command.
pub open spec fn consistent(state: DriverModel) -> bool {
    match state.phase {
        PhaseModel::Idle => true,
        PhaseModel::Confirming => state.command == Command::Downgrade,
        PhaseModel::AwaitingTarget => state.command == Command::Downgrade,
        PhaseModel::Loading(request) => command_of(request) == state.command,
        PhaseModel::BackingUp { request, text } => {
            &&& command_of(request) == state.command
            &&& verdict_on(request, declared_version_of(text)) == Verdict::Proceed
        },
        PhaseModel::Converting(migration) => command_for(migration) == state.command,
        PhaseModel::Writing(migration) => command_for(migration) == state.command,
        PhaseModel::Finished(outcome) => match outcome {
            Outcome::UpToDate => state.command == Command::Update,
            Outcome::Upgraded => state.command == Command::Update,
            Outcome::Downgraded => state.command == Command::Downgrade,
            Outcome::Aborted => state.command == Command::Downgrade,
            Outcome::Failed(_) => true,
        },
    }
}

/// A downgrade passes the version gate exactly when the target is one
/// below the document's version and is not zero. In particular a target
/// equal to the document's version, and the target 0, are refused.
pub proof fn lemma_downgrade_gate(current: u64, target: u64)
    ensures
        verdict_on(Request::Downgrade { target }, Ok(current)) == Verdict::Proceed
            <==> target + 1 == current && target > 0,
        !downgrade_allowed(current, target) ==> verdict_on(
            Request::Downgrade { target },
            Ok(current),
        ) == Verdict::Refuse(DriverError::NotPreviousVersion),
        !downgrade_allowed(current, current),
        !downgrade_allowed(current, 0),
{
}

/// A downgrade that the version gate refuses ends the run on the spot: the
/// only action is to stop, so nothing is backed up, converted or written.
pub proof fn lemma_refused_downgrade_changes_nothing(target: u64, text: Seq<char>, current: u64)
    requires
        declared_version_of(text) == Ok::<u64, DriverError>(current),
        !(target + 1 == current && target > 0),
    ensures
        next(
            DriverModel {
                command: Command::Downgrade,
                phase: PhaseModel::Loading(Request::Downgrade { target }),
            },
            EventModel::DocumentRead(text),
        ) == finish(Command::Downgrade, Outcome::Failed(DriverError::NotPreviousVersion)),
{
}

/// A downgrade that passes the version gate but leads to another version
/// than 1 has no conversion. The document is backed up as it was read, and
/// once the backup is written the run ends as unsupported: nothing is
/// converted or written.
pub proof fn lemma_unsupported_downgrade_stops_after_backup(
    target: u64,
    text: Seq<char>,
    current: u64,
)
    requires
        declared_version_of(text) == Ok::<u64, DriverError>(current),
        target + 1 == current,
        target > 1,
    ensures
        next(
            DriverModel {
                command: Command::Downgrade,
                phase: PhaseModel::Loading(Request::Downgrade { target }),
            },
            EventModel::DocumentRead(text),
        ) == (
            DriverModel {
                command: Command::Downgrade,
                phase: PhaseModel::BackingUp { request: Request::Downgrade { target }, text },
            },
            ActionModel::WriteBackup(text),
        ),
        next(
            DriverModel {
                command: Command::Downgrade,
                phase: PhaseModel::BackingUp { request: Request::Downgrade { target }, text },
            },
            EventModel::BackupWritten,
        ) == finish(Command::Downgrade, Outcome::Failed(DriverError::UnsupportedVersion)),
{
}

/// An update is judged by the version that the document declares: version
/// 1 is backed up, to be upgraded; any other version, and so version 2,
/// ends the run with nothing done.
pub proof fn lemma_update_by_declared_version(text: Seq<char>, current: u64)
    requires
        declared_version_of(text) == Ok::<u64, DriverError>(current),
    ensures
        current != 1 ==> next(
            DriverModel { command: Command::Update, phase: PhaseModel::Loading(Request::Update) },
            EventModel::DocumentRead(text),
        ) == finish(Command::Update, Outcome::UpToDate),
        current == 2 ==> next(
            DriverModel { command: Command::Update, phase: PhaseModel::Loading(Request::Update) },
            EventModel::DocumentRead(text),
        ).1 == ActionModel::Stop(Outcome::UpToDate),
        current == 1 ==> next(
            DriverModel { command: Command::Update, phase: PhaseModel::Loading(Request::Update) },
            EventModel::DocumentRead(text),
        ) == (
            DriverModel {
                command: Command::Update,
                phase: PhaseModel::BackingUp { request: Request::Update, text },
            },
            ActionModel::WriteBackup(text),
        ),
{
}

/// A downgrade that the user declines ends the run as aborted, with no
/// other action than to stop.
pub proof fn lemma_declined_downgrade_aborts(command: Command)
    ensures
        next(
            DriverModel { command, phase: PhaseModel::Confirming },
            EventModel::Answered(false),
        ) == finish(command, Outcome::Aborted),
{
}

/// A downgrade asks in this order: first the user's confirmation, then the
/// target version, then the document. The target is only asked for on the
/// user's yes, and the document of a downgrade only once the target is
/// given.
pub proof fn lemma_downgrade_asks_in_order(state: DriverModel, event: EventModel)
    ensures
        next(state, event).1 == ActionModel::AskConfirmation ==> state.phase == PhaseModel::Idle
            && state.command == Command::Downgrade && event == EventModel::Begin,
        next(state, event).1 == ActionModel::AskTarget ==> state.phase == PhaseModel::Confirming
            && event == EventModel::Answered(true),
        next(state, event).1 == ActionModel::ReadDocument ==> {
            ||| state.phase == PhaseModel::Idle && state.command == Command::Update && event
                == EventModel::Begin
            ||| state.phase == PhaseModel::AwaitingTarget && event is Target
        },
{
}

/// A finished run stays finished: whatever is reported, the state is kept
/// and the action is to stop with the same outcome.
pub proof fn lemma_finished_is_final(state: DriverModel, event: EventModel, outcome: Outcome)
    requires
        state.phase == PhaseModel::Finished(outcome),
    ensures
        next(state, event) == (state, ActionModel::Stop(outcome)),
{
}

/// The backup comes before any change. The text handed out for backup is
/// the document as it was read; a conversion is only asked for once the
/// backup is reported written, and of that same text; and a write is only
/// asked for of what a conversion gave.
pub proof fn lemma_backup_comes_first(state: DriverModel, event: EventModel)
    ensures
        next(state, event).1 matches ActionModel::WriteBackup(text) ==> state.phase
            is Loading && event == EventModel::DocumentRead(text) && next(state, event).0.phase
            == (PhaseModel::BackingUp { request: state.phase->Loading_0, text }),
        next(state, event).1 matches ActionModel::Convert(migration, text) ==> state.phase
            is BackingUp && state.phase->BackingUp_text == text && event
            == EventModel::BackupWritten && migration_of(state.phase->BackingUp_request) == Some(
            migration,
        ),
        next(state, event).1 matches ActionModel::WriteDocument(text) ==> state.phase
            is Converting && event == EventModel::Converted(text),
{
}

/// Every step of a run that is not over moves it forward in the order of
/// the phases, and keeps the command.
pub proof fn lemma_steps_advance(state: DriverModel, event: EventModel)
    requires
        !(state.phase is Finished),
    ensures
        progress(next(state, event).0.phase) > progress(state.phase),
        next(state, event).0.command == state.command,
{
}

/// The state of a run after a sequence of reports, taken in order.
pub open spec fn state_after(state: DriverModel, events: Seq<EventModel>) -> DriverModel
    decreases events.len(),
{
    if events.len() == 0 {
        state
    } else {
        state_after(next(state, events[0]).0, events.drop_first())
    }
}

/// A run is over after seven steps at most, whatever is reported: fewer
/// where it has already gone part of the way.
pub proof fn lemma_run_ends(state: DriverModel, events: Seq<EventModel>)
    requires
        events.len() + progress(state.phase) >= 7,
    ensures
        state_after(state, events).phase is Finished,
    decreases events.len(),
{
    if events.len() > 0 {
        if !(state.phase is Finished) {
            lemma_steps_advance(state, events[0]);
        }
        lemma_run_ends(next(state, events[0]).0, events.drop_first());
    }
}

/// The states of a run are consistent: an idle driver is, and every step
/// from a consistent state leads to one.
pub proof fn lemma_steps_keep_consistent(state: DriverModel, event: EventModel)
    requires
        consistent(state),
    ensures
        consistent(next(state, event).0),
        consistent(DriverModel { command: state.command, phase: PhaseModel::Idle }),
{
}

/// A run moves the document by one version at most: the only conversion
/// asked for on an update request goes from version 1 to 2, and the only
/// one asked for on a downgrade request goes from version 2 to 1.
pub proof fn lemma_one_version_step(state: DriverModel, event: EventModel)
    ensures
        next(state, event).1 matches ActionModel::Convert(migration, _) ==> {
            &&& state.phase->BackingUp_request is Update ==> migration == Migration::UpgradeToV2
            &&& state.phase->BackingUp_request is Downgrade ==> migration
                == Migration::DowngradeToV1 && state.phase->BackingUp_request == (
            Request::Downgrade { target: 1 })
            &&& target_version(migration) - source_version(migration) == 1 || source_version(
                migration,
            ) - target_version(migration) == 1
        },
{
}

/// In a run whose states are consistent, a conversion is only asked for of
/// a text that declares the very version that the conversion starts from,
/// and it is the conversion that serves the command: a document of another
/// version never reaches the engine.
pub proof fn lemma_conversion_fits_declared_version(state: DriverModel, event: EventModel)
    requires
        consistent(state),
    ensures
        next(state, event).1 matches ActionModel::Convert(migration, text) ==> {
            &&& declared_version_of(text) == Ok::<u64, DriverError>(source_version(migration))
            &&& command_for(migration) == state.command
        },
{
}

} // verus!
