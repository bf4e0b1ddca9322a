//! Version 2 of the save document, and the migration between versions 1 and 2.
//!
//! Version 2 adds to every day a `validate` flag: the day's schedule is
//! locked because its date lies before the reference date. Upgrading derives
//! the flag; downgrading drops it.

use crate::calendar::ReferenceDate;
use crate::model_version_1::{
    week_models_1, DayModel1, DayVersion1, SaveModel1, SaveVersion1, WeekModel1, WeekVersion1,
};
use vstd::prelude::*;

verus! {

/// One weekday's schedule with its `validate` flag.
#[derive(Debug, Clone, PartialEq, Eq)]
pub struct DayVersion2 {
    pub break_time: u32,
    pub end: String,
    pub start: String,
    pub validate: bool,
}

/// A Monday-to-Friday block of days, tagged with an ISO week number.
#[derive(Debug, Clone, PartialEq, Eq)]
pub struct WeekVersion2 {
    pub monday: DayVersion2,
    pub tuesday: DayVersion2,
    pub wednesday: DayVersion2,
    pub thurday: DayVersion2,
    pub friday: DayVersion2,
    pub week_number: u32,
}

/// The whole version-2 document.
#[derive(Debug, Clone, PartialEq, Eq)]
pub struct SaveVersion2 {
    pub template: WeekVersion2,
    pub version: u32,
    pub weeks: Vec<WeekVersion2>,
}

/// Mathematical value of a version-2 day.
pub struct DayModel2 {
    pub break_time: nat,
    pub end: Seq<char>,
    pub start: Seq<char>,
    pub validate: bool,
}

/// Mathematical value of a version-2 week.
pub struct WeekModel2 {
    pub monday: DayModel2,
    pub tuesday: DayModel2,
    pub wednesday: DayModel2,
    pub thurday: DayModel2,
    pub friday: DayModel2,
    pub week_number: nat,
}

/// Mathematical value of a version-2 document.
pub struct SaveModel2 {
    pub template: WeekModel2,
    pub version: nat,
    pub weeks: Seq<WeekModel2>,
}

impl WeekModel2 {
    /// The day in weekday slot `slot`, counted from Monday = 0 to Friday = 4.
    pub open spec fn day(self, slot: int) -> DayModel2
        recommends
            0 <= slot < 5,
    {
        if slot == 0 {
            self.monday
        } else if slot == 1 {
            self.tuesday
        } else if slot == 2 {
            self.wednesday
        } else if slot == 3 {
            self.thurday
        } else {
            self.friday
        }
    }
}

impl View for DayVersion2 {
    type V = DayModel2;

    open spec fn view(&self) -> DayModel2 {
        DayModel2 {
            break_time: self.break_time as nat,
            end: self.end@,
            start: self.start@,
            validate: self.validate,
        }
    }
}

impl View for WeekVersion2 {
    type V = WeekModel2;

    open spec fn view(&self) -> WeekModel2 {
        WeekModel2 {
            monday: self.monday@,
            tuesday: self.tuesday@,
            wednesday: self.wednesday@,
            thurday: self.thurday@,
            friday: self.friday@,
            week_number: self.week_number as nat,
        }
    }
}

impl View for SaveVersion2 {
    type V = SaveModel2;

    open spec fn view(&self) -> SaveModel2 {
        SaveModel2 {
            template: self.template@,
            version: self.version as nat,
            weeks: week_models_2(self.weeks@),
        }
    }
}

/// The models of a sequence of version-2 weeks, in the same order.
pub open spec fn week_models_2(weeks: Seq<WeekVersion2>) -> Seq<WeekModel2> {
    Seq::new(weeks.len(), |i: int| weeks[i]@)
}

// ---------------------------------------------------------------------------
// Upgrade: what it computes
// ---------------------------------------------------------------------------

/// Whether the day in weekday slot `slot` (Monday = 0) of the week numbered
/// `week_number` lies strictly before the reference date. Only week numbers
/// are compared: the year plays no part.
pub open spec fn day_is_past(week_number: nat, slot: int, today: ReferenceDate) -> bool {
    week_number < today.week || (week_number == today.week && slot < today.weekday)
}

/// A version-1 day carried into version 2 with the given flag.
pub open spec fn upgraded_day(d: DayModel1, validate: bool) -> DayModel2 {
    DayModel2 { break_time: d.break_time, end: d.end, start: d.start, validate }
}

/// The template carried into version 2: no day of it is validated.
pub open spec fn upgraded_template(w: WeekModel1) -> WeekModel2 {
    WeekModel2 {
        monday: upgraded_day(w.monday, false),
        tuesday: upgraded_day(w.tuesday, false),
        wednesday: upgraded_day(w.wednesday, false),
        thurday: upgraded_day(w.thurday, false),
        friday: upgraded_day(w.friday, false),
        week_number: w.week_number,
    }
}

/// A calendar week carried into version 2: a day is validated exactly when
/// it lies strictly before the reference date.
pub open spec fn upgraded_week(w: WeekModel1, today: ReferenceDate) -> WeekModel2 {
    WeekModel2 {
        monday: upgraded_day(w.monday, day_is_past(w.week_number, 0, today)),
        tuesday: upgraded_day(w.tuesday, day_is_past(w.week_number, 1, today)),
        wednesday: upgraded_day(w.wednesday, day_is_past(w.week_number, 2, today)),
        thurday: upgraded_day(w.thurday, day_is_past(w.week_number, 3, today)),
        friday: upgraded_day(w.friday, day_is_past(w.week_number, 4, today)),
        week_number: w.week_number,
    }
}

/// Every week of a sequence carried into version 2, in the same order.
pub open spec fn upgraded_weeks(ws: Seq<WeekModel1>, today: ReferenceDate) -> Seq<WeekModel2> {
    Seq::new(ws.len(), |i: int| upgraded_week(ws[i], today))
}

/// A version-1 document carried into version 2. The result is tagged
/// version 2 whatever tag the input bore.
pub open spec fn upgraded_save(s: SaveModel1, today: ReferenceDate) -> SaveModel2 {
    SaveModel2 {
        template: upgraded_template(s.template),
        version: 2,
        weeks: upgraded_weeks(s.weeks, today),
    }
}

// ---------------------------------------------------------------------------
// Downgrade: what it computes
// ---------------------------------------------------------------------------

/// A version-2 day without its flag.
pub open spec fn downgraded_day(d: DayModel2) -> DayModel1 {
    DayModel1 { break_time: d.break_time, end: d.end, start: d.start }
}

/// A version-2 week with the flag dropped from each of its days.
pub open spec fn downgraded_week(w: WeekModel2) -> WeekModel1 {
    WeekModel1 {
        monday: downgraded_day(w.monday),
        tuesday: downgraded_day(w.tuesday),
        wednesday: downgraded_day(w.wednesday),
        thurday: downgraded_day(w.thurday),
        friday: downgraded_day(w.friday),
        week_number: w.week_number,
    }
}

/// Every week of a sequence with the flags dropped, in the same order.
pub open spec fn downgraded_weeks(ws: Seq<WeekModel2>) -> Seq<WeekModel1> {
    Seq::new(ws.len(), |i: int| downgraded_week(ws[i]))
}

/// A version-2 document projected onto version 1. The result is tagged
/// version 1 whatever tag the input bore.
pub open spec fn downgraded_save(s: SaveModel2) -> SaveModel1 {
    SaveModel1 {
        template: downgraded_week(s.template),
        version: 1,
        weeks: downgraded_weeks(s.weeks),
    }
}

// ---------------------------------------------------------------------------
// Upgrade
// ---------------------------------------------------------------------------

/// Upgrades a version-1 document to version 2, measuring every calendar
/// week against `today`. The template's days are never validated.
pub fn upgrade_to_v2(s: SaveVersion1, today: ReferenceDate) -> (save: SaveVersion2)
    ensures
        save@ == upgraded_save(s@, today),
        save.version == 2,
{
    let save = SaveVersion2 {
        version: 2,
        template: upgrade_template(s.template),
        weeks: upgrade_weeks(s.weeks, today),
    };
    save
}

/// Upgrades the template week: all five days get `validate == false`.
pub fn upgrade_template(w: WeekVersion1) -> (week: WeekVersion2)
    ensures
        week@ == upgraded_template(w@),
{
    let week = WeekVersion2 {
        monday: upgrade_day(w.monday, false),
        tuesday: upgrade_day(w.tuesday, false),
        wednesday: upgrade_day(w.wednesday, false),
        thurday: upgrade_day(w.thurday, false),
        friday: upgrade_day(w.friday, false),
        week_number: w.week_number,
    };
    week
}

/// Upgrades one calendar week. A week before the current one is validated
/// whole, a later one not at all, and in the current week the days strictly
/// before today's weekday.
pub fn upgrade_week(w: WeekVersion1, today: ReferenceDate) -> (week: WeekVersion2)
    ensures
        week@ == upgraded_week(w@, today),
{
    if w.week_number < today.week {
        WeekVersion2 {
            monday: upgrade_day(w.monday, true),
            tuesday: upgrade_day(w.tuesday, true),
            wednesday: upgrade_day(w.wednesday, true),
            thurday: upgrade_day(w.thurday, true),
            friday: upgrade_day(w.friday, true),
            week_number: w.week_number,
        }
    } else if w.week_number == today.week {
        WeekVersion2 {
            monday: upgrade_day(w.monday, today.weekday > 0),
            tuesday: upgrade_day(w.tuesday, today.weekday > 1),
            wednesday: upgrade_day(w.wednesday, today.weekday > 2),
            thurday: upgrade_day(w.thurday, today.weekday > 3),
            friday: upgrade_day(w.friday, today.weekday > 4),
            week_number: w.week_number,
        }
    } else {
        WeekVersion2 {
            monday: upgrade_day(w.monday, false),
            tuesday: upgrade_day(w.tuesday, false),
            wednesday: upgrade_day(w.wednesday, false),
            thurday: upgrade_day(w.thurday, false),
            friday: upgrade_day(w.friday, false),
            week_number: w.week_number,
        }
    }
}

/// Upgrades every calendar week, keeping their order.
pub fn upgrade_weeks(ws: Vec<WeekVersion1>, today: ReferenceDate) -> (v: Vec<WeekVersion2>)
    ensures
        week_models_2(v@) == upgraded_weeks(week_models_1(ws@), today),
{
    let mut v: Vec<WeekVersion2> = Vec::new();
    let ghost all = ws@;
    for w in it: ws
        invariant
            it.seq() == all,
            v@.len() == it.index(),
            forall|j: int| 0 <= j < v@.len() ==> (#[trigger] v@[j])@ == upgraded_week(all[j]@, today),
    {
        v.push(upgrade_week(w, today));
    }
    assert(week_models_2(v@) =~= upgraded_weeks(week_models_1(all), today));
    v
}

/// Carries one day into version 2 with the given flag; the other fields
/// are kept as they are.
pub fn upgrade_day(d: DayVersion1, new_validate: bool) -> (day: DayVersion2)
    ensures
        day@ == upgraded_day(d@, new_validate),
{
    let day = DayVersion2 {
        break_time: d.break_time,
        end: d.end,
        start: d.start,
        validate: new_validate,
    };
    day
}

// ---------------------------------------------------------------------------
// Downgrade
// ---------------------------------------------------------------------------

/// Downgrades a version-2 document to version 1. Every `validate` flag is
/// dropped; nothing else changes but the version tag.
pub fn downgrade_to_v1(s: SaveVersion2) -> (save: SaveVersion1)
    ensures
        save@ == downgraded_save(s@),
        save.version == 1,
{
    let save = SaveVersion1 {
        version: 1,
        template: downgrade_week(s.template),
        weeks: downgrade_weeks(s.weeks),
    };
    save
}

/// Drops the flag from each day of a week.
pub fn downgrade_week(w: WeekVersion2) -> (week: WeekVersion1)
    ensures
        week@ == downgraded_week(w@),
{
    let week = WeekVersion1 {
        monday: downgrade_day(w.monday),
        tuesday: downgrade_day(w.tuesday),
        wednesday: downgrade_day(w.wednesday),
        thurday: downgrade_day(w.thurday),
        friday: downgrade_day(w.friday),
        week_number: w.week_number,
    };
    week
}

/// Downgrades every calendar week, keeping their order.
pub fn downgrade_weeks(ws: Vec<WeekVersion2>) -> (v: Vec<WeekVersion1>)
    ensures
        week_models_1(v@) == downgraded_weeks(week_models_2(ws@)),
{
    let mut v: Vec<WeekVersion1> = Vec::new();
    let ghost all = ws@;
    for w in it: ws
        invariant
            it.seq() == all,
            v@.len() == it.index(),
            forall|j: int| 0 <= j < v@.len() ==> (#[trigger] v@[j])@ == downgraded_week(all[j]@),
    {
        v.push(downgrade_week(w));
    }
    assert(week_models_1(v@) =~= downgraded_weeks(week_models_2(all)));
    v
}

/// Drops the flag from a day; the other fields are kept as they are.
pub fn downgrade_day(d: DayVersion2) -> (day: DayVersion1)
    ensures
        day@ == downgraded_day(d@),
{
    let day = DayVersion1 { break_time: d.break_time, end: d.end, start: d.start };
    day
}

} // verus!
