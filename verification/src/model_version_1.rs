//! Version 1 of the save document.

use vstd::prelude::*;

verus! {

/// One weekday's schedule: the break in minutes and the start and end times.
#[derive(Debug, Clone, PartialEq, Eq)]
pub struct DayVersion1 {
    pub break_time: u32,
    pub end: String,
    pub start: String,
}

/// A Monday-to-Friday block of days, tagged with an ISO week number.
#[derive(Debug, Clone, PartialEq, Eq)]
pub struct WeekVersion1 {
    pub monday: DayVersion1,
    pub tuesday: DayVersion1,
    pub wednesday: DayVersion1,
    pub thurday: DayVersion1,
    pub friday: DayVersion1,
    pub week_number: u32,
}

/// The whole version-1 document.
#[derive(Debug, Clone, PartialEq, Eq)]
pub struct SaveVersion1 {
    pub template: WeekVersion1,
    pub version: u32,
    pub weeks: Vec<WeekVersion1>,
}

/// Mathematical value of a version-1 day.
pub struct DayModel1 {
    pub break_time: nat,
    pub end: Seq<char>,
    pub start: Seq<char>,
}

/// Mathematical value of a version-1 week.
pub struct WeekModel1 {
    pub monday: DayModel1,
    pub tuesday: DayModel1,
    pub wednesday: DayModel1,
    pub thurday: DayModel1,
    pub friday: DayModel1,
    pub week_number: nat,
}

/// Mathematical value of a version-1 document.
pub struct SaveModel1 {
    pub template: WeekModel1,
    pub version: nat,
    pub weeks: Seq<WeekModel1>,
}

impl WeekModel1 {
    /// The day in weekday slot `slot`, counted from Monday = 0 to Friday = 4.
    pub open spec fn day(self, slot: int) -> DayModel1
        recommends
            0 <= slot < 5,
    {
        if slot == 0 {
            self.monday
        } else if slot == 1 {
            self.tuesday
        } else if slot == 2 {
            self.wednesday
        } else if slot == 3 {
            self.thurday
        } else {
            self.friday
        }
    }
}

impl View for DayVersion1 {
    type V = DayModel1;

    open spec fn view(&self) -> DayModel1 {
        DayModel1 { break_time: self.break_time as nat, end: self.end@, start: self.start@ }
    }
}

impl View for WeekVersion1 {
    type V = WeekModel1;

    open spec fn view(&self) -> WeekModel1 {
        WeekModel1 {
            monday: self.monday@,
            tuesday: self.tuesday@,
            wednesday: self.wednesday@,
            thurday: self.thurday@,
            friday: self.friday@,
            week_number: self.week_number as nat,
        }
    }
}

impl View for SaveVersion1 {
    type V = SaveModel1;

    open spec fn view(&self) -> SaveModel1 {
        SaveModel1 {
            template: self.template@,
            version: self.version as nat,
            weeks: week_models_1(self.weeks@),
        }
    }
}

/// The models of a sequence of version-1 weeks, in the same order.
pub open spec fn week_models_1(weeks: Seq<WeekVersion1>) -> Seq<WeekModel1> {
    Seq::new(weeks.len(), |i: int| weeks[i]@)
}

} // verus!
