use save_updater::calendar::ReferenceDate;
use save_updater::model_version_1::{DayVersion1, SaveVersion1, WeekVersion1};
use save_updater::model_version_2::{
    upgrade_day, upgrade_template, upgrade_to_v2, upgrade_week, upgrade_weeks, DayVersion2,
    WeekVersion2,
};

fn day(break_time: u32, start: &str, end: &str) -> DayVersion1 {
    DayVersion1 { break_time, end: end.to_string(), start: start.to_string() }
}

fn week(week_number: u32) -> WeekVersion1 {
    WeekVersion1 {
        monday: day(30, "08:00", "16:30"),
        tuesday: day(45, "08:15", "17:00"),
        wednesday: day(60, "09:00", "18:00"),
        thurday: day(0, "07:30", "12:00"),
        friday: day(15, "10:00", "15:45"),
        week_number,
    }
}

fn save(version: u32, week_numbers: &[u32]) -> SaveVersion1 {
    SaveVersion1 {
        template: week(0),
        version,
        weeks: week_numbers.iter().map(|n| week(*n)).collect(),
    }
}

fn flags(w: &WeekVersion2) -> [bool; 5] {
    [
        w.monday.validate,
        w.tuesday.validate,
        w.wednesday.validate,
        w.thurday.validate,
        w.friday.validate,
    ]
}

fn assert_same_schedule(new: &DayVersion2, old: &DayVersion1) {
    assert_eq!(new.break_time, old.break_time);
    assert_eq!(new.start, old.start);
    assert_eq!(new.end, old.end);
}

#[test]
fn week_before_current_week_is_validated_whole() {
    let out = upgrade_to_v2(save(1, &[10]), ReferenceDate { week: 12, weekday: 3 });
    assert_eq!(out.weeks.len(), 1);
    assert_eq!(out.weeks[0].week_number, 10);
    assert_eq!(flags(&out.weeks[0]), [true; 5]);
}

#[test]
fn current_week_on_monday_validates_no_day() {
    let out = upgrade_to_v2(save(1, &[10]), ReferenceDate { week: 10, weekday: 0 });
    assert_eq!(flags(&out.weeks[0]), [false; 5]);
}

#[test]
fn current_week_on_wednesday_validates_monday_and_tuesday() {
    let out = upgrade_to_v2(save(1, &[10]), ReferenceDate { week: 10, weekday: 2 });
    assert_eq!(flags(&out.weeks[0]), [true, true, false, false, false]);
}

#[test]
fn current_week_boundary_for_every_weekday() {
    let expected: [[bool; 5]; 7] = [
        [false, false, false, false, false],
        [true, false, false, false, false],
        [true, true, false, false, false],
        [true, true, true, false, false],
        [true, true, true, true, false],
        [true, true, true, true, true],
        [true, true, true, true, true],
    ];
    for weekday in 0..7u32 {
        let out = upgrade_week(week(33), ReferenceDate { week: 33, weekday });
        assert_eq!(flags(&out), expected[weekday as usize], "weekday {}", weekday);
    }
}

#[test]
fn week_after_current_week_is_not_validated() {
    let out = upgrade_to_v2(save(1, &[13, 53]), ReferenceDate { week: 12, weekday: 6 });
    assert_eq!(flags(&out.weeks[0]), [false; 5]);
    assert_eq!(flags(&out.weeks[1]), [false; 5]);
}

#[test]
fn mixed_weeks_keep_their_order_and_numbers() {
    let out = upgrade_to_v2(save(1, &[14, 9, 11, 11, 1]), ReferenceDate { week: 11, weekday: 1 });
    let numbers: Vec<u32> = out.weeks.iter().map(|w| w.week_number).collect();
    assert_eq!(numbers, vec![14, 9, 11, 11, 1]);
    assert_eq!(flags(&out.weeks[0]), [false; 5]);
    assert_eq!(flags(&out.weeks[1]), [true; 5]);
    assert_eq!(flags(&out.weeks[2]), [true, false, false, false, false]);
    assert_eq!(flags(&out.weeks[3]), [true, false, false, false, false]);
    assert_eq!(flags(&out.weeks[4]), [true; 5]);
}

#[test]
fn template_is_never_validated() {
    for (w, d) in [(1u32, 0u32), (30, 4), (53, 6), (0, 0), (u32::MAX, u32::MAX)] {
        let out = upgrade_to_v2(save(1, &[5]), ReferenceDate { week: w, weekday: d });
        assert_eq!(flags(&out.template), [false; 5]);
        assert_eq!(out.template.week_number, 0);
    }
    let alone = upgrade_template(week(2));
    assert_eq!(flags(&alone), [false; 5]);
    assert_eq!(alone.week_number, 2);
}

#[test]
fn upgrade_always_tags_version_two() {
    for version in [0u32, 1, 2, 3, 77, u32::MAX] {
        let out = upgrade_to_v2(save(version, &[1, 2]), ReferenceDate { week: 2, weekday: 2 });
        assert_eq!(out.version, 2);
    }
}

#[test]
fn upgrade_keeps_break_start_and_end() {
    let before = save(1, &[3, 20, 40]);
    let out = upgrade_to_v2(before.clone(), ReferenceDate { week: 20, weekday: 3 });
    assert_same_schedule(&out.template.monday, &before.template.monday);
    assert_same_schedule(&out.template.friday, &before.template.friday);
    for (new, old) in out.weeks.iter().zip(before.weeks.iter()) {
        assert_same_schedule(&new.monday, &old.monday);
        assert_same_schedule(&new.tuesday, &old.tuesday);
        assert_same_schedule(&new.wednesday, &old.wednesday);
        assert_same_schedule(&new.thurday, &old.thurday);
        assert_same_schedule(&new.friday, &old.friday);
    }
}

#[test]
fn upgrade_of_document_without_weeks() {
    let out = upgrade_to_v2(save(1, &[]), ReferenceDate { week: 8, weekday: 1 });
    assert!(out.weeks.is_empty());
    assert_eq!(out.version, 2);
    assert_eq!(flags(&out.template), [false; 5]);
}

#[test]
fn upgrade_day_sets_the_flag_and_moves_the_rest() {
    let up = upgrade_day(day(25, "06:45", "23:59"), true);
    assert_eq!(
        up,
        DayVersion2 {
            break_time: 25,
            end: "23:59".to_string(),
            start: "06:45".to_string(),
            validate: true,
        }
    );
    let down = upgrade_day(day(u32::MAX, "", "not a time"), false);
    assert_eq!(down.break_time, u32::MAX);
    assert_eq!(down.start, "");
    assert_eq!(down.end, "not a time");
    assert!(!down.validate);
}

#[test]
fn upgrade_weeks_maps_each_week() {
    let out = upgrade_weeks(vec![week(1), week(2), week(3)], ReferenceDate { week: 2, weekday: 4 });
    assert_eq!(out.len(), 3);
    assert_eq!(flags(&out[0]), [true; 5]);
    assert_eq!(flags(&out[1]), [true, true, true, true, false]);
    assert_eq!(flags(&out[2]), [false; 5]);
    assert!(upgrade_weeks(Vec::new(), ReferenceDate { week: 2, weekday: 4 }).is_empty());
}

#[test]
fn week_number_comparison_ignores_the_year() {
    // Week 52 counts as future in week 1, whichever year it was saved in.
    let out = upgrade_to_v2(save(1, &[52]), ReferenceDate { week: 1, weekday: 4 });
    assert_eq!(flags(&out.weeks[0]), [false; 5]);
}
