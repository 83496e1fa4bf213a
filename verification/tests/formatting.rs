use subjective::calendar::{Date, DateTime};
use subjective::clock::ClockTime;
use subjective::color::Color;
use subjective::school::bells::{BellData, BellTime, FormatBellError};
use subjective::school::{Day, Degrees, School, Week};
use subjective::subjects::Subject;
use subjective::uid::Uid;
use subjective::Subjective;

fn subject(id: u128, name: &str, location: &str) -> Subject {
    Subject {
        id: Uid(id),
        name: name.to_string(),
        color: Color { red_bits: 0, green_bits: 0, blue_bits: 0 },
        locations: vec![location.to_string()],
        icon: "book.closed".to_string(),
    }
}

fn class_bell(id: u128, name: &str, hour: u8, minute: u8, subject_id: u128, location: &str) -> BellTime {
    BellTime {
        id: Uid(id),
        name: name.to_string(),
        time: ClockTime { hour, minute },
        bell_data: Some(BellData::Class {
            subject_id: Uid(subject_id),
            location: location.to_string(),
        }),
        enabled: true,
    }
}

fn one_week_school(days: Vec<Day>) -> School {
    School {
        name: "School".to_string(),
        notices: Vec::new(),
        links: Vec::new(),
        user_created: false,
        bell_times: vec![Week {
            id: Uid(0xA),
            name: "Week 1".to_string(),
            days,
            cyclical: true,
        }],
        latitude: Degrees { bits: 0 },
        longitude: Degrees { bits: 0 },
        location: "Somewhere".to_string(),
        tags: Vec::new(),
        version: "1".to_string(),
    }
}

/// Week 1's Monday timetable scenario: the forward search from 09:05 lands
/// on the 09:21 bell, the backward search from 12:00 on the 11:51 bell, and
/// that bell formats with its subject resolved.
#[test]
fn monday_scenario() {
    let monday = vec![
        class_bell(1, "Period 1", 9, 0, 0xA1, "D14"),
        class_bell(2, "Period 2", 9, 21, 0xB2, "H1"),
        class_bell(3, "Period 5", 11, 51, 0xC3, "G16"),
    ];
    let days = vec![monday, Vec::new(), Vec::new(), Vec::new(), Vec::new()];
    let data = Subjective::new(
        one_week_school(days),
        vec![
            subject(0xA1, "Maths", "D14"),
            subject(0xB2, "English", "H1"),
            subject(0xC3, "Science", "G16"),
        ],
    );
    // 2021-01-04 was a Monday.
    let date = Date::new(2021, 1, 4).unwrap();
    let next = data
        .find_first_after(
            DateTime { date, time: ClockTime::new(9, 5).unwrap() },
            0,
        )
        .unwrap();
    assert_eq!(next.name, "Period 2".to_string());
    assert_eq!(next.time, ClockTime { hour: 9, minute: 21 });
    let last = data
        .find_first_before(
            DateTime { date, time: ClockTime::new(12, 0).unwrap() },
            0,
        )
        .unwrap();
    assert_eq!(last.name, "Period 5".to_string());
    assert_eq!(last.time, ClockTime { hour: 11, minute: 51 });
    assert_eq!(last.format(&data).unwrap(), "Science in G16 Period 5".to_string());
    assert_eq!(
        last.format_with_time(&data).unwrap(),
        "Science in G16 Period 5 11:51 AM".to_string()
    );
}

/// A class bell pointing at a subject the aggregate does not hold must fail
/// with the subject-not-found error, not print a blank name.
#[test]
fn unknown_subject_fails_format() {
    let data = Subjective::new(one_week_school(vec![Vec::new(); 5]), vec![subject(0xA1, "Maths", "D14")]);
    let orphan = class_bell(9, "Period 3", 10, 0, 0xDEAD, "Z9");
    assert_eq!(
        orphan.format(&data),
        Err(FormatBellError::SubjectNotFound(Uid(0xDEAD)))
    );
    assert_eq!(
        orphan.format_with_time(&data),
        Err(FormatBellError::SubjectNotFound(Uid(0xDEAD)))
    );
}

#[test]
fn fixed_kinds_and_plain_bells_format_without_subjects() {
    let data = Subjective::new(one_week_school(vec![Vec::new(); 5]), Vec::new());
    let lunch = BellTime {
        id: Uid(4),
        name: "Lunch".to_string(),
        time: ClockTime { hour: 12, minute: 30 },
        bell_data: Some(BellData::Break),
        enabled: true,
    };
    assert_eq!(lunch.format(&data).unwrap(), "Break Lunch".to_string());
    assert_eq!(
        lunch.format_with_time(&data).unwrap(),
        "Break Lunch 12:30 PM".to_string()
    );
    let plain = BellTime {
        id: Uid(5),
        name: "Marker".to_string(),
        time: ClockTime { hour: 0, minute: 5 },
        bell_data: None,
        enabled: true,
    };
    assert_eq!(plain.format(&data).unwrap(), "Marker".to_string());
    assert_eq!(
        plain.format_with_time(&data).unwrap(),
        "Marker 12:05 AM".to_string()
    );
}

#[test]
fn twelve_hour_clock_formatting() {
    assert_eq!(ClockTime { hour: 9, minute: 5 }.format_12h(), "9:05 AM".to_string());
    assert_eq!(ClockTime { hour: 0, minute: 30 }.format_12h(), "12:30 AM".to_string());
    assert_eq!(ClockTime { hour: 12, minute: 0 }.format_12h(), "12:00 PM".to_string());
    assert_eq!(ClockTime { hour: 13, minute: 7 }.format_12h(), "1:07 PM".to_string());
    assert_eq!(ClockTime { hour: 23, minute: 59 }.format_12h(), "11:59 PM".to_string());
    assert_eq!(ClockTime { hour: 10, minute: 10 }.format_12h(), "10:10 AM".to_string());
}
