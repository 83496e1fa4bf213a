use subjective::clock::ClockTime;
use subjective::school::bells::{ir, BellData, BellTime};
use subjective::uid::Uid;

fn bell(id: u128, name: &str, hour: u8, minute: u8, data: Option<BellData>, enabled: bool) -> BellTime {
    BellTime {
        id: Uid(id),
        name: name.to_string(),
        time: ClockTime { hour, minute },
        bell_data: data,
        enabled,
    }
}

#[test]
fn class_bell_round_trips() {
    let original = bell(
        1,
        "Period 1",
        9,
        0,
        Some(BellData::Class { subject_id: Uid(0xA1), location: "D14".to_string() }),
        true,
    );
    let record = original.to_ir();
    assert_eq!(record.hour, 9);
    assert_eq!(record.minute, 0);
    assert_eq!(record.subject_id, Some(Uid(0xA1)));
    assert_eq!(record.location, "D14".to_string());
    assert!(record.bell_type.is_none());
    assert_eq!(BellTime::from_ir(&record), Some(original));
}

#[test]
fn fixed_kind_bells_round_trip() {
    for (data, wire_name, icon) in [
        (BellData::Time, "Time", "clock.fill"),
        (BellData::Break, "Break", "fork.knife"),
        (BellData::Study, "Study", "book.fill"),
        (BellData::Pause, "Pause", "pause.fill"),
    ] {
        let original = bell(2, "Marker", 15, 45, Some(data), true);
        let record = original.to_ir();
        let bell_type = record.bell_type.clone().unwrap();
        assert_eq!(bell_type.name, wire_name.to_string());
        assert_eq!(bell_type.icon, icon.to_string());
        assert_eq!(record.subject_id, None);
        assert_eq!(record.location, String::new());
        assert_eq!(BellTime::from_ir(&record), Some(original));
    }
}

#[test]
fn plain_and_disabled_bells_round_trip() {
    let plain = bell(3, "Marker", 0, 0, None, true);
    assert_eq!(BellTime::from_ir(&plain.to_ir()), Some(plain));
    let disabled = bell(
        4,
        "Period 2",
        9,
        21,
        Some(BellData::Class { subject_id: Uid(0xB2), location: "H1".to_string() }),
        false,
    );
    let record = disabled.to_ir();
    assert!(!record.enabled);
    assert_eq!(BellTime::from_ir(&record), Some(disabled));
}

#[test]
fn unrecognized_bell_type_name_yields_no_data() {
    let record = ir::BellTime {
        id: Uid(5),
        name: "Odd".to_string(),
        minute: 0,
        hour: 9,
        subject_id: None,
        location: String::new(),
        bell_type: Some(ir::BellType {
            name: "Assembly".to_string(),
            icon: "star".to_string(),
        }),
        enabled: true,
    };
    let rebuilt = BellTime::from_ir(&record).unwrap();
    assert_eq!(rebuilt.bell_data, None);
}

#[test]
fn bell_type_wins_over_subject_id() {
    // A named bell type takes precedence: the subject field is not read.
    let record = ir::BellTime {
        id: Uid(6),
        name: "Start".to_string(),
        minute: 30,
        hour: 8,
        subject_id: Some(Uid(0xA1)),
        location: "D14".to_string(),
        bell_type: Some(ir::BellType {
            name: "Time".to_string(),
            icon: "clock.fill".to_string(),
        }),
        enabled: true,
    };
    let rebuilt = BellTime::from_ir(&record).unwrap();
    assert_eq!(rebuilt.bell_data, Some(BellData::Time));
}
