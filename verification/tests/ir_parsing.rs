use subjective::school::bells::ir::{self, default_enabled, parse_subject_id, InvalidSubjectId};
use subjective::school::bells::BellTime;
use subjective::uid::Uid;

#[test]
fn default_enabled_is_true() {
    assert!(default_enabled());
}

/// A record with an out-of-range hour is rejected outright; loading it fails
/// rather than recovering per record.
#[test]
fn malformed_time_is_rejected() {
    let record = ir::BellTime {
        id: Uid(1),
        name: "Broken".to_string(),
        minute: 0,
        hour: 25,
        subject_id: None,
        location: String::new(),
        bell_type: None,
        enabled: true,
    };
    assert_eq!(BellTime::from_ir(&record), None);
    let record = ir::BellTime {
        id: Uid(2),
        name: "Broken".to_string(),
        minute: 60,
        hour: 9,
        subject_id: None,
        location: String::new(),
        bell_type: None,
        enabled: true,
    };
    assert_eq!(BellTime::from_ir(&record), None);
}

#[test]
fn boundary_times_are_accepted() {
    let record = ir::BellTime {
        id: Uid(3),
        name: "Last".to_string(),
        minute: 59,
        hour: 23,
        subject_id: None,
        location: String::new(),
        bell_type: None,
        enabled: true,
    };
    assert!(BellTime::from_ir(&record).is_some());
}

#[test]
fn absent_or_empty_subject_id_means_no_subject() {
    assert_eq!(parse_subject_id(&None), Ok(None));
    assert_eq!(parse_subject_id(&Some(String::new())), Ok(None));
}

#[test]
fn valid_subject_id_parses_to_its_value() {
    let id = Some("40e0f233-d1e3-4402-b5c3-3094122126e6".to_string());
    assert_eq!(
        parse_subject_id(&id),
        Ok(Some(Uid(0x40e0f233_d1e3_4402_b5c3_3094122126e6)))
    );
}

#[test]
fn malformed_subject_id_is_a_hard_failure() {
    assert_eq!(
        parse_subject_id(&Some("not-a-uuid".to_string())),
        Err(InvalidSubjectId)
    );
    assert_eq!(
        parse_subject_id(&Some("40e0f233".to_string())),
        Err(InvalidSubjectId)
    );
}
