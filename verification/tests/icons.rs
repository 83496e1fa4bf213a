use subjective::school::bells::BellData;
use subjective::uid::Uid;

#[test]
fn bells_getting_icon_works() {
    assert_eq!(BellData::Time.icon(), Some("clock.fill".to_string()));
    assert_eq!(BellData::Break.icon(), Some("fork.knife".to_string()));
    assert_eq!(BellData::Study.icon(), Some("book.fill".to_string()));
    assert_eq!(BellData::Pause.icon(), Some("pause.fill".to_string()));
    assert_eq!(
        BellData::Class {
            subject_id: Uid(0x1234),
            location: "Classroom".to_string(),
        }
        .icon(),
        None
    );
}

#[test]
fn mod_getting_icon_works() {
    assert_eq!(BellData::Time.icon(), Some("clock.fill".to_string()));
    assert_eq!(BellData::Break.icon(), Some("fork.knife".to_string()));
    assert_eq!(BellData::Study.icon(), Some("book.fill".to_string()));
    assert_eq!(BellData::Pause.icon(), Some("pause.fill".to_string()));
    assert_eq!(
        BellData::Class {
            subject_id: Uid(0x5678),
            location: "Classroom".to_string(),
        }
        .icon(),
        None
    );
}

#[test]
fn kind_predicates_work() {
    let class = BellData::Class {
        subject_id: Uid(1),
        location: "D14".to_string(),
    };
    assert!(class.is_class());
    assert!(!class.is_time());
    assert!(BellData::Time.is_time());
    assert!(BellData::Break.is_break());
    assert!(BellData::Study.is_study());
    assert!(BellData::Pause.is_pause());
    assert!(!BellData::Pause.is_break());
}

#[test]
fn kind_names_match_wire_names() {
    let class = BellData::Class {
        subject_id: Uid(1),
        location: "D14".to_string(),
    };
    assert_eq!(class.kind_name(), "Class".to_string());
    assert_eq!(BellData::Time.kind_name(), "Time".to_string());
    assert_eq!(BellData::Break.kind_name(), "Break".to_string());
    assert_eq!(BellData::Study.kind_name(), "Study".to_string());
    assert_eq!(BellData::Pause.kind_name(), "Pause".to_string());
}
