use vstd::prelude::*;
use crate::uid::{parse_uuid, parsed_uuid, Uid};

verus! {

/// The failure of reading a present, non-empty subject identifier that is
/// not a well-formed UUID. It is fatal to the whole load.
#[derive(Debug, Clone, Copy, PartialEq, Eq, Hash, Structural)]
pub struct InvalidSubjectId;

/// Interpret the subject-identifier field of an on-disk record.
///
/// An absent or empty value means "no subject" and is not an error; any
/// other value must be a well-formed UUID, and a malformed one is a hard
/// failure.
pub fn parse_subject_id(subject_id: &Option<String>) -> (r: Result<Option<Uid>, InvalidSubjectId>)
    ensures
        match *subject_id {
            None => r == Ok::<Option<Uid>, InvalidSubjectId>(None),
            Some(s) => if s@.len() == 0 {
                r == Ok::<Option<Uid>, InvalidSubjectId>(None)
            } else {
                match parsed_uuid(s@) {
                    Some(v) => r == Ok::<Option<Uid>, InvalidSubjectId>(Some(Uid(v))),
                    None => r == Err::<Option<Uid>, InvalidSubjectId>(InvalidSubjectId),
                }
            },
        },
{
    match subject_id {
        None => Ok(None),
        Some(s) => {
            if s.as_str().is_empty() {
                Ok(None)
            } else {
                match parse_uuid(s.as_str()) {
                    Some(u) => Ok(Some(u)),
                    None => Err(InvalidSubjectId),
                }
            }
        },
    }
}

/// The default for a bell's `enabled` flag when the on-disk record omits it.
pub fn default_enabled() -> (r: bool)
    ensures
        r == true,
{
    true
}

/// The literal on-disk shape of a single bell entry: separate hour and minute
/// fields, an optional subject identifier, and an optional named bell type.
#[derive(Debug, Clone, PartialEq)]
pub struct BellTime {
    /// Unique identifier of the bell.
    pub id: Uid,
    /// Name of the bell.
    pub name: String,
    /// Minute of the bell's time.
    pub minute: u32,
    /// Hour of the bell's time.
    pub hour: u32,
    /// Identifier of the subject the bell refers to, if any.
    pub subject_id: Option<Uid>,
    /// Location of the bell.
    pub location: String,
    /// The named bell type, if any.
    pub bell_type: Option<BellType>,
    /// Whether the bell is enabled.
    pub enabled: bool,
}

/// The on-disk shape of a named bell type.
#[derive(Debug, Clone, PartialEq)]
pub struct BellType {
    /// Display name of the bell type.
    pub name: String,
    /// Icon token of the bell type.
    pub icon: String,
}

/// The mathematical value of an on-disk bell entry.
pub ghost struct BellTimeIrView {
    /// Unique identifier of the bell.
    pub id: Uid,
    /// Name of the bell.
    pub name: Seq<char>,
    /// Minute of the bell's time.
    pub minute: u32,
    /// Hour of the bell's time.
    pub hour: u32,
    /// Identifier of the subject the bell refers to, if any.
    pub subject_id: Option<Uid>,
    /// Location of the bell.
    pub location: Seq<char>,
    /// The named bell type, if any.
    pub bell_type: Option<BellTypeView>,
    /// Whether the bell is enabled.
    pub enabled: bool,
}

/// The mathematical value of an on-disk bell type.
pub ghost struct BellTypeView {
    /// Display name of the bell type.
    pub name: Seq<char>,
    /// Icon token of the bell type.
    pub icon: Seq<char>,
}

impl View for BellType {
    type V = BellTypeView;

    open spec fn view(&self) -> BellTypeView {
        BellTypeView { name: self.name@, icon: self.icon@ }
    }
}

impl View for BellTime {
    type V = BellTimeIrView;

    open spec fn view(&self) -> BellTimeIrView {
        BellTimeIrView {
            id: self.id,
            name: self.name@,
            minute: self.minute,
            hour: self.hour,
            subject_id: self.subject_id,
            location: self.location@,
            bell_type: match self.bell_type {
                Some(ref t) => Some(t@),
                None => None,
            },
            enabled: self.enabled,
        }
    }
}

} // verus!
