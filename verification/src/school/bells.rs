use vstd::prelude::*;
use vstd::string::StringExecFns;
use crate::clock::{spec_format_12h, ClockTime};
use crate::uid::Uid;
use crate::Subjective;
use ir::{BellTimeIrView, BellTypeView};

/// The on-disk shape of a single bell entry.
pub mod ir;

verus! {

/// One scheduled timetable event at a specific time of day.
#[derive(Debug, Clone, PartialEq, Eq, Hash)]
pub struct BellTime {
    /// Unique identifier of the bell.
    pub id: Uid,
    /// Name of the bell.
    pub name: String,
    /// Time of the bell.
    pub time: ClockTime,
    /// Data related to the bell.
    pub bell_data: Option<BellData>,
    /// Whether the bell is enabled. Disabled bells are never an endpoint of a
    /// bell search.
    pub enabled: bool,
}

/// Data associated with a [`BellTime`]: the closed set of bell kinds.
#[derive(Debug, Clone, PartialEq, Eq, Hash)]
pub enum BellData {
    /// Class which is related to a subject.
    Class {
        /// Identifier of the subject that the bell rings for.
        subject_id: Uid,
        /// Location of the bell. This can be a related classroom.
        location: String,
    },
    /// Important time, such as the start and end of the school day.
    Time,
    /// A recess, lunch, or another break between classes.
    Break,
    /// Study period.
    Study,
    /// Miscellaneous break.
    Pause,
}

/// The mathematical value of a [`BellData`]: names as character sequences.
pub ghost enum BellDataView {
    /// Class which is related to a subject.
    Class {
        /// Identifier of the subject.
        subject_id: Uid,
        /// Location of the bell.
        location: Seq<char>,
    },
    /// Important time.
    Time,
    /// A break between classes.
    Break,
    /// Study period.
    Study,
    /// Miscellaneous break.
    Pause,
}

/// The mathematical value of a [`BellTime`].
pub ghost struct BellTimeView {
    /// Unique identifier of the bell.
    pub id: Uid,
    /// Name of the bell.
    pub name: Seq<char>,
    /// Time of the bell.
    pub time: ClockTime,
    /// Data related to the bell.
    pub bell_data: Option<BellDataView>,
    /// Whether the bell is enabled.
    pub enabled: bool,
}

impl View for BellData {
    type V = BellDataView;

    open spec fn view(&self) -> BellDataView {
        match self {
            BellData::Class { subject_id, location } => BellDataView::Class {
                subject_id: *subject_id,
                location: location@,
            },
            BellData::Time => BellDataView::Time,
            BellData::Break => BellDataView::Break,
            BellData::Study => BellDataView::Study,
            BellData::Pause => BellDataView::Pause,
        }
    }
}

impl View for BellTime {
    type V = BellTimeView;

    open spec fn view(&self) -> BellTimeView {
        BellTimeView {
            id: self.id,
            name: self.name@,
            time: self.time,
            bell_data: match self.bell_data {
                Some(data) => Some(data@),
                None => None,
            },
            enabled: self.enabled,
        }
    }
}

impl BellTimeView {
    /// The bell's time is a valid wall-clock reading.
    pub open spec fn wf(self) -> bool {
        self.time.wf()
    }
}

/// Errors that can occur when formatting a [`BellTime`].
#[derive(Debug, Clone, Copy, PartialEq, Eq, Hash, Structural)]
pub enum FormatBellError {
    /// The subject with the given ID was not found. This means that the data
    /// is invalid: a class bell points at a subject the aggregate does not
    /// hold.
    SubjectNotFound(Uid),
}

/// The icon token of each non-class bell kind; class bells take their icon
/// from the subject instead.
pub open spec fn spec_icon(data: BellDataView) -> Option<Seq<char>> {
    match data {
        BellDataView::Class { .. } => None,
        BellDataView::Time => Some("clock.fill"@),
        BellDataView::Break => Some("fork.knife"@),
        BellDataView::Study => Some("book.fill"@),
        BellDataView::Pause => Some("pause.fill"@),
    }
}

/// The display name of each bell kind, which is also its wire name.
pub open spec fn spec_kind_name(data: BellDataView) -> Seq<char> {
    match data {
        BellDataView::Class { .. } => "Class"@,
        BellDataView::Time => "Time"@,
        BellDataView::Break => "Break"@,
        BellDataView::Study => "Study"@,
        BellDataView::Pause => "Pause"@,
    }
}

/// The named bell type an on-disk record carries for a bell kind: none for a
/// class bell, otherwise the kind's wire name and icon token.
pub open spec fn spec_bell_type_to_ir(data: BellDataView) -> Option<BellTypeView> {
    match data {
        BellDataView::Class { .. } => None,
        BellDataView::Time => Some(BellTypeView { name: "Time"@, icon: "clock.fill"@ }),
        BellDataView::Break => Some(BellTypeView { name: "Break"@, icon: "fork.knife"@ }),
        BellDataView::Study => Some(BellTypeView { name: "Study"@, icon: "book.fill"@ }),
        BellDataView::Pause => Some(BellTypeView { name: "Pause"@, icon: "pause.fill"@ }),
    }
}

/// The bell kind reconstructed from an on-disk record.
///
/// A named bell type is matched against the four fixed wire names; an
/// unrecognized name yields no kind rather than an error. Without a named
/// type, a present subject identifier makes the bell a class bell; with
/// neither, the bell carries no kind.
pub open spec fn spec_bell_data_from_ir(ir: BellTimeIrView) -> Option<BellDataView> {
    match ir.bell_type {
        Some(bt) => if bt.name == "Time"@ {
            Some(BellDataView::Time)
        } else if bt.name == "Break"@ {
            Some(BellDataView::Break)
        } else if bt.name == "Study"@ {
            Some(BellDataView::Study)
        } else if bt.name == "Pause"@ {
            Some(BellDataView::Pause)
        } else {
            None
        },
        None => match ir.subject_id {
            Some(sid) => Some(
                BellDataView::Class { subject_id: sid, location: ir.location },
            ),
            None => None,
        },
    }
}

/// The domain bell reconstructed from an on-disk record, or nothing when the
/// record's hour or minute is out of range.
pub open spec fn spec_from_ir(ir: BellTimeIrView) -> Option<BellTimeView> {
    if ir.hour <= 23 && ir.minute <= 59 {
        Some(
            BellTimeView {
                id: ir.id,
                name: ir.name,
                time: ClockTime { hour: ir.hour as u8, minute: ir.minute as u8 },
                bell_data: spec_bell_data_from_ir(ir),
                enabled: ir.enabled,
            },
        )
    } else {
        None
    }
}

/// The on-disk record of a domain bell: a class bell writes its subject
/// identifier and location directly; a non-class kind writes a named bell
/// type instead, with an empty subject and location.
pub open spec fn spec_to_ir(v: BellTimeView) -> BellTimeIrView {
    BellTimeIrView {
        id: v.id,
        name: v.name,
        minute: v.time.minute as u32,
        hour: v.time.hour as u32,
        subject_id: match v.bell_data {
            Some(BellDataView::Class { subject_id, .. }) => Some(subject_id),
            _ => None,
        },
        location: match v.bell_data {
            Some(BellDataView::Class { location, .. }) => location,
            _ => Seq::empty(),
        },
        bell_type: match v.bell_data {
            Some(k) => spec_bell_type_to_ir(k),
            None => None,
        },
        enabled: v.enabled,
    }
}

/// Writing a bell out and reading it back yields the same bell.
///
/// For every well-formed domain bell, the on-disk record produced by
/// [`spec_to_ir`] is accepted by [`spec_from_ir`] and reconstructs the bell
/// exactly, kind included.
pub proof fn lemma_bell_time_round_trip(v: BellTimeView)
    requires
        v.wf(),
    ensures
        spec_from_ir(spec_to_ir(v)) == Some(v),
{
    reveal_strlit("Time");
    reveal_strlit("Break");
    reveal_strlit("Study");
    reveal_strlit("Pause");
    match v.bell_data {
        Some(BellDataView::Class { subject_id, location }) => {
            assert(spec_from_ir(spec_to_ir(v)) == Some(v));
        },
        Some(BellDataView::Time) => {
            assert(spec_from_ir(spec_to_ir(v)) == Some(v));
        },
        Some(BellDataView::Break) => {
            assert("Break"@.len() == 5);
            assert("Time"@.len() == 4);
            assert("Break"@ != "Time"@);
            assert(spec_from_ir(spec_to_ir(v)) == Some(v));
        },
        Some(BellDataView::Study) => {
            assert("Study"@.len() == 5);
            assert("Time"@.len() == 4);
            assert("Study"@[0] == 'S');
            assert("Break"@[0] == 'B');
            assert("Study"@ != "Time"@);
            assert("Study"@ != "Break"@);
            assert(spec_from_ir(spec_to_ir(v)) == Some(v));
        },
        Some(BellDataView::Pause) => {
            assert("Pause"@.len() == 5);
            assert("Time"@.len() == 4);
            assert("Pause"@[0] == 'P');
            assert("Break"@[0] == 'B');
            assert("Study"@[0] == 'S');
            assert("Pause"@ != "Time"@);
            assert("Pause"@ != "Break"@);
            assert("Pause"@ != "Study"@);
            assert(spec_from_ir(spec_to_ir(v)) == Some(v));
        },
        None => {
            assert(spec_from_ir(spec_to_ir(v)) == Some(v));
        },
    }
}

/// The one-line rendering of a bell: `<subject> in <location> <name>` for a
/// class bell (given the resolved subject's name), `<kind> <name>` for the
/// fixed kinds, or just `<name>` with no kind; optionally suffixed with the
/// bell's time in 12-hour form.
pub open spec fn spec_format_line(b: BellTimeView, subject_name: Seq<char>, with_time: bool) -> Seq<
    char,
> {
    let base = match b.bell_data {
        Some(BellDataView::Class { location, .. }) => subject_name + " in "@ + location + " "@
            + b.name,
        Some(k) => spec_kind_name(k) + " "@ + b.name,
        None => b.name,
    };
    if with_time {
        base + " "@ + spec_format_12h(b.time)
    } else {
        base
    }
}

/// What a successful formatting of `b` against `data` must produce: for a
/// class bell the line uses the name of the first subject matching the
/// bell's subject ID; any other bell needs no subject.
pub open spec fn spec_format_ok(b: BellTime, data: Subjective, with_time: bool, out: Seq<
    char,
>) -> bool {
    match b.bell_data {
        Some(BellData::Class { subject_id, .. }) => exists|i: int|
            0 <= i < data.subjects@.len() && data.subjects@[i].id == subject_id && (forall|j: int|
                0 <= j < i ==> data.subjects@[j].id != subject_id) && out == spec_format_line(b@,
                data.subjects@[i].name@, with_time),
        _ => out == spec_format_line(b@, Seq::empty(), with_time),
    }
}

/// Whether formatting `b` against `data` must fail: the bell is a class bell
/// whose subject ID matches no subject of the aggregate.
pub open spec fn spec_format_fails(b: BellTime, data: Subjective) -> bool {
    match b.bell_data {
        Some(BellData::Class { subject_id, .. }) => !(exists|i: int|
            0 <= i < data.subjects@.len() && data.subjects@[i].id == subject_id),
        _ => false,
    }
}

impl BellTime {
    /// Render the bell as a single line, resolving the subject of a class
    /// bell in the given aggregate.
    fn inner_format(&self, data: &Subjective, show_time: bool) -> (r: Result<
        String,
        FormatBellError,
    >)
        requires
            self.time.wf(),
        ensures
            r is Err <==> spec_format_fails(*self, *data),
            r matches Err(e) ==> (self.bell_data matches Some(BellData::Class { subject_id, .. })
                && e == FormatBellError::SubjectNotFound(subject_id)),
            r matches Ok(out) ==> spec_format_ok(*self, *data, show_time, out@),
    {
        let mut output = String::new();
        match &self.bell_data {
            Some(BellData::Class { subject_id, location }) => {
                let subject = match data.get_subject(*subject_id) {
                    Some(s) => s,
                    None => {
                        return Err(FormatBellError::SubjectNotFound(*subject_id));
                    },
                };
                output.append(subject.name.as_str());
                output.append(" in ");
                output.append(location.as_str());
                output.append(" ");
                output.append(self.name.as_str());
            },
            Some(kind) => {
                let kind_name = kind.kind_name();
                output.append(kind_name.as_str());
                output.append(" ");
                output.append(self.name.as_str());
            },
            None => {
                output.append(self.name.as_str());
            },
        }
        if show_time {
            output.append(" ");
            let time = self.time.format_12h();
            output.append(time.as_str());
        }
        Ok(output)
    }

    /// Format the bell as a single line, in the context of the given
    /// aggregate. The aggregate resolves the subject that a class bell rings
    /// for: `<subject> in <location> <bell-name>`; a fixed kind renders as
    /// `<kind> <bell-name>`, and a bell without data as its name alone.
    ///
    /// # Errors
    ///
    /// Fails with [`FormatBellError::SubjectNotFound`] if and only if this is
    /// a class bell whose subject ID matches no subject of the aggregate.
    pub fn format(&self, data: &Subjective) -> (r: Result<String, FormatBellError>)
        requires
            self.time.wf(),
        ensures
            r is Err <==> spec_format_fails(*self, *data),
            r matches Err(e) ==> (self.bell_data matches Some(BellData::Class { subject_id, .. })
                && e == FormatBellError::SubjectNotFound(subject_id)),
            r matches Ok(out) ==> spec_format_ok(*self, *data, false, out@),
    {
        self.inner_format(data, false)
    }

    /// Format the bell as [`BellTime::format`] does, then concatenate the
    /// bell's time in 12-hour form at the end.
    ///
    /// # Errors
    ///
    /// Fails with [`FormatBellError::SubjectNotFound`] if and only if this is
    /// a class bell whose subject ID matches no subject of the aggregate.
    pub fn format_with_time(&self, data: &Subjective) -> (r: Result<String, FormatBellError>)
        requires
            self.time.wf(),
        ensures
            r is Err <==> spec_format_fails(*self, *data),
            r matches Err(e) ==> (self.bell_data matches Some(BellData::Class { subject_id, .. })
                && e == FormatBellError::SubjectNotFound(subject_id)),
            r matches Ok(out) ==> spec_format_ok(*self, *data, true, out@),
    {
        self.inner_format(data, true)
    }

    /// Reconstruct a domain bell from its on-disk record, rejecting a record
    /// whose hour or minute is out of range.
    pub fn from_ir(bell_time: &ir::BellTime) -> (r: Option<BellTime>)
        ensures
            r is Some <==> spec_from_ir(bell_time@) is Some,
            r matches Some(b) ==> spec_from_ir(bell_time@) == Some(b@),
    {
        let time = match ClockTime::new(bell_time.hour, bell_time.minute) {
            Some(t) => t,
            None => {
                return None;
            },
        };
        let bell_data = BellData::from_ir(bell_time);
        Some(
            BellTime {
                id: bell_time.id,
                name: bell_time.name.clone(),
                time,
                bell_data,
                enabled: bell_time.enabled,
            },
        )
    }

    /// Write a domain bell out as its on-disk record.
    pub fn to_ir(&self) -> (r: ir::BellTime)
        ensures
            r@ == spec_to_ir(self@),
    {
        let bell_type = match &self.bell_data {
            Some(data) => data.to_ir(),
            None => None,
        };
        let subject_id = match &self.bell_data {
            Some(BellData::Class { subject_id, .. }) => Some(*subject_id),
            _ => None,
        };
        let location = match &self.bell_data {
            Some(BellData::Class { location, .. }) => location.clone(),
            _ => String::new(),
        };
        let r = ir::BellTime {
            id: self.id,
            name: self.name.clone(),
            hour: self.time.hour as u32,
            minute: self.time.minute as u32,
            subject_id,
            location,
            bell_type,
            enabled: self.enabled,
        };
        proof {
            reveal_strlit("");
            assert(r@.location =~= spec_to_ir(self@).location);
        }
        r
    }
}

impl BellData {
    /// Get the icon token associated with the bell kind.
    /// Returns [`None`] when the bell data is [`BellData::Class`].
    pub fn icon(&self) -> (r: Option<String>)
        ensures
            r is Some <==> spec_icon(self@) is Some,
            r matches Some(s) ==> spec_icon(self@) == Some(s@),
    {
        match self {
            BellData::Class { .. } => None,
            BellData::Time => Some(String::from_str("clock.fill")),
            BellData::Break => Some(String::from_str("fork.knife")),
            BellData::Study => Some(String::from_str("book.fill")),
            BellData::Pause => Some(String::from_str("pause.fill")),
        }
    }

    /// The display name of the bell kind.
    pub fn kind_name(&self) -> (r: String)
        ensures
            r@ == spec_kind_name(self@),
    {
        match self {
            BellData::Class { .. } => String::from_str("Class"),
            BellData::Time => String::from_str("Time"),
            BellData::Break => String::from_str("Break"),
            BellData::Study => String::from_str("Study"),
            BellData::Pause => String::from_str("Pause"),
        }
    }

    /// Reconstruct a bell kind from an on-disk record.
    pub fn from_ir(bell_time: &ir::BellTime) -> (r: Option<BellData>)
        ensures
            r is Some <==> spec_bell_data_from_ir(bell_time@) is Some,
            r matches Some(d) ==> spec_bell_data_from_ir(bell_time@) == Some(d@),
    {
        match &bell_time.bell_type {
            Some(bt) => {
                if bt.name == String::from_str("Time") {
                    Some(BellData::Time)
                } else if bt.name == String::from_str("Break") {
                    Some(BellData::Break)
                } else if bt.name == String::from_str("Study") {
                    Some(BellData::Study)
                } else if bt.name == String::from_str("Pause") {
                    Some(BellData::Pause)
                } else {
                    None
                }
            },
            None => match bell_time.subject_id {
                Some(sid) => Some(
                    BellData::Class { subject_id: sid, location: bell_time.location.clone() },
                ),
                None => None,
            },
        }
    }

    /// Write a bell kind out as its on-disk named bell type, if it has one.
    pub fn to_ir(&self) -> (r: Option<ir::BellType>)
        ensures
            r is Some <==> spec_bell_type_to_ir(self@) is Some,
            r matches Some(t) ==> spec_bell_type_to_ir(self@) == Some(t@),
    {
        match self {
            BellData::Class { .. } => None,
            BellData::Time => Some(
                ir::BellType {
                    name: String::from_str("Time"),
                    icon: String::from_str("clock.fill"),
                },
            ),
            BellData::Break => Some(
                ir::BellType {
                    name: String::from_str("Break"),
                    icon: String::from_str("fork.knife"),
                },
            ),
            BellData::Study => Some(
                ir::BellType {
                    name: String::from_str("Study"),
                    icon: String::from_str("book.fill"),
                },
            ),
            BellData::Pause => Some(
                ir::BellType {
                    name: String::from_str("Pause"),
                    icon: String::from_str("pause.fill"),
                },
            ),
        }
    }

    /// Returns `true` if the bell data is [`BellData::Class`].
    pub fn is_class(&self) -> (r: bool)
        ensures
            r == (self is Class),
    {
        matches!(self, BellData::Class { .. })
    }

    /// Returns `true` if the bell data is [`BellData::Time`].
    pub fn is_time(&self) -> (r: bool)
        ensures
            r == (self is Time),
    {
        matches!(self, BellData::Time)
    }

    /// Returns `true` if the bell data is [`BellData::Break`].
    pub fn is_break(&self) -> (r: bool)
        ensures
            r == (self is Break),
    {
        matches!(self, BellData::Break)
    }

    /// Returns `true` if the bell data is [`BellData::Study`].
    pub fn is_study(&self) -> (r: bool)
        ensures
            r == (self is Study),
    {
        matches!(self, BellData::Study)
    }

    /// Returns `true` if the bell data is [`BellData::Pause`].
    pub fn is_pause(&self) -> (r: bool)
        ensures
            r == (self is Pause),
    {
        matches!(self, BellData::Pause)
    }
}

} // verus!
