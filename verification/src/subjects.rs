use vstd::prelude::*;
use crate::color::Color;
use crate::uid::Uid;

verus! {

/// Subject, normally referred to by a class bell.
#[derive(Debug, Clone, PartialEq)]
pub struct Subject {
    /// Unique identifier.
    pub id: Uid,
    /// Name of the subject.
    pub name: String,
    /// Color of the subject.
    pub color: Color,
    /// Locations where the subject is taught.
    pub locations: Vec<String>,
    /// Icon token of the subject.
    pub icon: String,
}

} // verus!
