use vstd::prelude::*;
use crate::uid::Uid;

verus! {

/// Link to a website related to a school.
#[derive(Debug, Clone, PartialEq)]
pub struct Link {
    /// Unique identifier of the link.
    pub id: Uid,
    /// Name of the link.
    pub name: String,
    /// Icon associated with the link.
    pub icon: String,
    /// URL that the link points to.
    pub destination: String,
}

} // verus!
