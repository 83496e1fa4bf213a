use vstd::prelude::*;
use crate::uid::Uid;

verus! {

/// Notice related to a school.
#[derive(Debug, Clone, PartialEq)]
pub struct Notice {
    /// Unique identifier of the notice.
    pub id: Uid,
    /// Title of the notice.
    pub title: String,
    /// Content of the notice.
    pub content: String,
    /// Whether the notice is a priority. If true, displayed more prominently.
    pub priority: bool,
}

} // verus!
