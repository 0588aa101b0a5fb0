use crate::models::teacher::Teacher;
use vstd::prelude::*;

verus! {

/// A classroom record: defined in the data model, but not wired into
/// any endpoint or collection.
#[derive(Debug, PartialEq)]
pub struct Classroom {
    pub id: Option<String>,
    pub year: i32,
    pub grade_id: i64,
    pub section: String,
    pub status: bool,
    pub remarks: String,
    pub teacher: Teacher,
}

} // verus!
