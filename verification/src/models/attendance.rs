use crate::models::student::Student;
use vstd::prelude::*;

verus! {

/// An attendance record: defined in the data model, but not wired into
/// any endpoint or collection.
#[derive(Debug, PartialEq)]
pub struct Attendance {
    pub id: Option<String>,
    pub date: i64,
    pub student: Student,
    pub status: bool,
    pub remark: String,
}

} // verus!
