use crate::models::classroom::Classroom;
use crate::models::student::Student;
use vstd::prelude::*;

verus! {

/// The membership of a student in a classroom: defined in the data
/// model, but not wired into any endpoint or collection.
#[derive(Debug, PartialEq)]
pub struct ClassroomStudent {
    pub id: Option<String>,
    pub classroom: Classroom,
    pub student: Student,
}

} // verus!
