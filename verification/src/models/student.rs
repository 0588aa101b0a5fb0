use crate::models::parent::Parent;
use crate::table::Record;
use vstd::prelude::*;

verus! {

/// A student record: the personal fields of a parent, plus an embedded
/// full copy of the parent record and a joining date.
///
/// Embedding (rather than referencing) the parent means later updates to
/// that parent are not reflected here; that is the stored layout.
#[derive(Debug, PartialEq)]
pub struct Student {
    pub id: Option<String>,
    pub email: String,
    pub password: String,
    pub fname: String,
    pub lname: String,
    pub dob: i64,
    pub phone: String,
    pub mobile: String,
    pub parent: Parent,
    pub date_of_join: i64,
    pub status: bool,
    pub last_login_date: i64,
    pub last_login_ip: String,
}

/// `s` with its identifier replaced by `id` and all other fields kept.
pub open spec fn student_with_id(s: Student, id: Option<String>) -> Student {
    Student { id: id, ..s }
}

impl Student {
    /// A copy of the record with the caller-supplied identifier discarded.
    pub fn stripped(&self) -> (r: Student)
        ensures
            r == student_with_id(*self, None),
    {
        Student {
            id: None,
            email: self.email.clone(),
            password: self.password.clone(),
            fname: self.fname.clone(),
            lname: self.lname.clone(),
            dob: self.dob,
            phone: self.phone.clone(),
            mobile: self.mobile.clone(),
            parent: self.parent.duplicate(),
            date_of_join: self.date_of_join,
            status: self.status,
            last_login_date: self.last_login_date,
            last_login_ip: self.last_login_ip.clone(),
        }
    }

    /// A copy of the record with its identifier replaced by `id`.
    pub fn with_id(&self, id: String) -> (r: Student)
        ensures
            r == student_with_id(*self, Some(id)),
    {
        Student {
            id: Some(id),
            email: self.email.clone(),
            password: self.password.clone(),
            fname: self.fname.clone(),
            lname: self.lname.clone(),
            dob: self.dob,
            phone: self.phone.clone(),
            mobile: self.mobile.clone(),
            parent: self.parent.duplicate(),
            date_of_join: self.date_of_join,
            status: self.status,
            last_login_date: self.last_login_date,
            last_login_ip: self.last_login_ip.clone(),
        }
    }
}

impl Record for Student {
    fn duplicate(&self) -> (r: Student) {
        Student {
            id: match &self.id {
                Some(s) => Some(s.clone()),
                None => None,
            },
            email: self.email.clone(),
            password: self.password.clone(),
            fname: self.fname.clone(),
            lname: self.lname.clone(),
            dob: self.dob,
            phone: self.phone.clone(),
            mobile: self.mobile.clone(),
            parent: self.parent.duplicate(),
            date_of_join: self.date_of_join,
            status: self.status,
            last_login_date: self.last_login_date,
            last_login_ip: self.last_login_ip.clone(),
        }
    }
}

} // verus!
