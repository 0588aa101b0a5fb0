use crate::table::Record;
use vstd::prelude::*;

verus! {

/// A teacher record: the same personal fields as a parent.
///
/// `dob` and `last_login_date` are timestamps in milliseconds since the
/// Unix epoch; `id` is the store-assigned identifier, absent until the
/// record has been created.
#[derive(Debug, PartialEq)]
pub struct Teacher {
    pub id: Option<String>,
    pub email: String,
    pub password: String,
    pub fname: String,
    pub lname: String,
    pub dob: i64,
    pub phone: String,
    pub mobile: String,
    pub status: bool,
    pub last_login_date: i64,
    pub last_login_ip: String,
}

/// `t` with its identifier replaced by `id` and all other fields kept.
pub open spec fn teacher_with_id(t: Teacher, id: Option<String>) -> Teacher {
    Teacher { id: id, ..t }
}

impl Teacher {
    /// A copy of the record with the caller-supplied identifier discarded.
    pub fn stripped(&self) -> (r: Teacher)
        ensures
            r == teacher_with_id(*self, None),
    {
        Teacher {
            id: None,
            email: self.email.clone(),
            password: self.password.clone(),
            fname: self.fname.clone(),
            lname: self.lname.clone(),
            dob: self.dob,
            phone: self.phone.clone(),
            mobile: self.mobile.clone(),
            status: self.status,
            last_login_date: self.last_login_date,
            last_login_ip: self.last_login_ip.clone(),
        }
    }

    /// A copy of the record with its identifier replaced by `id`.
    pub fn with_id(&self, id: String) -> (r: Teacher)
        ensures
            r == teacher_with_id(*self, Some(id)),
    {
        Teacher {
            id: Some(id),
            email: self.email.clone(),
            password: self.password.clone(),
            fname: self.fname.clone(),
            lname: self.lname.clone(),
            dob: self.dob,
            phone: self.phone.clone(),
            mobile: self.mobile.clone(),
            status: self.status,
            last_login_date: self.last_login_date,
            last_login_ip: self.last_login_ip.clone(),
        }
    }
}

impl Record for Teacher {
    fn duplicate(&self) -> (r: Teacher) {
        Teacher {
            id: match &self.id {
                Some(s) => Some(s.clone()),
                None => None,
            },
            email: self.email.clone(),
            password: self.password.clone(),
            fname: self.fname.clone(),
            lname: self.lname.clone(),
            dob: self.dob,
            phone: self.phone.clone(),
            mobile: self.mobile.clone(),
            status: self.status,
            last_login_date: self.last_login_date,
            last_login_ip: self.last_login_ip.clone(),
        }
    }
}

} // verus!
