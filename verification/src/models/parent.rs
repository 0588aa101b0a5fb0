use crate::table::Record;
use vstd::prelude::*;

verus! {

/// A parent record.
///
/// `dob` and `last_login_date` are timestamps in milliseconds since the
/// Unix epoch; `id` is the store-assigned identifier, absent until the
/// record has been created.
#[derive(Debug, PartialEq)]
pub struct Parent {
    pub id: Option<String>,
    pub email: String,
    pub password: String,
    pub fname: String,
    pub lname: String,
    pub dob: i64,
    pub phone: String,
    pub mobile: String,
    pub status: bool,
    pub last_login_date: i64,
    pub last_login_ip: String,
}

/// `p` with its identifier replaced by `id` and all other fields kept.
pub open spec fn parent_with_id(p: Parent, id: Option<String>) -> Parent {
    Parent { id: id, ..p }
}

impl Parent {
    /// A copy of the record with the caller-supplied identifier discarded.
    pub fn stripped(&self) -> (r: Parent)
        ensures
            r == parent_with_id(*self, None),
    {
        Parent {
            id: None,
            email: self.email.clone(),
            password: self.password.clone(),
            fname: self.fname.clone(),
            lname: self.lname.clone(),
            dob: self.dob,
            phone: self.phone.clone(),
            mobile: self.mobile.clone(),
            status: self.status,
            last_login_date: self.last_login_date,
            last_login_ip: self.last_login_ip.clone(),
        }
    }

    /// A copy of the record with its identifier replaced by `id`.
    pub fn with_id(&self, id: String) -> (r: Parent)
        ensures
            r == parent_with_id(*self, Some(id)),
    {
        Parent {
            id: Some(id),
            email: self.email.clone(),
            password: self.password.clone(),
            fname: self.fname.clone(),
            lname: self.lname.clone(),
            dob: self.dob,
            phone: self.phone.clone(),
            mobile: self.mobile.clone(),
            status: self.status,
            last_login_date: self.last_login_date,
            last_login_ip: self.last_login_ip.clone(),
        }
    }
}

impl Record for Parent {
    fn duplicate(&self) -> (r: Parent) {
        Parent {
            id: match &self.id {
                Some(s) => Some(s.clone()),
                None => None,
            },
            email: self.email.clone(),
            password: self.password.clone(),
            fname: self.fname.clone(),
            lname: self.lname.clone(),
            dob: self.dob,
            phone: self.phone.clone(),
            mobile: self.mobile.clone(),
            status: self.status,
            last_login_date: self.last_login_date,
            last_login_ip: self.last_login_ip.clone(),
        }
    }
}

} // verus!
