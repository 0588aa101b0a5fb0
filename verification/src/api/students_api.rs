use crate::api::reply::Reply;
use crate::errors::RepoError;
use crate::laws::lemma_update_then_get;
use crate::models::student::{student_with_id, Student};
use crate::oid::{oid_seq, valid_object_id};
use crate::repository::Repository;
use crate::table::{key_at, table_get, table_has};
use vstd::prelude::*;

verus! {

/// POST /student: discards any caller-supplied identifier, stores the
/// record under a fresh identifier, and returns the stored record with
/// that identifier filled in.
pub fn create_student(db: &mut Repository, new_student: Student) -> (r: Reply<Student>)
    requires
        old(db).wf(),
    ensures
        final(db).wf(),
        final(db)@.teachers == old(db)@.teachers,
        final(db)@.parents == old(db)@.parents,
        old(db)@.next < u64::MAX ==> (r matches Reply::Success(p) && (p.id matches Some(s) && s@
            == oid_seq(old(db)@.next)) && student_with_id(p, None) == student_with_id(
            new_student,
            None,
        ) && final(db)@.students == old(db)@.students.push((oid_seq(old(db)@.next), p))
            && final(db)@.next == old(db)@.next + 1),
        old(db)@.next == u64::MAX ==> (r matches Reply::ServerError(m) && m@
            == "identifier space exhausted"@ && final(db)@ == old(db)@),
{
    let data = new_student.stripped();
    match db.create_student(data) {
        Ok(ins) => {
            let p = new_student.with_id(ins.inserted_id);
            Reply::Success(p)
        },
        Err(e) => Reply::ServerError(e.message()),
    }
}

/// GET /student/{id}: rejects an empty identifier without touching the
/// store, rejects a malformed one, misses with 404, and otherwise
/// returns the stored record.
pub fn get_student(db: &Repository, id: &String) -> (r: Reply<Student>)
    requires
        db.wf(),
    ensures
        id@.len() == 0 ==> (r matches Reply::BadRequest(m) && m@ == "invalid ID"@),
        !valid_object_id(id@) ==> (r matches Reply::BadRequest(m) && m@ == "invalid ID"@),
        valid_object_id(id@) ==> match table_get(db@.students, id@) {
            Some(p) => r == Reply::Success(p),
            None => (r matches Reply::NotFound(m) && m@
                == "No student found with specified ID"@),
        },
{
    if id.as_str().is_empty() {
        return Reply::BadRequest("invalid ID".to_owned());
    }
    match db.get_student(id) {
        Ok(p) => Reply::Success(p),
        Err(e) => match e {
            RepoError::InvalidInput => Reply::BadRequest("invalid ID".to_owned()),
            RepoError::NotFound => Reply::NotFound(
                "No student found with specified ID".to_owned(),
            ),
            RepoError::StoreError(s) => Reply::ServerError(s),
        },
    }
}

/// PUT /student/{id}: full replace of every field of the record under a
/// non-empty, well-formed identifier, which is kept; the updated record
/// is then read back and returned.  Zero matches yields a 404.
pub fn update_student(db: &mut Repository, id: &String, new_student: Student) -> (r: Reply<Student>)
    requires
        old(db).wf(),
    ensures
        final(db).wf(),
        final(db)@.teachers == old(db)@.teachers,
        final(db)@.parents == old(db)@.parents,
        final(db)@.next == old(db)@.next,
        id@.len() == 0 ==> (r matches Reply::BadRequest(m) && m@ == "invalid ID"@ && final(db)@
            == old(db)@),
        !valid_object_id(id@) ==> (r matches Reply::BadRequest(m) && m@ == "invalid ID"@
            && final(db)@ == old(db)@),
        valid_object_id(id@) && table_has(old(db)@.students, id@) ==> (r matches Reply::Success(p)
            && p == student_with_id(new_student, Some(*id)) && final(db)@.students == old(
            db,
        )@.students.update(key_at(old(db)@.students, id@), (id@, p))),
        valid_object_id(id@) && !table_has(old(db)@.students, id@) ==> (r matches Reply::NotFound(m)
            && m@ == "No student found with specified ID"@ && final(db)@ == old(db)@),
{
    if id.as_str().is_empty() {
        return Reply::BadRequest("invalid ID".to_owned());
    }
    let data = new_student.stripped();
    match db.update_student(id, data) {
        Ok(result) => {
            if result.matched_count == 1 {
                proof {
                    lemma_update_then_get(
                        old(db)@.students,
                        id@,
                        student_with_id(data, Some(*id)),
                    );
                }
                match db.get_student(id) {
                    Ok(p) => Reply::Success(p),
                    Err(e) => Reply::ServerError(e.message()),
                }
            } else {
                Reply::NotFound("No student found with specified ID".to_owned())
            }
        },
        Err(e) => match e {
            RepoError::InvalidInput => Reply::BadRequest("invalid ID".to_owned()),
            RepoError::NotFound => Reply::NotFound(
                "No student found with specified ID".to_owned(),
            ),
            RepoError::StoreError(s) => Reply::ServerError(s),
        },
    }
}

/// DELETE /student/{id}: removes the record under a non-empty,
/// well-formed identifier; one removal yields a confirmation, zero a
/// 404.
pub fn delete_student(db: &mut Repository, id: &String) -> (r: Reply<Student>)
    requires
        old(db).wf(),
    ensures
        final(db).wf(),
        final(db)@.teachers == old(db)@.teachers,
        final(db)@.parents == old(db)@.parents,
        final(db)@.next == old(db)@.next,
        id@.len() == 0 ==> (r matches Reply::BadRequest(m) && m@ == "invalid ID"@ && final(db)@
            == old(db)@),
        !valid_object_id(id@) ==> (r matches Reply::BadRequest(m) && m@ == "invalid ID"@
            && final(db)@ == old(db)@),
        valid_object_id(id@) && table_has(old(db)@.students, id@) ==> (r matches
            Reply::SuccessMessage(m) && m@ == "Student successfully deleted"@
            && final(db)@.students == old(db)@.students.remove(key_at(old(db)@.students, id@))),
        valid_object_id(id@) && !table_has(old(db)@.students, id@) ==> (r matches Reply::NotFound(m)
            && m@ == "Student with specified ID not found"@ && final(db)@ == old(db)@),
{
    if id.as_str().is_empty() {
        return Reply::BadRequest("invalid ID".to_owned());
    }
    match db.delete_student(id) {
        Ok(res) => {
            if res.deleted_count == 1 {
                Reply::SuccessMessage("Student successfully deleted".to_owned())
            } else {
                Reply::NotFound("Student with specified ID not found".to_owned())
            }
        },
        Err(e) => match e {
            RepoError::InvalidInput => Reply::BadRequest("invalid ID".to_owned()),
            RepoError::NotFound => Reply::NotFound(
                "Student with specified ID not found".to_owned(),
            ),
            RepoError::StoreError(s) => Reply::ServerError(s),
        },
    }
}

/// GET /students: every student record, in store order.
pub fn get_all_students(db: &Repository) -> (r: Reply<Student>)
    requires
        db.wf(),
    ensures
        r matches Reply::SuccessList(v) && v@.len() == db@.students.len() && (forall|i: int|
            0 <= i < db@.students.len() ==> v@[i] == (#[trigger] db@.students[i]).1),
{
    match db.get_all_students() {
        Ok(v) => Reply::SuccessList(v),
        Err(e) => Reply::ServerError(e.message()),
    }
}

} // verus!
