use crate::api::reply::Reply;
use crate::errors::RepoError;
use crate::laws::lemma_update_then_get;
use crate::models::teacher::{teacher_with_id, Teacher};
use crate::oid::{oid_seq, valid_object_id};
use crate::repository::Repository;
use crate::table::{key_at, table_get, table_has};
use vstd::prelude::*;

verus! {

/// POST /teacher: discards any caller-supplied identifier, stores the
/// record under a fresh identifier, and returns the stored record with
/// that identifier filled in.
pub fn create_teacher(db: &mut Repository, new_teacher: Teacher) -> (r: Reply<Teacher>)
    requires
        old(db).wf(),
    ensures
        final(db).wf(),
        final(db)@.parents == old(db)@.parents,
        final(db)@.students == old(db)@.students,
        old(db)@.next < u64::MAX ==> (r matches Reply::Success(p) && (p.id matches Some(s) && s@
            == oid_seq(old(db)@.next)) && teacher_with_id(p, None) == teacher_with_id(
            new_teacher,
            None,
        ) && final(db)@.teachers == old(db)@.teachers.push((oid_seq(old(db)@.next), p))
            && final(db)@.next == old(db)@.next + 1),
        old(db)@.next == u64::MAX ==> (r matches Reply::ServerError(m) && m@
            == "identifier space exhausted"@ && final(db)@ == old(db)@),
{
    let data = new_teacher.stripped();
    match db.create_teacher(data) {
        Ok(ins) => {
            let p = new_teacher.with_id(ins.inserted_id);
            Reply::Success(p)
        },
        Err(e) => Reply::ServerError(e.message()),
    }
}

/// GET /teacher/{id}: rejects an empty identifier without touching the
/// store, rejects a malformed one, misses with 404, and otherwise
/// returns the stored record.
pub fn get_teacher(db: &Repository, id: &String) -> (r: Reply<Teacher>)
    requires
        db.wf(),
    ensures
        id@.len() == 0 ==> (r matches Reply::BadRequest(m) && m@ == "invalid ID"@),
        !valid_object_id(id@) ==> (r matches Reply::BadRequest(m) && m@ == "invalid ID"@),
        valid_object_id(id@) ==> match table_get(db@.teachers, id@) {
            Some(p) => r == Reply::Success(p),
            None => (r matches Reply::NotFound(m) && m@
                == "No teacher found with specified ID"@),
        },
{
    if id.as_str().is_empty() {
        return Reply::BadRequest("invalid ID".to_owned());
    }
    match db.get_teacher(id) {
        Ok(p) => Reply::Success(p),
        Err(e) => match e {
            RepoError::InvalidInput => Reply::BadRequest("invalid ID".to_owned()),
            RepoError::NotFound => Reply::NotFound(
                "No teacher found with specified ID".to_owned(),
            ),
            RepoError::StoreError(s) => Reply::ServerError(s),
        },
    }
}

/// PUT /teacher/{id}: full replace of every field of the record under a
/// non-empty, well-formed identifier, which is kept; the updated record
/// is then read back and returned.  Zero matches yields a 404.
pub fn update_teacher(db: &mut Repository, id: &String, new_teacher: Teacher) -> (r: Reply<Teacher>)
    requires
        old(db).wf(),
    ensures
        final(db).wf(),
        final(db)@.parents == old(db)@.parents,
        final(db)@.students == old(db)@.students,
        final(db)@.next == old(db)@.next,
        id@.len() == 0 ==> (r matches Reply::BadRequest(m) && m@ == "invalid ID"@ && final(db)@
            == old(db)@),
        !valid_object_id(id@) ==> (r matches Reply::BadRequest(m) && m@ == "invalid ID"@
            && final(db)@ == old(db)@),
        valid_object_id(id@) && table_has(old(db)@.teachers, id@) ==> (r matches Reply::Success(p)
            && p == teacher_with_id(new_teacher, Some(*id)) && final(db)@.teachers == old(
            db,
        )@.teachers.update(key_at(old(db)@.teachers, id@), (id@, p))),
        valid_object_id(id@) && !table_has(old(db)@.teachers, id@) ==> (r matches Reply::NotFound(m)
            && m@ == "No teacher found with specified ID"@ && final(db)@ == old(db)@),
{
    if id.as_str().is_empty() {
        return Reply::BadRequest("invalid ID".to_owned());
    }
    let data = new_teacher.stripped();
    match db.update_teacher(id, data) {
        Ok(result) => {
            if result.matched_count == 1 {
                proof {
                    lemma_update_then_get(
                        old(db)@.teachers,
                        id@,
                        teacher_with_id(data, Some(*id)),
                    );
                }
                match db.get_teacher(id) {
                    Ok(p) => Reply::Success(p),
                    Err(e) => Reply::ServerError(e.message()),
                }
            } else {
                Reply::NotFound("No teacher found with specified ID".to_owned())
            }
        },
        Err(e) => match e {
            RepoError::InvalidInput => Reply::BadRequest("invalid ID".to_owned()),
            RepoError::NotFound => Reply::NotFound(
                "No teacher found with specified ID".to_owned(),
            ),
            RepoError::StoreError(s) => Reply::ServerError(s),
        },
    }
}

/// DELETE /teacher/{id}: removes the record under a non-empty,
/// well-formed identifier; one removal yields a confirmation, zero a
/// 404.
pub fn delete_teacher(db: &mut Repository, id: &String) -> (r: Reply<Teacher>)
    requires
        old(db).wf(),
    ensures
        final(db).wf(),
        final(db)@.parents == old(db)@.parents,
        final(db)@.students == old(db)@.students,
        final(db)@.next == old(db)@.next,
        id@.len() == 0 ==> (r matches Reply::BadRequest(m) && m@ == "invalid ID"@ && final(db)@
            == old(db)@),
        !valid_object_id(id@) ==> (r matches Reply::BadRequest(m) && m@ == "invalid ID"@
            && final(db)@ == old(db)@),
        valid_object_id(id@) && table_has(old(db)@.teachers, id@) ==> (r matches
            Reply::SuccessMessage(m) && m@ == "Teacher successfully deleted"@
            && final(db)@.teachers == old(db)@.teachers.remove(key_at(old(db)@.teachers, id@))),
        valid_object_id(id@) && !table_has(old(db)@.teachers, id@) ==> (r matches Reply::NotFound(m)
            && m@ == "Teacher with specified ID not found"@ && final(db)@ == old(db)@),
{
    if id.as_str().is_empty() {
        return Reply::BadRequest("invalid ID".to_owned());
    }
    match db.delete_teacher(id) {
        Ok(res) => {
            if res.deleted_count == 1 {
                Reply::SuccessMessage("Teacher successfully deleted".to_owned())
            } else {
                Reply::NotFound("Teacher with specified ID not found".to_owned())
            }
        },
        Err(e) => match e {
            RepoError::InvalidInput => Reply::BadRequest("invalid ID".to_owned()),
            RepoError::NotFound => Reply::NotFound(
                "Teacher with specified ID not found".to_owned(),
            ),
            RepoError::StoreError(s) => Reply::ServerError(s),
        },
    }
}

/// GET /teachers: every teacher record, in store order.
pub fn get_all_teachers(db: &Repository) -> (r: Reply<Teacher>)
    requires
        db.wf(),
    ensures
        r matches Reply::SuccessList(v) && v@.len() == db@.teachers.len() && (forall|i: int|
            0 <= i < db@.teachers.len() ==> v@[i] == (#[trigger] db@.teachers[i]).1),
{
    match db.get_all_teachers() {
        Ok(v) => Reply::SuccessList(v),
        Err(e) => Reply::ServerError(e.message()),
    }
}

} // verus!
