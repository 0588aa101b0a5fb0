use crate::api::reply::Reply;
use crate::errors::RepoError;
use crate::laws::lemma_update_then_get;
use crate::models::parent::{parent_with_id, Parent};
use crate::oid::{oid_seq, valid_object_id};
use crate::repository::Repository;
use crate::table::{key_at, table_get, table_has};
use vstd::prelude::*;

verus! {

/// POST /parent: discards any caller-supplied identifier, stores the
/// record under a fresh identifier, and returns the stored record with
/// that identifier filled in.
pub fn create_parent(db: &mut Repository, new_parent: Parent) -> (r: Reply<Parent>)
    requires
        old(db).wf(),
    ensures
        final(db).wf(),
        final(db)@.teachers == old(db)@.teachers,
        final(db)@.students == old(db)@.students,
        old(db)@.next < u64::MAX ==> (r matches Reply::Success(p) && (p.id matches Some(s) && s@
            == oid_seq(old(db)@.next)) && parent_with_id(p, None) == parent_with_id(
            new_parent,
            None,
        ) && final(db)@.parents == old(db)@.parents.push((oid_seq(old(db)@.next), p))
            && final(db)@.next == old(db)@.next + 1),
        old(db)@.next == u64::MAX ==> (r matches Reply::ServerError(m) && m@
            == "identifier space exhausted"@ && final(db)@ == old(db)@),
{
    let data = new_parent.stripped();
    match db.create_parent(data) {
        Ok(ins) => {
            let p = new_parent.with_id(ins.inserted_id);
            Reply::Success(p)
        },
        Err(e) => Reply::ServerError(e.message()),
    }
}

/// GET /parent/{id}: rejects an empty identifier without touching the
/// store, rejects a malformed one, misses with 404, and otherwise
/// returns the stored record.
pub fn get_parent(db: &Repository, id: &String) -> (r: Reply<Parent>)
    requires
        db.wf(),
    ensures
        id@.len() == 0 ==> (r matches Reply::BadRequest(m) && m@ == "invalid ID"@),
        !valid_object_id(id@) ==> (r matches Reply::BadRequest(m) && m@ == "invalid ID"@),
        valid_object_id(id@) ==> match table_get(db@.parents, id@) {
            Some(p) => r == Reply::Success(p),
            None => (r matches Reply::NotFound(m) && m@
                == "No parent found with specified ID"@),
        },
{
    if id.as_str().is_empty() {
        return Reply::BadRequest("invalid ID".to_owned());
    }
    match db.get_parent(id) {
        Ok(p) => Reply::Success(p),
        Err(e) => match e {
            RepoError::InvalidInput => Reply::BadRequest("invalid ID".to_owned()),
            RepoError::NotFound => Reply::NotFound(
                "No parent found with specified ID".to_owned(),
            ),
            RepoError::StoreError(s) => Reply::ServerError(s),
        },
    }
}

/// PUT /parent/{id}: full replace of every field of the record under a
/// non-empty, well-formed identifier, which is kept; the updated record
/// is then read back and returned.  Zero matches yields a 404.
pub fn update_parent(db: &mut Repository, id: &String, new_parent: Parent) -> (r: Reply<Parent>)
    requires
        old(db).wf(),
    ensures
        final(db).wf(),
        final(db)@.teachers == old(db)@.teachers,
        final(db)@.students == old(db)@.students,
        final(db)@.next == old(db)@.next,
        id@.len() == 0 ==> (r matches Reply::BadRequest(m) && m@ == "invalid ID"@ && final(db)@
            == old(db)@),
        !valid_object_id(id@) ==> (r matches Reply::BadRequest(m) && m@ == "invalid ID"@
            && final(db)@ == old(db)@),
        valid_object_id(id@) && table_has(old(db)@.parents, id@) ==> (r matches Reply::Success(p)
            && p == parent_with_id(new_parent, Some(*id)) && final(db)@.parents == old(
            db,
        )@.parents.update(key_at(old(db)@.parents, id@), (id@, p))),
        valid_object_id(id@) && !table_has(old(db)@.parents, id@) ==> (r matches Reply::NotFound(m)
            && m@ == "No parent found with specified ID"@ && final(db)@ == old(db)@),
{
    if id.as_str().is_empty() {
        return Reply::BadRequest("invalid ID".to_owned());
    }
    let data = new_parent.stripped();
    match db.update_parent(id, data) {
        Ok(result) => {
            if result.matched_count == 1 {
                proof {
                    lemma_update_then_get(
                        old(db)@.parents,
                        id@,
                        parent_with_id(data, Some(*id)),
                    );
                }
                match db.get_parent(id) {
                    Ok(p) => Reply::Success(p),
                    Err(e) => Reply::ServerError(e.message()),
                }
            } else {
                Reply::NotFound("No parent found with specified ID".to_owned())
            }
        },
        Err(e) => match e {
            RepoError::InvalidInput => Reply::BadRequest("invalid ID".to_owned()),
            RepoError::NotFound => Reply::NotFound(
                "No parent found with specified ID".to_owned(),
            ),
            RepoError::StoreError(s) => Reply::ServerError(s),
        },
    }
}

/// DELETE /parent/{id}: removes the record under a non-empty,
/// well-formed identifier; one removal yields a confirmation, zero a
/// 404.
pub fn delete_parent(db: &mut Repository, id: &String) -> (r: Reply<Parent>)
    requires
        old(db).wf(),
    ensures
        final(db).wf(),
        final(db)@.teachers == old(db)@.teachers,
        final(db)@.students == old(db)@.students,
        final(db)@.next == old(db)@.next,
        id@.len() == 0 ==> (r matches Reply::BadRequest(m) && m@ == "invalid ID"@ && final(db)@
            == old(db)@),
        !valid_object_id(id@) ==> (r matches Reply::BadRequest(m) && m@ == "invalid ID"@
            && final(db)@ == old(db)@),
        valid_object_id(id@) && table_has(old(db)@.parents, id@) ==> (r matches
            Reply::SuccessMessage(m) && m@ == "Parent successfully deleted"@
            && final(db)@.parents == old(db)@.parents.remove(key_at(old(db)@.parents, id@))),
        valid_object_id(id@) && !table_has(old(db)@.parents, id@) ==> (r matches Reply::NotFound(m)
            && m@ == "Parent with specified ID not found"@ && final(db)@ == old(db)@),
{
    if id.as_str().is_empty() {
        return Reply::BadRequest("invalid ID".to_owned());
    }
    match db.delete_parent(id) {
        Ok(res) => {
            if res.deleted_count == 1 {
                Reply::SuccessMessage("Parent successfully deleted".to_owned())
            } else {
                Reply::NotFound("Parent with specified ID not found".to_owned())
            }
        },
        Err(e) => match e {
            RepoError::InvalidInput => Reply::BadRequest("invalid ID".to_owned()),
            RepoError::NotFound => Reply::NotFound(
                "Parent with specified ID not found".to_owned(),
            ),
            RepoError::StoreError(s) => Reply::ServerError(s),
        },
    }
}

/// GET /parents: every parent record, in store order.
pub fn get_all_parents(db: &Repository) -> (r: Reply<Parent>)
    requires
        db.wf(),
    ensures
        r matches Reply::SuccessList(v) && v@.len() == db@.parents.len() && (forall|i: int|
            0 <= i < db@.parents.len() ==> v@[i] == (#[trigger] db@.parents[i]).1),
{
    match db.get_all_parents() {
        Ok(v) => Reply::SuccessList(v),
        Err(e) => Reply::ServerError(e.message()),
    }
}

} // verus!
