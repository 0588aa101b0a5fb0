use crate::errors::RepoError;
use crate::models::parent::{parent_with_id, Parent};
use crate::models::student::{student_with_id, Student};
use crate::models::teacher::{teacher_with_id, Teacher};
use crate::oid::{check_object_id, object_id_for, oid_seq, valid_object_id};
use crate::oid::lemma_oid_seq_injective;
use crate::table::{distinct_keys, key_at, table_get, table_has, Table};
use vstd::prelude::*;

verus! {

/// What a successful insert reports: the store-assigned identifier.
#[derive(Debug, PartialEq)]
pub struct InsertOneResult {
    pub inserted_id: String,
}

/// What an update reports: how many records matched the identifier and
/// how many were modified.
#[derive(Debug, PartialEq)]
pub struct UpdateResult {
    pub matched_count: u64,
    pub modified_count: u64,
}

/// What a delete reports: how many records were removed (zero or one).
#[derive(Debug, PartialEq)]
pub struct DeleteResult {
    pub deleted_count: u64,
}

/// The abstract state of the store: one entry sequence per collection,
/// plus the counter from which the next identifier is rendered.
pub struct StoreState {
    pub teachers: Seq<(Seq<char>, Teacher)>,
    pub parents: Seq<(Seq<char>, Parent)>,
    pub students: Seq<(Seq<char>, Student)>,
    pub next: u64,
}

/// Whether `s` was rendered from some counter value below `next`.
pub open spec fn key_bounded_by(s: Seq<char>, next: u64) -> bool {
    exists|k: u64| k < next && s == #[trigger] oid_seq(k)
}

/// Every key of `m` was rendered from a counter value below `next`.
pub open spec fn keys_bounded<T>(m: Seq<(Seq<char>, T)>, next: u64) -> bool {
    forall|i: int| 0 <= i < m.len() ==> key_bounded_by((#[trigger] m[i]).0, next)
}

/// A bound on a key survives raising the counter.
proof fn lemma_key_bounded_mono(s: Seq<char>, n1: u64, n2: u64)
    requires
        key_bounded_by(s, n1),
        n1 <= n2,
    ensures
        key_bounded_by(s, n2),
{
    let k0 = choose|k: u64| k < n1 && s == #[trigger] oid_seq(k);
    assert(k0 < n2 && s == oid_seq(k0));
}

/// A bound on the keys survives raising the counter.
proof fn lemma_keys_bounded_mono<T>(m: Seq<(Seq<char>, T)>, n1: u64, n2: u64)
    requires
        keys_bounded(m, n1),
        n1 <= n2,
    ensures
        keys_bounded(m, n2),
{
    assert forall|i: int| 0 <= i < m.len() implies key_bounded_by(
        (#[trigger] m[i]).0,
        n2,
    ) by {
        lemma_key_bounded_mono(m[i].0, n1, n2);
    }
}

/// The identifier rendered from the current counter is fresh: no key of
/// a bounded table can equal it.
proof fn lemma_fresh_key<T>(m: Seq<(Seq<char>, T)>, next: u64)
    requires
        keys_bounded(m, next),
    ensures
        !table_has(m, oid_seq(next)),
{
    if table_has(m, oid_seq(next)) {
        let i = choose|i: int| 0 <= i < m.len() && (#[trigger] m[i]).0 == oid_seq(next);
        let k0 = choose|k: u64| k < next && m[i].0 == #[trigger] oid_seq(k);
        lemma_oid_seq_injective(k0, next);
    }
}

/// The in-memory record store: one collection per entity kind and a
/// counter for assigning identifiers.
///
/// Each operation of each collection maps one-to-one onto a document
/// operation: insert one, find one by id, replace one by id, delete one
/// by id, list all in store order.
pub struct Repository {
    teachers: Table<Teacher>,
    parents: Table<Parent>,
    students: Table<Student>,
    next_id: u64,
}

impl View for Repository {
    type V = StoreState;

    closed spec fn view(&self) -> StoreState {
        StoreState {
            teachers: self.teachers@,
            parents: self.parents@,
            students: self.students@,
            next: self.next_id,
        }
    }
}

impl Repository {
    /// The store invariant: keys are pairwise distinct in each
    /// collection, and every key was rendered from a counter value that
    /// has already been consumed.
    pub open spec fn wf(&self) -> bool {
        &&& distinct_keys(self@.teachers)
        &&& distinct_keys(self@.parents)
        &&& distinct_keys(self@.students)
        &&& keys_bounded(self@.teachers, self@.next)
        &&& keys_bounded(self@.parents, self@.next)
        &&& keys_bounded(self@.students, self@.next)
    }

    /// An empty store with three empty collections.
    pub fn init() -> (r: Self)
        ensures
            r.wf(),
            r@.teachers == Seq::<(Seq<char>, Teacher)>::empty(),
            r@.parents == Seq::<(Seq<char>, Parent)>::empty(),
            r@.students == Seq::<(Seq<char>, Student)>::empty(),
            r@.next == 0,
    {
        Repository {
            teachers: Table::new(),
            parents: Table::new(),
            students: Table::new(),
            next_id: 0,
        }
    }

    /// Renders the next identifier and advances the counter, or reports
    /// a store failure once the identifier space is exhausted.
    fn allocate_id(&mut self) -> (r: Result<String, RepoError>)
        ensures
            final(self)@.teachers == old(self)@.teachers,
            final(self)@.parents == old(self)@.parents,
            final(self)@.students == old(self)@.students,
            old(self)@.next < u64::MAX ==> (r matches Ok(id) && id@ == oid_seq(old(self)@.next)
                && valid_object_id(id@) && final(self)@.next == old(self)@.next + 1),
            old(self)@.next == u64::MAX ==> (r matches Err(RepoError::StoreError(s)) && s@
                == "identifier space exhausted"@ && final(self)@.next == old(self)@.next),
    {
        if self.next_id == u64::MAX {
            return Err(RepoError::StoreError("identifier space exhausted".to_owned()));
        }
        let id = object_id_for(self.next_id);
        self.next_id = self.next_id + 1;
        Ok(id)
    }

    /// Inserts a new parent record.  The caller-supplied identifier is
    /// discarded; the stored record carries the assigned one.
    pub fn create_parent(&mut self, new_parent: Parent) -> (r: Result<InsertOneResult, RepoError>)
        requires
            old(self).wf(),
        ensures
            final(self).wf(),
            final(self)@.teachers == old(self)@.teachers,
            final(self)@.students == old(self)@.students,
            old(self)@.next < u64::MAX ==> (r matches Ok(ins) && ins.inserted_id@ == oid_seq(
                old(self)@.next,
            ) && valid_object_id(ins.inserted_id@) && !table_has(
                old(self)@.parents,
                ins.inserted_id@,
            ) && final(self)@.parents == old(self)@.parents.push(
                (ins.inserted_id@, parent_with_id(new_parent, Some(ins.inserted_id))),
            ) && final(self)@.next == old(self)@.next + 1),
            old(self)@.next == u64::MAX ==> (r matches Err(RepoError::StoreError(s)) && s@
                == "identifier space exhausted"@ && final(self)@ == old(self)@),
    {
        let id = match self.allocate_id() {
            Ok(id) => id,
            Err(e) => {
                return Err(e);
            },
        };
        proof {
            lemma_fresh_key(self@.parents, old(self)@.next);
        }
        let record = new_parent.with_id(id.clone());
        self.parents.insert(id.clone(), record);
        proof {
            lemma_keys_bounded_mono(old(self)@.teachers, old(self)@.next, self@.next);
            lemma_keys_bounded_mono(old(self)@.students, old(self)@.next, self@.next);
            assert forall|i: int| 0 <= i < self@.parents.len() implies key_bounded_by(
                (#[trigger] self@.parents[i]).0,
                self@.next,
            ) by {
                if i < self@.parents.len() - 1 {
                    assert(self@.parents[i].0 == old(self)@.parents[i].0);
                    lemma_key_bounded_mono(old(self)@.parents[i].0, old(self)@.next, self@.next);
                } else {
                    assert(self@.parents[i].0 == oid_seq(old(self)@.next));
                    assert(old(self)@.next < self@.next);
                }
            }
        }
        Ok(InsertOneResult { inserted_id: id })
    }

    /// Inserts a new student record, embedded parent included.
    pub fn create_student(&mut self, new_student: Student) -> (r: Result<
        InsertOneResult,
        RepoError,
    >)
        requires
            old(self).wf(),
        ensures
            final(self).wf(),
            final(self)@.teachers == old(self)@.teachers,
            final(self)@.parents == old(self)@.parents,
            old(self)@.next < u64::MAX ==> (r matches Ok(ins) && ins.inserted_id@ == oid_seq(
                old(self)@.next,
            ) && valid_object_id(ins.inserted_id@) && !table_has(
                old(self)@.students,
                ins.inserted_id@,
            ) && final(self)@.students == old(self)@.students.push(
                (ins.inserted_id@, student_with_id(new_student, Some(ins.inserted_id))),
            ) && final(self)@.next == old(self)@.next + 1),
            old(self)@.next == u64::MAX ==> (r matches Err(RepoError::StoreError(s)) && s@
                == "identifier space exhausted"@ && final(self)@ == old(self)@),
    {
        let id = match self.allocate_id() {
            Ok(id) => id,
            Err(e) => {
                return Err(e);
            },
        };
        proof {
            lemma_fresh_key(self@.students, old(self)@.next);
        }
        let record = new_student.with_id(id.clone());
        self.students.insert(id.clone(), record);
        proof {
            lemma_keys_bounded_mono(old(self)@.teachers, old(self)@.next, self@.next);
            lemma_keys_bounded_mono(old(self)@.parents, old(self)@.next, self@.next);
            assert forall|i: int| 0 <= i < self@.students.len() implies key_bounded_by(
                (#[trigger] self@.students[i]).0,
                self@.next,
            ) by {
                if i < self@.students.len() - 1 {
                    assert(self@.students[i].0 == old(self)@.students[i].0);
                    lemma_key_bounded_mono(old(self)@.students[i].0, old(self)@.next, self@.next);
                } else {
                    assert(self@.students[i].0 == oid_seq(old(self)@.next));
                    assert(old(self)@.next < self@.next);
                }
            }
        }
        Ok(InsertOneResult { inserted_id: id })
    }

    /// Inserts a new teacher record.
    pub fn create_teacher(&mut self, new_teacher: Teacher) -> (r: Result<
        InsertOneResult,
        RepoError,
    >)
        requires
            old(self).wf(),
        ensures
            final(self).wf(),
            final(self)@.parents == old(self)@.parents,
            final(self)@.students == old(self)@.students,
            old(self)@.next < u64::MAX ==> (r matches Ok(ins) && ins.inserted_id@ == oid_seq(
                old(self)@.next,
            ) && valid_object_id(ins.inserted_id@) && !table_has(
                old(self)@.teachers,
                ins.inserted_id@,
            ) && final(self)@.teachers == old(self)@.teachers.push(
                (ins.inserted_id@, teacher_with_id(new_teacher, Some(ins.inserted_id))),
            ) && final(self)@.next == old(self)@.next + 1),
            old(self)@.next == u64::MAX ==> (r matches Err(RepoError::StoreError(s)) && s@
                == "identifier space exhausted"@ && final(self)@ == old(self)@),
    {
        let id = match self.allocate_id() {
            Ok(id) => id,
            Err(e) => {
                return Err(e);
            },
        };
        proof {
            lemma_fresh_key(self@.teachers, old(self)@.next);
        }
        let record = new_teacher.with_id(id.clone());
        self.teachers.insert(id.clone(), record);
        proof {
            lemma_keys_bounded_mono(old(self)@.parents, old(self)@.next, self@.next);
            lemma_keys_bounded_mono(old(self)@.students, old(self)@.next, self@.next);
            assert forall|i: int| 0 <= i < self@.teachers.len() implies key_bounded_by(
                (#[trigger] self@.teachers[i]).0,
                self@.next,
            ) by {
                if i < self@.teachers.len() - 1 {
                    assert(self@.teachers[i].0 == old(self)@.teachers[i].0);
                    lemma_key_bounded_mono(old(self)@.teachers[i].0, old(self)@.next, self@.next);
                } else {
                    assert(self@.teachers[i].0 == oid_seq(old(self)@.next));
                    assert(old(self)@.next < self@.next);
                }
            }
        }
        Ok(InsertOneResult { inserted_id: id })
    }

    /// Reads the parent stored under `id`.  A malformed identifier is
    /// rejected without touching the collection; a well-formed one that
    /// matches nothing reports `NotFound`.
    pub fn get_parent(&self, id: &String) -> (r: Result<Parent, RepoError>)
        requires
            self.wf(),
        ensures
            id@.len() == 0 ==> r == Err::<Parent, RepoError>(RepoError::InvalidInput),
            !valid_object_id(id@) ==> r == Err::<Parent, RepoError>(RepoError::InvalidInput),
            valid_object_id(id@) ==> r == match table_get(self@.parents, id@) {
                Some(p) => Ok::<Parent, RepoError>(p),
                None => Err::<Parent, RepoError>(RepoError::NotFound),
            },
    {
        if !check_object_id(id.as_str()) {
            return Err(RepoError::InvalidInput);
        }
        match self.parents.find(id) {
            Some(p) => Ok(p),
            None => Err(RepoError::NotFound),
        }
    }

    /// Reads the student stored under `id`.
    pub fn get_student(&self, id: &String) -> (r: Result<Student, RepoError>)
        requires
            self.wf(),
        ensures
            id@.len() == 0 ==> r == Err::<Student, RepoError>(RepoError::InvalidInput),
            !valid_object_id(id@) ==> r == Err::<Student, RepoError>(RepoError::InvalidInput),
            valid_object_id(id@) ==> r == match table_get(self@.students, id@) {
                Some(s) => Ok::<Student, RepoError>(s),
                None => Err::<Student, RepoError>(RepoError::NotFound),
            },
    {
        if !check_object_id(id.as_str()) {
            return Err(RepoError::InvalidInput);
        }
        match self.students.find(id) {
            Some(s) => Ok(s),
            None => Err(RepoError::NotFound),
        }
    }

    /// Reads the teacher stored under `id`.
    pub fn get_teacher(&self, id: &String) -> (r: Result<Teacher, RepoError>)
        requires
            self.wf(),
        ensures
            id@.len() == 0 ==> r == Err::<Teacher, RepoError>(RepoError::InvalidInput),
            !valid_object_id(id@) ==> r == Err::<Teacher, RepoError>(RepoError::InvalidInput),
            valid_object_id(id@) ==> r == match table_get(self@.teachers, id@) {
                Some(t) => Ok::<Teacher, RepoError>(t),
                None => Err::<Teacher, RepoError>(RepoError::NotFound),
            },
    {
        if !check_object_id(id.as_str()) {
            return Err(RepoError::InvalidInput);
        }
        match self.teachers.find(id) {
            Some(t) => Ok(t),
            None => Err(RepoError::NotFound),
        }
    }

    /// Replaces every field of the parent under `id` with the caller's
    /// values, keeping the identifier.  Zero matches is a non-error
    /// outcome reported through `matched_count`.
    pub fn update_parent(&mut self, id: &String, new_parent: Parent) -> (r: Result<
        UpdateResult,
        RepoError,
    >)
        requires
            old(self).wf(),
        ensures
            final(self).wf(),
            final(self)@.teachers == old(self)@.teachers,
            final(self)@.students == old(self)@.students,
            final(self)@.next == old(self)@.next,
            id@.len() == 0 ==> r == Err::<UpdateResult, RepoError>(RepoError::InvalidInput),
            !valid_object_id(id@) ==> r == Err::<UpdateResult, RepoError>(RepoError::InvalidInput)
                && final(self)@.parents == old(self)@.parents,
            valid_object_id(id@) && table_has(old(self)@.parents, id@) ==> r == Ok::<
                UpdateResult,
                RepoError,
            >(UpdateResult { matched_count: 1, modified_count: 1 }) && final(self)@.parents == old(self)@.parents.update(
                key_at(old(self)@.parents, id@),
                (id@, parent_with_id(new_parent, Some(*id))),
            ),
            valid_object_id(id@) && !table_has(old(self)@.parents, id@) ==> r == Ok::<
                UpdateResult,
                RepoError,
            >(UpdateResult { matched_count: 0, modified_count: 0 }) && final(self)@.parents == old(self)@.parents,
    {
        if !check_object_id(id.as_str()) {
            return Err(RepoError::InvalidInput);
        }
        let record = new_parent.with_id(id.clone());
        let matched = self.parents.replace(id, record);
        proof {
            if table_has(old(self)@.parents, id@) {
                let at = key_at(old(self)@.parents, id@);
                assert(0 <= at < old(self)@.parents.len() && old(self)@.parents[at].0 == id@);
                assert forall|i: int| 0 <= i < self@.parents.len() implies key_bounded_by(
                    (#[trigger] self@.parents[i]).0,
                    self@.next,
                ) by {
                    assert(self@.parents[i].0 == old(self)@.parents[i].0);
                }
            }
        }
        Ok(UpdateResult { matched_count: matched, modified_count: matched })
    }

    /// Replaces every field of the student under `id`, embedded parent
    /// included, keeping the identifier.
    pub fn update_student(&mut self, id: &String, new_student: Student) -> (r: Result<
        UpdateResult,
        RepoError,
    >)
        requires
            old(self).wf(),
        ensures
            final(self).wf(),
            final(self)@.teachers == old(self)@.teachers,
            final(self)@.parents == old(self)@.parents,
            final(self)@.next == old(self)@.next,
            id@.len() == 0 ==> r == Err::<UpdateResult, RepoError>(RepoError::InvalidInput),
            !valid_object_id(id@) ==> r == Err::<UpdateResult, RepoError>(RepoError::InvalidInput)
                && final(self)@.students == old(self)@.students,
            valid_object_id(id@) && table_has(old(self)@.students, id@) ==> r == Ok::<
                UpdateResult,
                RepoError,
            >(UpdateResult { matched_count: 1, modified_count: 1 }) && final(self)@.students
                == old(self)@.students.update(
                key_at(old(self)@.students, id@),
                (id@, student_with_id(new_student, Some(*id))),
            ),
            valid_object_id(id@) && !table_has(old(self)@.students, id@) ==> r == Ok::<
                UpdateResult,
                RepoError,
            >(UpdateResult { matched_count: 0, modified_count: 0 }) && final(self)@.students
                == old(self)@.students,
    {
        if !check_object_id(id.as_str()) {
            return Err(RepoError::InvalidInput);
        }
        let record = new_student.with_id(id.clone());
        let matched = self.students.replace(id, record);
        proof {
            if table_has(old(self)@.students, id@) {
                let at = key_at(old(self)@.students, id@);
                assert(0 <= at < old(self)@.students.len() && old(self)@.students[at].0 == id@);
                assert forall|i: int| 0 <= i < self@.students.len() implies key_bounded_by(
                    (#[trigger] self@.students[i]).0,
                    self@.next,
                ) by {
                    assert(self@.students[i].0 == old(self)@.students[i].0);
                }
            }
        }
        Ok(UpdateResult { matched_count: matched, modified_count: matched })
    }

    /// Replaces every field of the teacher under `id`, keeping the
    /// identifier.
    pub fn update_teacher(&mut self, id: &String, new_teacher: Teacher) -> (r: Result<
        UpdateResult,
        RepoError,
    >)
        requires
            old(self).wf(),
        ensures
            final(self).wf(),
            final(self)@.parents == old(self)@.parents,
            final(self)@.students == old(self)@.students,
            final(self)@.next == old(self)@.next,
            id@.len() == 0 ==> r == Err::<UpdateResult, RepoError>(RepoError::InvalidInput),
            !valid_object_id(id@) ==> r == Err::<UpdateResult, RepoError>(RepoError::InvalidInput)
                && final(self)@.teachers == old(self)@.teachers,
            valid_object_id(id@) && table_has(old(self)@.teachers, id@) ==> r == Ok::<
                UpdateResult,
                RepoError,
            >(UpdateResult { matched_count: 1, modified_count: 1 }) && final(self)@.teachers
                == old(self)@.teachers.update(
                key_at(old(self)@.teachers, id@),
                (id@, teacher_with_id(new_teacher, Some(*id))),
            ),
            valid_object_id(id@) && !table_has(old(self)@.teachers, id@) ==> r == Ok::<
                UpdateResult,
                RepoError,
            >(UpdateResult { matched_count: 0, modified_count: 0 }) && final(self)@.teachers
                == old(self)@.teachers,
    {
        if !check_object_id(id.as_str()) {
            return Err(RepoError::InvalidInput);
        }
        let record = new_teacher.with_id(id.clone());
        let matched = self.teachers.replace(id, record);
        proof {
            if table_has(old(self)@.teachers, id@) {
                let at = key_at(old(self)@.teachers, id@);
                assert(0 <= at < old(self)@.teachers.len() && old(self)@.teachers[at].0 == id@);
                assert forall|i: int| 0 <= i < self@.teachers.len() implies key_bounded_by(
                    (#[trigger] self@.teachers[i]).0,
                    self@.next,
                ) by {
                    assert(self@.teachers[i].0 == old(self)@.teachers[i].0);
                }
            }
        }
        Ok(UpdateResult { matched_count: matched, modified_count: matched })
    }

    /// Removes the parent under `id`; reports how many records were
    /// removed (zero or one).
    pub fn delete_parent(&mut self, id: &String) -> (r: Result<DeleteResult, RepoError>)
        requires
            old(self).wf(),
        ensures
            final(self).wf(),
            final(self)@.teachers == old(self)@.teachers,
            final(self)@.students == old(self)@.students,
            final(self)@.next == old(self)@.next,
            id@.len() == 0 ==> r == Err::<DeleteResult, RepoError>(RepoError::InvalidInput),
            !valid_object_id(id@) ==> r == Err::<DeleteResult, RepoError>(RepoError::InvalidInput)
                && final(self)@.parents == old(self)@.parents,
            valid_object_id(id@) && table_has(old(self)@.parents, id@) ==> r == Ok::<
                DeleteResult,
                RepoError,
            >(DeleteResult { deleted_count: 1 }) && final(self)@.parents == old(self)@.parents.remove(key_at(old(self)@.parents, id@)),
            valid_object_id(id@) && !table_has(old(self)@.parents, id@) ==> r == Ok::<
                DeleteResult,
                RepoError,
            >(DeleteResult { deleted_count: 0 }) && final(self)@.parents == old(self)@.parents,
    {
        if !check_object_id(id.as_str()) {
            return Err(RepoError::InvalidInput);
        }
        let removed = self.parents.remove(id);
        proof {
            if table_has(old(self)@.parents, id@) {
                let at = key_at(old(self)@.parents, id@);
                old(self)@.parents.remove_ensures(at);
                assert forall|i: int| 0 <= i < self@.parents.len() implies key_bounded_by(
                    (#[trigger] self@.parents[i]).0,
                    self@.next,
                ) by {
                    let i0: int = if i < at {
                        i
                    } else {
                        i + 1
                    };
                    assert(self@.parents[i] == old(self)@.parents[i0]);
                }
            }
        }
        Ok(DeleteResult { deleted_count: removed })
    }

    /// Removes the student under `id`.
    pub fn delete_student(&mut self, id: &String) -> (r: Result<DeleteResult, RepoError>)
        requires
            old(self).wf(),
        ensures
            final(self).wf(),
            final(self)@.teachers == old(self)@.teachers,
            final(self)@.parents == old(self)@.parents,
            final(self)@.next == old(self)@.next,
            id@.len() == 0 ==> r == Err::<DeleteResult, RepoError>(RepoError::InvalidInput),
            !valid_object_id(id@) ==> r == Err::<DeleteResult, RepoError>(RepoError::InvalidInput)
                && final(self)@.students == old(self)@.students,
            valid_object_id(id@) && table_has(old(self)@.students, id@) ==> r == Ok::<
                DeleteResult,
                RepoError,
            >(DeleteResult { deleted_count: 1 }) && final(self)@.students == old(self)@.students.remove(key_at(old(self)@.students, id@)),
            valid_object_id(id@) && !table_has(old(self)@.students, id@) ==> r == Ok::<
                DeleteResult,
                RepoError,
            >(DeleteResult { deleted_count: 0 }) && final(self)@.students == old(self)@.students,
    {
        if !check_object_id(id.as_str()) {
            return Err(RepoError::InvalidInput);
        }
        let removed = self.students.remove(id);
        proof {
            if table_has(old(self)@.students, id@) {
                let at = key_at(old(self)@.students, id@);
                old(self)@.students.remove_ensures(at);
                assert forall|i: int| 0 <= i < self@.students.len() implies key_bounded_by(
                    (#[trigger] self@.students[i]).0,
                    self@.next,
                ) by {
                    let i0: int = if i < at {
                        i
                    } else {
                        i + 1
                    };
                    assert(self@.students[i] == old(self)@.students[i0]);
                }
            }
        }
        Ok(DeleteResult { deleted_count: removed })
    }

    /// Removes the teacher under `id`.
    pub fn delete_teacher(&mut self, id: &String) -> (r: Result<DeleteResult, RepoError>)
        requires
            old(self).wf(),
        ensures
            final(self).wf(),
            final(self)@.parents == old(self)@.parents,
            final(self)@.students == old(self)@.students,
            final(self)@.next == old(self)@.next,
            id@.len() == 0 ==> r == Err::<DeleteResult, RepoError>(RepoError::InvalidInput),
            !valid_object_id(id@) ==> r == Err::<DeleteResult, RepoError>(RepoError::InvalidInput)
                && final(self)@.teachers == old(self)@.teachers,
            valid_object_id(id@) && table_has(old(self)@.teachers, id@) ==> r == Ok::<
                DeleteResult,
                RepoError,
            >(DeleteResult { deleted_count: 1 }) && final(self)@.teachers == old(self)@.teachers.remove(key_at(old(self)@.teachers, id@)),
            valid_object_id(id@) && !table_has(old(self)@.teachers, id@) ==> r == Ok::<
                DeleteResult,
                RepoError,
            >(DeleteResult { deleted_count: 0 }) && final(self)@.teachers == old(self)@.teachers,
    {
        if !check_object_id(id.as_str()) {
            return Err(RepoError::InvalidInput);
        }
        let removed = self.teachers.remove(id);
        proof {
            if table_has(old(self)@.teachers, id@) {
                let at = key_at(old(self)@.teachers, id@);
                old(self)@.teachers.remove_ensures(at);
                assert forall|i: int| 0 <= i < self@.teachers.len() implies key_bounded_by(
                    (#[trigger] self@.teachers[i]).0,
                    self@.next,
                ) by {
                    let i0: int = if i < at {
                        i
                    } else {
                        i + 1
                    };
                    assert(self@.teachers[i] == old(self)@.teachers[i0]);
                }
            }
        }
        Ok(DeleteResult { deleted_count: removed })
    }

    /// Copies of every parent record, in store order.
    pub fn get_all_parents(&self) -> (r: Result<Vec<Parent>, RepoError>)
        requires
            self.wf(),
        ensures
            r matches Ok(v) && v@.len() == self@.parents.len() && (forall|i: int|
                0 <= i < self@.parents.len() ==> v@[i] == (#[trigger] self@.parents[i]).1),
    {
        Ok(self.parents.list())
    }

    /// Copies of every student record, in store order.
    pub fn get_all_students(&self) -> (r: Result<Vec<Student>, RepoError>)
        requires
            self.wf(),
        ensures
            r matches Ok(v) && v@.len() == self@.students.len() && (forall|i: int|
                0 <= i < self@.students.len() ==> v@[i] == (#[trigger] self@.students[i]).1),
    {
        Ok(self.students.list())
    }

    /// Copies of every teacher record, in store order.
    pub fn get_all_teachers(&self) -> (r: Result<Vec<Teacher>, RepoError>)
        requires
            self.wf(),
        ensures
            r matches Ok(v) && v@.len() == self@.teachers.len() && (forall|i: int|
                0 <= i < self@.teachers.len() ==> v@[i] == (#[trigger] self@.teachers[i]).1),
    {
        Ok(self.teachers.list())
    }
}

} // verus!
