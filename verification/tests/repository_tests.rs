use student_manager::errors::RepoError;
use student_manager::models::parent::Parent;
use student_manager::models::student::Student;
use student_manager::models::teacher::Teacher;
use student_manager::repository::Repository;

fn sample_parent() -> Parent {
    Parent {
        id: None,
        email: "a@x.com".to_string(),
        password: "p".to_string(),
        fname: "A".to_string(),
        lname: "B".to_string(),
        dob: 631152000000,
        phone: "1".to_string(),
        mobile: "2".to_string(),
        status: true,
        last_login_date: 1700000000000,
        last_login_ip: "0.0.0.0".to_string(),
    }
}

fn sample_teacher() -> Teacher {
    Teacher {
        id: None,
        email: "t@x.com".to_string(),
        password: "q".to_string(),
        fname: "C".to_string(),
        lname: "D".to_string(),
        dob: 599616000000,
        phone: "3".to_string(),
        mobile: "4".to_string(),
        status: false,
        last_login_date: 1700000001000,
        last_login_ip: "10.0.0.1".to_string(),
    }
}

fn sample_student() -> Student {
    Student {
        id: None,
        email: "s@x.com".to_string(),
        password: "r".to_string(),
        fname: "E".to_string(),
        lname: "F".to_string(),
        dob: 1262304000000,
        phone: "5".to_string(),
        mobile: "6".to_string(),
        parent: sample_parent(),
        date_of_join: 1600000000000,
        status: true,
        last_login_date: 1700000002000,
        last_login_ip: "192.168.0.1".to_string(),
    }
}

#[test]
fn create_then_get_parent_returns_the_stored_record() {
    let mut repo = Repository::init();
    let ins = repo.create_parent(sample_parent()).unwrap();
    let got = repo.get_parent(&ins.inserted_id).unwrap();
    let mut expected = sample_parent();
    expected.id = Some(ins.inserted_id.clone());
    assert_eq!(got, expected);
}

#[test]
fn create_discards_a_caller_supplied_identifier() {
    let mut repo = Repository::init();
    let mut input = sample_parent();
    input.id = Some("ffffffffffffffffffffffff".to_string());
    let ins = repo.create_parent(input).unwrap();
    assert_ne!(ins.inserted_id, "ffffffffffffffffffffffff");
    let got = repo.get_parent(&ins.inserted_id).unwrap();
    assert_eq!(got.id, Some(ins.inserted_id));
}

#[test]
fn update_then_get_parent_returns_the_new_values() {
    let mut repo = Repository::init();
    let ins = repo.create_parent(sample_parent()).unwrap();
    let mut replacement = sample_parent();
    replacement.email = "new@x.com".to_string();
    replacement.status = false;
    let res = repo.update_parent(&ins.inserted_id, replacement).unwrap();
    assert_eq!(res.matched_count, 1);
    assert_eq!(res.modified_count, 1);
    let got = repo.get_parent(&ins.inserted_id).unwrap();
    assert_eq!(got.email, "new@x.com");
    assert!(!got.status);
    assert_eq!(got.id, Some(ins.inserted_id));
}

#[test]
fn update_misses_on_an_absent_identifier() {
    let mut repo = Repository::init();
    let res = repo
        .update_parent(&"0123456789abcdef01234567".to_string(), sample_parent())
        .unwrap();
    assert_eq!(res.matched_count, 0);
    assert_eq!(res.modified_count, 0);
}

#[test]
fn delete_then_get_parent_is_not_found() {
    let mut repo = Repository::init();
    let ins = repo.create_parent(sample_parent()).unwrap();
    let del = repo.delete_parent(&ins.inserted_id).unwrap();
    assert_eq!(del.deleted_count, 1);
    let got = repo.get_parent(&ins.inserted_id);
    assert!(matches!(got, Err(RepoError::NotFound)));
}

#[test]
fn delete_misses_on_an_absent_identifier() {
    let mut repo = Repository::init();
    let del = repo.delete_parent(&"0123456789abcdef01234567".to_string()).unwrap();
    assert_eq!(del.deleted_count, 0);
}

#[test]
fn empty_identifier_is_invalid_input_everywhere() {
    let mut repo = Repository::init();
    let empty = String::new();
    assert!(matches!(repo.get_parent(&empty), Err(RepoError::InvalidInput)));
    assert!(matches!(
        repo.update_parent(&empty, sample_parent()),
        Err(RepoError::InvalidInput)
    ));
    assert!(matches!(repo.delete_parent(&empty), Err(RepoError::InvalidInput)));
    assert!(matches!(repo.get_student(&empty), Err(RepoError::InvalidInput)));
    assert!(matches!(repo.get_teacher(&empty), Err(RepoError::InvalidInput)));
}

#[test]
fn malformed_identifier_is_invalid_input() {
    let mut repo = Repository::init();
    let bad = "not-a-hex-identifier".to_string();
    assert!(matches!(repo.get_parent(&bad), Err(RepoError::InvalidInput)));
    assert!(matches!(
        repo.update_parent(&bad, sample_parent()),
        Err(RepoError::InvalidInput)
    ));
    assert!(matches!(repo.delete_parent(&bad), Err(RepoError::InvalidInput)));
}

#[test]
fn listing_after_three_creates_returns_three_records() {
    let mut repo = Repository::init();
    for _ in 0..3 {
        repo.create_parent(sample_parent()).unwrap();
    }
    let all = repo.get_all_parents().unwrap();
    assert_eq!(all.len(), 3);
}

#[test]
fn listing_an_empty_collection_is_empty() {
    let repo = Repository::init();
    assert_eq!(repo.get_all_parents().unwrap().len(), 0);
    assert_eq!(repo.get_all_students().unwrap().len(), 0);
    assert_eq!(repo.get_all_teachers().unwrap().len(), 0);
}

#[test]
fn collections_are_independent() {
    let mut repo = Repository::init();
    let ins = repo.create_parent(sample_parent()).unwrap();
    assert_eq!(repo.get_all_teachers().unwrap().len(), 0);
    assert_eq!(repo.get_all_students().unwrap().len(), 0);
    assert!(matches!(repo.get_teacher(&ins.inserted_id), Err(RepoError::NotFound)));
    assert!(matches!(repo.get_student(&ins.inserted_id), Err(RepoError::NotFound)));
}

#[test]
fn create_then_get_student_keeps_the_embedded_parent() {
    let mut repo = Repository::init();
    let ins = repo.create_student(sample_student()).unwrap();
    let got = repo.get_student(&ins.inserted_id).unwrap();
    let mut expected = sample_student();
    expected.id = Some(ins.inserted_id);
    assert_eq!(got, expected);
    assert_eq!(got.parent, sample_parent());
}

#[test]
fn update_then_get_student_replaces_the_embedded_parent() {
    let mut repo = Repository::init();
    let ins = repo.create_student(sample_student()).unwrap();
    let mut replacement = sample_student();
    replacement.parent.email = "other@x.com".to_string();
    let res = repo.update_student(&ins.inserted_id, replacement).unwrap();
    assert_eq!(res.matched_count, 1);
    let got = repo.get_student(&ins.inserted_id).unwrap();
    assert_eq!(got.parent.email, "other@x.com");
}

#[test]
fn create_then_get_teacher_returns_the_stored_record() {
    let mut repo = Repository::init();
    let ins = repo.create_teacher(sample_teacher()).unwrap();
    let got = repo.get_teacher(&ins.inserted_id).unwrap();
    let mut expected = sample_teacher();
    expected.id = Some(ins.inserted_id);
    assert_eq!(got, expected);
}

#[test]
fn update_then_delete_teacher() {
    let mut repo = Repository::init();
    let ins = repo.create_teacher(sample_teacher()).unwrap();
    let mut replacement = sample_teacher();
    replacement.fname = "Z".to_string();
    assert_eq!(repo.update_teacher(&ins.inserted_id, replacement).unwrap().matched_count, 1);
    assert_eq!(repo.get_teacher(&ins.inserted_id).unwrap().fname, "Z");
    assert_eq!(repo.delete_teacher(&ins.inserted_id).unwrap().deleted_count, 1);
    assert!(matches!(repo.get_teacher(&ins.inserted_id), Err(RepoError::NotFound)));
}

#[test]
fn assigned_identifiers_are_distinct_and_well_formed() {
    let mut repo = Repository::init();
    let a = repo.create_parent(sample_parent()).unwrap().inserted_id;
    let b = repo.create_parent(sample_parent()).unwrap().inserted_id;
    let c = repo.create_teacher(sample_teacher()).unwrap().inserted_id;
    assert_ne!(a, b);
    assert_ne!(a, c);
    assert_ne!(b, c);
    assert!(student_manager::oid::check_object_id(&a));
    assert!(student_manager::oid::check_object_id(&b));
    assert!(student_manager::oid::check_object_id(&c));
}

#[test]
fn store_error_message_is_carried() {
    let e = RepoError::StoreError("the store went away".to_string());
    assert_eq!(e.message(), "the store went away");
}

#[test]
fn error_status_codes_follow_the_taxonomy() {
    assert_eq!(RepoError::InvalidInput.status(), 400);
    assert_eq!(RepoError::NotFound.status(), 404);
    assert_eq!(RepoError::StoreError("x".to_string()).status(), 500);
    assert_eq!(RepoError::InvalidInput.message(), "invalid ID");
    assert_eq!(RepoError::NotFound.message(), "not found");
}
