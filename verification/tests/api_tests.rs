use student_manager::api::parents_api;
use student_manager::api::reply::Reply;
use student_manager::api::students_api;
use student_manager::api::teachers_api;
use student_manager::models::parent::Parent;
use student_manager::models::student::Student;
use student_manager::models::teacher::Teacher;
use student_manager::repository::Repository;

fn post_parent() -> Parent {
    Parent {
        id: None,
        email: "a@x.com".to_string(),
        password: "p".to_string(),
        fname: "A".to_string(),
        lname: "B".to_string(),
        dob: 631152000000,
        phone: "1".to_string(),
        mobile: "2".to_string(),
        status: true,
        last_login_date: 1700000000000,
        last_login_ip: "0.0.0.0".to_string(),
    }
}

fn post_teacher() -> Teacher {
    Teacher {
        id: None,
        email: "t@x.com".to_string(),
        password: "q".to_string(),
        fname: "C".to_string(),
        lname: "D".to_string(),
        dob: 599616000000,
        phone: "3".to_string(),
        mobile: "4".to_string(),
        status: false,
        last_login_date: 1700000001000,
        last_login_ip: "10.0.0.1".to_string(),
    }
}

fn post_student() -> Student {
    Student {
        id: None,
        email: "s@x.com".to_string(),
        password: "r".to_string(),
        fname: "E".to_string(),
        lname: "F".to_string(),
        dob: 1262304000000,
        phone: "5".to_string(),
        mobile: "6".to_string(),
        parent: post_parent(),
        date_of_join: 1600000000000,
        status: true,
        last_login_date: 1700000002000,
        last_login_ip: "192.168.0.1".to_string(),
    }
}

#[test]
fn parent_scenario_create_get_delete_get() {
    let mut db = Repository::init();

    let created = match parents_api::create_parent(&mut db, post_parent()) {
        Reply::Success(p) => p,
        other => panic!("expected a created record, got status {}", other.status_code()),
    };
    let id = created.id.clone().expect("the created record carries an identifier");
    let mut expected = post_parent();
    expected.id = Some(id.clone());
    assert_eq!(created, expected);

    match parents_api::get_parent(&db, &id) {
        Reply::Success(p) => assert_eq!(p, expected),
        other => panic!("expected the stored record, got status {}", other.status_code()),
    }

    let deleted = parents_api::delete_parent(&mut db, &id);
    assert_eq!(deleted.status_code(), 200);
    assert!(matches!(deleted, Reply::SuccessMessage(_)));

    let missing = parents_api::get_parent(&db, &id);
    assert_eq!(missing.status_code(), 404);
    assert!(matches!(missing, Reply::NotFound(_)));
}

#[test]
fn update_parent_returns_the_new_record() {
    let mut db = Repository::init();
    let created = match parents_api::create_parent(&mut db, post_parent()) {
        Reply::Success(p) => p,
        _ => panic!("create failed"),
    };
    let id = created.id.unwrap();
    let mut replacement = post_parent();
    replacement.email = "new@x.com".to_string();
    match parents_api::update_parent(&mut db, &id, replacement) {
        Reply::Success(p) => {
            assert_eq!(p.email, "new@x.com");
            assert_eq!(p.id, Some(id));
        },
        other => panic!("expected the updated record, got status {}", other.status_code()),
    }
}

#[test]
fn update_parent_misses_with_404() {
    let mut db = Repository::init();
    let r = parents_api::update_parent(
        &mut db,
        &"0123456789abcdef01234567".to_string(),
        post_parent(),
    );
    assert_eq!(r.status_code(), 404);
    assert!(matches!(r, Reply::NotFound(_)));
}

#[test]
fn empty_identifier_is_a_bad_request() {
    let mut db = Repository::init();
    let empty = String::new();
    assert_eq!(parents_api::get_parent(&db, &empty).status_code(), 400);
    assert_eq!(parents_api::update_parent(&mut db, &empty, post_parent()).status_code(), 400);
    assert_eq!(parents_api::delete_parent(&mut db, &empty).status_code(), 400);
    assert_eq!(students_api::get_student(&db, &empty).status_code(), 400);
    assert_eq!(teachers_api::get_teacher(&db, &empty).status_code(), 400);
}

#[test]
fn malformed_identifier_is_a_bad_request() {
    let mut db = Repository::init();
    let bad = "zz".to_string();
    assert!(matches!(parents_api::get_parent(&db, &bad), Reply::BadRequest(_)));
    assert!(matches!(parents_api::delete_parent(&mut db, &bad), Reply::BadRequest(_)));
    assert!(matches!(
        parents_api::update_parent(&mut db, &bad, post_parent()),
        Reply::BadRequest(_)
    ));
}

#[test]
fn listing_parents_after_n_creates_returns_n_records() {
    let mut db = Repository::init();
    for _ in 0..5 {
        assert!(matches!(
            parents_api::create_parent(&mut db, post_parent()),
            Reply::Success(_)
        ));
    }
    match parents_api::get_all_parents(&db) {
        Reply::SuccessList(v) => assert_eq!(v.len(), 5),
        _ => panic!("expected a list"),
    }
}

#[test]
fn student_scenario_keeps_the_embedded_parent() {
    let mut db = Repository::init();
    let created = match students_api::create_student(&mut db, post_student()) {
        Reply::Success(s) => s,
        _ => panic!("create failed"),
    };
    let id = created.id.clone().unwrap();
    match students_api::get_student(&db, &id) {
        Reply::Success(s) => {
            assert_eq!(s, created);
            assert_eq!(s.parent, post_parent());
        },
        _ => panic!("expected the stored record"),
    }
    match students_api::get_all_students(&db) {
        Reply::SuccessList(v) => assert_eq!(v.len(), 1),
        _ => panic!("expected a list"),
    }
}

#[test]
fn teacher_scenario_update_and_delete() {
    let mut db = Repository::init();
    let created = match teachers_api::create_teacher(&mut db, post_teacher()) {
        Reply::Success(t) => t,
        _ => panic!("create failed"),
    };
    let id = created.id.clone().unwrap();
    let mut replacement = post_teacher();
    replacement.lname = "Q".to_string();
    match teachers_api::update_teacher(&mut db, &id, replacement) {
        Reply::Success(t) => assert_eq!(t.lname, "Q"),
        _ => panic!("expected the updated record"),
    }
    assert!(matches!(
        teachers_api::delete_teacher(&mut db, &id),
        Reply::SuccessMessage(_)
    ));
    assert!(matches!(teachers_api::get_teacher(&db, &id), Reply::NotFound(_)));
}

#[test]
fn status_codes_follow_the_reply_shape() {
    let ok: Reply<Parent> = Reply::Success(post_parent());
    let list: Reply<Parent> = Reply::SuccessList(Vec::new());
    let msg: Reply<Parent> = Reply::SuccessMessage("done".to_string());
    let bad: Reply<Parent> = Reply::BadRequest("invalid ID".to_string());
    let missing: Reply<Parent> = Reply::NotFound("no match".to_string());
    let broken: Reply<Parent> = Reply::ServerError("store failure".to_string());
    assert_eq!(ok.status_code(), 200);
    assert_eq!(list.status_code(), 200);
    assert_eq!(msg.status_code(), 200);
    assert_eq!(bad.status_code(), 400);
    assert_eq!(missing.status_code(), 404);
    assert_eq!(broken.status_code(), 500);
}

#[test]
fn response_bodies_match_the_documented_texts() {
    let mut db = Repository::init();
    let empty = String::new();
    match parents_api::get_parent(&db, &empty) {
        Reply::BadRequest(m) => assert_eq!(m, "invalid ID"),
        _ => panic!("expected a bad request"),
    }
    let absent = "0123456789abcdef01234567".to_string();
    match parents_api::update_parent(&mut db, &absent, post_parent()) {
        Reply::NotFound(m) => assert_eq!(m, "No parent found with specified ID"),
        _ => panic!("expected a miss"),
    }
    match parents_api::delete_parent(&mut db, &absent) {
        Reply::NotFound(m) => assert_eq!(m, "Parent with specified ID not found"),
        _ => panic!("expected a miss"),
    }
    let created = match parents_api::create_parent(&mut db, post_parent()) {
        Reply::Success(p) => p,
        _ => panic!("create failed"),
    };
    let id = created.id.unwrap();
    match parents_api::delete_parent(&mut db, &id) {
        Reply::SuccessMessage(m) => assert_eq!(m, "Parent successfully deleted"),
        _ => panic!("expected a confirmation"),
    }
    match teachers_api::delete_teacher(&mut db, &absent) {
        Reply::NotFound(m) => assert_eq!(m, "Teacher with specified ID not found"),
        _ => panic!("expected a miss"),
    }
    match students_api::get_student(&db, &absent) {
        Reply::NotFound(m) => assert_eq!(m, "No student found with specified ID"),
        _ => panic!("expected a miss"),
    }
}
