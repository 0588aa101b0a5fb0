use student_manager::oid::{check_object_id, object_id_for};

#[test]
fn object_id_for_zero_is_all_zero_digits() {
    assert_eq!(object_id_for(0), "000000000000000000000000");
}

#[test]
fn object_id_for_renders_low_nibbles_last() {
    assert_eq!(object_id_for(255), "0000000000000000000000ff");
    assert_eq!(object_id_for(1), "000000000000000000000001");
    assert_eq!(object_id_for(0x1234_5678_9abc_def0), "00000000123456789abcdef0");
}

#[test]
fn object_id_for_max_counter() {
    assert_eq!(object_id_for(u64::MAX), "00000000ffffffffffffffff");
}

#[test]
fn distinct_counters_give_distinct_ids() {
    let a = object_id_for(7);
    let b = object_id_for(8);
    assert_ne!(a, b);
}

#[test]
fn check_object_id_accepts_both_cases() {
    assert!(check_object_id("0123456789abcdef01234567"));
    assert!(check_object_id("0123456789ABCDEF01234567"));
}

#[test]
fn check_object_id_rejects_wrong_length() {
    assert!(!check_object_id(""));
    assert!(!check_object_id("abc"));
    assert!(!check_object_id("0123456789abcdef012345678"));
}

#[test]
fn check_object_id_rejects_non_hex() {
    assert!(!check_object_id("zzzzzzzzzzzzzzzzzzzzzzzz"));
    assert!(!check_object_id("0123456789abcdef0123456g"));
}

#[test]
fn generated_ids_pass_the_check() {
    assert!(check_object_id(&object_id_for(0)));
    assert!(check_object_id(&object_id_for(u64::MAX)));
    assert!(check_object_id(&object_id_for(42)));
}
