use sqlite_mpi::text::{decimal, join, starts_with, str_eq};
use sqlite_mpi::utils::{get_unique_id, has_id_shape, is_valid_uuid_v4_hypenated, UuidInvalid};

#[test]
fn accepts_lower_case_hyphenated_ids() {
    let id = "936da01f-9abd-4d9d-80c7-02af85c822a8".to_string();
    assert!(is_valid_uuid_v4_hypenated(&id).is_ok());
    assert!(has_id_shape(&id));
}

#[test]
fn refuses_other_forms_of_a_uuid() {
    // upper case
    let upper = "936DA01F-9ABD-4D9D-80C7-02AF85C822A8".to_string();
    assert!(matches!(is_valid_uuid_v4_hypenated(&upper), Err(UuidInvalid::Format)));
    // without hyphens
    let simple = "936da01f9abd4d9d80c702af85c822a8".to_string();
    assert!(matches!(is_valid_uuid_v4_hypenated(&simple), Err(UuidInvalid::Format)));
    // as a URN
    let urn = "urn:uuid:936da01f-9abd-4d9d-80c7-02af85c822a8".to_string();
    assert!(matches!(is_valid_uuid_v4_hypenated(&urn), Err(UuidInvalid::Format)));
}

#[test]
fn refuses_what_is_no_uuid() {
    for id in [
        "",
        "example-uuid",
        "936da01f-9abd-4d9d-80c7-02af85c822a",
        "936da01f-9abd-4d9d-80c7-02af85c822a8a",
        "936da01g-9abd-4d9d-80c7-02af85c822a8",
        "936da01f_9abd_4d9d_80c7_02af85c822a8",
        "936da01f-9abd-4d9d-80c-702af85c822a8",
    ] {
        let r = is_valid_uuid_v4_hypenated(&id.to_string());
        assert!(matches!(r, Err(UuidInvalid::Error(_))), "{:?}", id);
        assert!(!has_id_shape(id));
    }
}

#[test]
fn shape_is_checked_character_by_character() {
    let good = "0123456789ab-cdef-0123-4567-89abcdef0123";
    assert!(!has_id_shape(good));
    let good = "01234567-89ab-cdef-0123-456789abcdef";
    assert!(has_id_shape(good));
    for i in 0..36 {
        let mut chars: Vec<char> = good.chars().collect();
        chars[i] = 'G';
        let bad: String = chars.into_iter().collect();
        assert!(!has_id_shape(&bad), "position {}", i);
    }
    // 36 characters, not 36 bytes
    let wide = "é1234567-89ab-cdef-0123-456789abcdef";
    assert!(!has_id_shape(wide));
}

#[test]
fn fresh_ids_are_valid_and_differ() {
    let a = get_unique_id();
    let b = get_unique_id();
    assert!(is_valid_uuid_v4_hypenated(&a).is_ok());
    assert!(is_valid_uuid_v4_hypenated(&b).is_ok());
    assert_ne!(a, b);
    assert_eq!(a.len(), 36);
    // version 4
    assert_eq!(a.as_bytes()[14], b'4');
}

#[test]
fn decimal_numbers() {
    assert_eq!(decimal(0), "0");
    assert_eq!(decimal(7), "7");
    assert_eq!(decimal(10), "10");
    assert_eq!(decimal(2000), "2000");
    assert_eq!(decimal(4294967295), "4294967295");
    assert_eq!(decimal(u64::MAX), "18446744073709551615");
}

#[test]
fn text_helpers() {
    assert!(str_eq("wal", "wal"));
    assert!(!str_eq("wal", "WAL"));
    assert!(!str_eq("wal", "wal "));
    assert!(starts_with("insert into t", "insert"));
    assert!(starts_with("insert", "insert"));
    assert!(!starts_with("inser", "insert"));
    assert!(!starts_with(" insert", "insert"));
    assert!(starts_with("anything", ""));
    assert_eq!(join(&vec!["TxOp", "ReadError", "QueryIsWrite"], "/"), "TxOp/ReadError/QueryIsWrite");
    assert_eq!(join(&vec!["TxOp"], "/"), "TxOp");
    assert_eq!(join(&vec![], "/"), "");
}
