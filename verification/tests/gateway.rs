//! The gateway semantics: insert, fetch-by-id and fetch-all on the table.

use rust2prod_api::store::{ApiError, Table};
use rust2prod_api::time::Timestamp;
use rust2prod_api::user::User;

#[test]
fn round_trip_insert_then_find() {
    let mut t = Table::new();
    let inserted = t
        .insert(&"Ada".to_string(), &"ada@example.com".to_string())
        .expect("insert accepted");
    let found = User::get_user_by_id(&t, inserted.id.as_str()).expect("row found");
    assert_eq!(found.id, inserted.id);
    assert_eq!(found.name, "Ada");
    assert_eq!(found.email, "ada@example.com");
    assert_eq!(found.created_at, inserted.created_at);
}

#[test]
fn empty_table_reads_as_empty_vector() {
    let t = Table::new();
    let rows = User::find_all(&t).expect("a read of an empty table is not an error");
    assert!(rows.is_empty());
}

#[test]
fn find_all_returns_rows_in_insertion_order() {
    let mut t = Table::new();
    let a = t.insert(&"A".to_string(), &"a@example.com".to_string()).unwrap();
    let b = t.insert(&"B".to_string(), &"b@example.com".to_string()).unwrap();
    let rows = User::find_all(&t).unwrap();
    assert_eq!(rows.len(), 2);
    assert_eq!(rows[0].id, a.id);
    assert_eq!(rows[1].id, b.id);
}

#[test]
fn missing_lookup_fails_with_not_found() {
    let mut t = Table::new();
    t.insert(&"Ada".to_string(), &"ada@example.com".to_string()).unwrap();
    let r = User::get_user_by_id(&t, "00000000-0000-0000-0000-000000000000");
    assert_eq!(r.unwrap_err(), ApiError::NotFound);
}

#[test]
fn two_inserts_return_distinct_ids() {
    let mut t = Table::new();
    let a = t.insert(&"A".to_string(), &"a@example.com".to_string()).unwrap();
    let b = t.insert(&"B".to_string(), &"b@example.com".to_string()).unwrap();
    assert_ne!(a.id, b.id);
}

#[test]
fn many_inserts_no_id_collision() {
    let mut t = Table::new();
    let mut seen = std::collections::HashSet::new();
    for i in 0..10_000u32 {
        let u = t
            .insert(&format!("user{}", i), &format!("user{}@example.com", i))
            .expect("insert accepted");
        assert!(seen.insert(u.id), "generated id repeated");
    }
    assert_eq!(t.row_count(), 10_000);
}

#[test]
fn idempotent_reads_return_identical_rows() {
    let mut t = Table::new();
    let inserted = t
        .insert(&"Ada".to_string(), &"ada@example.com".to_string())
        .unwrap();
    let first = User::get_user_by_id(&t, inserted.id.as_str()).unwrap();
    let second = User::get_user_by_id(&t, inserted.id.as_str()).unwrap();
    assert_eq!(first.id, second.id);
    assert_eq!(first.name, second.name);
    assert_eq!(first.email, second.email);
    assert_eq!(first.created_at, second.created_at);
    // byte-identical renderings as well
    assert_eq!(
        rust2prod_api::json::user_to_json(&first),
        rust2prod_api::json::user_to_json(&second)
    );
}

#[test]
fn generated_id_has_canonical_form() {
    let mut t = Table::new();
    let u = t.insert(&"Ada".to_string(), &"ada@example.com".to_string()).unwrap();
    let chars: Vec<char> = u.id.chars().collect();
    assert_eq!(chars.len(), 36);
    for (i, c) in chars.iter().enumerate() {
        if i == 8 || i == 13 || i == 18 || i == 23 {
            assert_eq!(*c, '-');
        } else {
            assert!(c.is_ascii_hexdigit() && !c.is_ascii_uppercase());
        }
    }
    assert_eq!(chars[14], '4');
    assert!(matches!(chars[19], '8' | '9' | 'a' | 'b'));
}

#[test]
fn insert_with_id_rejects_a_taken_id() {
    let mut t = Table::new();
    let ts = Timestamp { secs: 0, nanos: 0 };
    let id = "11111111-2222-3333-4444-555555555555";
    t.insert_with_id(id.to_string(), &"A".to_string(), &"a@example.com".to_string(), ts)
        .expect("fresh id accepted");
    let r = t.insert_with_id(id.to_string(), &"B".to_string(), &"b@example.com".to_string(), ts);
    assert_eq!(r.unwrap_err(), ApiError::QueryFailure);
    assert_eq!(t.row_count(), 1);
}
