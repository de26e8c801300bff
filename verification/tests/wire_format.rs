//! The JSON wire format, down to exact bytes.

use rust2prod_api::json::{user_to_json, users_to_json};
use rust2prod_api::store::Table;
use rust2prod_api::time::Timestamp;
use rust2prod_api::user::User;

fn fixed_row(id: &str, name: &str, email: &str, secs: i64) -> User {
    let mut t = Table::new();
    t.insert_with_id(
        id.to_string(),
        &name.to_string(),
        &email.to_string(),
        Timestamp { secs, nanos: 0 },
    )
    .expect("fresh id accepted")
}

#[test]
fn one_row_renders_exactly() {
    let u = fixed_row(
        "612cd23d-654c-4a32-8e8e-3423dc0c869f",
        "Ada",
        "ada@example.com",
        0,
    );
    assert_eq!(
        user_to_json(&u),
        "{\"id\":\"612cd23d-654c-4a32-8e8e-3423dc0c869f\",\"name\":\"Ada\",\
         \"email\":\"ada@example.com\",\"created_at\":\"1970-01-01T00:00:00Z\"}"
    );
}

#[test]
fn timestamp_renders_as_rfc3339_utc() {
    let u = fixed_row(
        "612cd23d-654c-4a32-8e8e-3423dc0c869f",
        "Tom",
        "tom@example.com",
        1_643_001_733,
    );
    let body = user_to_json(&u);
    assert!(body.contains("\"created_at\":\"2022-01-24T05:22:13Z\""));
}

#[test]
fn quotes_backslashes_and_controls_are_escaped() {
    let u = fixed_row(
        "11111111-2222-3333-4444-555555555555",
        "A\"B\\C\nD",
        "a@example.com",
        0,
    );
    let body = user_to_json(&u);
    assert!(body.contains("\"name\":\"A\\\"B\\\\C\\u000aD\""));
}

#[test]
fn empty_listing_renders_as_empty_array() {
    let rows: Vec<User> = Vec::new();
    assert_eq!(users_to_json(&rows), "[]");
    let t = Table::new();
    let reply = rust2prod_api::controller::get_all_users(&t);
    assert_eq!(reply.status, 200);
    assert_eq!(reply.body, "[]");
}

#[test]
fn two_rows_render_comma_separated_in_order() {
    let a = fixed_row(
        "11111111-1111-1111-1111-111111111111",
        "A",
        "a@example.com",
        0,
    );
    let b = fixed_row(
        "22222222-2222-2222-2222-222222222222",
        "B",
        "b@example.com",
        0,
    );
    let one = user_to_json(&a);
    let two = user_to_json(&b);
    let rows = vec![a, b];
    assert_eq!(users_to_json(&rows), format!("[{},{}]", one, two));
}
