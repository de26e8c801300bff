//! The HTTP-facing contracts: status codes and bodies per route.

use rust2prod_api::controller::{
    create_reply, get_all_users, get_user, list_reply, post_user, user_reply,
};
use rust2prod_api::store::{ApiError, Table};
use rust2prod_api::user::User;

#[test]
fn create_then_list() {
    let mut t = Table::new();
    let form = rust2prod_api::controller::UserFormData {
        name: "Ada".to_string(),
        email: "ada@example.com".to_string(),
    };
    let before = chrono::Utc::now().timestamp();
    let reply = post_user(&mut t, &form);
    let after = chrono::Utc::now().timestamp();
    assert_eq!(reply.status, 200);
    assert!(reply.body.is_empty());

    let listing = get_all_users(&t);
    assert_eq!(listing.status, 200);
    let rows = User::find_all(&t).unwrap();
    assert_eq!(rows.len(), 1);
    assert_eq!(rows[0].name, "Ada");
    assert_eq!(rows[0].email, "ada@example.com");
    assert!(!rows[0].id.is_empty());
    assert!(rows[0].created_at.secs >= before - 5 && rows[0].created_at.secs <= after + 5);
    assert!(listing.body.contains("\"name\":\"Ada\""));
    assert!(listing.body.contains("\"email\":\"ada@example.com\""));
}

#[test]
fn fetch_unknown_id_is_404() {
    let t = Table::new();
    let reply = get_user(&t, "00000000-0000-0000-0000-000000000000");
    assert_eq!(reply.status, 404);
    assert!(reply.body.is_empty());
}

#[test]
fn fetch_known_id_is_200_with_object() {
    let mut t = Table::new();
    let form = rust2prod_api::controller::UserFormData {
        name: "Ada".to_string(),
        email: "ada@example.com".to_string(),
    };
    assert_eq!(post_user(&mut t, &form).status, 200);
    let id = User::find_all(&t).unwrap()[0].id.clone();
    let reply = get_user(&t, id.as_str());
    assert_eq!(reply.status, 200);
    assert!(reply.body.starts_with('{') && reply.body.ends_with('}'));
    assert!(reply.body.contains(&format!("\"id\":\"{}\"", id)));
}

#[test]
fn malformed_create_inserts_no_row() {
    let mut t = Table::new();
    let form = rust2prod_api::controller::UserFormData {
        name: "".to_string(),
        email: "ada@example.com".to_string(),
    };
    let reply = post_user(&mut t, &form);
    assert_eq!(reply.status, 400);
    assert!(reply.body.is_empty());
    assert_eq!(t.row_count(), 0);

    let form = rust2prod_api::controller::UserFormData {
        name: "Ada".to_string(),
        email: "".to_string(),
    };
    let reply = post_user(&mut t, &form);
    assert_eq!(reply.status, 400);
    assert_eq!(t.row_count(), 0);
}

#[test]
fn read_failures_collapse_to_404() {
    let missing: Result<User, ApiError> = Err(ApiError::NotFound);
    let broken: Result<User, ApiError> = Err(ApiError::QueryFailure);
    assert_eq!(user_reply(missing).status, 404);
    assert_eq!(user_reply(broken).status, 404);
    let failed_listing: Result<Vec<User>, ApiError> = Err(ApiError::QueryFailure);
    let reply = list_reply(failed_listing);
    assert_eq!(reply.status, 404);
    assert!(reply.body.is_empty());
}

#[test]
fn create_failure_maps_to_500() {
    assert_eq!(create_reply(&Ok(())).status, 200);
    assert_eq!(create_reply(&Err(ApiError::QueryFailure)).status, 500);
    assert_eq!(create_reply(&Err(ApiError::ValidationFailure)).status, 400);
    assert!(create_reply(&Err(ApiError::QueryFailure)).body.is_empty());
}

#[test]
fn subscribe_creates_a_subscriber_row() {
    let mut subscriptions = Table::new();
    let form = rust2prod_api::subscriptions::FormData {
        email: "le.guin@example.com".to_string(),
        name: "le guin".to_string(),
    };
    let reply = rust2prod_api::subscriptions::subscribe(&mut subscriptions, &form);
    assert_eq!(reply.status, 200);
    assert!(reply.body.is_empty());
    let rows = User::find_all(&subscriptions).unwrap();
    assert_eq!(rows.len(), 1);
    assert_eq!(rows[0].email, "le.guin@example.com");
    assert_eq!(rows[0].name, "le guin");
}

#[test]
fn subscribe_rejects_empty_fields() {
    let mut subscriptions = Table::new();
    let form = rust2prod_api::subscriptions::FormData {
        email: "".to_string(),
        name: "le guin".to_string(),
    };
    let reply = rust2prod_api::subscriptions::subscribe(&mut subscriptions, &form);
    assert_eq!(reply.status, 400);
    assert_eq!(subscriptions.row_count(), 0);
}

#[test]
fn response_envelope_keeps_its_parts() {
    let r = rust2prod_api::controller::ResponseBody::new("ok", 5u32);
    assert_eq!(r.message, "ok");
    assert_eq!(r.data, 5);
}

#[test]
fn custom_error_keeps_its_parts() {
    let e = rust2prod_api::user::CustomError::new(404, "no such user".to_string());
    assert_eq!(e.error_status_code, 404);
    assert_eq!(e.error_message, "no such user");
}
