//! Request handlers for user records: decode a request's fields into a
//! validated command, invoke the gateway, and map the outcome onto an
//! HTTP status and body.
//!
//! Reads deliberately collapse "no rows" and "query error" into the same
//! client-visible `404`; a create answers with an empty body and does not
//! echo the generated id. Both are properties of the service to preserve,
//! not accidents.

use crate::ident::is_uuid_text;
use crate::json::{user_json, user_to_json, users_json, users_to_json};
use crate::store::{id_taken, lookup, ApiError, Table};
use crate::user::{user_wf, User, UserV};
use vstd::prelude::*;

verus! {

/// The create form for a user: both fields are required and non-empty.
pub struct UserFormData {
    pub name: String,
    pub email: String,
}

/// A response envelope: a message beside a payload.
pub struct ResponseBody<T> {
    pub message: String,
    pub data: T,
}

impl<T> ResponseBody<T> {
    pub fn new(message: &str, data: T) -> (r: ResponseBody<T>)
        ensures
            r.message@ == message@,
            r.data == data,
    {
        ResponseBody { message: message.to_owned(), data }
    }
}

/// What a handler answers: an HTTP status code and the response body.
/// Failures carry an empty body — no error detail reaches a client.
pub struct HttpReply {
    pub status: u16,
    pub body: String,
}

/// A create form is accepted exactly when both required fields are
/// non-empty.
pub open spec fn form_valid(name: Seq<char>, email: Seq<char>) -> bool {
    name.len() > 0 && email.len() > 0
}

/// Maps a listing outcome: rows become `200` with the JSON array; any
/// gateway failure collapses to `404` with an empty body.
pub fn list_reply(r: Result<Vec<User>, ApiError>) -> (reply: HttpReply)
    requires
        r is Ok ==> forall|i: int|
            0 <= i < r->Ok_0.deep_view().len() ==> user_wf(#[trigger] r->Ok_0.deep_view()[i]),
    ensures
        r is Ok ==> reply.status == 200 && reply.body@ == users_json(r->Ok_0.deep_view()),
        r is Err ==> reply.status == 404 && reply.body@ == Seq::<char>::empty(),
{
    match r {
        Ok(us) => HttpReply { status: 200, body: users_to_json(&us) },
        Err(_) => HttpReply { status: 404, body: String::new() },
    }
}

/// Maps a single-row outcome: the row becomes `200` with its JSON object;
/// `NotFound` and `QueryFailure` alike collapse to `404`, empty body.
pub fn user_reply(r: Result<User, ApiError>) -> (reply: HttpReply)
    requires
        r is Ok ==> user_wf(r->Ok_0@),
    ensures
        r is Ok ==> reply.status == 200 && reply.body@ == user_json(r->Ok_0@),
        r is Err ==> reply.status == 404 && reply.body@ == Seq::<char>::empty(),
{
    match r {
        Ok(u) => HttpReply { status: 200, body: user_to_json(&u) },
        Err(_) => HttpReply { status: 404, body: String::new() },
    }
}

/// Maps a create outcome: success is `200` with an empty body (the new
/// row's id is not echoed back); a rejected field is `400`; any gateway
/// failure is `500`. Every create body is empty.
pub fn create_reply(r: &Result<(), ApiError>) -> (reply: HttpReply)
    ensures
        reply.body@ == Seq::<char>::empty(),
        r is Ok ==> reply.status == 200,
        r is Err && r->Err_0 == ApiError::ValidationFailure ==> reply.status == 400,
        r is Err && r->Err_0 != ApiError::ValidationFailure ==> reply.status == 500,
{
    match r {
        Ok(_) => HttpReply { status: 200, body: String::new() },
        Err(ApiError::ValidationFailure) => HttpReply { status: 400, body: String::new() },
        Err(_) => HttpReply { status: 500, body: String::new() },
    }
}

/// Validates the form and inserts one user row — the only operation with
/// an observable side effect. An empty required field is rejected as
/// `ValidationFailure` without touching the table; an accepted insert
/// appends exactly one row carrying the form's fields under a fresh id.
/// A valid form is refused only by an id clash, which presupposes a row
/// already carrying a canonical-form id: against an empty table a valid
/// form always succeeds.
pub fn add_user(t: &mut Table, form: &UserFormData) -> (r: Result<(), ApiError>)
    requires
        old(t).wf(),
    ensures
        final(t).wf(),
        !form_valid(form.name@, form.email@) ==> r == Err::<(), ApiError>(
            ApiError::ValidationFailure,
        ) && final(t)@ == old(t)@,
        form_valid(form.name@, form.email@) ==> match r {
            Ok(_) => {
                &&& final(t)@ == old(t)@.push(final(t)@.last())
                &&& final(t)@.last().name == form.name@
                &&& final(t)@.last().email == form.email@
                &&& is_uuid_text(final(t)@.last().id)
                &&& !id_taken(old(t)@, final(t)@.last().id)
            },
            Err(e) => e == ApiError::QueryFailure && final(t)@ == old(t)@,
        },
        form_valid(form.name@, form.email@) && r is Err ==> exists|i: int|
            0 <= i < old(t)@.len() && is_uuid_text(old(t)@[i].id),
{
    if form.name.as_str().is_empty() || form.email.as_str().is_empty() {
        return Err(ApiError::ValidationFailure);
    }
    match t.insert(&form.name, &form.email) {
        Ok(_) => Ok(()),
        Err(e) => Err(e),
    }
}

/// The create handler: validate, insert, map the outcome. A `500` can
/// only come from an id clash, so against a table with no canonical-form
/// id — an empty table in particular — a valid form is owed `200`.
pub fn post_user(t: &mut Table, form: &UserFormData) -> (reply: HttpReply)
    requires
        old(t).wf(),
    ensures
        final(t).wf(),
        reply.body@ == Seq::<char>::empty(),
        !form_valid(form.name@, form.email@) ==> reply.status == 400 && final(t)@ == old(t)@,
        form_valid(form.name@, form.email@) ==> ({
            ||| {
                &&& reply.status == 200
                &&& final(t)@ == old(t)@.push(final(t)@.last())
                &&& final(t)@.last().name == form.name@
                &&& final(t)@.last().email == form.email@
                &&& is_uuid_text(final(t)@.last().id)
                &&& !id_taken(old(t)@, final(t)@.last().id)
            }
            ||| (reply.status == 500 && final(t)@ == old(t)@)
        }),
        form_valid(form.name@, form.email@) && reply.status == 500 ==> exists|i: int|
            0 <= i < old(t)@.len() && is_uuid_text(old(t)@[i].id),
{
    let r = add_user(t, form);
    create_reply(&r)
}

/// The listing handler: every row of the table as a JSON array, `200`.
pub fn get_all_users(t: &Table) -> (reply: HttpReply)
    requires
        t.wf(),
    ensures
        reply.status == 200,
        reply.body@ == users_json(t@),
{
    list_reply(User::find_all(t))
}

/// The single-record handler: the row carrying `user_id` as a JSON
/// object under `200`, or the collapsed `404`.
pub fn get_user(t: &Table, user_id: &str) -> (reply: HttpReply)
    requires
        t.wf(),
    ensures
        lookup(t@, user_id@) is Some ==> reply.status == 200 && reply.body@ == user_json(
            lookup(t@, user_id@)->0,
        ),
        lookup(t@, user_id@) is None ==> reply.status == 404 && reply.body@
            == Seq::<char>::empty(),
{
    let r = User::get_user_by_id(t, user_id);
    proof {
        if lookup(t@, user_id@) is Some {
            crate::store::lemma_lookup_among_rows(t@, user_id@);
        }
    }
    user_reply(r)
}

} // verus!
