//! The subscription route: create a subscriber row.
//!
//! A subscriber row is structurally a user row whose instant records the
//! subscription time; it lives in a table of its own.

use crate::controller::{form_valid, HttpReply};
use crate::ident::is_uuid_text;
use crate::store::{id_taken, ApiError, Table};
use vstd::prelude::*;

verus! {

/// The subscription form: both fields are required and non-empty.
pub struct FormData {
    pub email: String,
    pub name: String,
}

/// The subscribe handler: validates the form and appends one subscriber
/// row. Success answers `200` with an empty body; an empty required field
/// is rejected as `400` with the table untouched; a refused insert (an id
/// clash) answers `500`, the table untouched. Every body is empty. A
/// clash presupposes a row already carrying a canonical-form id, so
/// against a table with none — an empty one in particular — a valid form
/// is owed `200`.
pub fn subscribe(t: &mut Table, form: &FormData) -> (reply: HttpReply)
    requires
        old(t).wf(),
    ensures
        final(t).wf(),
        reply.body@ == Seq::<char>::empty(),
        !form_valid(form.name@, form.email@) ==> reply.status == 400 && final(t)@ == old(t)@,
        form_valid(form.name@, form.email@) ==> ({
            ||| {
                &&& reply.status == 200
                &&& final(t)@ == old(t)@.push(final(t)@.last())
                &&& final(t)@.last().name == form.name@
                &&& final(t)@.last().email == form.email@
                &&& is_uuid_text(final(t)@.last().id)
                &&& !id_taken(old(t)@, final(t)@.last().id)
            }
            ||| (reply.status == 500 && final(t)@ == old(t)@)
        }),
        form_valid(form.name@, form.email@) && reply.status == 500 ==> exists|i: int|
            0 <= i < old(t)@.len() && is_uuid_text(old(t)@[i].id),
{
    if form.name.as_str().is_empty() || form.email.as_str().is_empty() {
        return HttpReply { status: 400, body: String::new() };
    }
    match t.insert(&form.name, &form.email) {
        Ok(_) => HttpReply { status: 200, body: String::new() },
        Err(_) => HttpReply { status: 500, body: String::new() },
    }
}

} // verus!
