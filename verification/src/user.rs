//! The record model: the shape of a persisted row and its invariants.

use crate::store::{lookup, ApiError, Table};
use crate::time::{ts_wf, Timestamp, TsV};
use vstd::prelude::*;
use vstd::string::StrSliceExecFns;

verus! {

/// A persisted record. A user row; a subscriber row is structurally the
/// same, with the instant recording the subscription time instead.
///
/// `id` and `created_at` are filled in by the store at insert time, never
/// by a caller; a row is immutable once persisted.
#[derive(Debug)]
pub struct User {
    pub id: String,
    pub name: String,
    pub email: String,
    pub created_at: Timestamp,
}

/// The mathematical content of a row.
pub ghost struct UserV {
    pub id: Seq<char>,
    pub name: Seq<char>,
    pub email: Seq<char>,
    pub created_at: TsV,
}

impl View for User {
    type V = UserV;

    open spec fn view(&self) -> UserV {
        UserV {
            id: self.id@,
            name: self.name@,
            email: self.email@,
            created_at: self.created_at@,
        }
    }
}

impl DeepView for User {
    type V = UserV;

    open spec fn deep_view(&self) -> UserV {
        self@
    }
}

/// A well-formed row: its instant lies in the range that can be rendered
/// as RFC 3339 text.
pub open spec fn user_wf(u: UserV) -> bool {
    ts_wf(u.created_at)
}

impl Clone for User {
    fn clone(&self) -> (r: User)
        ensures
            r == *self,
    {
        User {
            id: self.id.clone(),
            name: self.name.clone(),
            email: self.email.clone(),
            created_at: self.created_at,
        }
    }
}

/// Whether two string slices carry the same characters.
fn str_eq(a: &str, b: &str) -> (r: bool)
    ensures
        r == (a@ == b@),
{
    let n = a.unicode_len();
    let m = b.unicode_len();
    if n != m {
        return false;
    }
    let mut i: usize = 0;
    while i < n
        invariant
            n == a@.len(),
            n == b@.len(),
            i <= n,
            forall|k: int| 0 <= k < i ==> a@[k] == b@[k],
        decreases n - i,
    {
        if a.get_char(i) != b.get_char(i) {
            return false;
        }
        i += 1;
    }
    proof {
        assert(a@ =~= b@);
    }
    true
}

impl User {
    /// Every row of the table, in insertion order. An empty table reads as
    /// an empty vector, not as an error.
    pub fn find_all(t: &Table) -> (r: Result<Vec<User>, ApiError>)
        requires
            t.wf(),
        ensures
            r is Ok,
            r->Ok_0.deep_view() == t@,
    {
        let n = t.row_count();
        let mut out: Vec<User> = Vec::new();
        let mut i: usize = 0;
        while i < n
            invariant
                n == t@.len(),
                i <= n,
                out.deep_view() == t@.take(i as int),
            decreases n - i,
        {
            let row = t.row_at(i).clone();
            let ghost prev = out.deep_view();
            let ghost prev_rows = out@;
            out.push(row);
            i += 1;
            proof {
                assert forall|k: int| 0 <= k < out.deep_view().len() implies out.deep_view()[k]
                    == t@.take(i as int)[k] by {
                    if k < prev.len() {
                        assert(out@[k] == prev_rows[k]);
                        assert(prev[k] == prev_rows[k].deep_view());
                        assert(prev[k] == t@.take(i as int - 1)[k]);
                    } else {
                        assert(out@[k] == row);
                        assert(row.deep_view() == row@ && row@ == t@[i as int - 1]);
                    }
                }
                assert(prev.len() == prev_rows.len());
                assert(out.deep_view().len() == out@.len());
                assert(out.deep_view().len() == t@.take(i as int).len());
                assert(out.deep_view() =~= t@.take(i as int));
            }
        }
        proof {
            assert(t@.take(n as int) =~= t@);
        }
        Ok(out)
    }

    /// The row carrying `user_id`, if the table holds one; `NotFound`
    /// exactly when no row does.
    pub fn get_user_by_id(t: &Table, user_id: &str) -> (r: Result<User, ApiError>)
        requires
            t.wf(),
        ensures
            lookup(t@, user_id@) is Some ==> r is Ok && r->Ok_0@ == lookup(t@, user_id@)->0,
            lookup(t@, user_id@) is None ==> r == Err::<User, ApiError>(ApiError::NotFound),
    {
        let n = t.row_count();
        let mut i: usize = 0;
        proof {
            assert(t@.skip(0) =~= t@);
        }
        while i < n
            invariant
                t.wf(),
                n == t@.len(),
                i <= n,
                lookup(t@, user_id@) == lookup(t@.skip(i as int), user_id@),
            decreases n - i,
        {
            let row = t.row_at(i);
            proof {
                assert(t@.skip(i as int)[0] == t@[i as int]);
            }
            if str_eq(row.id.as_str(), user_id) {
                return Ok(row.clone());
            }
            proof {
                assert(t@.skip(i as int).drop_first() =~= t@.skip(i as int + 1));
            }
            i += 1;
        }
        proof {
            assert(t@.skip(n as int) =~= Seq::<UserV>::empty());
        }
        Err(ApiError::NotFound)
    }
}

/// An error as surfaced to operators: a status code and a message.
#[derive(Debug)]
pub struct CustomError {
    pub error_status_code: u16,
    pub error_message: String,
}

impl CustomError {
    pub fn new(error_status_code: u16, error_message: String) -> (r: CustomError)
        ensures
            r.error_status_code == error_status_code,
            r.error_message == error_message,
    {
        CustomError { error_status_code, error_message }
    }
}

} // verus!
