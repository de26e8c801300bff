//! The persistence gateway's semantics: an append-only table of rows keyed
//! by server-generated ids.
//!
//! The canonical copy of the data is the relational store, which an outside
//! collaborator queries on the service's behalf; this table states what
//! those operations mean — what an insert appends, what a lookup returns,
//! when each error arises — and the handler logic is verified against it.

use crate::ident::{fresh_id, is_uuid_text};
use crate::time::{ts_wf, Timestamp};
use crate::user::{user_wf, User, UserV};
use vstd::prelude::*;

verus! {

/// The uniform error taxonomy of the persistence layer.
#[derive(Clone, Copy, PartialEq, Eq, Structural, Debug)]
pub enum ApiError {
    /// A required input field was missing or empty.
    ValidationFailure,
    /// A lookup by id matched zero rows.
    NotFound,
    /// Any transport-level or constraint-level failure of the store.
    QueryFailure,
}

/// Whether some row of `rows` already carries `id`.
pub open spec fn id_taken(rows: Seq<UserV>, id: Seq<char>) -> bool {
    exists|i: int| 0 <= i < rows.len() && rows[i].id == id
}

/// The row of `rows` carrying `id`, scanning from the front.
pub open spec fn lookup(rows: Seq<UserV>, id: Seq<char>) -> Option<UserV>
    decreases rows.len(),
{
    if rows.len() == 0 {
        None
    } else if rows[0].id == id {
        Some(rows[0])
    } else {
        lookup(rows.drop_first(), id)
    }
}

/// No two rows share an id.
pub open spec fn unique_ids(rows: Seq<UserV>) -> bool {
    forall|i: int, j: int|
        0 <= i < j < rows.len() ==> #[trigger] rows[i].id != #[trigger] rows[j].id
}

/// The table invariant: ids are unique and every row is well formed.
pub open spec fn rows_wf(rows: Seq<UserV>) -> bool {
    &&& unique_ids(rows)
    &&& forall|i: int| 0 <= i < rows.len() ==> user_wf(#[trigger] rows[i])
}

/// An append-only table of rows, viewed as the sequence of its rows in
/// insertion order. Rows are only ever appended: no update or delete
/// operation exists.
pub struct Table {
    rows: Vec<User>,
}

impl View for Table {
    type V = Seq<UserV>;

    closed spec fn view(&self) -> Seq<UserV> {
        self.rows.deep_view()
    }
}

impl Table {
    pub open spec fn wf(&self) -> bool {
        rows_wf(self@)
    }

    /// A table with no rows.
    pub fn new() -> (t: Table)
        ensures
            t@ == Seq::<UserV>::empty(),
            t.wf(),
    {
        let t = Table { rows: Vec::new() };
        proof {
            assert(t@ =~= Seq::<UserV>::empty());
        }
        t
    }

    /// How many rows the table holds.
    pub fn row_count(&self) -> (n: usize)
        ensures
            n == self@.len(),
    {
        self.rows.len()
    }

    pub(crate) fn row_at(&self, i: usize) -> (u: &User)
        requires
            i < self@.len(),
        ensures
            u@ == self@[i as int],
    {
        &self.rows[i]
    }

    fn contains_id(&self, id: &String) -> (b: bool)
        ensures
            b == id_taken(self@, id@),
    {
        let n = self.rows.len();
        let mut i: usize = 0;
        while i < n
            invariant
                n == self@.len(),
                i <= n,
                forall|k: int| 0 <= k < i ==> #[trigger] self@[k].id != id@,
            decreases n - i,
        {
            if self.rows[i].id == *id {
                proof {
                    assert(self@[i as int].id == id@);
                }
                return true;
            }
            i += 1;
        }
        false
    }

    /// Appends a row built from the given parts, under the given id. The
    /// insert is accepted exactly when no row carries `id` yet; a clash is
    /// a constraint violation and reads as `QueryFailure`, with the table
    /// unchanged.
    pub fn insert_with_id(
        &mut self,
        id: String,
        name: &String,
        email: &String,
        created_at: Timestamp,
    ) -> (r: Result<User, ApiError>)
        requires
            old(self).wf(),
            ts_wf(created_at@),
        ensures
            final(self).wf(),
            id_taken(old(self)@, id@) ==> r == Err::<User, ApiError>(ApiError::QueryFailure)
                && final(self)@ == old(self)@,
            !id_taken(old(self)@, id@) ==> {
                &&& r is Ok
                &&& r->Ok_0@ == (UserV { id: id@, name: name@, email: email@, created_at: created_at@ })
                &&& final(self)@ == old(self)@.push(r->Ok_0@)
            },
    {
        if self.contains_id(&id) {
            Err(ApiError::QueryFailure)
        } else {
            let row = User { id, name: name.clone(), email: email.clone(), created_at };
            let record = row.clone();
            proof {
                assert(!id_taken(self@, row@.id));
            }
            self.rows.push(row);
            proof {
                assert(self@ =~= old(self)@.push(record@));
                lemma_push_keeps_wf(old(self)@, record@);
            }
            Ok(record)
        }
    }

    /// The gateway's insert: draws a fresh random id and the current
    /// instant, then appends one row. Which id comes out is not promised —
    /// only that an accepted insert appended exactly the given fields under
    /// an id no earlier row carries, and that a refused insert (an id
    /// clash, of negligible probability) left the table unchanged. A
    /// refusal can only come from a clash, so it presupposes a row already
    /// carrying a canonical-form id; on a table without one — an empty
    /// table in particular — the insert is accepted whatever id was drawn.
    pub fn insert(&mut self, name: &String, email: &String) -> (r: Result<User, ApiError>)
        requires
            old(self).wf(),
        ensures
            final(self).wf(),
            r is Ok ==> {
                &&& r->Ok_0@.name == name@
                &&& r->Ok_0@.email == email@
                &&& is_uuid_text(r->Ok_0@.id)
                &&& !id_taken(old(self)@, r->Ok_0@.id)
                &&& ts_wf(r->Ok_0@.created_at)
                &&& final(self)@ == old(self)@.push(r->Ok_0@)
            },
            r is Err ==> r->Err_0 == ApiError::QueryFailure && final(self)@ == old(self)@,
            r is Err ==> exists|i: int| 0 <= i < old(self)@.len() && is_uuid_text(
                old(self)@[i].id,
            ),
    {
        let id = fresh_id();
        let created_at = Timestamp::now();
        self.insert_with_id(id, name, email, created_at)
    }
}

proof fn lemma_push_keeps_wf(rows: Seq<UserV>, u: UserV)
    requires
        rows_wf(rows),
        !id_taken(rows, u.id),
        user_wf(u),
    ensures
        rows_wf(rows.push(u)),
{
    let pushed = rows.push(u);
    assert forall|i: int, j: int| 0 <= i < j < pushed.len() implies #[trigger] pushed[i].id
        != #[trigger] pushed[j].id by {
        if j < rows.len() {
            assert(pushed[i] == rows[i] && pushed[j] == rows[j]);
        } else {
            assert(pushed[j] == u);
            assert(pushed[i] == rows[i]);
            if rows[i].id == u.id {
                assert(id_taken(rows, u.id));
            }
        }
    }
}

/// A successful lookup hands back one of the rows.
pub(crate) proof fn lemma_lookup_among_rows(rows: Seq<UserV>, id: Seq<char>)
    requires
        lookup(rows, id) is Some,
    ensures
        exists|i: int| 0 <= i < rows.len() && rows[i] == lookup(rows, id)->0,
    decreases rows.len(),
{
    if rows[0].id == id {
        assert(rows[0] == lookup(rows, id)->0);
    } else {
        lemma_lookup_among_rows(rows.drop_first(), id);
        let i = choose|i: int|
            0 <= i < rows.drop_first().len() && rows.drop_first()[i] == lookup(
                rows.drop_first(),
                id,
            )->0;
        assert(rows[i + 1] == rows.drop_first()[i]);
    }
}

/// Law (round trip): a row accepted under an id that no earlier row
/// carries is found again by that id, unchanged — inserting and then
/// fetching `u.id` yields exactly `u`.
pub proof fn lemma_round_trip(rows: Seq<UserV>, u: UserV)
    requires
        !id_taken(rows, u.id),
    ensures
        lookup(rows.push(u), u.id) == Some(u),
    decreases rows.len(),
{
    let pushed = rows.push(u);
    if rows.len() == 0 {
        assert(pushed[0] == u);
    } else {
        if rows[0].id == u.id {
            assert(id_taken(rows, u.id));
        }
        assert(pushed[0] == rows[0]);
        if id_taken(rows.drop_first(), u.id) {
            let i = choose|i: int|
                0 <= i < rows.drop_first().len() && rows.drop_first()[i].id == u.id;
            assert(rows[i + 1] == rows.drop_first()[i]);
            assert(id_taken(rows, u.id));
        }
        lemma_round_trip(rows.drop_first(), u);
        assert(pushed.drop_first() =~= rows.drop_first().push(u));
    }
}

/// Law (uniqueness): any two accepted inserts carry different ids. Rows
/// are never updated or deleted, so when the second insert is accepted
/// its table still holds the first row, whose id is taken, while an
/// accepted insert's id was free.
pub proof fn lemma_distinct_ids(rows: Seq<UserV>, first: UserV, second: UserV)
    requires
        id_taken(rows, first.id),
        !id_taken(rows, second.id),
    ensures
        first.id != second.id,
{
}

/// Law (idempotent reads): what a fetch returns is a function of the
/// table's rows and the id alone — reads borrow the table immutably and
/// never change it — so two fetches of the same id with no write between
/// them return identical results.
pub proof fn lemma_idempotent_reads(
    rows: Seq<UserV>,
    id: Seq<char>,
    first: Option<UserV>,
    second: Option<UserV>,
)
    requires
        first == lookup(rows, id),
        second == lookup(rows, id),
    ensures
        first == second,
{
}

/// Law (missing lookup): an id that no row carries is looked up as
/// nothing; the gateway then reports `NotFound`.
pub proof fn lemma_missing_lookup(rows: Seq<UserV>, id: Seq<char>)
    requires
        !id_taken(rows, id),
    ensures
        lookup(rows, id) is None,
    decreases rows.len(),
{
    if rows.len() > 0 {
        if rows[0].id == id {
            assert(id_taken(rows, id));
        }
        if id_taken(rows.drop_first(), id) {
            let i = choose|i: int|
                0 <= i < rows.drop_first().len() && rows.drop_first()[i].id == id;
            assert(rows[i + 1] == rows.drop_first()[i]);
            assert(id_taken(rows, id));
        }
        lemma_missing_lookup(rows.drop_first(), id);
    }
}

} // verus!
