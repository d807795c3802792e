//! The repository semantics: a materialized model of the one table the
//! service reads and writes.  A `Table` holds `Sample` rows in the order
//! the store yields them; the three data-access operations (insert one,
//! fetch one by name, fetch all) are stated exactly over that sequence.
//!
//! Uniqueness of names is not enforced at this layer: a lookup returns the
//! first matching row, and every match carries the looked-up name, so the
//! result is pinned at the level of values either way.

use vstd::prelude::*;

use crate::model::DataError;
use crate::model::Sample;
use crate::text::str_eq;

verus! {

/// The name carried by each row of a row sequence, in row order.
pub open spec fn names_of(rows: Seq<Sample>) -> Seq<Seq<char>> {
    rows.map_values(|s: Sample| s@)
}

/// Whether some row of `rows` carries exactly the name `name`.
pub open spec fn contains_name(rows: Seq<Seq<char>>, name: Seq<char>) -> bool {
    exists|i: int| 0 <= i < rows.len() && rows[i] == name
}

/// The table the service serves: rows of `Sample`, in store order.
pub struct Table {
    rows: Vec<Sample>,
}

impl View for Table {
    type V = Seq<Seq<char>>;

    closed spec fn view(&self) -> Seq<Seq<char>> {
        names_of(self.rows@)
    }
}

impl Table {
    /// An empty table.
    pub fn new() -> (r: Table)
        ensures
            r@ == Seq::<Seq<char>>::empty(),
    {
        let r = Table { rows: Vec::new() };
        proof {
            assert(r@ =~= Seq::<Seq<char>>::empty());
        }
        r
    }

    /// How many rows the table holds.
    pub fn len(&self) -> (r: usize)
        ensures
            r == self@.len(),
    {
        self.rows.len()
    }

    /// Insert one record and return the stored row.  The store model
    /// rejects nothing, so the result is always the persisted value and
    /// the new row stands at the end of the table.
    pub fn insert(&mut self, name: String) -> (r: Result<Sample, DataError>)
        ensures
            final(self)@ == old(self)@.push(name@),
            r matches Ok(s) && s@ == name@,
    {
        let ghost pre = self.rows@;
        let stored = Sample { name };
        let returned = stored.clone();
        self.rows.push(stored);
        proof {
            assert(self@ =~= names_of(pre).push(returned@));
        }
        Ok(returned)
    }

    /// Parameterized equality lookup expecting at most one row: the first
    /// row carrying `name` is returned; an empty result set yields
    /// `NotFound`.
    pub fn find_by_name(&self, name: &str) -> (r: Result<Sample, DataError>)
        ensures
            contains_name(self@, name@) ==> (r matches Ok(s) && s@ == name@),
            !contains_name(self@, name@) ==> r == Err::<Sample, DataError>(DataError::NotFound),
    {
        let n = self.rows.len();
        for i in 0..n
            invariant
                n == self.rows@.len(),
                forall|j: int| 0 <= j < i ==> self@[j] != name@,
        {
            if str_eq(self.rows[i].name.as_str(), name) {
                proof {
                    assert(self@[i as int] == name@);
                }
                return Ok(self.rows[i].clone());
            }
            proof {
                assert(self@[i as int] != name@);
            }
        }
        Err(DataError::NotFound)
    }

    /// Unfiltered select over the whole table: a materialized sequence of
    /// every row, in store order.  The store model rejects nothing, so
    /// the result is always the full row sequence.
    pub fn list_all(&self) -> (r: Result<Vec<Sample>, DataError>)
        ensures
            r matches Ok(v) && names_of(v@) == self@,
    {
        let n = self.rows.len();
        let mut out: Vec<Sample> = Vec::new();
        for i in 0..n
            invariant
                n == self.rows@.len(),
                out@.len() == i,
                forall|j: int| 0 <= j < i ==> out@[j]@ == self@[j],
        {
            out.push(self.rows[i].clone());
        }
        proof {
            assert(names_of(out@) =~= self@);
        }
        Ok(out)
    }
}

/// Inserting a name and immediately looking that same name up succeeds:
/// the row pushed by the insert is a match, and every match carries the
/// inserted name, so the looked-up record equals the inserted one.
pub proof fn lemma_insert_then_find(rows: Seq<Seq<char>>, name: Seq<char>)
    ensures
        contains_name(rows.push(name), name),
{
    assert(rows.push(name)[rows.len() as int] == name);
}

/// A name held by no row is not found: the lookup contract then forces
/// the `NotFound` failure, which the handler layer maps to a 404.
pub proof fn lemma_absent_name_not_contained(rows: Seq<Seq<char>>, name: Seq<char>)
    requires
        forall|i: int| 0 <= i < rows.len() ==> rows[i] != name,
    ensures
        !contains_name(rows, name),
{
}

/// Listing is idempotent: the listing contract makes each result equal
/// to the table state, so two listings without an intervening write
/// yield the same rows in the same order.
pub proof fn lemma_list_idempotent(
    state: Seq<Seq<char>>,
    first: Seq<Seq<char>>,
    second: Seq<Seq<char>>,
)
    requires
        first == state,
        second == state,
    ensures
        first == second,
{
}

} // verus!
