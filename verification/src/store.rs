//! The reserve-then-fill semantics of the rates table.
//!
//! A cycle writes twice: it first reserves a row `(bucket_timestamp, base)`
//! with `pairs` unset, and later fills exactly that row with the fetched
//! pairs. A row whose `pairs` stays unset is the auditable trace of a cycle
//! that failed between the two writes; no row is ever deleted. This module
//! states those semantics over a table value and proves them; the deployed
//! store is driven through the statement text of [`crate::sql`] under the
//! same contracts.

use vstd::prelude::*;

use crate::errors::WriteFailure;

verus! {

/// One row of the rates table.
pub struct RateRow {
    /// Store-assigned surrogate key, fixed at reserve time.
    pub id: i64,
    /// The hour-aligned instant this record represents.
    pub bucket_timestamp: i64,
    /// The base currency, fixed at reserve time.
    pub base: String,
    /// The rate pairs: `None` between reserve and fill, set exactly once.
    pub pairs: Option<serde_json::Value>,
}

/// The table after reserving a row for `bucket_timestamp` and `base`: one
/// new row at the end, keyed by the next free id, with `pairs` unset.
pub open spec fn spec_reserve(rows: Seq<RateRow>, bucket_timestamp: i64, base: String) -> Seq<
    RateRow,
> {
    rows.push(
        (RateRow {
            id: rows.len() as i64,
            bucket_timestamp,
            base,
            pairs: None,
        }),
    )
}

/// The table after filling row `id` with `pairs`: that row updated in
/// place, every other row untouched; an unknown id changes nothing.
pub open spec fn spec_fill(rows: Seq<RateRow>, id: i64, pairs: serde_json::Value) -> Seq<RateRow> {
    if 0 <= id < rows.len() {
        rows.update(
            id as int,
            (RateRow {
                id: rows[id as int].id,
                bucket_timestamp: rows[id as int].bucket_timestamp,
                base: rows[id as int].base,
                pairs: Some(pairs),
            }),
        )
    } else {
        rows
    }
}

/// The row the table holds under `id`, if any.
pub open spec fn spec_record(rows: Seq<RateRow>, id: i64) -> Option<RateRow> {
    if 0 <= id < rows.len() {
        Some(rows[id as int])
    } else {
        None
    }
}

/// An in-memory rates table with the store's write semantics.
pub struct RatesTable {
    rows: Vec<RateRow>,
}

impl View for RatesTable {
    type V = Seq<RateRow>;

    closed spec fn view(&self) -> Seq<RateRow> {
        self.rows@
    }
}

impl RatesTable {
    /// Ids are the store's serial keys: row `i` carries id `i`.
    pub open spec fn inv(&self) -> bool {
        forall|i: int| 0 <= i < self@.len() ==> (#[trigger] self@[i]).id == i
    }

    /// An empty table.
    pub fn new() -> (t: Self)
        ensures
            t@ =~= Seq::<RateRow>::empty(),
            t.inv(),
    {
        RatesTable { rows: Vec::new() }
    }

    /// Reserves a row for one cycle: inserts `(bucket_timestamp, base)` with
    /// `pairs` unset and returns the store-generated id, which no earlier
    /// row carries.
    pub fn reserve(&mut self, bucket_timestamp: i64, base: String) -> (id: i64)
        requires
            old(self).inv(),
            old(self)@.len() < i64::MAX,
        ensures
            final(self).inv(),
            final(self)@ == spec_reserve(old(self)@, bucket_timestamp, base),
            id == old(self)@.len() as i64,
            spec_record(final(self)@, id) matches Some(row) && row == (RateRow {
                id,
                bucket_timestamp,
                base,
                pairs: None,
            }),
            forall|i: int| 0 <= i < old(self)@.len() ==> (#[trigger] old(self)@[i]).id != id,
    {
        let id = self.rows.len() as i64;
        self.rows.push(RateRow { id, bucket_timestamp, base, pairs: None });
        id
    }

    /// Fills a reserved row: sets `pairs` on the row keyed by `id` and
    /// touches nothing else. Fails, changing nothing, exactly when the
    /// table has no such row.
    pub fn fill(&mut self, id: i64, pairs: serde_json::Value) -> (r: Result<(), WriteFailure>)
        requires
            old(self).inv(),
        ensures
            final(self).inv(),
            final(self)@ == spec_fill(old(self)@, id, pairs),
            r is Ok <==> 0 <= id < old(self)@.len(),
    {
        if 0 <= id && (id as u64) < (self.rows.len() as u64) {
            let i = id as usize;
            let mut row = self.rows.remove(i);
            row.pairs = Some(pairs);
            self.rows.insert(i, row);
            proof {
                assert(self@ =~= spec_fill(old(self)@, id, pairs));
            }
            Ok(())
        } else {
            Err(WriteFailure { cause: "no reserved row carries the requested id".to_owned() })
        }
    }

    /// Reads the row keyed by `id`, if the table holds one.
    pub fn record(&self, id: i64) -> (r: Option<&RateRow>)
        ensures
            match r {
                Some(row) => spec_record(self@, id) == Some(*row),
                None => spec_record(self@, id) is None,
            },
    {
        if 0 <= id && (id as u64) < (self.rows.len() as u64) {
            Some(&self.rows[id as usize])
        } else {
            None
        }
    }
}

/// Filling is idempotent in effect: retrying a fill with the same arguments
/// re-sets identical data and leaves the table exactly as one fill left it.
pub proof fn lemma_fill_idempotent(rows: Seq<RateRow>, id: i64, pairs: serde_json::Value)
    ensures
        spec_fill(spec_fill(rows, id, pairs), id, pairs) =~= spec_fill(rows, id, pairs),
{
}

/// Reserve-then-fill round trip: a row reserved for a bucket and then filled
/// with a document reads back as exactly that bucket, base and document —
/// the very value, so nothing about the pairs is lost or reordered — and
/// every other row is left as it was.
pub proof fn lemma_reserve_fill_round_trip(
    rows: Seq<RateRow>,
    bucket_timestamp: i64,
    base: String,
    pairs: serde_json::Value,
)
    requires
        rows.len() < i64::MAX,
    ensures
        ({
            let id = rows.len() as i64;
            let reserved = spec_reserve(rows, bucket_timestamp, base);
            let filled = spec_fill(reserved, id, pairs);
            &&& spec_record(reserved, id) == Some(
                (RateRow { id, bucket_timestamp, base, pairs: None }),
            )
            &&& spec_record(filled, id) == Some(
                (RateRow { id, bucket_timestamp, base, pairs: Some(pairs) }),
            )
            &&& forall|j: int| 0 <= j < rows.len() ==> #[trigger] filled[j] == rows[j]
        }),
{
}

} // verus!
