//! The row cursor: the primary key of the next row to fetch, and the query texts
//! handed to the database.
use vstd::prelude::*;
use vstd::string::StringExecFns;
use crate::decimal::{dec_nat, push_decimal};

verus! {

/// The primary key at which a fresh cursor starts.
pub const FIRST_ROW_ID: u64 = 1;

/// Position of the next row to fetch. It moves on once per fetch, whatever the
/// fetch brings back.
pub struct RowCursor {
    pub next_row_id: u64,
}

/// One fetch of the cursor: `queried` is where it stood, and it stands one further.
pub open spec fn advance_step(before: RowCursor, after: RowCursor, queried: u64) -> bool {
    &&& queried == before.next_row_id
    &&& after.next_row_id == before.next_row_id + 1
}

impl RowCursor {
    pub fn new() -> (r: RowCursor)
        ensures
            r.next_row_id == FIRST_ROW_ID,
    {
        RowCursor { next_row_id: FIRST_ROW_ID }
    }

    /// True while the cursor can still move on.
    pub open spec fn can_advance(&self) -> bool {
        self.next_row_id < u64::MAX
    }

    /// Hands out the current position and moves one further.
    pub fn advance(&mut self) -> (r: u64)
        requires
            old(self).can_advance(),
        ensures
            advance_step(*old(self), *final(self), r),
    {
        let id = self.next_row_id;
        self.next_row_id = id + 1;
        id
    }
}

/// `SELECT * FROM <table> WHERE id = <id>;`
pub open spec fn row_query_text(table: Seq<char>, id: nat) -> Seq<char> {
    "SELECT * FROM "@ + table + " WHERE id = "@ + dec_nat(id) + ";"@
}

/// ``SHOW `columns` FROM `<table>`;``
pub open spec fn schema_query_text(table: Seq<char>) -> Seq<char> {
    "SHOW `columns` FROM `"@ + table + "`;"@
}

/// The query that fetches the row whose primary key is `id`.
pub fn row_query(table_name: &str, id: u64) -> (r: String)
    ensures
        r@ == row_query_text(table_name@, id as nat),
{
    let mut out = String::from_str("SELECT * FROM ");
    out.append(table_name);
    out.append(" WHERE id = ");
    push_decimal(&mut out, id);
    out.append(";");
    out
}

/// The query that lists a table's columns in declared order.
pub fn schema_query(table_name: &str) -> (r: String)
    ensures
        r@ == schema_query_text(table_name@),
{
    let mut out = String::from_str("SHOW `columns` FROM `");
    out.append(table_name);
    out.append("`;");
    out
}


/// After any number of fetches, each fetch queried the position the cursor
/// started at plus the number of fetches before it, whether or not those
/// fetches found a row: the n-th fetch queries `initial + n - 1`.
pub proof fn lemma_sequential_advancement(cursors: Seq<RowCursor>, queried: Seq<u64>)
    requires
        cursors.len() == queried.len() + 1,
        forall|k: int|
            0 <= k < queried.len() ==> advance_step(#[trigger] cursors[k], cursors[k + 1], queried[k]),
    ensures
        forall|k: int| 0 <= k < queried.len() ==> #[trigger] queried[k] == cursors[0].next_row_id + k,
        cursors.last().next_row_id == cursors[0].next_row_id + queried.len(),
    decreases queried.len(),
{
    if queried.len() > 0 {
        let cs = cursors.drop_last();
        let qs = queried.drop_last();
        assert forall|k: int| 0 <= k < qs.len() implies advance_step(
            #[trigger] cs[k],
            cs[k + 1],
            qs[k],
        ) by {
            assert(cs[k] == cursors[k] && cs[k + 1] == cursors[k + 1] && qs[k] == queried[k]);
        }
        lemma_sequential_advancement(cs, qs);
        let n = queried.len() - 1;
        assert(advance_step(cursors[n], cursors[n + 1], queried[n]));
        assert(cs.last() == cursors[n]);
        assert forall|k: int| 0 <= k < queried.len() implies #[trigger] queried[k]
            == cursors[0].next_row_id + k by {
            if k < n {
                assert(qs[k] == queried[k]);
            }
        }
    }
}

} // verus!
