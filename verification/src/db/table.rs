//! What statements do to a table, and which rows answer a query.

use vstd::prelude::*;
use crate::db::sql::SqlView;
use crate::text::text_before;

verus! {

/// How many rows of the table are wanted.
pub open spec fn count_rows(
    table: Seq<Seq<SqlView>>,
    wanted: spec_fn(Seq<SqlView>) -> bool,
) -> nat
    decreases table.len(),
{
    if table.len() == 0 {
        0
    } else {
        count_rows(table.drop_last(), wanted) + (if wanted(table.last()) {
            1nat
        } else {
            0nat
        })
    }
}

/// Row `a` of the table is older than row `b`, by the time that is written in
/// this column.
pub open spec fn older(table: Seq<Seq<SqlView>>, column: int, a: int, b: int) -> bool {
    text_before(table[a][column]->Text_0, table[b][column]->Text_0)
}

/// The rows at the positions `picks` answer a query for the wanted rows, newest
/// first and at most `limit` of them: they are different wanted rows, as many
/// as there are up to the limit, none of them older than one behind it, and
/// none left out that is newer than one of them.
pub open spec fn answers(
    table: Seq<Seq<SqlView>>,
    wanted: spec_fn(Seq<SqlView>) -> bool,
    column: int,
    limit: int,
    picks: Seq<int>,
) -> bool {
    let all = count_rows(table, wanted) as int;
    &&& picks.no_duplicates()
    &&& picks.len() == (if limit < all {
        limit
    } else {
        all
    })
    &&& forall|i: int|
        0 <= i < picks.len() ==> 0 <= #[trigger] picks[i] < table.len() && wanted(table[picks[i]])
    &&& forall|i: int, j: int|
        0 <= i < j < picks.len() ==> !(#[trigger] older(table, column, picks[i], picks[j]))
    &&& forall|i: int, k: int|
        0 <= i < picks.len() && 0 <= k < table.len() && wanted(table[k]) && !picks.contains(k)
            ==> !(#[trigger] older(table, column, picks[i], k))
}

} // verus!
