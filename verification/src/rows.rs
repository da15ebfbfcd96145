//! Tables are read row by row, and the first row that fails decides the
//! error. This module states that once, for every table.

use vstd::prelude::*;
use crate::errors::Error;

verus! {

/// The first `count` rows of a table whose row `k` is `row(k)`, or the error
/// of the first row that has one.
pub open spec fn collect<T>(row: spec_fn(int) -> Result<T, Error>, count: nat) -> Result<
    Seq<T>,
    Error,
>
    decreases count,
{
    if count == 0 {
        Ok(Seq::empty())
    } else {
        match collect(row, (count - 1) as nat) {
            Err(e) => Err(e),
            Ok(before) => match row(count - 1) {
                Err(e) => Err(e),
                Ok(r) => Ok(before.push(r)),
            },
        }
    }
}

/// A table that was read has `count` rows, and row `k` is what `row(k)` gives.
pub proof fn lemma_collect_ok<T>(row: spec_fn(int) -> Result<T, Error>, count: nat)
    requires
        collect(row, count) is Ok,
    ensures
        collect(row, count)->Ok_0.len() == count,
        forall|k: int|
            0 <= k < count ==> #[trigger] row(k) == Ok::<T, Error>(collect(row, count)->Ok_0[k]),
    decreases count,
{
    if count > 0 {
        lemma_collect_ok(row, (count - 1) as nat);
    }
}

/// Where the first `k` rows can be read and row `k` cannot, no longer table
/// can be read, and its error is that of row `k`.
pub proof fn lemma_collect_fails<T>(row: spec_fn(int) -> Result<T, Error>, k: nat, count: nat)
    requires
        k < count,
        collect(row, k) is Ok,
        row(k as int) is Err,
    ensures
        collect(row, count) == Err::<Seq<T>, Error>(row(k as int)->Err_0),
    decreases count,
{
    if count > k + 1 {
        lemma_collect_fails(row, k, (count - 1) as nat);
    }
}

} // verus!
