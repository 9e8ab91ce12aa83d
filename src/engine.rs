//! Combines the outcomes of the repositories synced in one pass.
use vstd::prelude::*;

use crate::protocol::SyncError;

verus! {

/// The result of a whole pass: the first failure among the outcomes, in the
/// order they were observed, or success when there is none.
pub open spec fn first_error(rs: Seq<Result<(), SyncError>>) -> Result<(), SyncError>
    decreases rs.len(),
{
    if rs.len() == 0 {
        Ok(())
    } else if rs[0] is Err {
        rs[0]
    } else {
        first_error(rs.drop_first())
    }
}

/// The position of the first failure among the outcomes, if any.
pub fn first_failure(rs: &Vec<Result<(), SyncError>>) -> (r: Option<usize>)
    ensures
        match r {
            Some(i) => {
                &&& i < rs@.len()
                &&& rs@[i as int] is Err
                &&& forall|j: int| 0 <= j < i ==> rs@[j] is Ok
            },
            None => forall|j: int| 0 <= j < rs@.len() ==> rs@[j] is Ok,
        },
{
    let mut i: usize = 0;
    while i < rs.len()
        invariant
            i <= rs@.len(),
            forall|j: int| 0 <= j < i ==> rs@[j] is Ok,
        decreases rs@.len() - i,
    {
        if rs[i].is_err() {
            return Some(i);
        }
        i += 1;
    }
    None
}

proof fn lemma_first_error_at(rs: Seq<Result<(), SyncError>>, i: int)
    requires
        0 <= i <= rs.len(),
        forall|j: int| 0 <= j < i ==> rs[j] is Ok,
    ensures
        first_error(rs) == (if i < rs.len() && rs[i] is Err { rs[i] } else { first_error(rs.subrange(i, rs.len() as int)) }),
    decreases i,
{
    assert(rs.subrange(0, rs.len() as int) =~= rs);
    if i > 0 {
        let rest = rs.drop_first();
        assert forall|j: int| 0 <= j < i - 1 implies rest[j] is Ok by {
            assert(rest[j] == rs[j + 1]);
        }
        lemma_first_error_at(rest, i - 1);
        assert(rest.subrange(i - 1, rest.len() as int) =~= rs.subrange(i, rs.len() as int));
    }
}

/// Combines the outcomes of a pass into one result.
pub fn aggregate(rs: &Vec<Result<(), SyncError>>) -> (r: Result<(), SyncError>)
    ensures
        r == first_error(rs@),
{
    match first_failure(rs) {
        Some(i) => {
            proof {
                lemma_first_error_at(rs@, i as int);
            }
            rs[i]
        },
        None => {
            proof {
                lemma_first_error_at(rs@, rs@.len() as int);
            }
            Ok(())
        },
    }
}

/// When exactly one repository of a pass fails, the pass reports that
/// failure, wherever it stands among the others. Nothing in the protocol undoes
/// what the other repositories committed.
pub proof fn lemma_single_failure_reported(rs: Seq<Result<(), SyncError>>, k: int, e: SyncError)
    requires
        0 <= k < rs.len(),
        rs[k] == Err::<(), SyncError>(e),
        forall|i: int| 0 <= i < rs.len() && i != k ==> rs[i] is Ok,
    ensures
        first_error(rs) == Err::<(), SyncError>(e),
    decreases rs.len(),
{
    if k > 0 {
        let rest = rs.drop_first();
        assert forall|i: int| 0 <= i < rest.len() && i != k - 1 implies rest[i] is Ok by {
            assert(rest[i] == rs[i + 1]);
        }
        lemma_single_failure_reported(rest, k - 1, e);
    }
}

/// Success is reported exactly when no repository failed.
pub proof fn lemma_success_iff_no_failure(rs: Seq<Result<(), SyncError>>)
    ensures
        first_error(rs) is Ok <==> forall|i: int| 0 <= i < rs.len() ==> rs[i] is Ok,
    decreases rs.len(),
{
    if rs.len() > 0 {
        let rest = rs.drop_first();
        lemma_success_iff_no_failure(rest);
        assert(forall|i: int| 0 < i < rs.len() ==> #[trigger] rs[i] == rest[i - 1]);
    }
}

} // verus!
