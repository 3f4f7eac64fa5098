//! How a request's database transaction ends.
use vstd::prelude::*;

verus! {

/// The end of a request's transaction.
#[derive(Debug, Clone, Copy, PartialEq, Eq)]
pub enum TxnEnd {
    Commit,
    Rollback,
}

/// The transaction is committed when the answer's status is a success
/// (`2xx`), and rolled back otherwise.
pub fn txn_end(status: u16) -> (r: TxnEnd)
    ensures
        r == (if 200 <= status < 300 {
            TxnEnd::Commit
        } else {
            TxnEnd::Rollback
        }),
{
    if 200 <= status && status < 300 {
        TxnEnd::Commit
    } else {
        TxnEnd::Rollback
    }
}

} // verus!
