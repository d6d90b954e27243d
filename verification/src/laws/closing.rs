//! What closing a database does to the storage.

use vstd::prelude::*;

use crate::closing::CloseDatabase;
use crate::laws::model::Storage;
use crate::operation::run;
use crate::request::{Action, BlockchainError, Reply};

verus! {

/// Closing the database never fails, whichever of its requests do. What was committed to the
/// keyspaces is on disk afterwards, if the request for that was performed, and nothing else has
/// changed.
pub proof fn lemma_close_database(before: Storage, replies: Seq<Reply>)
    requires
        before.appended.len() == 0,
    ensures
        run(
            before,
            CloseDatabase::started().0,
            CloseDatabase::started().1,
            replies,
        ) matches Some((now, _, Action::Finished(result))) ==> {
            &&& result == Ok::<(), BlockchainError>(())
            &&& now == if replies[0] is Failed {
                before
            } else {
                Storage {
                    synced_tip_exists: before.tip_exists,
                    synced_tip: before.tip,
                    ..before
                }
            }
        },
{
    reveal_with_fuel(run, 5);
    assert(before.appended =~= Seq::empty());
    assert(before.metadata + Seq::<u8>::empty() =~= before.metadata);
}

} // verus!
