//! What the comparison of the main-chain tips finds.

use vstd::prelude::*;

use crate::laws::model::{proceeds, Storage};
use crate::layout::{Keyspace, Tape};
use crate::operation::{
    after, lemma_reliable_run_keeps, lemma_run_keeps, none_failed, run, Operation, StorageModel,
};
use crate::request::{Action, BlockchainError, Reply, Request};
use crate::tips::TipsMatch;

verus! {

/// What holds of the comparison wherever it waits and where it ends.
pub open spec fn tips_kept(storage: Storage, tips: TipsMatch, action: Action<bool>) -> bool {
    match tips {
        TipsMatch::Height => action == Action::<bool>::Perform(
            Request::TapeLen { tape: Tape::BlockInfos },
        ),
        TipsMatch::TopBlock => {
            &&& 0 < storage.block_infos.len() <= u64::MAX
            &&& action == Action::<bool>::Perform(
                Request::ReadBlockInfo { height: (storage.block_infos.len() - 1) as u64 },
            )
        },
        TipsMatch::ChainTip { tapes_tip } => {
            &&& tapes_tip == storage.tapes_tip()
            &&& action == Action::<bool>::Perform(Request::ReadChainTip)
        },
        TipsMatch::Over => match action {
            Action::Finished(Ok(same)) => same == storage.in_sync(),
            Action::Finished(Err(error)) => error == BlockchainError::Storage,
            Action::Perform(_) => false,
        },
    }
}

/// Every reply keeps what holds of the comparison, and leaves the storage as it is.
pub(crate) proof fn lemma_tips_step(
    storage: Storage,
    tips: TipsMatch,
    request: Request,
    reply: Reply,
)
    requires
        tips_kept(storage, tips, Action::Perform(request)),
        storage.answers(request, reply),
        tips.next(reply) is Some,
    ensures
        after(storage, request, reply) == storage,
        tips_kept(storage, (tips.next(reply)->0).0, (tips.next(reply)->0).1),
{
}

/// The comparison of the tips tells whether the keyspaces are at the same main-chain tip as the
/// tapes, unless a request fails, and changes nothing.
pub proof fn lemma_tips_match(storage: Storage, replies: Seq<Reply>)
    ensures
        run(
            storage,
            TipsMatch::started().0,
            TipsMatch::started().1,
            replies,
        ) matches Some((now, _, action)) ==> {
            &&& now == storage
            &&& action matches Action::Finished(result) ==> {
                ||| result == Ok::<bool, BlockchainError>(storage.in_sync())
                ||| result == Err::<bool, BlockchainError>(BlockchainError::Storage)
            }
        },
{
    let kept = |now: Storage, tips: TipsMatch, action: Action<bool>|
        now == storage && tips_kept(storage, tips, action);
    let (tips, action) = TipsMatch::started();
    assert forall|s: Storage, m: TipsMatch, request: Request, reply: Reply|
        kept(s, m, Action::Perform(request)) && #[trigger] s.answers(request, reply) && (
        #[trigger] m.next(reply)) is Some implies kept(
        after(s, request, reply),
        (m.next(reply)->0).0,
        (m.next(reply)->0).1,
    ) by {
        lemma_tips_step(storage, m, request, reply);
    }
    lemma_run_keeps(kept, storage, tips, action, replies);
}

/// The keyspaces are at the same main-chain tip as the tapes if neither has a block, or if the last
/// block that was added to the `chain_tip` keyspace has the hash of the last block of the tapes. In
/// all other cases they are not.
pub proof fn lemma_in_sync_is_same_last_block(storage: Storage)
    ensures
        ({
            let tapes = storage.block_infos;
            let store = storage.derived[Keyspace::ChainTip];
            storage.in_sync() <==> {
                ||| tapes.len() == 0 && store.len() == 0
                ||| tapes.len() > 0 && store.len() > 0 && tapes[tapes.len() - 1].block_hash@
                    == store[store.len() - 1].hash@
            }
        }),
{
}

/// The comparison of the tips succeeds if no request fails: it never gets stuck, and it does not
/// end in an error.
pub proof fn lemma_tips_match_succeeds(before: Storage, replies: Seq<Reply>)
    requires
        before.block_infos.len() <= u64::MAX,
        none_failed(replies),
    ensures
        run(
            before,
            TipsMatch::started().0,
            TipsMatch::started().1,
            replies,
        ) matches Some((now, tips, action)) ==> {
            &&& proceeds(now, tips, action)
            &&& action matches Action::Finished(result) ==> result is Ok
        },
{
    let kept = |now: Storage, tips: TipsMatch, action: Action<bool>|
        now == before && tips_kept(before, tips, action) && (
        action matches Action::Finished(result) ==> result is Ok);
    let (operation, action) = TipsMatch::started();
    assert forall|s: Storage, m: TipsMatch, request: Request, reply: Reply|
        kept(s, m, Action::Perform(request)) && #[trigger] s.answers(request, reply) && (
        #[trigger] m.next(reply)) is Some && !(reply is Failed) implies kept(
        s.performed(request),
        (m.next(reply)->0).0,
        (m.next(reply)->0).1,
    ) by {
        lemma_tips_step(before, m, request, reply);
    }
    lemma_reliable_run_keeps(kept, before, operation, action, replies);
    match run(before, operation, action, replies) {
        Some((now, m, a)) => {
            lemma_tips_proceeds(before, m, a);
        },
        None => {},
    }
}

/// Wherever the comparison waits, it goes on.
pub(crate) proof fn lemma_tips_proceeds(storage: Storage, tips: TipsMatch, action: Action<bool>)
    requires
        storage.block_infos.len() <= u64::MAX,
        tips_kept(storage, tips, action),
    ensures
        proceeds(storage, tips, action),
{
}

} // verus!
