//! Under which transaction IDs a replay adds the blocks.

use vstd::prelude::*;

use crate::laws::model::Storage;
use crate::laws::rebuild::{
    emptied, lemma_all_emptied, lemma_rebuild_step, lemma_recreating, rebuild_kept, sound,
};
use crate::laws::replay::{first_tx, lemma_replay_step, replay_kept, tapes_sound};
use crate::layout::CHAIN_KEYSPACES;
use crate::operation::{after, lemma_run_keeps, run, Operation, StorageModel};
use crate::rebuild::{RebuildDatabase, RebuildStage};
use crate::replay::{ReplayStage, ReplayTapes};
use crate::request::{Action, Reply, Request};
use crate::state::BlockchainDatabase;

verus! {

/// A storage that counts the transactions of a block that is added: the one that mined the block,
/// and those that were set aside.
pub struct CountingStorage {
    /// What is stored.
    pub storage: Storage,
    /// How many transactions had been added before each block, in the order in which the blocks
    /// were added. This is the ID of the transaction that mined the block.
    pub ids: Seq<u64>,
}

impl CountingStorage {
    /// A storage that no block was added to yet.
    pub open spec fn fresh(storage: Storage) -> Self {
        CountingStorage { storage, ids: Seq::empty() }
    }
}

impl StorageModel for CountingStorage {
    open spec fn answers(self, request: Request, reply: Reply) -> bool {
        &&& self.storage.answers(request, reply)
        &&& match (request, reply) {
            (Request::AddBlock { numb_txs, .. }, Reply::Added(added)) => added == numb_txs + 1
                + self.storage.staged.len(),
            _ => true,
        }
    }

    open spec fn performed(self, request: Request) -> Self {
        CountingStorage {
            storage: self.storage.performed(request),
            ids: match request {
                Request::AddBlock { numb_txs, .. } => self.ids.push(numb_txs),
                _ => self.ids,
            },
        }
    }
}

/// Every block was added under the ID that it has on the tapes.
pub open spec fn ids_right(blocks: Seq<Seq<u8>>, ids: Seq<u64>) -> bool {
    &&& ids.len() <= blocks.len()
    &&& forall|height: int|
        0 <= height < ids.len() ==> #[trigger] ids[height] == first_tx(blocks, height)
}

/// What holds of the IDs wherever the replay waits and where it ends.
spec fn ids_kept(
    blocks: Seq<Seq<u8>>,
    ids: Seq<u64>,
    replay: ReplayTapes,
    action: Action<()>,
) -> bool {
    &&& ids_right(blocks, ids)
    &&& match replay.stage {
        ReplayStage::Block { progress } => {
            &&& ids.len() == progress.height
            &&& progress.numb_txs == first_tx(blocks, progress.height as int)
        },
        ReplayStage::TxInfo { progress, .. } => {
            &&& ids.len() == progress.height
            &&& progress.numb_txs == first_tx(blocks, progress.height as int)
        },
        ReplayStage::Blob { progress, .. } => {
            &&& ids.len() == progress.height
            &&& progress.numb_txs == first_tx(blocks, progress.height as int)
        },
        ReplayStage::Staged { progress, .. } => {
            &&& ids.len() == progress.height
            &&& progress.numb_txs == first_tx(blocks, progress.height as int)
        },
        ReplayStage::Added { progress } => {
            &&& ids.len() == progress.height
            &&& progress.numb_txs == first_tx(blocks, progress.height as int)
        },
        ReplayStage::Commit { progress } => {
            &&& ids.len() == progress.height + 1
            &&& progress.numb_txs == first_tx(blocks, progress.height + 1)
        },
        ReplayStage::LastCommit => ids.len() == blocks.len(),
        ReplayStage::Over => action matches Action::Finished(Ok(_)) ==> ids.len() == blocks.len(),
        _ => ids.len() == 0,
    }
}

/// Every reply keeps what holds of the IDs.
proof fn lemma_ids_step(
    before: Storage,
    now: CountingStorage,
    replay: ReplayTapes,
    request: Request,
    reply: Reply,
)
    requires
        tapes_sound(before),
        replay_kept(before, now.storage, replay, Action::Perform(request)),
        ids_kept(before.blocks, now.ids, replay, Action::Perform(request)),
        now.answers(request, reply),
        replay.next(reply) is Some,
    ensures
        replay_kept(
            before,
            after(now, request, reply).storage,
            (replay.next(reply)->0).0,
            (replay.next(reply)->0).1,
        ),
        ids_kept(
            before.blocks,
            after(now, request, reply).ids,
            (replay.next(reply)->0).0,
            (replay.next(reply)->0).1,
        ),
{
    lemma_replay_step(before, now.storage, replay, request, reply);
}

/// A replay adds the block at every height under the ID of the transaction that mined it, if the
/// storage counts the transactions of each block that it adds: so many transactions were added
/// before it as the blocks below it have.
pub proof fn lemma_replay_adds_under_ids(before: Storage, replies: Seq<Reply>)
    requires
        tapes_sound(before),
    ensures
        run(
            CountingStorage::fresh(before),
            ReplayTapes::started().0,
            ReplayTapes::started().1,
            replies,
        ) matches Some((now, _, action)) ==> {
            &&& ids_right(before.blocks, now.ids)
            &&& action matches Action::Perform(Request::AddBlock { block, numb_txs, .. }) ==> {
                let height = now.ids.len() as int;
                &&& height < before.blocks.len()
                &&& block@ == before.blocks[height]
                &&& numb_txs == first_tx(before.blocks, height)
            }
            &&& action matches Action::Finished(Ok(_)) ==> now.ids.len() == before.blocks.len()
        },
{
    let kept = |now: CountingStorage, replay: ReplayTapes, action: Action<()>|
        replay_kept(before, now.storage, replay, action) && ids_kept(
            before.blocks,
            now.ids,
            replay,
            action,
        );
    let (replay, action) = ReplayTapes::started();
    let fresh = CountingStorage::fresh(before);
    assert forall|s: CountingStorage, m: ReplayTapes, request: Request, reply: Reply|
        kept(s, m, Action::Perform(request)) && #[trigger] s.answers(request, reply) && (
        #[trigger] m.next(reply)) is Some implies kept(
        after(s, request, reply),
        (m.next(reply)->0).0,
        (m.next(reply)->0).1,
    ) by {
        lemma_ids_step(before, s, m, request, reply);
    }
    lemma_run_keeps(kept, fresh, replay, action, replies);
}

/// What holds of the IDs wherever the rebuild waits and where it ends.
spec fn rebuild_ids_kept(
    blocks: Seq<Seq<u8>>,
    ids: Seq<u64>,
    rebuild: RebuildDatabase,
    action: Action<()>,
) -> bool {
    match rebuild.stage {
        RebuildStage::Recreate(_) => ids.len() == 0,
        RebuildStage::Replay(replay) => ids_kept(blocks, ids, replay, action),
        RebuildStage::Over => {
            &&& ids_right(blocks, ids)
            &&& action matches Action::Finished(Ok(_)) ==> ids.len() == blocks.len()
        },
    }
}

/// A rebuild adds the block at every height under the ID of the transaction that mined it, if the
/// storage counts the transactions of each block that it adds.
pub proof fn lemma_rebuild_adds_under_ids(
    db: BlockchainDatabase,
    before: Storage,
    replies: Seq<Reply>,
)
    requires
        sound(before),
    ensures
        run(
            CountingStorage::fresh(before),
            RebuildDatabase::started(db).0,
            RebuildDatabase::started(db).1,
            replies,
        ) matches Some((now, _, action)) ==> {
            &&& ids_right(before.blocks, now.ids)
            &&& action matches Action::Perform(Request::AddBlock { block, numb_txs, .. }) ==> {
                let height = now.ids.len() as int;
                &&& height < before.blocks.len()
                &&& block@ == before.blocks[height]
                &&& numb_txs == first_tx(before.blocks, height)
            }
            &&& action matches Action::Finished(Ok(_)) ==> now.ids.len() == before.blocks.len()
        },
{
    let kept = |now: CountingStorage, rebuild: RebuildDatabase, action: Action<()>|
        rebuild_kept(db, before, now.storage, rebuild, action) && rebuild_ids_kept(
            before.blocks,
            now.ids,
            rebuild,
            action,
        );
    let (rebuild, action) = RebuildDatabase::started(db);
    let fresh = CountingStorage::fresh(before);
    lemma_recreating(db, before, before, 0);
    lemma_all_emptied(before);
    assert forall|s: CountingStorage, m: RebuildDatabase, request: Request, reply: Reply|
        kept(s, m, Action::Perform(request)) && #[trigger] s.answers(request, reply) && (
        #[trigger] m.next(reply)) is Some implies kept(
        after(s, request, reply),
        (m.next(reply)->0).0,
        (m.next(reply)->0).1,
    ) by {
        lemma_rebuild_step(db, before, s.storage, m, request, reply);
        match m.stage {
            RebuildStage::Replay(replay) => {
                let all = emptied(before, CHAIN_KEYSPACES as int);
                lemma_ids_step(all, s, replay, request, reply);
            },
            _ => {},
        }
    }
    lemma_run_keeps(kept, fresh, rebuild, action, replies);
}

} // verus!
