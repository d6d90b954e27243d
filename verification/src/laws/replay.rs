//! What replaying the tapes puts into the keyspaces.

use vstd::prelude::*;

use crate::fill::start_of_tip;
use crate::laws::fill::tip_start;
use crate::laws::model::{proceeds, Addition, Storage};
use crate::layout::{Keyspace, Tape};
use crate::operation::{
    after, lemma_reliable_run_keeps, lemma_run_keeps, none_failed, run, Operation, StorageModel,
};
use crate::outside::{block_hash, block_tx_count, is_transaction};
use crate::replay::{Pending, Progress, ReplayStage, ReplayTapes, REPLAY_BATCH_SIZE};
use crate::request::{Action, Durability, Reply, Request};

verus! {

/// How many transactions a block lists. The one that mined it is not among them.
pub open spec fn tx_count(block: Seq<u8>) -> nat {
    match block_tx_count(block) {
        Some(count) => count as nat,
        None => 0,
    }
}

/// The ID of the transaction that mined the block at `height`: each block below it takes one ID
/// for the transaction that mined it, and one for each of its other transactions.
pub open spec fn first_tx(blocks: Seq<Seq<u8>>, height: int) -> int
    decreases height,
{
    if height <= 0 {
        0
    } else {
        first_tx(blocks, height - 1) + 1 + tx_count(blocks[height - 1])
    }
}

/// The tapes agree with each other on the blocks and their transactions.
pub open spec fn tapes_sound(storage: Storage) -> bool {
    &&& storage.blocks.len() == storage.block_infos.len()
    &&& storage.tx_infos.len() == first_tx(storage.blocks, storage.blocks.len() as int)
    &&& forall|height: int|
        0 <= height < storage.blocks.len() ==> (#[trigger] storage.block_infos[height]).block_hash
            == block_hash(storage.blocks[height])->0
    &&& forall|height: int|
        0 <= height < storage.blocks.len() ==> (
        #[trigger] storage.block_infos[height]).mining_tx_index == first_tx(storage.blocks, height)
}

/// The pruned blob of a transaction.
pub open spec fn pruned_blob(storage: Storage, tx_id: int) -> Seq<u8> {
    let info = storage.tx_infos[tx_id];
    storage.pruned_blobs.subrange(
        info.pruned_blob_idx as int,
        info.pruned_blob_idx + info.pruned_size,
    )
}

/// The transactions that `prunable_tip` should hold the blobs of are those of the last
/// [`CRYPTONOTE_PRUNING_TIP_BLOCKS`](crate::pruning::CRYPTONOTE_PRUNING_TIP_BLOCKS) blocks, or of
/// the whole chain if it is shorter.
pub proof fn lemma_tip_is_of_last_blocks(storage: Storage)
    requires
        tapes_sound(storage),
    ensures
        tip_start(storage) == first_tx(
            storage.blocks,
            start_of_tip(storage.block_infos.len()) as int,
        ),
{
}

/// What the keyspaces are to be given for the block at `height`.
pub open spec fn addition(storage: Storage, height: int) -> Addition {
    let block = storage.blocks[height];
    Addition {
        block,
        hash: block_hash(block)->0,
        txs: Seq::new(
            tx_count(block),
            |i: int| pruned_blob(storage, first_tx(storage.blocks, height) + 1 + i),
        ),
        counted: storage.counted + storage.blocks.take(height),
    }
}

/// What the keyspaces are to be given for the whole chain.
pub open spec fn additions(storage: Storage) -> Seq<Addition> {
    Seq::new(storage.blocks.len(), |height: int| addition(storage, height))
}

/// What the keyspaces are to be given depends on the tapes, and on what is counted at the start,
/// alone.
pub(crate) proof fn lemma_additions_of_tapes(a: Storage, b: Storage)
    requires
        a.blocks == b.blocks,
        a.tx_infos == b.tx_infos,
        a.pruned_blobs == b.pruned_blobs,
        a.counted == b.counted,
    ensures
        additions(a) == additions(b),
{
    assert forall|height: int| addition(a, height) == addition(b, height) by {
        assert(addition(a, height).txs =~= addition(b, height).txs);
    }
    assert(additions(a) =~= additions(b));
}

/// Every main-chain keyspace with the same blocks added.
pub open spec fn derived_with(storage: Storage, chain: Seq<Addition>) -> Map<
    Keyspace,
    Seq<Addition>,
> {
    storage.derived.map_values(|before: Seq<Addition>| before + chain)
}

/// The storage with the whole chain added to every main-chain keyspace.
pub open spec fn replayed(storage: Storage) -> Storage {
    Storage {
        tip_batch: Map::empty(),
        derived: derived_with(storage, additions(storage)),
        batch: Seq::empty(),
        staged: Seq::empty(),
        counted: storage.counted + storage.blocks,
        ..storage
    }
}

/// The storage is as it was, but for the blocks below some height, which were added to every
/// main-chain keyspace, and for the write batch, what was set aside, and what is counted.
pub open spec fn replayed_to(before: Storage, now: Storage, height: int) -> bool {
    &&& 0 <= height <= before.blocks.len()
    &&& now == Storage {
        tip_batch: now.tip_batch,
        derived: derived_with(before, additions(before).take(height)),
        batch: now.batch,
        staged: now.staged,
        counted: now.counted,
        ..before
    }
}

/// A batch ends below this height, or none has been committed.
pub open spec fn at_batch_end(height: int) -> bool {
    height == 0 || height % REPLAY_BATCH_SIZE as int == 1
}

/// What a replay leaves that did not get to its end: the blocks of the batches that it committed.
pub open spec fn cut_short_at(before: Storage, now: Storage, height: int) -> bool {
    &&& replayed_to(before, now, height)
    &&& at_batch_end(height)
}

/// The blocks below `height` are added, some of them in the write batch.
pub open spec fn added(before: Storage, now: Storage, height: int) -> bool {
    let committed = height - now.batch.len();
    &&& 0 <= committed
    &&& at_batch_end(committed)
    &&& height <= before.blocks.len()
    &&& now == Storage {
        tip_batch: Map::empty(),
        derived: derived_with(before, additions(before).take(committed)),
        batch: additions(before).subrange(committed, height),
        staged: now.staged,
        counted: before.counted + before.blocks.take(height),
        ..before
    }
}

/// What was read for the current block is what belongs to it.
pub open spec fn read_so_far(
    before: Storage,
    now: Storage,
    progress: Progress,
    pending: Pending,
) -> bool {
    let block = before.blocks[progress.height as int];
    let count = tx_count(block);
    &&& pending.block@ == block
    &&& block_hash(block) == Some(pending.hash)
    &&& if pending.miner {
        &&& pending.left == count
        &&& progress.next_tx == first_tx(before.blocks, progress.height as int)
        &&& now.staged == Seq::<Seq<u8>>::empty()
    } else {
        let read = count - pending.left;
        &&& 0 <= read
        &&& progress.next_tx == first_tx(before.blocks, progress.height as int) + 1 + read
        &&& now.staged == addition(before, progress.height as int).txs.take(read)
    }
}

/// The progress is what the tapes and the blocks added so far make it.
pub open spec fn on_course(before: Storage, progress: Progress) -> bool {
    &&& progress.tx_count == before.tx_infos.len()
    &&& progress.block_count == before.blocks.len()
    &&& progress.height < progress.block_count
}

/// What holds of a storage, and of the replay of its tapes, wherever the replay waits and where
/// it ends.
pub open spec fn replay_kept(
    before: Storage,
    now: Storage,
    replay: ReplayTapes,
    action: Action<()>,
) -> bool {
    match replay.stage {
        ReplayStage::Snapshot => {
            &&& now == before
            &&& action == Action::<()>::Perform(Request::TakeTapesSnapshot)
        },
        ReplayStage::TxCount => {
            &&& now == before
            &&& action == Action::<()>::Perform(Request::IterateTxInfos)
        },
        ReplayStage::Batch { tx_count } => {
            &&& now == before
            &&& tx_count == before.tx_infos.len()
            &&& action == Action::<()>::Perform(
                Request::BeginBatch { durability: Durability::Buffer },
            )
        },
        ReplayStage::BlockCount { tx_count } => {
            &&& now == Storage {
                tip_batch: Map::empty(),
                batch: Seq::empty(),
                staged: Seq::empty(),
                ..before
            }
            &&& tx_count == before.tx_infos.len()
            &&& action == Action::<()>::Perform(Request::TapeLen { tape: Tape::BlockInfos })
        },
        ReplayStage::Block { progress } => {
            &&& on_course(before, progress)
            &&& added(before, now, progress.height as int)
            &&& now.staged == Seq::<Seq<u8>>::empty()
            &&& progress.next_tx == first_tx(before.blocks, progress.height as int)
            &&& action == Action::<()>::Perform(Request::GetBlock { height: progress.height })
        },
        ReplayStage::TxInfo { progress, pending } => {
            &&& on_course(before, progress)
            &&& added(before, now, progress.height as int)
            &&& read_so_far(before, now, progress, pending)
            &&& pending.miner || pending.left > 0
            &&& action == Action::<()>::Perform(Request::ReadTxInfo { tx_id: progress.next_tx })
        },
        ReplayStage::Blob { progress, pending, len } => {
            let info = before.tx_infos[progress.next_tx as int];
            &&& len == info.pruned_size
            &&& on_course(before, progress)
            &&& added(before, now, progress.height as int)
            &&& read_so_far(before, now, progress, pending)
            &&& pending.miner || pending.left > 0
            &&& action == Action::<()>::Perform(
                Request::ReadBytes {
                    tape: Tape::PrunedBlobs,
                    offset: info.pruned_blob_idx,
                    len: info.pruned_size,
                },
            )
        },
        ReplayStage::Staged { progress, pending } => {
            &&& on_course(before, progress)
            &&& added(before, now, progress.height as int)
            &&& read_so_far(before, now, progress, pending)
            &&& !pending.miner
            &&& pending.left > 0
            &&& action matches Action::Perform(Request::StageTransaction { blob })
            &&& blob@ == pruned_blob(before, progress.next_tx as int)
        },
        ReplayStage::Added { progress } => {
            let block = before.blocks[progress.height as int];
            &&& on_course(before, progress)
            &&& added(before, now, progress.height as int)
            &&& now.staged == addition(before, progress.height as int).txs
            &&& progress.next_tx == first_tx(before.blocks, progress.height + 1)
            &&& action matches Action::Perform(Request::AddBlock { block: added, hash, numb_txs })
            &&& added@ == block
            &&& numb_txs == progress.numb_txs
            &&& block_hash(block) == Some(hash)
        },
        ReplayStage::Commit { progress } => {
            &&& on_course(before, progress)
            &&& added(before, now, progress.height + 1)
            &&& at_batch_end(progress.height + 1)
            &&& now.staged == Seq::<Seq<u8>>::empty()
            &&& progress.next_tx == first_tx(before.blocks, progress.height + 1)
            &&& action == Action::<()>::Perform(Request::CommitBatch)
        },
        ReplayStage::LastCommit => {
            &&& added(before, now, before.blocks.len() as int)
            &&& now.staged == Seq::<Seq<u8>>::empty()
            &&& action == Action::<()>::Perform(Request::CommitBatch)
        },
        ReplayStage::Over => match action {
            Action::Finished(Ok(())) => now == replayed(before),
            Action::Finished(Err(_)) => exists|height: int| cut_short_at(before, now, height),
            Action::Perform(_) => false,
        },
    }
}

/// Every block takes at least one ID.
proof fn lemma_first_tx_grows(blocks: Seq<Seq<u8>>, low: int, high: int)
    requires
        0 <= low <= high,
    ensures
        0 <= first_tx(blocks, low),
        first_tx(blocks, low) + (high - low) <= first_tx(blocks, high),
    decreases high,
{
    if low < high {
        lemma_first_tx_grows(blocks, low, high - 1);
    } else if low > 0 {
        lemma_first_tx_grows(blocks, low - 1, high - 1);
    }
}

/// Going on at a height keeps what holds of the replay.
proof fn lemma_at_height(before: Storage, now: Storage, progress: Progress)
    requires
        progress.tx_count == before.tx_infos.len(),
        progress.block_count == before.blocks.len(),
        progress.height <= progress.block_count,
        added(before, now, progress.height as int),
        now.staged == Seq::<Seq<u8>>::empty(),
        progress.next_tx == first_tx(before.blocks, progress.height as int),
    ensures
        ({
            let (replay, action) = ReplayTapes::at_height(progress);
            replay_kept(before, now, replay, action)
        }),
{
}

/// Going on with the current block keeps what holds of the replay.
proof fn lemma_reading(before: Storage, now: Storage, progress: Progress, pending: Pending)
    requires
        tapes_sound(before),
        on_course(before, progress),
        added(before, now, progress.height as int),
        read_so_far(before, now, progress, pending),
    ensures
        ({
            let (replay, action) = ReplayTapes::reading(progress, pending);
            replay_kept(before, now, replay, action)
        }),
{
    let height = progress.height as int;
    lemma_first_tx_grows(before.blocks, height + 1, before.blocks.len() as int);
    let txs = addition(before, height).txs;
    assert(txs.take(txs.len() as int) =~= txs);
}

/// A commit keeps what holds of the replay.
proof fn lemma_commit(before: Storage, now: Storage, height: int)
    requires
        added(before, now, height),
    ensures
        at_batch_end(height) ==> added(before, now.performed(Request::CommitBatch), height),
        now.performed(Request::CommitBatch) == (Storage {
            tip_batch: Map::empty(),
            derived: derived_with(before, additions(before).take(height)),
            batch: Seq::empty(),
            staged: now.staged,
            counted: before.counted + before.blocks.take(height),
            ..before
        }),
{
    let then = now.performed(Request::CommitBatch);
    let all = additions(before);
    let committed = height - now.batch.len();
    assert(all.take(committed) + all.subrange(committed, height) =~= all.take(height));
    assert forall|keyspace: Keyspace| #[trigger]
        then.derived.contains_key(keyspace) implies then.derived[keyspace] == derived_with(
        before,
        all.take(height),
    )[keyspace] by {
        let old = before.derived[keyspace];
        assert((old + all.take(committed)) + all.subrange(committed, height) =~= old + all.take(
            height,
        ));
    }
    assert(then.derived =~= derived_with(before, all.take(height)));
    assert(then.tip =~= before.tip);
    assert(then.batch =~= all.subrange(height, height));
}

/// Wherever the replay waits, the blocks of some batches are committed, and where it succeeds, all
/// are. Nothing else has changed.
pub(crate) proof fn lemma_replay_kept_is_prefix(
    before: Storage,
    now: Storage,
    replay: ReplayTapes,
    action: Action<()>,
)
    requires
        replay_kept(before, now, replay, action),
    ensures
        match action {
            Action::Finished(Ok(_)) => replayed_to(before, now, before.blocks.len() as int),
            _ => exists|height: int| cut_short_at(before, now, height),
        },
{
    assert(derived_with(before, additions(before).take(0)) =~= before.derived) by {
        assert forall|keyspace: Keyspace| #[trigger]
            before.derived.contains_key(keyspace) implies before.derived[keyspace]
            == derived_with(before, additions(before).take(0))[keyspace] by {
            assert(before.derived[keyspace] + additions(before).take(0)
                =~= before.derived[keyspace]);
        }
    }
    match replay.stage {
        ReplayStage::Snapshot | ReplayStage::TxCount => {
            assert(cut_short_at(before, now, 0));
        },
        ReplayStage::Batch { .. } | ReplayStage::BlockCount { .. } => {
            assert(cut_short_at(before, now, 0));
        },
        ReplayStage::Block { progress } => {
            assert(cut_short_at(before, now, progress.height - now.batch.len()));
        },
        ReplayStage::TxInfo { progress, .. } => {
            assert(cut_short_at(before, now, progress.height - now.batch.len()));
        },
        ReplayStage::Blob { progress, .. } => {
            assert(cut_short_at(before, now, progress.height - now.batch.len()));
        },
        ReplayStage::Staged { progress, .. } => {
            assert(cut_short_at(before, now, progress.height - now.batch.len()));
        },
        ReplayStage::Added { progress } => {
            assert(cut_short_at(before, now, progress.height - now.batch.len()));
        },
        ReplayStage::Commit { progress } => {
            assert(cut_short_at(before, now, progress.height + 1 - now.batch.len()));
        },
        ReplayStage::LastCommit => {
            assert(cut_short_at(before, now, before.blocks.len() - now.batch.len()));
        },
        ReplayStage::Over => {
            if now == replayed(before) {
                let all = additions(before);
                assert(all.take(all.len() as int) =~= all);
                assert(replayed_to(before, now, before.blocks.len() as int));
            }
        },
    }
}

/// Every reply keeps what holds of the replay.
pub(crate) proof fn lemma_replay_step(
    before: Storage,
    now: Storage,
    replay: ReplayTapes,
    request: Request,
    reply: Reply,
)
    requires
        tapes_sound(before),
        replay_kept(before, now, replay, Action::Perform(request)),
        now.answers(request, reply),
        replay.next(reply) is Some,
    ensures
        replay_kept(
            before,
            after(now, request, reply),
            (replay.next(reply)->0).0,
            (replay.next(reply)->0).1,
        ),
{
    let then = after(now, request, reply);
    if reply is Failed {
        lemma_replay_kept_is_prefix(before, now, replay, Action::Perform(request));
    } else {
        match replay.stage {
            ReplayStage::BlockCount { tx_count } => {
                let all = additions(before);
                assert(all.subrange(0, 0) =~= Seq::empty());
                assert(before.counted + before.blocks.take(0) =~= before.counted);
                assert(derived_with(before, all.take(0)) =~= before.derived) by {
                    assert forall|keyspace: Keyspace| #[trigger]
                        before.derived.contains_key(keyspace) implies before.derived[keyspace]
                        == derived_with(before, all.take(0))[keyspace] by {
                        assert(before.derived[keyspace] + all.take(0) =~= before.derived[keyspace]);
                    }
                }
                let block_count = before.blocks.len() as u64;
                lemma_at_height(
                    before,
                    then,
                    Progress { tx_count, block_count, height: 0, next_tx: 0, numb_txs: 0 },
                );
            },
            ReplayStage::Block { progress } => match reply {
                Reply::Block(block) => {
                    match (block_hash(block@), block_tx_count(block@)) {
                        (Some(hash), Some(left)) => {
                            let pending = Pending { block, hash, miner: true, left };
                            lemma_reading(before, then, progress, pending);
                        },
                        _ => {},
                    }
                },
                _ => {},
            },
            ReplayStage::TxInfo { .. } => {},
            ReplayStage::Blob { progress, pending, .. } => {
                if pending.miner {
                    let txs = addition(before, progress.height as int).txs;
                    assert(txs.take(0) =~= Seq::empty());
                    lemma_first_tx_grows(
                        before.blocks,
                        progress.height + 1,
                        before.blocks.len() as int,
                    );
                    lemma_reading(
                        before,
                        then,
                        ReplayTapes::past_tx(progress),
                        Pending { miner: false, ..pending },
                    );
                }
            },
            ReplayStage::Staged { progress, pending } => {
                let txs = addition(before, progress.height as int).txs;
                let read = tx_count(pending.block@) - pending.left;
                assert(txs.take(read).push(txs[read]) =~= txs.take(read + 1));
                lemma_first_tx_grows(
                    before.blocks,
                    progress.height + 1,
                    before.blocks.len() as int,
                );
                lemma_reading(
                    before,
                    then,
                    ReplayTapes::past_tx(progress),
                    Pending { left: (pending.left - 1) as usize, ..pending },
                );
            },
            ReplayStage::Added { progress } => {
                let all = additions(before);
                let height = progress.height as int;
                let committed = height - now.batch.len();
                assert(all[height] == addition(before, height));
                assert(all.subrange(committed, height).push(all[height]) =~= all.subrange(
                    committed,
                    height + 1,
                ));
                assert((before.counted + before.blocks.take(height)).push(before.blocks[height])
                    =~= before.counted + before.blocks.take(height + 1));
                assert(added(before, then, height + 1));
                match reply {
                    Reply::Added(numb_txs) => {
                        let next = ReplayTapes::past_block(Progress { numb_txs, ..progress });
                        lemma_at_height(before, then, next);
                    },
                    _ => {},
                }
            },
            ReplayStage::Commit { progress } => {
                lemma_commit(before, now, progress.height + 1);
                lemma_at_height(before, then, ReplayTapes::past_block(progress));
            },
            ReplayStage::LastCommit => {
                let all = additions(before);
                lemma_commit(before, now, before.blocks.len() as int);
                assert(all.take(all.len() as int) =~= all);
                assert(before.blocks.take(before.blocks.len() as int) =~= before.blocks);
            },
            _ => {},
        }
    }
}

/// Replaying the tapes adds every block once to every main-chain keyspace, in the order of the
/// heights, each with its hash and exactly its own transactions, and changes nothing else. It
/// leaves nothing uncommitted.
///
/// One that fails or is cut short, anywhere, leaves the blocks of the batches that it committed.
pub proof fn lemma_replay_tapes(before: Storage, replies: Seq<Reply>)
    requires
        tapes_sound(before),
    ensures
        run(
            before,
            ReplayTapes::started().0,
            ReplayTapes::started().1,
            replies,
        ) matches Some((now, _, action)) ==> match action {
            Action::Finished(Ok(_)) => now == replayed(before),
            _ => exists|height: int| cut_short_at(before, now, height),
        },
{
    let kept = |now: Storage, replay: ReplayTapes, action: Action<()>|
        replay_kept(before, now, replay, action);
    let (replay, action) = ReplayTapes::started();
    assert forall|s: Storage, m: ReplayTapes, request: Request, reply: Reply|
        kept(s, m, Action::Perform(request)) && #[trigger] s.answers(request, reply) && (
        #[trigger] m.next(reply)) is Some implies kept(
        after(s, request, reply),
        (m.next(reply)->0).0,
        (m.next(reply)->0).1,
    ) by {
        lemma_replay_step(before, s, m, request, reply);
    }
    lemma_run_keeps(kept, before, replay, action, replies);
    match run(before, replay, action, replies) {
        Some((now, m, a)) => {
            lemma_replay_kept_is_prefix(before, now, m, a);
        },
        None => {},
    }
}

/// A batch ends below the first height and a thousand above it, two thousand above it, and so on.
pub proof fn lemma_batch_ends(height: int)
    requires
        height >= 0,
    ensures
        at_batch_end(height) <==> height == 0 || height % 1000 == 1,
{
}

/// How many blocks the write batch has once the blocks below `height` are added: none at the start
/// of a batch, and one more for each block from there on.
spec fn batched_below(height: int) -> int {
    if height == 0 {
        0
    } else {
        (height - 1) % 1000
    }
}

/// What holds of the write batch wherever the replay waits and where it ends.
spec fn replay_batches(now: Storage, replay: ReplayTapes) -> bool {
    match replay.stage {
        ReplayStage::Block { progress } => now.batch.len() == batched_below(progress.height as int),
        ReplayStage::TxInfo { progress, .. } => now.batch.len() == batched_below(
            progress.height as int,
        ),
        ReplayStage::Blob { progress, .. } => now.batch.len() == batched_below(
            progress.height as int,
        ),
        ReplayStage::Staged { progress, .. } => now.batch.len() == batched_below(
            progress.height as int,
        ),
        ReplayStage::Added { progress } => now.batch.len() == batched_below(progress.height as int),
        ReplayStage::Commit { progress } => {
            &&& progress.height % 1000 == 0
            &&& now.batch.len() == batched_below(progress.height as int) + 1
        },
        ReplayStage::LastCommit => now.batch.len() <= 999,
        _ => true,
    }
}

/// The replay commits every thousand blocks: wherever it asks for a block, the write batch has the
/// blocks since the last one whose height is a multiple of a thousand, and no others. So a batch
/// never has more than a thousand blocks, and a replay that is cut short never leaves more undone.
pub proof fn lemma_replay_commits_every_thousand(before: Storage, replies: Seq<Reply>)
    requires
        tapes_sound(before),
    ensures
        run(
            before,
            ReplayTapes::started().0,
            ReplayTapes::started().1,
            replies,
        ) matches Some((now, _, Action::Perform(request))) ==> {
            &&& request is CommitBatch || request is AddBlock ==> now.batch.len() <= 1000
            &&& request matches Request::GetBlock { height } ==> now.batch.len() == if height == 0 {
                0
            } else {
                (height - 1) % 1000
            }
        },
{
    let kept = |now: Storage, replay: ReplayTapes, action: Action<()>|
        replay_kept(before, now, replay, action) && replay_batches(now, replay);
    let (replay, action) = ReplayTapes::started();
    assert forall|s: Storage, m: ReplayTapes, request: Request, reply: Reply|
        kept(s, m, Action::Perform(request)) && #[trigger] s.answers(request, reply) && (
        #[trigger] m.next(reply)) is Some implies kept(
        after(s, request, reply),
        (m.next(reply)->0).0,
        (m.next(reply)->0).1,
    ) by {
        lemma_replay_step(before, s, m, request, reply);
    }
    lemma_run_keeps(kept, before, replay, action, replies);
}

/// A block is added under its own hash, with the pruned blobs of the transactions whose IDs follow
/// that of the one that mined it, each as long as its info tells, and as many as the block lists.
pub proof fn lemma_addition_of_block(storage: Storage, height: int, index: int)
    requires
        tapes_sound(storage),
        0 <= height < storage.blocks.len(),
        0 <= index < addition(storage, height).txs.len(),
        block_tx_count(storage.blocks[height]) is Some,
    ensures
        addition(storage, height).block == storage.blocks[height],
        addition(storage, height).hash == storage.block_infos[height].block_hash,
        addition(storage, height).txs.len() == block_tx_count(storage.blocks[height])->0,
        ({
            let info = storage.tx_infos[storage.block_infos[height].mining_tx_index + 1 + index];
            addition(storage, height).txs[index] == storage.pruned_blobs.subrange(
                info.pruned_blob_idx as int,
                info.pruned_blob_idx + info.pruned_size,
            )
        }),
{
}

/// The tapes have every block, and the pruned blob of every transaction, and each of them reads as
/// one.
pub open spec fn chain_readable(storage: Storage) -> bool {
    &&& storage.block_infos.len() <= u64::MAX
    &&& storage.tx_infos.len() <= u64::MAX
    &&& forall|height: int|
        0 <= height < storage.blocks.len() ==> #[trigger] block_readable(storage.blocks[height])
    &&& forall|tx_id: int|
        0 <= tx_id < storage.tx_infos.len() ==> #[trigger] pruned_blob_readable(storage, tx_id)
}

/// These bytes read as a block.
pub open spec fn block_readable(block: Seq<u8>) -> bool {
    block_hash(block) is Some && block_tx_count(block) is Some
}

/// The tapes have the pruned blob of a transaction, and it reads as one.
pub open spec fn pruned_blob_readable(storage: Storage, tx_id: int) -> bool {
    let info = storage.tx_infos[tx_id];
    &&& info.pruned_blob_idx + info.pruned_size <= storage.pruned_blobs.len()
    &&& is_transaction(pruned_blob(storage, tx_id))
}

/// Wherever the replay waits, it goes on.
pub(crate) proof fn lemma_replay_proceeds(
    before: Storage,
    now: Storage,
    replay: ReplayTapes,
    action: Action<()>,
)
    requires
        tapes_sound(before),
        chain_readable(before),
        replay_kept(before, now, replay, action),
    ensures
        proceeds(now, replay, action),
{
    match replay.stage {
        ReplayStage::Block { progress } => {
            assert(block_readable(before.blocks[progress.height as int]));
        },
        ReplayStage::TxInfo { progress, pending } => {
            lemma_next_tx_is_on_tape(before, now, progress, pending);
        },
        ReplayStage::Blob { progress, pending, .. } => {
            lemma_next_tx_is_on_tape(before, now, progress, pending);
            assert(pruned_blob_readable(before, progress.next_tx as int));
        },
        _ => {},
    }
}

/// As long as a block lacks a transaction, the tapes have another.
proof fn lemma_next_tx_is_on_tape(
    before: Storage,
    now: Storage,
    progress: Progress,
    pending: Pending,
)
    requires
        tapes_sound(before),
        on_course(before, progress),
        read_so_far(before, now, progress, pending),
        pending.miner || pending.left > 0,
    ensures
        progress.next_tx < before.tx_infos.len(),
{
    lemma_first_tx_grows(before.blocks, progress.height + 1, before.blocks.len() as int);
}

/// Replaying the tapes succeeds if they agree with each other, every transaction can be read, and
/// no request fails: it never gets stuck, and it does not end in an error.
pub proof fn lemma_replay_tapes_succeeds(before: Storage, replies: Seq<Reply>)
    requires
        tapes_sound(before),
        chain_readable(before),
        none_failed(replies),
    ensures
        run(
            before,
            ReplayTapes::started().0,
            ReplayTapes::started().1,
            replies,
        ) matches Some((now, replay, action)) ==> {
            &&& proceeds(now, replay, action)
            &&& action matches Action::Finished(result) ==> result is Ok
        },
{
    let kept = |now: Storage, replay: ReplayTapes, action: Action<()>|
        replay_kept(before, now, replay, action) && (
        action matches Action::Finished(result) ==> result is Ok);
    let (operation, action) = ReplayTapes::started();
    assert forall|s: Storage, m: ReplayTapes, request: Request, reply: Reply|
        kept(s, m, Action::Perform(request)) && #[trigger] s.answers(request, reply) && (
        #[trigger] m.next(reply)) is Some && !(reply is Failed) implies kept(
        s.performed(request),
        (m.next(reply)->0).0,
        (m.next(reply)->0).1,
    ) by {
        lemma_replay_step(before, s, m, request, reply);
    }
    lemma_reliable_run_keeps(kept, before, operation, action, replies);
    match run(before, operation, action, replies) {
        Some((now, m, a)) => {
            lemma_replay_proceeds(before, now, m, a);
        },
        None => {},
    }
}

} // verus!
