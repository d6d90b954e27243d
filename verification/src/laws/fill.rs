//! What filling `prunable_tip` does to the storage.

use vstd::prelude::*;

use crate::fill::{start_of_tip, stripe_of_tx, FillPrunableTip, FillStage};
use crate::laws::model::{proceeds, Storage};
use crate::layout::{options_of_prunable_tip, Keyspace, Tape};
use crate::operation::{
    after, lemma_reliable_run_keeps, lemma_run_keeps, none_failed, run, Operation, StorageModel,
};
use crate::request::{Action, Durability, Reply, Request};

verus! {

/// The ID of the first transaction of the last blocks of the chain.
pub open spec fn tip_start(storage: Storage) -> nat {
    let height = start_of_tip(storage.block_infos.len());
    if height < storage.block_infos.len() {
        storage.block_infos[height as int].mining_tx_index as nat
    } else {
        0
    }
}

/// The prunable blob of a transaction, read from the tape of its stripe.
pub open spec fn prunable_blob(storage: Storage, tx_id: u64) -> Seq<u8> {
    let info = storage.tx_infos[tx_id as int];
    storage.prunable[stripe_of_tx(info)->0 - 1].subrange(
        info.prunable_blob_idx as int,
        info.prunable_blob_idx + info.prunable_size,
    )
}

/// The prunable blobs of the transactions from `from` on that are in the last blocks of the chain
/// and not of version 1.
pub open spec fn tip_entries_from(storage: Storage, from: int) -> Map<u64, Seq<u8>> {
    Map::new(
        |tx_id: u64|
            {
                &&& tip_start(storage) <= tx_id < storage.tx_infos.len()
                &&& from <= tx_id
                &&& !storage.tx_infos[tx_id as int].v1
            },
        |tx_id: u64| prunable_blob(storage, tx_id),
    )
}

/// What `prunable_tip` should hold: the prunable blobs of the transactions that are in the last
/// blocks of the chain and not of version 1.
pub open spec fn tip_entries(storage: Storage) -> Map<u64, Seq<u8>> {
    tip_entries_from(storage, 0)
}

/// The storage with `prunable_tip` filled.
pub open spec fn tip_filled(storage: Storage) -> Storage {
    Storage {
        tip_exists: true,
        tip: storage.tip.union_prefer_right(tip_entries(storage)),
        tip_batch: Map::empty(),
        batch: Seq::empty(),
        staged: Seq::empty(),
        ..storage
    }
}

/// `tip` holds what the storage held in `prunable_tip`, with what it should hold added from the
/// top of the chain down to some transaction, without a gap.
pub open spec fn tip_partly_filled(storage: Storage, tip: Map<u64, Seq<u8>>) -> bool {
    exists|from: int|
        tip == storage.tip.union_prefer_right(#[trigger] tip_entries_from(storage, from))
}

/// The storage is as it was, but for `prunable_tip`, which may be filled in part, for the write
/// batch, and for what was set aside.
pub open spec fn only_tip_partly_filled(before: Storage, now: Storage) -> bool {
    &&& now == Storage {
        tip_exists: now.tip_exists,
        tip: now.tip,
        tip_batch: now.tip_batch,
        batch: now.batch,
        staged: now.staged,
        ..before
    }
    &&& before.tip_exists ==> now.tip_exists
    &&& tip_partly_filled(before, now.tip)
}

/// The transactions from `from` on are dealt with, and their entries are committed or in the
/// write batch.
pub open spec fn filled_from(before: Storage, now: Storage, from: int) -> bool {
    &&& now == Storage {
        tip_exists: true,
        tip: now.tip,
        tip_batch: now.tip_batch,
        batch: Seq::empty(),
        staged: Seq::empty(),
        ..before
    }
    &&& tip_partly_filled(before, now.tip)
    &&& now.tip_batch.submap_of(tip_entries(before))
    &&& now.tip.union_prefer_right(now.tip_batch) == before.tip.union_prefer_right(
        tip_entries_from(before, from),
    )
}

/// What holds of a storage, and of the filling of its `prunable_tip`, wherever the filling waits
/// and where it ends.
pub open spec fn fill_kept(
    before: Storage,
    now: Storage,
    fill: FillPrunableTip,
    action: Action<()>,
) -> bool {
    let opened = Storage { tip_exists: true, ..before };
    let begun = Storage {
        tip_batch: Map::empty(),
        batch: Seq::empty(),
        staged: Seq::empty(),
        ..opened
    };
    match fill.stage {
        FillStage::Keyspace => {
            &&& now == before
            &&& action == Action::<()>::Perform(
                Request::OpenKeyspace {
                    keyspace: Keyspace::PrunableTip,
                    options: options_of_prunable_tip(),
                },
            )
        },
        FillStage::Snapshot => {
            &&& now == opened
            &&& action == Action::<()>::Perform(Request::TakeTapesSnapshot)
        },
        FillStage::Batch => {
            &&& now == opened
            &&& action == Action::<()>::Perform(
                Request::BeginBatch { durability: Durability::Standard },
            )
        },
        FillStage::BlockCount => {
            &&& now == begun
            &&& action == Action::<()>::Perform(Request::TapeLen { tape: Tape::BlockInfos })
        },
        FillStage::StartBlock => {
            &&& now == begun
            &&& before.block_infos.len() <= u64::MAX
            &&& action == Action::<()>::Perform(
                Request::ReadBlockInfo { height: start_of_tip(before.block_infos.len()) as u64 },
            )
        },
        FillStage::TxCount { start } => {
            &&& now == begun
            &&& start == tip_start(before)
            &&& action == Action::<()>::Perform(Request::TapeLen { tape: Tape::TxInfos })
        },
        FillStage::TxInfo { start, end, tx_id } => {
            &&& filled_from(before, now, tx_id + 1)
            &&& start == tip_start(before)
            &&& end == before.tx_infos.len()
            &&& start <= tx_id < end
            &&& action == Action::<()>::Perform(Request::ReadTxInfo { tx_id })
        },
        FillStage::Blob { start, end, tx_id, len } => {
            let info = before.tx_infos[tx_id as int];
            &&& filled_from(before, now, tx_id + 1)
            &&& start == tip_start(before)
            &&& end == before.tx_infos.len()
            &&& start <= tx_id < end
            &&& !info.v1
            &&& stripe_of_tx(info) is Some
            &&& len == info.prunable_size
            &&& action == Action::<()>::Perform(
                Request::ReadBytes {
                    tape: Tape::Prunable((stripe_of_tx(info)->0 - 1) as usize),
                    offset: info.prunable_blob_idx,
                    len: info.prunable_size,
                },
            )
        },
        FillStage::Insert { start, end, tx_id } => {
            &&& filled_from(before, now, tx_id + 1)
            &&& start == tip_start(before)
            &&& end == before.tx_infos.len()
            &&& start <= tx_id < end
            &&& !before.tx_infos[tx_id as int].v1
            &&& action matches Action::Perform(Request::InsertTip { tx_id: key, blob })
            &&& key == tx_id
            &&& blob@ == prunable_blob(before, tx_id)
        },
        FillStage::Commit { start, end, tx_id } => {
            &&& filled_from(before, now, tx_id as int)
            &&& start == tip_start(before)
            &&& end == before.tx_infos.len()
            &&& start <= tx_id < end
            &&& action == Action::<()>::Perform(Request::CommitBatch)
        },
        FillStage::LastCommit => {
            &&& filled_from(before, now, tip_start(before) as int)
            &&& action == Action::<()>::Perform(Request::CommitBatch)
        },
        FillStage::Over => match action {
            Action::Finished(Ok(())) => now == tip_filled(before),
            Action::Finished(Err(_)) => only_tip_partly_filled(before, now),
            Action::Perform(_) => false,
        },
    }
}

/// Going on below a transaction keeps what holds of the filling.
proof fn lemma_below(before: Storage, now: Storage, start: u64, end: u64, done: u64)
    requires
        filled_from(before, now, done as int),
        start == tip_start(before),
        end == before.tx_infos.len(),
        done <= end,
    ensures
        ({
            let (fill, action) = FillPrunableTip::below(start, end, done);
            fill_kept(before, now, fill, action)
        }),
{
    if done <= start {
        assert(tip_entries_from(before, done as int) =~= tip_entries_from(before, start as int));
    }
}

/// A commit keeps what holds of the filling.
proof fn lemma_commit(before: Storage, now: Storage, from: int)
    requires
        filled_from(before, now, from),
    ensures
        filled_from(before, now.performed(Request::CommitBatch), from),
        now.performed(Request::CommitBatch).tip_batch == Map::<u64, Seq<u8>>::empty(),
{
    let then = now.performed(Request::CommitBatch);
    assert(then.derived =~= before.derived) by {
        assert forall|keyspace: Keyspace| #[trigger]
            then.derived.contains_key(keyspace) implies then.derived[keyspace]
            == before.derived[keyspace] by {
            assert(before.derived[keyspace] + now.batch =~= before.derived[keyspace]);
        }
    }
    assert(then.tip.union_prefer_right(then.tip_batch) =~= then.tip);
    assert(then =~= Storage {
        tip_exists: true,
        tip: then.tip,
        tip_batch: then.tip_batch,
        batch: Seq::empty(),
        staged: Seq::empty(),
        ..before
    });
}

/// An insertion keeps what holds of the filling.
proof fn lemma_insert(before: Storage, now: Storage, tx_id: u64, blob: Vec<u8>)
    requires
        filled_from(before, now, tx_id + 1),
        tip_start(before) <= tx_id < before.tx_infos.len(),
        !before.tx_infos[tx_id as int].v1,
        blob@ == prunable_blob(before, tx_id),
    ensures
        filled_from(before, now.performed(Request::InsertTip { tx_id, blob }), tx_id as int),
{
    let then = now.performed(Request::InsertTip { tx_id, blob });
    assert(tip_entries(before).contains_key(tx_id));
    assert(tip_entries_from(before, tx_id as int) =~= tip_entries_from(
        before,
        tx_id + 1,
    ).insert(tx_id, blob@));
    assert(then.tip.union_prefer_right(then.tip_batch) =~= now.tip.union_prefer_right(
        now.tip_batch,
    ).insert(tx_id, blob@));
    assert(before.tip.union_prefer_right(tip_entries_from(before, tx_id as int))
        =~= before.tip.union_prefer_right(tip_entries_from(before, tx_id + 1)).insert(
        tx_id,
        blob@,
    ));
    assert(tip_entries(before)[tx_id] == blob@);
    assert(then.tip_batch.submap_of(tip_entries(before)));
    assert(then == Storage {
        tip_exists: true,
        tip: then.tip,
        tip_batch: then.tip_batch,
        batch: Seq::empty(),
        staged: Seq::empty(),
        ..before
    });
}

/// A tip that nothing was added to, and one that is filled, are filled in part.
pub(crate) proof fn lemma_partly_filled(storage: Storage)
    ensures
        tip_partly_filled(storage, storage.tip),
        tip_partly_filled(storage, tip_filled(storage).tip),
{
    let end = storage.tx_infos.len() as int;
    assert(tip_entries_from(storage, end) =~= Map::empty());
    assert(storage.tip.union_prefer_right(tip_entries_from(storage, end)) =~= storage.tip);
    assert(tip_filled(storage).tip == storage.tip.union_prefer_right(tip_entries_from(storage, 0)));
}

/// Wherever the filling waits and where it ends, `prunable_tip` is filled in part.
pub(crate) proof fn lemma_fill_kept_is_partial(
    before: Storage,
    now: Storage,
    fill: FillPrunableTip,
    action: Action<()>,
)
    requires
        fill_kept(before, now, fill, action),
    ensures
        only_tip_partly_filled(before, now),
{
    lemma_partly_filled(before);
}

/// Every reply keeps what holds of the filling.
pub(crate) proof fn lemma_fill_step(
    before: Storage,
    now: Storage,
    fill: FillPrunableTip,
    request: Request,
    reply: Reply,
)
    requires
        fill_kept(before, now, fill, Action::Perform(request)),
        now.answers(request, reply),
        fill.next(reply) is Some,
    ensures
        fill_kept(
            before,
            after(now, request, reply),
            (fill.next(reply)->0).0,
            (fill.next(reply)->0).1,
        ),
{
    let then = after(now, request, reply);
    if reply is Failed {
        lemma_fill_kept_is_partial(before, now, fill, Action::Perform(request));
    } else {
        match fill.stage {
            FillStage::Keyspace => {},
            FillStage::Snapshot => {},
            FillStage::Batch => {},
            FillStage::BlockCount => {},
            FillStage::StartBlock => {},
            FillStage::TxCount { start } => {
                let end = before.tx_infos.len() as u64;
                assert(tip_entries_from(before, end as int) =~= Map::empty());
                assert(now.tip.union_prefer_right(now.tip_batch) =~= before.tip);
                assert(before.tip.union_prefer_right(tip_entries_from(before, end as int))
                    =~= before.tip);
                lemma_below(before, then, start, end, end);
            },
            FillStage::TxInfo { start, end, tx_id } => {
                if before.tx_infos[tx_id as int].v1 {
                    assert(tip_entries_from(before, tx_id + 1) =~= tip_entries_from(
                        before,
                        tx_id as int,
                    ));
                    lemma_below(before, then, start, end, tx_id);
                }
            },
            FillStage::Blob { .. } => {},
            FillStage::Insert { start, end, tx_id } => {
                match request {
                    Request::InsertTip { blob, .. } => {
                        lemma_insert(before, now, tx_id, blob);
                    },
                    _ => {},
                }
                lemma_below(before, then, start, end, tx_id);
            },
            FillStage::Commit { start, end, tx_id } => {
                lemma_commit(before, now, tx_id as int);
                lemma_below(before, then, start, end, tx_id);
            },
            FillStage::LastCommit => {
                let start = tip_start(before) as int;
                lemma_commit(before, now, start);
                assert(tip_entries_from(before, start) =~= tip_entries(before));
                assert(then.tip.union_prefer_right(then.tip_batch) =~= then.tip);
                assert(then =~= tip_filled(before));
            },
            FillStage::Over => {},
        }
    }
}

/// Filling `prunable_tip` adds to it the prunable blobs of the transactions of the last blocks of
/// the chain, and changes nothing else.
///
/// What was there before stays, unless it is one of these entries, so it does not matter whether
/// an earlier filling was cut short. One that is cut short itself, anywhere, leaves the entries
/// from the top of the chain down to some transaction, without a gap.
pub proof fn lemma_fill_prunable_tip(before: Storage, replies: Seq<Reply>)
    ensures
        run(
            before,
            FillPrunableTip::started().0,
            FillPrunableTip::started().1,
            replies,
        ) matches Some((now, fill, action)) ==> {
            &&& only_tip_partly_filled(before, now)
            &&& action matches Action::Finished(Ok(_)) ==> now == tip_filled(before)
        },
{
    let kept = |now: Storage, fill: FillPrunableTip, action: Action<()>|
        fill_kept(before, now, fill, action);
    let (fill, action) = FillPrunableTip::started();
    assert forall|s: Storage, m: FillPrunableTip, request: Request, reply: Reply|
        kept(s, m, Action::Perform(request)) && #[trigger] s.answers(request, reply) && (
        #[trigger] m.next(reply)) is Some implies kept(
        after(s, request, reply),
        (m.next(reply)->0).0,
        (m.next(reply)->0).1,
    ) by {
        lemma_fill_step(before, s, m, request, reply);
    }
    lemma_run_keeps(kept, before, fill, action, replies);
    match run(before, fill, action, replies) {
        Some((now, m, a)) => {
            lemma_fill_kept_is_partial(before, now, m, a);
        },
        None => {},
    }
}

/// What holds of the filling holds wherever a run gets to.
pub(crate) proof fn lemma_fill_run(before: Storage, replies: Seq<Reply>)
    ensures
        run(
            before,
            FillPrunableTip::started().0,
            FillPrunableTip::started().1,
            replies,
        ) matches Some((now, fill, action)) ==> fill_kept(before, now, fill, action),
{
    let kept = |now: Storage, fill: FillPrunableTip, action: Action<()>|
        fill_kept(before, now, fill, action);
    let (fill, action) = FillPrunableTip::started();
    assert forall|s: Storage, m: FillPrunableTip, request: Request, reply: Reply|
        kept(s, m, Action::Perform(request)) && #[trigger] s.answers(request, reply) && (
        #[trigger] m.next(reply)) is Some implies kept(
        after(s, request, reply),
        (m.next(reply)->0).0,
        (m.next(reply)->0).1,
    ) by {
        lemma_fill_step(before, s, m, request, reply);
    }
    lemma_run_keeps(kept, before, fill, action, replies);
}

/// However many blocks there are, the filling starts 5500 blocks below the top of the chain, or at
/// the first block of a chain that is not longer than that.
pub proof fn lemma_fill_starts_below_top(len: Option<u64>)
    ensures
        (FillPrunableTip { stage: FillStage::BlockCount }).next(Reply::Len(len)) matches Some(
            (_, Action::Perform(Request::ReadBlockInfo { height })),
        ) && match len {
            Some(block_count) => if block_count > 5500 {
                height + 5500 == block_count
            } else {
                height == 0
            },
            None => height == 0,
        },
{
}

/// The `block_infos` tape lists the blocks in the order of their transactions.
pub open spec fn blocks_in_order(storage: Storage) -> bool {
    forall|low: int, high: int|
        0 <= low <= high < storage.block_infos.len() ==> (
        #[trigger] storage.block_infos[low]).mining_tx_index <= (
        #[trigger] storage.block_infos[high]).mining_tx_index
}

/// The prunable blob of a transaction: the part of a prunable tape that its info tells. The tapes
/// take turns every 4096 blocks, and there are eight of them.
pub open spec fn blob_on_tape(storage: Storage, tx_id: u64) -> Seq<u8> {
    let info = storage.tx_infos[tx_id as int];
    storage.prunable[(info.height as int / 4096) % 8].subrange(
        info.prunable_blob_idx as int,
        info.prunable_blob_idx + info.prunable_size,
    )
}

/// A filling that succeeds copies the prunable blob of every transaction of the last 5500 blocks
/// that is not of version 1, from the tape that the height of its block tells. It copies no other,
/// and leaves all other entries of `prunable_tip` as they were.
///
/// The height that a transaction info tells must be one that a chain can reach.
pub proof fn lemma_fill_copies_last_blocks(before: Storage, replies: Seq<Reply>)
    requires
        blocks_in_order(before),
    ensures
        run(
            before,
            FillPrunableTip::started().0,
            FillPrunableTip::started().1,
            replies,
        ) matches Some((now, _, Action::Finished(Ok(_)))) ==> {
            let count = before.block_infos.len();
            &&& forall|height: int, tx_id: u64|
                0 <= height < count && height + 5500 >= count && (
                #[trigger] before.block_infos[height]).mining_tx_index <= tx_id
                    < before.tx_infos.len() && !before.tx_infos[tx_id as int].v1 ==> {
                    &&& #[trigger] now.tip.contains_key(tx_id)
                    &&& before.tx_infos[tx_id as int].height + 5500 < usize::MAX
                        ==> now.tip[tx_id] == blob_on_tape(before, tx_id)
                }
            &&& forall|tx_id: u64, height: int|
                #[trigger] now.tip.contains_key(tx_id) && !before.tip.contains_key(tx_id) && 0
                    <= height < count && height + 5500 <= count ==> {
                    &&& (#[trigger] before.block_infos[height]).mining_tx_index <= tx_id
                    &&& tx_id < before.tx_infos.len()
                    &&& !before.tx_infos[tx_id as int].v1
                }
            &&& forall|tx_id: u64, height: int|
                #[trigger] before.tip.contains_key(tx_id) && 0 <= height < count && height + 5500
                    == count && tx_id < (
                #[trigger] before.block_infos[height]).mining_tx_index ==> {
                    &&& now.tip.contains_key(tx_id)
                    &&& now.tip[tx_id] == before.tip[tx_id]
                }
        },
{
    lemma_fill_run(before, replies);
    let (fill, action) = FillPrunableTip::started();
    match run(before, fill, action, replies) {
        Some((now, _, Action::Finished(Ok(_)))) => {
            let count = before.block_infos.len();
            assert(now.tip == before.tip.union_prefer_right(tip_entries(before)));
            assert forall|height: int, tx_id: u64|
                0 <= height < count && height + 5500 >= count && (
                #[trigger] before.block_infos[height]).mining_tx_index <= tx_id
                    < before.tx_infos.len() && !before.tx_infos[tx_id as int].v1 implies {
                &&& #[trigger] now.tip.contains_key(tx_id)
                &&& before.tx_infos[tx_id as int].height + 5500 < usize::MAX
                    ==> now.tip[tx_id] == blob_on_tape(before, tx_id)
            } by {
                let start = start_of_tip(count) as int;
                assert(before.block_infos[start].mining_tx_index
                    <= before.block_infos[height].mining_tx_index);
                assert(tip_entries(before).contains_key(tx_id));
            }
        },
        _ => {},
    }
}

/// Every blob is read from the tape that the height of its block tells: the tapes take turns every
/// 4096 blocks, and there are eight of them. It is read from where the info of the transaction
/// says, in full.
pub proof fn lemma_fill_reads_from_tape_of_stripe(before: Storage, replies: Seq<Reply>)
    ensures
        run(
            before,
            FillPrunableTip::started().0,
            FillPrunableTip::started().1,
            replies,
        ) matches Some((_, fill, Action::Perform(Request::ReadBytes { tape, offset, len }))) ==> {
            &&& fill.stage matches FillStage::Blob { tx_id, .. }
            &&& tx_id < before.tx_infos.len()
            &&& tape == Tape::Prunable(((before.tx_infos[tx_id as int].height / 4096) % 8) as usize)
            &&& offset == before.tx_infos[tx_id as int].prunable_blob_idx
            &&& len == before.tx_infos[tx_id as int].prunable_size
            &&& !before.tx_infos[tx_id as int].v1
        },
{
    lemma_fill_run(before, replies);
}

/// Every transaction whose place, counted from the top, is a multiple of a thousand, is committed
/// with all those above it, if its blob was copied.
spec fn thousands_committed(before: Storage, now: Storage, from: int) -> bool {
    let end = before.tx_infos.len() as int;
    forall|tx_id: int, key: u64|
        from <= tx_id < end && !(#[trigger] before.tx_infos[tx_id]).v1 && (end - tx_id) % 1000 == 0
            && #[trigger] now.tip_batch.contains_key(key) ==> key < tx_id
}

/// What holds of the write batch wherever the filling waits.
spec fn fill_commits(before: Storage, now: Storage, fill: FillPrunableTip) -> bool {
    match fill.stage {
        FillStage::TxInfo { tx_id, .. } => thousands_committed(before, now, tx_id + 1),
        FillStage::Blob { tx_id, .. } => thousands_committed(before, now, tx_id + 1),
        FillStage::Insert { tx_id, .. } => thousands_committed(before, now, tx_id + 1),
        _ => true,
    }
}

/// The filling commits at least every thousand transactions: wherever it asks for a transaction,
/// the write batch has nothing left of those from a place on that is a multiple of a thousand from
/// the top, if the transaction there was copied.
pub proof fn lemma_fill_commits_every_thousand(before: Storage, replies: Seq<Reply>)
    ensures
        run(
            before,
            FillPrunableTip::started().0,
            FillPrunableTip::started().1,
            replies,
        ) matches Some((now, _, Action::Perform(Request::ReadTxInfo { tx_id }))) ==> {
            let end = before.tx_infos.len() as int;
            forall|above: int, key: u64|
                tx_id < above < end && !(#[trigger] before.tx_infos[above]).v1 && (end - above)
                    % 1000 == 0 && #[trigger] now.tip_batch.contains_key(key) ==> key < above
        },
{
    let kept = |now: Storage, fill: FillPrunableTip, action: Action<()>|
        fill_kept(before, now, fill, action) && fill_commits(before, now, fill);
    let (fill, action) = FillPrunableTip::started();
    assert forall|s: Storage, m: FillPrunableTip, request: Request, reply: Reply|
        kept(s, m, Action::Perform(request)) && #[trigger] s.answers(request, reply) && (
        #[trigger] m.next(reply)) is Some implies kept(
        after(s, request, reply),
        (m.next(reply)->0).0,
        (m.next(reply)->0).1,
    ) by {
        lemma_fill_step(before, s, m, request, reply);
        match m.stage {
            FillStage::Commit { tx_id, .. } => {
                if !(reply is Failed) {
                    lemma_commit(before, s, tx_id as int);
                }
            },
            _ => {},
        }
    }
    lemma_run_keeps(kept, before, fill, action, replies);
}

/// The tapes have what `prunable_tip` should be filled with.
pub open spec fn tip_readable(storage: Storage) -> bool {
    &&& storage.block_infos.len() <= u64::MAX
    &&& storage.tx_infos.len() <= u64::MAX
    &&& forall|tx_id: u64|
        tip_start(storage) <= tx_id < storage.tx_infos.len()
            && !storage.tx_infos[tx_id as int].v1 ==> #[trigger] blob_readable(storage, tx_id)
}

/// The tapes have the prunable blob of a transaction.
pub open spec fn blob_readable(storage: Storage, tx_id: u64) -> bool {
    let info = storage.tx_infos[tx_id as int];
    &&& stripe_of_tx(info) matches Some(stripe)
    &&& storage.prunable.contains_key(stripe - 1)
    &&& info.prunable_blob_idx + info.prunable_size <= storage.prunable[stripe - 1].len()
}

/// What the tapes must have for the prunable blob of a transaction: the tape that the height of its
/// block tells, with all the bytes that its info tells, at a height that a chain can reach.
pub proof fn lemma_blob_readable_in_numbers(storage: Storage, tx_id: u64)
    ensures
        ({
            let info = storage.tx_infos[tx_id as int];
            let index = (info.height as int / 4096) % 8;
            blob_readable(storage, tx_id) <==> {
                &&& info.height + 5500 < usize::MAX
                &&& storage.prunable.contains_key(index)
                &&& info.prunable_blob_idx + info.prunable_size <= storage.prunable[index].len()
            }
        }),
{
}

/// Wherever the filling waits, it goes on.
pub(crate) proof fn lemma_fill_proceeds(
    before: Storage,
    now: Storage,
    fill: FillPrunableTip,
    action: Action<()>,
)
    requires
        tip_readable(before),
        fill_kept(before, now, fill, action),
    ensures
        proceeds(now, fill, action),
{
    match fill.stage {
        FillStage::TxInfo { tx_id, .. } => {
            if !before.tx_infos[tx_id as int].v1 {
                assert(blob_readable(before, tx_id));
            }
        },
        FillStage::Blob { tx_id, .. } => {
            assert(blob_readable(before, tx_id));
        },
        _ => {},
    }
}

/// Filling `prunable_tip` succeeds if the tapes have what it should be filled with and no request
/// fails: it never gets stuck, and it does not end in an error.
pub proof fn lemma_fill_prunable_tip_succeeds(before: Storage, replies: Seq<Reply>)
    requires
        tip_readable(before),
        none_failed(replies),
    ensures
        run(
            before,
            FillPrunableTip::started().0,
            FillPrunableTip::started().1,
            replies,
        ) matches Some((now, fill, action)) ==> {
            &&& proceeds(now, fill, action)
            &&& action matches Action::Finished(result) ==> result is Ok
        },
{
    let kept = |now: Storage, fill: FillPrunableTip, action: Action<()>|
        fill_kept(before, now, fill, action) && (action matches Action::Finished(result)
            ==> result is Ok);
    let (fill, action) = FillPrunableTip::started();
    assert forall|s: Storage, m: FillPrunableTip, request: Request, reply: Reply|
        kept(s, m, Action::Perform(request)) && #[trigger] s.answers(request, reply) && (
        #[trigger] m.next(reply)) is Some && !(reply is Failed) implies kept(
        s.performed(request),
        (m.next(reply)->0).0,
        (m.next(reply)->0).1,
    ) by {
        lemma_fill_step(before, s, m, request, reply);
    }
    lemma_reliable_run_keeps(kept, before, fill, action, replies);
    match run(before, fill, action, replies) {
        Some((now, m, a)) => {
            lemma_fill_proceeds(before, now, m, a);
        },
        None => {},
    }
}

} // verus!
