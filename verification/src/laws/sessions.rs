//! In which order the operations begin, use and end what they read and write with.

use vstd::prelude::*;

use crate::activation::{EnablePruning, PruneStage, Stripe};
use crate::closing::CloseDatabase;
use crate::consistency::{ConsistencyStage, MakeConsistent};
use crate::fill::{FillPrunableTip, FillStage};
use crate::layout::Config;
use crate::opening::{OpenDatabase, OpenStage};
use crate::operation::{after, lemma_run_keeps, run, Operation, StorageModel};
use crate::rebuild::{RebuildDatabase, RebuildStage};
use crate::replay::{ReplayStage, ReplayTapes};
use crate::request::{Action, Reply, Request};
use crate::state::BlockchainDatabase;
use crate::tips::TipsMatch;

verus! {

/// What is begun of a storage, whatever it holds and answers.
pub struct Sessions {
    /// The tapes database is open.
    pub tapes_open: bool,
    /// An append transaction on the tapes is alive.
    pub appending: bool,
    /// There is a snapshot of the tapes.
    pub tapes_snapshot: bool,
    /// There is a snapshot of the keyspaces.
    pub store_snapshot: bool,
    /// There is a write batch.
    pub batch: bool,
    /// What was committed to the keyspaces is on disk.
    pub persisted: bool,
}

impl StorageModel for Sessions {
    /// The storage may answer anything.
    open spec fn answers(self, request: Request, reply: Reply) -> bool {
        true
    }

    open spec fn performed(self, request: Request) -> Self {
        match request {
            Request::OpenTapes { .. } => Sessions { tapes_open: true, ..self },
            Request::BeginAppend => Sessions { appending: true, ..self },
            Request::CommitTapes => Sessions { appending: false, ..self },
            Request::TakeTapesSnapshot => Sessions { tapes_snapshot: true, ..self },
            Request::TakeSnapshots => Sessions {
                tapes_snapshot: true,
                store_snapshot: true,
                ..self
            },
            Request::BeginBatch { .. } => Sessions { batch: true, ..self },
            Request::CommitBatch => Sessions { persisted: false, ..self },
            Request::PersistKeyspaces => Sessions { persisted: true, ..self },
            _ => self,
        }
    }
}

/// What a request takes for granted.
///
/// A tape is opened, and a seed appended, in an append transaction, and no tape is deleted while
/// one is alive. Blocks, transactions and blobs are read from a snapshot, and written to a batch.
pub open spec fn in_order(now: Sessions, request: Request) -> bool {
    match request {
        Request::BeginAppend => !now.appending,
        Request::OpenTape { .. } => now.appending,
        Request::AppendSeed { .. } => now.appending && now.persisted,
        Request::CommitTapes => now.appending,
        Request::DeleteTape { .. } => !now.appending,
        Request::ReadBlockInfo { .. } => now.tapes_snapshot,
        Request::ReadTxInfo { .. } => now.tapes_snapshot,
        Request::IterateTxInfos => now.tapes_snapshot,
        Request::GetBlock { .. } => now.tapes_snapshot,
        Request::ReadBytes { .. } => now.tapes_snapshot || now.appending,
        Request::TapeLen { .. } => now.tapes_snapshot || now.appending,
        Request::ReadChainTip => now.store_snapshot,
        Request::InsertTip { .. } => now.batch,
        Request::StageTransaction { .. } => now.batch,
        Request::AddBlock { .. } => now.batch,
        Request::CommitBatch => now.batch,
        _ => true,
    }
}

/// What holds of the opening wherever it waits and where it ends.
spec fn open_sessions(
    now: Sessions,
    open: OpenDatabase,
    action: Action<BlockchainDatabase>,
) -> bool {
    &&& action matches Action::Perform(request) ==> in_order(now, request)
    &&& match open.stage {
        OpenStage::Keyspace(_) => {
            &&& !now.appending
            &&& action is Perform && action->Perform_0 is OpenKeyspace
        },
        OpenStage::TipExists => {
            &&& !now.appending
            &&& action is Perform && action->Perform_0 is KeyspaceExists
        },
        OpenStage::Tip => {
            &&& !now.appending
            &&& action is Perform && action->Perform_0 is OpenKeyspace
        },
        OpenStage::Tapes => {
            &&& !now.appending
            &&& action is Perform && action->Perform_0 is OpenTapes
        },
        OpenStage::Begin => {
            &&& !now.appending
            &&& now.tapes_open
            &&& action is Perform && action->Perform_0 is BeginAppend
        },
        OpenStage::Tape(_) => {
            &&& now.appending
            &&& now.tapes_open
            &&& action is Perform && action->Perform_0 is OpenTape
        },
        OpenStage::SeedLen => {
            &&& now.appending
            &&& now.tapes_open
            &&& action is Perform && action->Perform_0 is TapeLen
        },
        OpenStage::Seed => {
            &&& now.appending
            &&& now.tapes_open
            &&& action is Perform && action->Perform_0 is ReadBytes
        },
        OpenStage::Prunable(_) => {
            &&& now.appending
            &&& now.tapes_open
            &&& action is Perform && action->Perform_0 is OpenTape
        },
        OpenStage::Commit => {
            &&& now.appending
            &&& now.tapes_open
            &&& action is Perform && action->Perform_0 is CommitTapes
        },
        OpenStage::Delete(_) => {
            &&& !now.appending
            &&& now.tapes_open
            &&& action is Perform && action->Perform_0 is DeleteTape
        },
        OpenStage::Over => {
            &&& action is Finished
            &&& action->Finished_0 is Ok ==> !now.appending && now.tapes_open
        },
    }
}

/// Opening a database opens every tape in an append transaction, reads the seed in it, and commits
/// it before it deletes a tape. It succeeds only once that is committed.
pub proof fn lemma_open_commits_before_deleting(
    config: Config,
    before: Sessions,
    replies: Seq<Reply>,
)
    requires
        !before.appending,
    ensures
        run(
            before,
            OpenDatabase::started(config).0,
            OpenDatabase::started(config).1,
            replies,
        ) matches Some((now, _, action)) ==> {
            &&& action matches Action::Perform(request) ==> in_order(now, request)
            &&& action matches Action::Finished(Ok(_)) ==> !now.appending && now.tapes_open
        },
{
    let kept = |now: Sessions, open: OpenDatabase, action: Action<BlockchainDatabase>|
        open_sessions(now, open, action);
    let (open, action) = OpenDatabase::started(config);
    assert forall|s: Sessions, m: OpenDatabase, request: Request, reply: Reply|
        kept(s, m, Action::Perform(request)) && #[trigger] s.answers(request, reply) && (
        #[trigger] m.next(reply)) is Some implies kept(
        after(s, request, reply),
        (m.next(reply)->0).0,
        (m.next(reply)->0).1,
    ) by {}
    lemma_run_keeps(kept, before, open, action, replies);
}

/// What holds of the filling wherever it waits and where it ends.
spec fn fill_sessions(now: Sessions, fill: FillPrunableTip, action: Action<()>) -> bool {
    &&& action matches Action::Perform(request) ==> in_order(now, request)
    &&& !now.appending
    &&& match fill.stage {
        FillStage::Keyspace => action is Perform && action->Perform_0 is OpenKeyspace,
        FillStage::Snapshot => action is Perform && action->Perform_0 is TakeTapesSnapshot,
        FillStage::Batch => {
            &&& now.tapes_snapshot
            &&& action is Perform && action->Perform_0 is BeginBatch
        },
        FillStage::Over => action is Finished,
        _ => {
            &&& now.tapes_snapshot
            &&& now.batch
            &&& action matches Action::Perform(request)
            &&& match request {
                Request::TapeLen { .. } => true,
                Request::ReadBlockInfo { .. } => true,
                Request::ReadTxInfo { .. } => true,
                Request::ReadBytes { .. } => true,
                Request::InsertTip { .. } => true,
                Request::CommitBatch => true,
                _ => false,
            }
        },
    }
}

/// What holds of the activation wherever it waits and where it ends.
spec fn prune_sessions(now: Sessions, prune: EnablePruning, action: Action<()>) -> bool {
    match prune.stage {
        PruneStage::Fill(fill) => fill_sessions(now, fill, action) && action is Perform,
        PruneStage::Persist => {
            &&& !now.appending
            &&& action is Perform && action->Perform_0 is PersistKeyspaces
        },
        PruneStage::Begin => {
            &&& !now.appending
            &&& now.persisted
            &&& action is Perform && action->Perform_0 is BeginAppend
        },
        PruneStage::Append => {
            &&& now.appending
            &&& now.persisted
            &&& action is Perform && action->Perform_0 is AppendSeed
        },
        PruneStage::Commit => {
            &&& now.appending
            &&& now.persisted
            &&& action is Perform && action->Perform_0 is CommitTapes
        },
        PruneStage::Delete(_) => {
            &&& !now.appending
            &&& now.persisted
            &&& action is Perform && action->Perform_0 is DeleteTape
        },
        PruneStage::Over => {
            &&& action is Finished
            &&& action->Finished_0 is Ok ==> !now.appending && now.persisted
        },
    }
}

/// Every reply keeps what holds of the activation.
proof fn lemma_prune_sessions_step(
    now: Sessions,
    prune: EnablePruning,
    request: Request,
    reply: Reply,
)
    requires
        prune_sessions(now, prune, Action::Perform(request)),
        prune.next(reply) is Some,
    ensures
        prune_sessions(
            after(now, request, reply),
            (prune.next(reply)->0).0,
            (prune.next(reply)->0).1,
        ),
{
}

/// Turning a node into a pruned one reads from a snapshot and writes to a batch. It appends the
/// seed only once what it wrote is on disk, and deletes a tape only once the seed is committed. It
/// succeeds only once all of that is done.
pub proof fn lemma_prune_persists_before_deleting(
    db: BlockchainDatabase,
    stripe: Stripe,
    before: Sessions,
    replies: Seq<Reply>,
)
    requires
        !before.appending,
    ensures
        run(
            before,
            EnablePruning::started(db, stripe).0,
            EnablePruning::started(db, stripe).1,
            replies,
        ) matches Some((now, prune, action)) ==> {
            &&& action matches Action::Perform(request) ==> {
                &&& in_order(now, request)
                &&& request is DeleteTape || request is AppendSeed ==> now.persisted
            }
            &&& action matches Action::Finished(Ok(_)) ==> !now.appending && now.persisted
        },
{
    let kept = |now: Sessions, prune: EnablePruning, action: Action<()>|
        prune_sessions(now, prune, action);
    let (prune, action) = EnablePruning::started(db, stripe);
    assert forall|s: Sessions, m: EnablePruning, request: Request, reply: Reply|
        kept(s, m, Action::Perform(request)) && #[trigger] s.answers(request, reply) && (
        #[trigger] m.next(reply)) is Some implies kept(
        after(s, request, reply),
        (m.next(reply)->0).0,
        (m.next(reply)->0).1,
    ) by {
        lemma_prune_sessions_step(s, m, request, reply);
    }
    lemma_run_keeps(kept, before, prune, action, replies);
}

/// What holds of the replay wherever it waits and where it ends.
spec fn replay_sessions(now: Sessions, replay: ReplayTapes, action: Action<()>) -> bool {
    &&& action matches Action::Perform(request) ==> in_order(now, request)
    &&& !now.appending
    &&& match replay.stage {
        ReplayStage::Snapshot => action is Perform && action->Perform_0 is TakeTapesSnapshot,
        ReplayStage::TxCount => {
            &&& now.tapes_snapshot
            &&& action is Perform && action->Perform_0 is IterateTxInfos
        },
        ReplayStage::Batch { .. } => {
            &&& now.tapes_snapshot
            &&& action is Perform && action->Perform_0 is BeginBatch
        },
        ReplayStage::Over => action is Finished,
        _ => {
            &&& now.tapes_snapshot
            &&& now.batch
            &&& action matches Action::Perform(request)
            &&& match request {
                Request::TapeLen { .. } => true,
                Request::GetBlock { .. } => true,
                Request::ReadTxInfo { .. } => true,
                Request::ReadBytes { .. } => true,
                Request::StageTransaction { .. } => true,
                Request::AddBlock { .. } => true,
                Request::CommitBatch => true,
                _ => false,
            }
        },
    }
}

/// What holds of the rebuild wherever it waits and where it ends.
spec fn rebuild_sessions(now: Sessions, rebuild: RebuildDatabase, action: Action<()>) -> bool {
    &&& !now.appending
    &&& match rebuild.stage {
        RebuildStage::Recreate(_) => action is Perform && action->Perform_0 is RecreateKeyspace,
        RebuildStage::Replay(replay) => replay_sessions(now, replay, action) && action is Perform,
        RebuildStage::Over => action is Finished,
    }
}

/// What holds of the comparison of the tips wherever it waits and where it ends.
spec fn tips_sessions(tips: TipsMatch, action: Action<bool>) -> bool {
    match tips {
        TipsMatch::Height => action is Perform && action->Perform_0 is TapeLen,
        TipsMatch::TopBlock => action is Perform && action->Perform_0 is ReadBlockInfo,
        TipsMatch::ChainTip { .. } => action is Perform && action->Perform_0 is ReadChainTip,
        TipsMatch::Over => action is Finished,
    }
}

/// What holds of bringing a database into the state that it should be in, wherever it waits and
/// where it ends.
spec fn consistency_sessions(
    now: Sessions,
    operation: MakeConsistent,
    action: Action<()>,
) -> bool {
    match operation.stage {
        ConsistencyStage::Snapshots => {
            &&& !now.appending
            &&& action is Perform && action->Perform_0 is TakeSnapshots
        },
        ConsistencyStage::Tips(tips) => {
            &&& !now.appending
            &&& now.tapes_snapshot
            &&& now.store_snapshot
            &&& action matches Action::Perform(request)
            &&& tips_sessions(tips, Action::Perform(request))
        },
        ConsistencyStage::Rebuild(rebuild) => {
            &&& action is Perform
            &&& rebuild_sessions(now, rebuild, action)
        },
        ConsistencyStage::Prune(prune) => {
            &&& action is Perform
            &&& prune_sessions(now, prune, action)
        },
        ConsistencyStage::Over => {
            &&& action is Finished
            &&& action->Finished_0 is Ok ==> !now.appending
        },
    }
}

/// Every reply keeps what holds of the operation.
proof fn lemma_consistency_sessions_step(
    now: Sessions,
    operation: MakeConsistent,
    request: Request,
    reply: Reply,
)
    requires
        consistency_sessions(now, operation, Action::Perform(request)),
        operation.next(reply) is Some,
    ensures
        consistency_sessions(
            after(now, request, reply),
            (operation.next(reply)->0).0,
            (operation.next(reply)->0).1,
        ),
{
    match operation.stage {
        ConsistencyStage::Prune(prune) => {
            lemma_prune_sessions_step(now, prune, request, reply);
        },
        _ => {},
    }
}

/// Bringing a database into the state that it should be in compares the tips in a pair of
/// snapshots, and does all that it does in order. It leaves no append transaction alive if it
/// succeeds.
pub proof fn lemma_make_consistent_in_order(
    db: BlockchainDatabase,
    stripe: Stripe,
    before: Sessions,
    replies: Seq<Reply>,
)
    requires
        !before.appending,
    ensures
        run(
            before,
            MakeConsistent::started(db, stripe).0,
            MakeConsistent::started(db, stripe).1,
            replies,
        ) matches Some((now, _, action)) ==> {
            &&& action matches Action::Perform(request) ==> {
                &&& in_order(now, request)
                &&& request is DeleteTape || request is AppendSeed ==> now.persisted
            }
            &&& action matches Action::Finished(Ok(_)) ==> !now.appending
        },
{
    let kept = |now: Sessions, operation: MakeConsistent, action: Action<()>|
        consistency_sessions(now, operation, action);
    let (operation, action) = MakeConsistent::started(db, stripe);
    assert forall|s: Sessions, m: MakeConsistent, request: Request, reply: Reply|
        kept(s, m, Action::Perform(request)) && #[trigger] s.answers(request, reply) && (
        #[trigger] m.next(reply)) is Some implies kept(
        after(s, request, reply),
        (m.next(reply)->0).0,
        (m.next(reply)->0).1,
    ) by {
        lemma_consistency_sessions_step(s, m, request, reply);
    }
    lemma_run_keeps(kept, before, operation, action, replies);
}

/// Closing a database leaves everything on disk that no request failed for, and no append
/// transaction alive but one whose commit failed.
pub proof fn lemma_close_leaves_all_on_disk(before: Sessions, replies: Seq<Reply>)
    requires
        !before.appending,
    ensures
        run(
            before,
            CloseDatabase::started().0,
            CloseDatabase::started().1,
            replies,
        ) matches Some((now, _, Action::Finished(_))) ==> {
            &&& 2 <= replies.len() <= 3
            &&& !(replies[0] is Failed) ==> now.persisted
            &&& replies.len() == 2 ==> replies[1] is Failed
            &&& now.appending ==> replies.len() == 3 && replies[2] is Failed
        },
{
    reveal_with_fuel(run, 5);
}

} // verus!
