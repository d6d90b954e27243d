//! Which pair of snapshots a reader gets.

use vstd::prelude::*;

use crate::laws::model::Storage;
use crate::laws::tips::{lemma_tips_proceeds, lemma_tips_step, tips_kept};
use crate::operation::{
    after, lemma_reliable_run_keeps, lemma_run_keeps, none_failed, run, Operation, StorageModel,
};
use crate::reading::{ReadStage, ReadTransactions};
use crate::request::{Action, BlockchainError, Reply, Request};
use crate::tips::{TIPS_MATCH_RETRIES, TIPS_MATCH_RETRY_DELAY};

verus! {

/// A storage that others write to, so that every pair of snapshots may be another.
pub struct LiveStorage {
    /// The pair of snapshots that each try takes: what its snapshot of the keyspaces has of them,
    /// and what its snapshot of the tapes has of those.
    pub pairs: spec_fn(int) -> Storage,
    /// How many pairs were taken.
    pub taken: nat,
    /// How many milliseconds the reader has waited.
    pub waited: nat,
}

impl LiveStorage {
    /// A storage that nobody has read from yet.
    pub open spec fn fresh(pairs: spec_fn(int) -> Storage) -> Self {
        LiveStorage { pairs, taken: 0, waited: 0 }
    }
}

impl StorageModel for LiveStorage {
    open spec fn answers(self, request: Request, reply: Reply) -> bool {
        (self.pairs)(self.taken - 1).answers(request, reply)
    }

    open spec fn performed(self, request: Request) -> Self {
        match request {
            Request::TakeSnapshots => LiveStorage { taken: self.taken + 1, ..self },
            Request::Sleep { millis } => LiveStorage {
                waited: self.waited + millis as nat,
                ..self
            },
            _ => self,
        }
    }
}

/// No pair before `end` is at one main-chain tip.
pub open spec fn all_torn(pairs: spec_fn(int) -> Storage, end: int) -> bool {
    forall|i: int| 0 <= i < end ==> !(#[trigger] pairs(i)).in_sync()
}

/// What holds of the reading wherever it waits and where it ends.
pub open spec fn read_kept(
    pairs: spec_fn(int) -> Storage,
    now: LiveStorage,
    read: ReadTransactions,
    action: Action<bool>,
) -> bool {
    let taken = now.taken as int;
    &&& now.pairs == pairs
    &&& match read.stage {
        ReadStage::Snapshots => {
            &&& 1 <= read.tries <= TIPS_MATCH_RETRIES
            &&& taken == TIPS_MATCH_RETRIES - read.tries
            &&& now.waited == TIPS_MATCH_RETRY_DELAY * taken
            &&& all_torn(pairs, taken)
            &&& action == Action::<bool>::Perform(Request::TakeSnapshots)
        },
        ReadStage::Tips(tips) => {
            &&& 1 <= read.tries <= TIPS_MATCH_RETRIES
            &&& taken == TIPS_MATCH_RETRIES - read.tries + 1
            &&& now.waited == TIPS_MATCH_RETRY_DELAY * (taken - 1)
            &&& all_torn(pairs, taken - 1)
            &&& tips_kept(pairs(taken - 1), tips, action)
            &&& action matches Action::Perform(request)
            &&& !(request is TakeSnapshots) && !(request is Sleep)
        },
        ReadStage::Pause => {
            &&& 1 <= read.tries <= TIPS_MATCH_RETRIES
            &&& taken == TIPS_MATCH_RETRIES - read.tries + 1
            &&& now.waited == TIPS_MATCH_RETRY_DELAY * (taken - 1)
            &&& all_torn(pairs, taken)
            &&& action == Action::<bool>::Perform(
                Request::Sleep { millis: TIPS_MATCH_RETRY_DELAY },
            )
        },
        ReadStage::Over => match action {
            Action::Finished(Ok(true)) => {
                &&& 1 <= taken <= TIPS_MATCH_RETRIES
                &&& now.waited == TIPS_MATCH_RETRY_DELAY * (taken - 1)
                &&& all_torn(pairs, taken - 1)
                &&& pairs(taken - 1).in_sync()
            },
            Action::Finished(Ok(false)) => {
                &&& taken == TIPS_MATCH_RETRIES
                &&& now.waited == TIPS_MATCH_RETRY_DELAY * taken
                &&& all_torn(pairs, taken)
            },
            Action::Finished(Err(error)) => {
                &&& taken <= TIPS_MATCH_RETRIES
                &&& now.waited <= TIPS_MATCH_RETRY_DELAY * taken
                &&& all_torn(pairs, taken - 1)
                &&& error == BlockchainError::Storage
            },
            Action::Perform(_) => false,
        },
    }
}

/// Every reply keeps what holds of the reading.
proof fn lemma_read_step(
    pairs: spec_fn(int) -> Storage,
    now: LiveStorage,
    read: ReadTransactions,
    request: Request,
    reply: Reply,
)
    requires
        read_kept(pairs, now, read, Action::Perform(request)),
        now.answers(request, reply),
        read.next(reply) is Some,
    ensures
        read_kept(
            pairs,
            after(now, request, reply),
            (read.next(reply)->0).0,
            (read.next(reply)->0).1,
        ),
{
    match read.stage {
        ReadStage::Tips(tips) => {
            lemma_tips_step(pairs(now.taken - 1), tips, request, reply);
        },
        _ => {},
    }
}

/// A reader gets the first pair of snapshots that is at one main-chain tip, and gives up after
/// [`TIPS_MATCH_RETRIES`] pairs, none of which is. It waits [`TIPS_MATCH_RETRY_DELAY`]
/// milliseconds after each pair that is not, and so no longer than a minute in all.
pub proof fn lemma_read_transactions(pairs: spec_fn(int) -> Storage, replies: Seq<Reply>)
    ensures
        run(
            LiveStorage::fresh(pairs),
            ReadTransactions::started().0,
            ReadTransactions::started().1,
            replies,
        ) matches Some((now, _, action)) ==> {
            &&& now.taken <= TIPS_MATCH_RETRIES
            &&& now.waited <= TIPS_MATCH_RETRY_DELAY * now.taken
            &&& now.waited <= 60_000
            &&& all_torn(pairs, now.taken - 1)
            &&& match action {
                Action::Finished(Ok(true)) => {
                    &&& now.taken >= 1
                    &&& pairs(now.taken - 1).in_sync()
                    &&& now.waited == TIPS_MATCH_RETRY_DELAY * (now.taken - 1)
                },
                Action::Finished(Ok(false)) => {
                    &&& all_torn(pairs, TIPS_MATCH_RETRIES as int)
                    &&& now.taken == TIPS_MATCH_RETRIES
                    &&& now.waited == 60_000
                },
                Action::Finished(Err(error)) => error == BlockchainError::Storage,
                Action::Perform(_) => true,
            }
        },
{
    let kept = |now: LiveStorage, read: ReadTransactions, action: Action<bool>|
        read_kept(pairs, now, read, action);
    let (read, action) = ReadTransactions::started();
    let fresh = LiveStorage::fresh(pairs);
    assert forall|s: LiveStorage, m: ReadTransactions, request: Request, reply: Reply|
        kept(s, m, Action::Perform(request)) && #[trigger] s.answers(request, reply) && (
        #[trigger] m.next(reply)) is Some implies kept(
        after(s, request, reply),
        (m.next(reply)->0).0,
        (m.next(reply)->0).1,
    ) by {
        lemma_read_step(pairs, s, m, request, reply);
    }
    lemma_run_keeps(kept, fresh, read, action, replies);
}

/// How long a reader waits for a pair of snapshots that agrees: it takes six thousand pairs at
/// most, ten milliseconds apart, and waits after the last one too.
pub proof fn lemma_reader_waits_a_minute(pairs: spec_fn(int) -> Storage, replies: Seq<Reply>)
    ensures
        run(
            LiveStorage::fresh(pairs),
            ReadTransactions::started().0,
            ReadTransactions::started().1,
            replies,
        ) matches Some((now, _, Action::Finished(Ok(agrees)))) ==> if agrees {
            &&& 1 <= now.taken <= 6_000
            &&& now.waited == 10 * (now.taken - 1)
        } else {
            &&& now.taken == 6_000
            &&& now.waited == 60_000
            &&& forall|i: int| 0 <= i < 6_000 ==> !(#[trigger] pairs(i)).in_sync()
        },
{
    lemma_read_transactions(pairs, replies);
}

/// Taking a pair of snapshots succeeds if no request fails: it never gets stuck, and it does not
/// end in an error.
pub proof fn lemma_read_transactions_succeeds(
    pairs: spec_fn(int) -> Storage,
    replies: Seq<Reply>,
)
    requires
        forall|i: int| (#[trigger] pairs(i)).block_infos.len() <= u64::MAX,
        none_failed(replies),
    ensures
        run(
            LiveStorage::fresh(pairs),
            ReadTransactions::started().0,
            ReadTransactions::started().1,
            replies,
        ) matches Some((now, read, action)) ==> match action {
            Action::Perform(request) => forall|reply: Reply|
                now.answers(request, reply) && !(reply is Failed) ==> (#[trigger] read.next(
                    reply,
                )) is Some,
            Action::Finished(result) => result is Ok,
        },
{
    let kept = |now: LiveStorage, read: ReadTransactions, action: Action<bool>|
        read_kept(pairs, now, read, action) && (action matches Action::Finished(result)
            ==> result is Ok);
    let (read, action) = ReadTransactions::started();
    let fresh = LiveStorage::fresh(pairs);
    assert forall|s: LiveStorage, m: ReadTransactions, request: Request, reply: Reply|
        kept(s, m, Action::Perform(request)) && #[trigger] s.answers(request, reply) && (
        #[trigger] m.next(reply)) is Some && !(reply is Failed) implies kept(
        s.performed(request),
        (m.next(reply)->0).0,
        (m.next(reply)->0).1,
    ) by {
        lemma_read_step(pairs, s, m, request, reply);
    }
    lemma_reliable_run_keeps(kept, fresh, read, action, replies);
    match run(fresh, read, action, replies) {
        Some((now, m, Action::Perform(request))) => {
            match m.stage {
                ReadStage::Tips(tips) => {
                    lemma_tips_proceeds(pairs(now.taken - 1), tips, Action::Perform(request));
                    assert forall|reply: Reply|
                        now.answers(request, reply) && !(reply is Failed) implies (
                    #[trigger] m.next(reply)) is Some by {
                        assert(tips.next(reply) is Some);
                    }
                },
                _ => {},
            }
        },
        _ => {},
    }
}

} // verus!
