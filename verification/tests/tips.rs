use blockchain_database::layout::{CacheSizes, Config};
use blockchain_database::operation::Operation;
use blockchain_database::pruning::PruningSeed;
use blockchain_database::request::{Action, BlockInfo, BlockchainError, Reply, Request};
use blockchain_database::state::BlockchainDatabase;
use blockchain_database::tips::{same_tip, TipsMatch};

fn database() -> BlockchainDatabase {
    BlockchainDatabase {
        config: Config {
            cache_sizes: CacheSizes {
                rct_outputs: 0,
                tx_infos: 0,
                block_infos: 0,
                pruned_blobs: 0,
                v1_prunable_blobs: 0,
                prunable_blobs: 0,
            },
            prune: false,
        },
        pruning_seed: PruningSeed::NotPruned,
        prunable_tip: false,
        closed_below: 8,
    }
}

fn top(hash: u8) -> Reply {
    Reply::BlockInfo(Some(BlockInfo { block_hash: [hash; 32], mining_tx_index: 0 }))
}

fn tip(hash: u8) -> Reply {
    Reply::ChainTip(Some(vec![hash; 32]))
}

/// Runs a comparison on these replies.
fn compare(replies: Vec<Reply>) -> Option<Result<bool, BlockchainError>> {
    let (mut tips, mut action) = TipsMatch::tips_match();
    for reply in replies {
        (tips, action) = tips.step(reply)?;
    }
    match action {
        Action::Finished(result) => Some(result),
        Action::Perform(request) => panic!("the comparison waits for {request:?}"),
    }
}

#[test]
fn tips_are_compared() {
    assert!(same_tip(&None, &None));
    assert!(!same_tip(&Some([0; 32]), &None));
    assert!(!same_tip(&None, &Some(vec![0; 32])));
    assert!(same_tip(&Some([7; 32]), &Some(vec![7; 32])));
    assert!(!same_tip(&Some([7; 32]), &Some(vec![7; 31])));
    let mut other = vec![7; 32];
    other[31] = 8;
    assert!(!same_tip(&Some([7; 32]), &Some(other)));
}

#[test]
fn an_empty_database_is_in_sync() {
    let replies = vec![Reply::Len(Some(0)), Reply::ChainTip(None)];
    assert_eq!(compare(replies), Some(Ok(true)));
}

#[test]
fn keyspaces_without_a_tip_are_behind() {
    let replies = vec![Reply::Len(Some(3)), top(1), Reply::ChainTip(None)];
    assert_eq!(compare(replies), Some(Ok(false)));
}

#[test]
fn keyspaces_at_another_block_are_not_in_sync() {
    assert_eq!(compare(vec![Reply::Len(Some(3)), top(1), tip(1)]), Some(Ok(true)));
    assert_eq!(compare(vec![Reply::Len(Some(3)), top(1), tip(2)]), Some(Ok(false)));
    assert_eq!(compare(vec![Reply::Len(Some(0)), tip(2)]), Some(Ok(false)));
}

#[test]
fn the_top_block_is_asked_for() {
    let (tips, _) = TipsMatch::tips_match();
    let (_, action) = tips.step(Reply::Len(Some(3))).unwrap();
    assert!(matches!(action, Action::Perform(Request::ReadBlockInfo { height: 2 })));
}

#[test]
fn a_missing_top_block_is_not_found() {
    let replies = vec![Reply::Len(Some(3)), Reply::BlockInfo(None)];
    assert_eq!(compare(replies), Some(Err(BlockchainError::NotFound)));
}

#[test]
fn a_request_that_fails_fails_the_comparison() {
    assert_eq!(compare(vec![Reply::Failed]), Some(Err(BlockchainError::Storage)));
    let replies = vec![Reply::Len(Some(3)), Reply::Failed];
    assert_eq!(compare(replies), Some(Err(BlockchainError::Storage)));
    let replies = vec![Reply::Len(Some(3)), top(1), Reply::Failed];
    assert_eq!(compare(replies), Some(Err(BlockchainError::Storage)));
}

#[test]
fn a_database_without_block_infos_is_corrupt() {
    assert_eq!(compare(vec![Reply::Len(None)]), None);
}

#[test]
fn a_reply_to_another_request_is_not_taken() {
    assert_eq!(compare(vec![Reply::Done]), None);
    assert_eq!(compare(vec![Reply::Len(Some(0)), Reply::ChainTip(None), Reply::Done]), None);
}

/// Runs a reading on pairs of which the one at `agreeing` is the first to agree. Returns the
/// outcome, the number of pairs that were taken, and the time that was waited.
fn read(agreeing: u64) -> (Result<bool, BlockchainError>, u64, u64) {
    let mut taken = 0;
    let mut waited = 0;
    let (mut operation, mut action) = database().read_transactions();
    loop {
        let reply = match action {
            Action::Finished(result) => return (result, taken, waited),
            Action::Perform(Request::TakeSnapshots) => {
                taken += 1;
                Reply::Done
            }
            Action::Perform(Request::Sleep { millis }) => {
                waited += millis;
                Reply::Done
            }
            Action::Perform(Request::TapeLen { .. }) => Reply::Len(Some(1)),
            Action::Perform(Request::ReadBlockInfo { .. }) => top(1),
            Action::Perform(Request::ReadChainTip) => {
                if taken > agreeing {
                    tip(1)
                } else {
                    Reply::ChainTip(None)
                }
            }
            Action::Perform(request) => panic!("a reader asks for {request:?}"),
        };
        (operation, action) = operation.step(reply).unwrap();
    }
}

#[test]
fn a_reader_gets_the_first_pair_that_agrees() {
    assert_eq!(read(0), (Ok(true), 1, 0));
    assert_eq!(read(3), (Ok(true), 4, 30));
    assert_eq!(read(5_999), (Ok(true), 6_000, 59_990));
}

#[test]
fn a_reader_gives_up_after_a_minute() {
    assert_eq!(read(6_000), (Ok(false), 6_000, 60_000));
}

#[test]
fn a_reader_fails_if_a_request_does() {
    let (operation, _) = database().read_transactions();
    let (operation, _) = operation.step(Reply::Done).unwrap();
    let (_, action) = operation.step(Reply::Failed).unwrap();
    assert!(matches!(action, Action::Finished(Err(BlockchainError::Storage))));

    let (operation, _) = database().read_transactions();
    let (_, action) = operation.step(Reply::Failed).unwrap();
    assert!(matches!(action, Action::Finished(Err(BlockchainError::Storage))));
}
