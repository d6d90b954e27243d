use blockchain_database::operation::Operation;
use blockchain_database::replay::{Pending, Progress, ReplayTapes};
use blockchain_database::request::{Action, BlockchainError, Reply, Request, TxInfo};
use monero_oxide::block::{Block, BlockHeader};
use monero_oxide::transaction::{Input, Pruned, Timelock, Transaction, TransactionPrefix};

fn prefix(height: usize) -> TransactionPrefix {
    TransactionPrefix {
        additional_timelock: Timelock::None,
        inputs: vec![Input::Gen(height)],
        outputs: vec![],
        extra: vec![],
    }
}

fn block(txs: usize) -> Block {
    let header = BlockHeader {
        hardfork_version: 1,
        hardfork_signal: 0,
        timestamp: 0,
        previous: [0; 32],
        nonce: 0,
    };
    let miner = Transaction::V1 { prefix: prefix(0), signatures: vec![] };
    Block::new(header, miner, vec![[0; 32]; txs]).unwrap()
}

fn blob() -> Vec<u8> {
    Transaction::<Pruned>::V1 { prefix: prefix(3), signatures: () }.serialize()
}

fn info(pruned_size: usize) -> Reply {
    Reply::TxInfo(Some(TxInfo {
        height: 0,
        pruned_blob_idx: 11,
        pruned_size,
        prunable_blob_idx: 0,
        prunable_size: 0,
        v1: true,
    }))
}

/// The first block of a chain of `blocks` blocks and `txs` transactions is handed to a replay.
fn replay_first(blocks: u64, txs: u64, block: Block) -> (ReplayTapes, Action<()>) {
    let (replay, _) = ReplayTapes::replay_tapes_into_fjall();
    let (replay, _) = replay.step(Reply::Done).unwrap();
    let (replay, _) = replay.step(Reply::Len(Some(txs))).unwrap();
    let (replay, _) = replay.step(Reply::Done).unwrap();
    let (replay, action) = replay.step(Reply::Len(Some(blocks))).unwrap();
    assert!(matches!(action, Action::Perform(Request::GetBlock { height: 0 })));
    replay.step(Reply::Block(block.serialize())).unwrap()
}

/// The bytes that a string of hexadecimal digits stands for.
fn bytes(digits: &str) -> Vec<u8> {
    (0..digits.len() / 2)
        .map(|i| u8::from_str_radix(&digits[2 * i..2 * i + 2], 16).unwrap())
        .collect()
}

/// The first block of the Monero chain.
fn genesis() -> Block {
    let digits = [
        "010000",
        "0000000000000000000000000000000000000000000000000000000000000000",
        "10270000",
        "013c01ff0001ffffffffffff03",
        "029b2e4c0281c0b02e7c53291a94d1d0cbff8883f8024f5142ee494ffbbd088071",
        "21017767aafcde9be00dcfd098715ebcf7f410daebc582fda69d24a28e9d0bc890d1",
        "00",
    ]
    .concat();
    Block::read(&mut bytes(&digits).as_slice()).unwrap()
}

#[test]
fn a_block_is_added_under_its_hash() {
    let (_, action) = replay_first(1, 0, genesis());
    match action {
        Action::Perform(Request::AddBlock { block, hash, numb_txs }) => {
            assert_eq!(block, genesis().serialize());
            assert_eq!(
                hash.to_vec(),
                bytes("418015bb9ae982a1975da7d79277c2705727a56894ba0fb246adaabb1f4632e3")
            );
            assert_eq!(numb_txs, 0);
        }
        action => panic!("the replay wants {action:?}"),
    }
}

#[test]
fn the_transaction_that_mined_a_block_is_read_and_dropped() {
    let (replay, action) = replay_first(1, 1, block(0));
    assert!(matches!(action, Action::Perform(Request::ReadTxInfo { tx_id: 0 })));
    let (replay, action) = replay.step(info(blob().len())).unwrap();
    match action {
        Action::Perform(Request::ReadBytes { offset, len, .. }) => {
            assert_eq!((offset, len), (11, blob().len()));
        }
        action => panic!("the replay wants {action:?}"),
    }
    let (_, action) = replay.step(Reply::Bytes(blob())).unwrap();
    assert!(matches!(action, Action::Perform(Request::AddBlock { .. })));
}

#[test]
fn every_other_transaction_of_a_block_is_set_aside() {
    let (replay, _) = replay_first(1, 4, block(2));
    let (replay, _) = replay.step(info(blob().len())).unwrap();
    let (mut replay, mut action) = replay.step(Reply::Bytes(blob())).unwrap();
    for expected in 1..3 {
        match action {
            Action::Perform(Request::ReadTxInfo { tx_id }) => assert_eq!(tx_id, expected),
            action => panic!("the replay wants {action:?}"),
        }
        (replay, _) = replay.step(info(blob().len())).unwrap();
        (replay, action) = replay.step(Reply::Bytes(blob())).unwrap();
        match action {
            Action::Perform(Request::StageTransaction { blob: staged }) => {
                assert_eq!(staged, blob());
            }
            action => panic!("the replay wants {action:?}"),
        }
        (replay, action) = replay.step(Reply::Done).unwrap();
    }
    assert!(matches!(action, Action::Perform(Request::AddBlock { .. })));
}

#[test]
fn a_replay_reads_no_further_than_the_tape() {
    let (replay, _) = replay_first(1, 1, block(2));
    let (replay, _) = replay.step(info(blob().len())).unwrap();
    let (_, action) = replay.step(Reply::Bytes(blob())).unwrap();
    assert!(matches!(action, Action::Perform(Request::AddBlock { .. })));
}

#[test]
fn bytes_that_are_no_transaction_are_not_taken() {
    let (replay, _) = replay_first(1, 1, block(0));
    let (replay, _) = replay.step(info(3)).unwrap();
    assert!(replay.step(Reply::Bytes(vec![9, 9, 9])).is_none());

    let (replay, _) = replay_first(1, 1, block(0));
    let (replay, _) = replay.step(info(blob().len() + 1)).unwrap();
    assert!(replay.step(Reply::Bytes(blob())).is_none());
}

#[test]
fn bytes_that_are_no_block_are_not_taken() {
    let (replay, _) = ReplayTapes::replay_tapes_into_fjall();
    let (replay, _) = replay.step(Reply::Done).unwrap();
    let (replay, _) = replay.step(Reply::Len(Some(0))).unwrap();
    let (replay, _) = replay.step(Reply::Done).unwrap();
    let (replay, _) = replay.step(Reply::Len(Some(1))).unwrap();
    assert!(replay.step(Reply::Block(vec![1, 2, 3])).is_none());
}

#[test]
fn the_number_of_transactions_is_handed_on() {
    let (replay, _) = replay_first(2, 0, block(0));
    let (replay, action) = replay.step(Reply::Added(5)).unwrap();
    assert!(matches!(action, Action::Perform(Request::CommitBatch)));
    let (replay, action) = replay.step(Reply::Done).unwrap();
    assert!(matches!(action, Action::Perform(Request::GetBlock { height: 1 })));
    let (replay, action) = replay.step(Reply::Block(block(0).serialize())).unwrap();
    assert!(matches!(action, Action::Perform(Request::AddBlock { numb_txs: 5, .. })));
    let (replay, action) = replay.step(Reply::Added(9)).unwrap();
    assert!(matches!(action, Action::Perform(Request::CommitBatch)));
    let (_, action) = replay.step(Reply::Done).unwrap();
    assert!(matches!(action, Action::Finished(Ok(()))));
}

#[test]
fn a_replay_of_nothing_commits_nothing_but_the_empty_batch() {
    let (replay, _) = ReplayTapes::replay_tapes_into_fjall();
    let (replay, _) = replay.step(Reply::Done).unwrap();
    let (replay, _) = replay.step(Reply::Len(Some(0))).unwrap();
    let (replay, _) = replay.step(Reply::Done).unwrap();
    let (replay, action) = replay.step(Reply::Len(Some(0))).unwrap();
    assert!(matches!(action, Action::Perform(Request::CommitBatch)));
    let (_, action) = replay.step(Reply::Done).unwrap();
    assert!(matches!(action, Action::Finished(Ok(()))));
}

#[test]
fn a_replay_fails_on_a_block_that_cannot_be_read() {
    let (replay, _) = ReplayTapes::replay_tapes_into_fjall();
    let (replay, _) = replay.step(Reply::Done).unwrap();
    let (replay, _) = replay.step(Reply::Len(Some(0))).unwrap();
    let (replay, _) = replay.step(Reply::Done).unwrap();
    let (replay, _) = replay.step(Reply::Len(Some(1))).unwrap();
    let (_, action) = replay.step(Reply::Failed).unwrap();
    assert!(matches!(action, Action::Finished(Err(BlockchainError::Storage))));
}

#[test]
fn a_transaction_that_cannot_be_read_is_fatal() {
    let (replay, _) = replay_first(1, 1, block(0));
    assert!(replay.step(Reply::Failed).is_none());
    let (replay, _) = replay_first(1, 1, block(0));
    assert!(replay.step(Reply::TxInfo(None)).is_none());
}

#[test]
fn what_is_known_of_a_block_decides_how_a_replay_goes_on() {
    let progress = Progress { tx_count: 9, block_count: 3, height: 1, next_tx: 4, numb_txs: 4 };
    assert!(ReplayTapes::take_block(progress, vec![], None, Some(1)).is_none());
    assert!(ReplayTapes::take_block(progress, vec![], Some([1; 32]), None).is_none());

    let (_, action) = ReplayTapes::take_block(progress, vec![7], Some([1; 32]), Some(0)).unwrap();
    assert!(matches!(action, Action::Perform(Request::ReadTxInfo { tx_id: 4 })));

    let at_end = Progress { next_tx: 9, ..progress };
    let (_, action) = ReplayTapes::take_block(at_end, vec![7], Some([1; 32]), Some(2)).unwrap();
    match action {
        Action::Perform(Request::AddBlock { block, hash, numb_txs }) => {
            assert_eq!((block, hash, numb_txs), (vec![7], [1; 32], 4));
        }
        action => panic!("the replay wants {action:?}"),
    }
}

#[test]
fn what_is_known_of_a_blob_decides_how_a_replay_goes_on() {
    let progress = Progress { tx_count: 9, block_count: 3, height: 1, next_tx: 4, numb_txs: 4 };
    let pending = |miner| Pending { block: vec![7], hash: [1; 32], miner, left: 1 };
    assert!(ReplayTapes::take_blob(progress, pending(true), vec![5], false).is_none());

    let (_, action) = ReplayTapes::take_blob(progress, pending(true), vec![5], true).unwrap();
    assert!(matches!(action, Action::Perform(Request::ReadTxInfo { tx_id: 5 })));

    let (_, action) = ReplayTapes::take_blob(progress, pending(false), vec![5], true).unwrap();
    match action {
        Action::Perform(Request::StageTransaction { blob }) => assert_eq!(blob, vec![5]),
        action => panic!("the replay wants {action:?}"),
    }
}
