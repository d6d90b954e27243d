use std::collections::{BTreeMap, BTreeSet};

use blockchain_database::activation::{DeleteUnnecessaryTapes, EnablePruning};
use blockchain_database::fill::FillPrunableTip;
use blockchain_database::layout::{
    encode_seed, open_alt_chain_keyspaces, open_main_chain_keyspaces, CacheSizes, Config,
    Keyspace, Tape,
};
use blockchain_database::operation::Operation;
use blockchain_database::pruning::{DecompressedPruningSeed, PruningSeed};
use blockchain_database::request::{Action, BlockInfo, BlockchainError, Reply, Request, TxInfo};
use blockchain_database::state::BlockchainDatabase;
use monero_oxide::block::{Block, BlockHeader};
use monero_oxide::transaction::{Input, Pruned, Timelock, Transaction, TransactionPrefix};

/// A block, its hash, the transactions that were added with it, and how many blocks its outputs
/// were numbered after.
type Added = (Block, [u8; 32], Vec<Vec<u8>>, usize);

/// A storage in memory.
#[derive(Clone, Default)]
struct Storage {
    blocks: Vec<Block>,
    block_infos: Vec<BlockInfo>,
    tx_infos: Vec<TxInfo>,
    pruned_blobs: Vec<u8>,
    prunable: BTreeMap<usize, Vec<u8>>,
    metadata: Vec<u8>,
    appended: Vec<u8>,
    tip: Option<BTreeMap<u64, Vec<u8>>>,
    tip_batch: BTreeMap<u64, Vec<u8>>,
    synced_tip: Option<BTreeMap<u64, Vec<u8>>>,
    derived: BTreeMap<&'static str, Vec<Added>>,
    batch: Vec<Added>,
    staged: Vec<Vec<u8>>,
    counted: usize,
    ids: Vec<u64>,
    alt: BTreeSet<&'static str>,
    asked: Vec<String>,
}

fn bytes_of(tape: &[u8], offset: u64, len: usize) -> Reply {
    let offset = offset as usize;
    Reply::Bytes(tape[offset..offset + len].to_vec())
}

impl Storage {
    fn blob_tape(&self, tape: Tape) -> &[u8] {
        match tape {
            Tape::TapesMetadata => &self.metadata,
            Tape::PrunedBlobs => &self.pruned_blobs,
            Tape::Prunable(index) => &self.prunable[&index],
            tape => panic!("{tape:?} is no tape of blobs here"),
        }
    }

    fn len(&self, tape: Tape) -> usize {
        match tape {
            Tape::BlockInfos => self.block_infos.len(),
            Tape::TxInfos => self.tx_infos.len(),
            tape => self.blob_tape(tape).len(),
        }
    }

    fn perform(&mut self, request: Request) -> Reply {
        let name = format!("{request:?}");
        let end = name.find([' ', '{']).unwrap_or(name.len());
        self.asked.push(name[..end].to_string());

        match request {
            Request::OpenKeyspace { keyspace, .. } => {
                if keyspace == Keyspace::PrunableTip {
                    self.tip.get_or_insert_with(BTreeMap::new);
                }
                Reply::Done
            }
            Request::KeyspaceExists { .. } => Reply::Exists(self.tip.is_some()),
            Request::RecreateKeyspace { keyspace, .. } => {
                if keyspace == Keyspace::PreRctOutputs {
                    self.counted = 0;
                }
                if open_main_chain_keyspaces().contains(&keyspace) {
                    self.derived.insert(keyspace.name(), Vec::new());
                } else if open_alt_chain_keyspaces().contains(&keyspace) {
                    self.alt.remove(keyspace.name());
                } else {
                    panic!("{keyspace:?} is never recreated");
                }
                Reply::Done
            }
            Request::BeginBatch { .. } => {
                self.tip_batch.clear();
                self.batch.clear();
                self.staged.clear();
                Reply::Done
            }
            Request::InsertTip { tx_id, blob } => {
                self.tip_batch.insert(tx_id, blob);
                Reply::Done
            }
            Request::CommitBatch => {
                let tip_batch = std::mem::take(&mut self.tip_batch);
                if let Some(tip) = &mut self.tip {
                    tip.extend(tip_batch);
                }
                let batch = std::mem::take(&mut self.batch);
                for keyspace in open_main_chain_keyspaces() {
                    self.derived.entry(keyspace.name()).or_default().extend(batch.clone());
                }
                Reply::Done
            }
            Request::PersistKeyspaces => {
                self.synced_tip = self.tip.clone();
                Reply::Done
            }
            Request::ReadChainTip => {
                let top = self.derived["chain_tip"].last();
                Reply::ChainTip(top.map(|(_, hash, _, _)| hash.to_vec()))
            }
            Request::BeginAppend => {
                self.appended.clear();
                Reply::Done
            }
            Request::OpenTape { tape, .. } => {
                if let Tape::Prunable(index) = tape {
                    self.prunable.entry(index).or_default();
                }
                Reply::Done
            }
            Request::TapeLen { tape } => Reply::Len(Some(self.len(tape) as u64)),
            Request::IterateTxInfos => Reply::Len(Some(self.tx_infos.len() as u64)),
            Request::ReadBlockInfo { height } => {
                Reply::BlockInfo(self.block_infos.get(height as usize).copied())
            }
            Request::ReadTxInfo { tx_id } => {
                Reply::TxInfo(self.tx_infos.get(tx_id as usize).copied())
            }
            Request::ReadBytes { tape, offset, len } => {
                bytes_of(self.blob_tape(tape), offset, len)
            }
            Request::AppendSeed { seed } => {
                self.appended.extend(encode_seed(&seed));
                Reply::Done
            }
            Request::CommitTapes => {
                self.metadata.append(&mut self.appended);
                Reply::Done
            }
            Request::DeleteTape { tape, .. } => {
                match tape {
                    Tape::Prunable(index) => self.prunable.remove(&index),
                    tape => panic!("{tape:?} is never deleted"),
                };
                Reply::Done
            }
            Request::GetBlock { height } => {
                Reply::Block(self.blocks[height as usize].serialize())
            }
            Request::StageTransaction { blob } => {
                self.staged.push(blob);
                Reply::Done
            }
            Request::AddBlock { block, hash, numb_txs } => {
                let txs = std::mem::take(&mut self.staged);
                let added = numb_txs + 1 + txs.len() as u64;
                let block = Block::read(&mut block.as_slice()).unwrap();
                self.batch.push((block, hash, txs, self.counted));
                self.counted += 1;
                self.ids.push(numb_txs);
                Reply::Added(added)
            }
            Request::TakeSnapshots | Request::TakeTapesSnapshot | Request::OpenTapes { .. } => {
                Reply::Done
            }
            Request::Sleep { .. } => panic!("nobody waits here"),
        }
    }

    /// What a crash leaves: the tapes, and of `prunable_tip` what was pushed to the disk.
    fn crashed(&self) -> Storage {
        Storage {
            appended: Vec::new(),
            tip: self.synced_tip.clone(),
            tip_batch: BTreeMap::new(),
            batch: Vec::new(),
            staged: Vec::new(),
            asked: Vec::new(),
            ..self.clone()
        }
    }

    fn chain(&self) -> Vec<Added> {
        let mut next = 0;
        self.blocks
            .iter()
            .enumerate()
            .map(|(height, block)| {
                let first = next + 1;
                next = first + block.transactions.len();
                let txs = self.tx_infos[first..next]
                    .iter()
                    .map(|info| {
                        let start = info.pruned_blob_idx as usize;
                        self.pruned_blobs[start..start + info.pruned_size].to_vec()
                    })
                    .collect();
                (block.clone(), block.hash(), txs, height)
            })
            .collect()
    }

    fn in_sync(&self) -> bool {
        let tapes = self.block_infos.last().map(|info| info.block_hash);
        tapes == self.derived["chain_tip"].last().map(|(_, hash, _, _)| *hash)
    }
}

/// Runs an operation until it is over or has made so many requests. The request at `failing`
/// fails.
fn run<T, M: Operation<T>>(
    storage: &mut Storage,
    (mut operation, mut action): (M, Action<T>),
    most: usize,
    failing: usize,
) -> (M, Option<Result<T, BlockchainError>>) {
    for count in 0..most {
        let request = match action {
            Action::Perform(request) => request,
            Action::Finished(result) => return (operation, Some(result)),
        };
        let reply = if count == failing {
            Reply::Failed
        } else {
            storage.perform(request)
        };
        (operation, action) = operation.step(reply).unwrap();
    }
    match action {
        Action::Perform(_) => (operation, None),
        Action::Finished(result) => (operation, Some(result)),
    }
}

const ALL: usize = usize::MAX;

fn mined(height: usize) -> TransactionPrefix {
    TransactionPrefix {
        additional_timelock: Timelock::None,
        inputs: vec![Input::Gen(height)],
        outputs: vec![],
        extra: vec![],
    }
}

/// A node with a chain of so many blocks, each with `txs` transactions of which the first is of
/// version 1. Transactions of different blocks are in different stripes.
fn node(blocks: usize, txs: usize) -> (BlockchainDatabase, Storage) {
    let mut storage = Storage::default();
    for index in 0..8 {
        storage.prunable.insert(index, Vec::new());
    }
    for keyspace in open_main_chain_keyspaces() {
        storage.derived.insert(keyspace.name(), Vec::new());
    }
    for keyspace in open_alt_chain_keyspaces() {
        storage.alt.insert(keyspace.name());
    }
    for height in 0..blocks {
        let header = BlockHeader {
            hardfork_version: 1,
            hardfork_signal: 0,
            timestamp: height as u64,
            previous: [0; 32],
            nonce: 0,
        };
        let miner = Transaction::V1 { prefix: mined(height), signatures: vec![] };
        let block = Block::new(header, miner, vec![[0; 32]; txs]).unwrap();
        storage.block_infos.push(BlockInfo {
            block_hash: block.hash(),
            mining_tx_index: storage.tx_infos.len() as u64,
        });
        storage.blocks.push(block);

        for tx in 0..=txs {
            let id = storage.tx_infos.len();
            let blob = Transaction::<Pruned>::V1 { prefix: mined(id), signatures: () }.serialize();
            let tape = storage.prunable.get_mut(&(height % 8)).unwrap();
            storage.tx_infos.push(TxInfo {
                height: height * 4096,
                pruned_blob_idx: storage.pruned_blobs.len() as u64,
                pruned_size: blob.len(),
                prunable_blob_idx: tape.len() as u64,
                prunable_size: 3,
                v1: tx == 1,
            });
            storage.pruned_blobs.extend(blob);
            tape.extend([id as u8, (id / 256) as u8, tx as u8]);
        }
    }
    for keyspace in open_main_chain_keyspaces() {
        storage.derived.insert(keyspace.name(), storage.chain());
    }
    storage.counted = blocks;
    let db = BlockchainDatabase {
        config: Config {
            cache_sizes: CacheSizes {
                rct_outputs: 0,
                tx_infos: 0,
                block_infos: 0,
                pruned_blobs: 0,
                v1_prunable_blobs: 0,
                prunable_blobs: 0,
            },
            prune: true,
        },
        pruning_seed: PruningSeed::NotPruned,
        prunable_tip: false,
        closed_below: 8,
    };
    (db, storage)
}

fn seed(stripe: u32) -> PruningSeed {
    PruningSeed::Pruned(DecompressedPruningSeed { log_stripes: 3, stripe })
}

/// What `prunable_tip` should hold.
fn entries(storage: &Storage, from: usize) -> BTreeMap<u64, Vec<u8>> {
    let mut entries = BTreeMap::new();
    for (id, info) in storage.tx_infos.iter().enumerate().skip(from) {
        if !info.v1 {
            let tape = &storage.prunable[&(info.height / 4096 % 8)];
            let start = info.prunable_blob_idx as usize;
            entries.insert(id as u64, tape[start..start + info.prunable_size].to_vec());
        }
    }
    entries
}

#[test]
fn a_node_is_pruned() {
    let (db, before) = node(20, 2);
    let mut storage = before.clone();
    let start = EnablePruning::enable_pruning_on(&db, 3);
    let (operation, result) = run(&mut storage, start, ALL, ALL);

    assert_eq!(result, Some(Ok(())));
    assert_eq!(operation.db.pruning_seed(), seed(3));
    assert!(operation.db.prunable_tip);
    for index in 0..8 {
        assert_eq!(operation.db.is_tape_open(index), index == 2);
    }
    assert_eq!(storage.metadata, [0x82, 0x01, 0, 0]);
    assert_eq!(storage.prunable.len(), 1);
    assert_eq!(storage.prunable[&2], before.prunable[&2]);
    assert_eq!(storage.tip, Some(entries(&before, 0)));
    assert_eq!(storage.synced_tip, storage.tip);
    assert_eq!(storage.tip.as_ref().unwrap().len(), 40);
}

#[test]
fn the_stripe_is_random_and_one_of_eight() {
    let (db, _) = node(0, 0);
    let mut stripes = BTreeSet::new();
    for _ in 0..500 {
        let (operation, _) = EnablePruning::enable_pruning(&db);
        stripes.insert(operation.seed.get_stripe().unwrap());
    }
    assert_eq!(stripes, BTreeSet::from([1, 2, 3, 4, 5, 6, 7, 8]));
}

#[test]
fn the_order_of_the_activation_is_kept() {
    let (db, mut storage) = node(1, 0);
    let start = EnablePruning::enable_pruning_on(&db, 8);
    run(&mut storage, start, ALL, ALL);

    let mut expected = vec![
        "OpenKeyspace",
        "TakeTapesSnapshot",
        "BeginBatch",
        "TapeLen",
        "ReadBlockInfo",
        "TapeLen",
        "ReadTxInfo",
        "ReadBytes",
        "InsertTip",
        "CommitBatch",
        "PersistKeyspaces",
        "BeginAppend",
        "AppendSeed",
        "CommitTapes",
    ];
    expected.extend(["DeleteTape"; 7]);
    assert_eq!(storage.asked, expected);
}

#[test]
fn an_activation_can_be_cut_short_anywhere() {
    let (db, before) = node(9, 1);
    let mut ends = (0, 0);
    for most in 0..ALL {
        let mut storage = before.clone();
        let start = EnablePruning::enable_pruning_on(&db, 5);
        let (_, result) = run(&mut storage, start, most, ALL);

        let mut left = storage.crashed();
        let config = Config { prune: false, ..db.config };
        let start = BlockchainDatabase::open_with_fjall_database(&config);
        let (_, opened) = run(&mut left, start, ALL, ALL);
        let reopened = opened.unwrap().unwrap();

        if reopened.pruning_seed() == PruningSeed::NotPruned {
            assert_eq!(left.prunable, before.prunable);
            ends.0 += 1;
        } else {
            assert_eq!(reopened.pruning_seed(), seed(5));
            assert!(reopened.prunable_tip);
            assert_eq!(left.prunable.len(), 1);
            assert_eq!(left.prunable[&4], before.prunable[&4]);
            assert_eq!(left.tip, Some(entries(&before, 0)));
            ends.1 += 1;
        }

        // The next start finishes what is left to do.
        let wanted = BlockchainDatabase { config: db.config, ..reopened };
        let (operation, result2) = run(&mut left, wanted.make_consistent_on(5), ALL, ALL);
        assert_eq!(result2, Some(Ok(())));
        assert_eq!(operation.db.pruning_seed(), seed(5));
        assert_eq!(left.tip, Some(entries(&before, 0)));
        assert_eq!(left.prunable.len(), 1);

        if result.is_some() {
            break;
        }
    }
    assert!(ends.0 > 10 && ends.1 > 7);
}

#[test]
fn a_startup_can_be_cut_short_anywhere() {
    let (db, mut before) = node(4, 1);
    before.derived.get_mut("chain_tip").unwrap().pop();
    for most in 0..ALL {
        let mut storage = before.clone();
        let (_, result) = run(&mut storage, db.make_consistent_on(2), most, ALL);

        let mut left = storage.crashed();
        let start = BlockchainDatabase::open_with_fjall_database(&db.config);
        let (_, opened) = run(&mut left, start, ALL, ALL);
        let reopened = opened.unwrap().unwrap();
        if reopened.pruning_seed() == PruningSeed::NotPruned {
            assert_eq!(left.prunable, before.prunable);
        }

        let (operation, result2) = run(&mut left, reopened.make_consistent_on(2), ALL, ALL);
        assert_eq!(result2, Some(Ok(())));
        assert_eq!(operation.db.pruning_seed(), seed(2));
        assert_eq!(left.tip, Some(entries(&before, 0)));
        assert_eq!(left.prunable.len(), 1);
        assert_eq!(left.prunable[&1], before.prunable[&1]);
        for keyspace in open_main_chain_keyspaces() {
            assert!(left.derived[keyspace.name()] == before.chain());
        }

        if result.is_some() {
            break;
        }
    }
}

#[test]
fn an_activation_that_fails_leaves_what_it_knows_true() {
    let (db, before) = node(3, 1);
    let mut total = before.clone();
    run(&mut total, EnablePruning::enable_pruning_on(&db, 1), ALL, ALL);

    for failing in 0..total.asked.len() {
        let mut storage = before.clone();
        let start = EnablePruning::enable_pruning_on(&db, 1);
        let (operation, result) = run(&mut storage, start, ALL, failing);
        assert_eq!(result, Some(Err(BlockchainError::Storage)));
        let pruned = operation.db.pruning_seed() != PruningSeed::NotPruned;
        assert_eq!(pruned, !storage.metadata.is_empty());
        for index in 0..8 {
            assert_eq!(
                operation.db.is_tape_open(index),
                storage.prunable.contains_key(&index)
            );
        }
    }
}

#[test]
fn a_deletion_that_fails_opens_no_tape() {
    let (db, mut storage) = node(1, 0);
    let db = BlockchainDatabase { pruning_seed: seed(3), prunable_tip: true, ..db };
    storage.prunable.retain(|index, _| *index == 2);

    let start = DeleteUnnecessaryTapes::delete_unnecessary_tapes(&db);
    let (operation, result) = run(&mut storage, start, ALL, 0);
    assert_eq!(result, Some(Err(BlockchainError::Storage)));
    assert_eq!(operation.db, db);
    for index in 0..8 {
        assert_eq!(operation.db.is_tape_open(index), index == 2);
    }

    // With some of the tapes left, those that were not deleted stay open.
    let db = BlockchainDatabase { closed_below: 4, ..db };
    for failing in 0..7 {
        let (_, mut storage) = node(1, 0);
        storage.prunable.retain(|index, _| db.is_tape_open(*index));
        let start = DeleteUnnecessaryTapes::delete_unnecessary_tapes(&db);
        let (operation, result) = run(&mut storage, start, ALL, failing);
        assert_eq!(result, Some(Err(BlockchainError::Storage)));
        for index in 0..8 {
            assert_eq!(
                operation.db.is_tape_open(index),
                storage.prunable.contains_key(&index)
            );
        }
    }
}

#[test]
fn a_filling_that_is_cut_short_leaves_no_gap() {
    let (db, before) = node(1_500, 0);
    let all = entries(&before, 0);
    for most in [10, 2_000, 3_003, 3_006, 4_000, 4_505, 4_507, ALL] {
        let mut storage = before.clone();
        run(&mut storage, FillPrunableTip::fill_prunable_tip(&db), most, ALL);
        let tip = storage.tip.unwrap();
        let expected: BTreeMap<u64, Vec<u8>> =
            all.clone().into_iter().skip(all.len() - tip.len()).collect();
        assert_eq!(tip, expected);
    }
}

#[test]
fn only_the_last_blocks_are_copied() {
    let (db, before) = node(5_510, 0);
    let mut storage = before.clone();
    run(&mut storage, EnablePruning::enable_pruning_on(&db, 1), ALL, ALL);

    let tip = storage.tip.unwrap();
    assert_eq!(tip.len(), 5_500);
    assert_eq!(tip, entries(&before, 10));
    // One commit after every thousand transactions, and one in the end.
    let commits = storage.asked.iter().filter(|name| *name == "CommitBatch").count();
    assert_eq!(commits, 6);
}

#[test]
fn what_was_in_the_tip_before_stays() {
    let (db, mut storage) = node(2, 0);
    storage.tip = Some(BTreeMap::from([(0, vec![9]), (77, vec![7])]));
    let mut expected = entries(&storage, 0);
    expected.insert(77, vec![7]);
    run(&mut storage, EnablePruning::enable_pruning_on(&db, 1), ALL, ALL);
    assert_eq!(storage.tip, Some(expected));
}

#[test]
fn opening_a_database_that_is_not_pruned_deletes_nothing() {
    let (db, before) = node(3, 1);
    let mut storage = before.clone();
    let start = BlockchainDatabase::open_with_fjall_database(&db.config);
    let (_, opened) = run(&mut storage, start, ALL, ALL);

    assert_eq!(opened, Some(Ok(db)));
    assert_eq!(storage.prunable, before.prunable);
    assert_eq!(storage.tip, None);
    let mut expected = vec!["OpenKeyspace"; 12];
    expected.extend(["KeyspaceExists", "OpenTapes", "BeginAppend"]);
    expected.extend(["OpenTape"; 6]);
    expected.push("TapeLen");
    expected.extend(["OpenTape"; 8]);
    expected.push("CommitTapes");
    assert_eq!(storage.asked, expected);
}

#[test]
fn opening_a_pruned_database_deletes_the_tapes_that_are_left() {
    let (db, before) = node(3, 1);
    let mut storage = before.clone();
    storage.metadata = encode_seed(&seed(2));
    storage.tip = Some(BTreeMap::new());
    let start = BlockchainDatabase::open_with_fjall_database(&db.config);
    let (_, opened) = run(&mut storage, start, ALL, ALL);

    let opened = opened.unwrap().unwrap();
    assert_eq!(opened.pruning_seed(), seed(2));
    assert!(opened.prunable_tip);
    assert_eq!(storage.prunable.len(), 1);
    assert_eq!(storage.prunable[&1], before.prunable[&1]);
    let commit = storage.asked.iter().position(|name| name == "CommitTapes").unwrap();
    let delete = storage.asked.iter().position(|name| name == "DeleteTape").unwrap();
    assert_eq!(delete, commit + 1);
    assert_eq!(storage.asked.len(), delete + 7);
}

#[test]
fn opening_a_pruned_database_changes_nothing() {
    let (db, mut storage) = node(3, 1);
    run(&mut storage, EnablePruning::enable_pruning_on(&db, 7), ALL, ALL);
    let before = storage.clone();
    let start = BlockchainDatabase::open_with_fjall_database(&db.config);
    let (_, opened) = run(&mut storage, start, ALL, ALL);
    assert_eq!(opened.unwrap().unwrap().pruning_seed(), seed(7));
    assert_eq!(storage.prunable, before.prunable);
    assert_eq!(storage.tip, before.tip);
    assert_eq!(storage.metadata, before.metadata);
}

#[test]
fn a_corrupt_seed_is_not_taken() {
    let (db, mut storage) = node(0, 0);
    storage.metadata = vec![8, 0, 0, 0];
    let (mut operation, mut action) =
        BlockchainDatabase::open_with_fjall_database(&db.config);
    loop {
        let request = match action {
            Action::Perform(request) => request,
            Action::Finished(result) => panic!("the opening ends with {result:?}"),
        };
        let last = matches!(request, Request::ReadBytes { .. });
        match operation.step(storage.perform(request)) {
            Some(next) => (operation, action) = next,
            None => {
                assert!(last);
                return;
            }
        }
    }
}

#[test]
fn opening_fails_if_a_request_does() {
    let (db, before) = node(0, 0);
    for failing in 0..31 {
        let mut storage = before.clone();
        let start = BlockchainDatabase::open_with_fjall_database(&db.config);
        let (_, opened) = run(&mut storage, start, ALL, failing);
        assert_eq!(opened, Some(Err(BlockchainError::Storage)));
        assert_eq!(storage.prunable, before.prunable);
    }
}

#[test]
fn the_keyspaces_are_rebuilt_from_the_tapes() {
    let (db, before) = node(12, 3);
    let db = BlockchainDatabase { prunable_tip: true, ..db };
    let mut storage = before.clone();
    storage.tip = Some(BTreeMap::from([(1, vec![1])]));
    for (_, chain) in storage.derived.iter_mut() {
        chain.truncate(4);
    }
    assert!(!storage.in_sync());
    let (operation, result) = run(&mut storage, db.rebuild_fjall_database(), ALL, ALL);

    assert_eq!(result, Some(Ok(())));
    assert_eq!(operation.db, db);
    for keyspace in open_main_chain_keyspaces() {
        assert!(storage.derived[keyspace.name()] == before.chain());
    }
    assert!(storage.in_sync());
    assert!(storage.alt.is_empty());
    assert!(storage.batch.is_empty());
    assert_eq!(storage.tip, Some(BTreeMap::from([(1, vec![1])])));
    assert_eq!(storage.prunable, before.prunable);
    let recreated = storage.asked.iter().filter(|name| *name == "RecreateKeyspace").count();
    assert_eq!(recreated, 12);
}

#[test]
fn blocks_are_added_under_the_ids_of_the_transactions_that_mined_them() {
    for txs in 0..4 {
        let (db, mut storage) = node(5, txs);
        let expected: Vec<u64> =
            storage.block_infos.iter().map(|info| info.mining_tx_index).collect();
        assert_eq!(expected[4], 4 * (txs as u64 + 1));
        let (_, result) = run(&mut storage, db.rebuild_fjall_database(), ALL, ALL);
        assert_eq!(result, Some(Ok(())));
        assert_eq!(storage.ids, expected);
    }
}

#[test]
fn tapes_that_disagree_are_left_as_they_were() {
    let (db, mut before) = node(3, 1);
    let db = BlockchainDatabase {
        config: Config { prune: false, ..db.config },
        prunable_tip: true,
        ..db
    };
    before.tip = Some(BTreeMap::from([(1, vec![1])]));
    before.block_infos[2].block_hash = [7; 32];
    let mut storage = before.clone();
    let (operation, result) = run(&mut storage, db.make_consistent_on(1), ALL, ALL);
    assert_eq!(result, Some(Ok(())));
    assert_eq!(operation.db, db);
    assert!(!storage.in_sync());
    assert_eq!(storage.tip, before.tip);
    assert_eq!(storage.prunable, before.prunable);
    assert_eq!(storage.metadata, before.metadata);

    // The last transaction is missing: its block is added without it.
    before.tx_infos.pop();
    let mut storage = before.clone();
    let (operation, result) = run(&mut storage, db.rebuild_fjall_database(), ALL, ALL);
    assert_eq!(result, Some(Ok(())));
    assert_eq!(operation.db, db);
    let added: Vec<usize> = storage.derived["chain_tip"].iter().map(|a| a.2.len()).collect();
    assert_eq!(added, [1, 1, 0]);
    assert_eq!(storage.tip, before.tip);
    assert_eq!(storage.prunable, before.prunable);
    assert_eq!(storage.metadata, before.metadata);
}

#[test]
fn a_rebuild_commits_every_thousand_blocks() {
    let (db, mut storage) = node(1_002, 0);
    run(&mut storage, db.rebuild_fjall_database(), ALL, ALL);
    let commits = storage.asked.iter().filter(|name| *name == "CommitBatch").count();
    // After the blocks at heights 0 and 1000, and in the end.
    assert_eq!(commits, 3);
}

#[test]
fn a_rebuild_that_fails_leaves_whole_batches() {
    let (db, before) = node(1_005, 0);
    let mut total = before.clone();
    run(&mut total, db.rebuild_fjall_database(), ALL, ALL);
    let adds: Vec<usize> =
        (0..total.asked.len()).filter(|n| total.asked[*n] == "AddBlock").collect();
    for (block, expected) in [(0, 0), (1, 1), (1_000, 1), (1_001, 1_001), (1_004, 1_001)] {
        let mut storage = before.clone();
        run(&mut storage, db.rebuild_fjall_database(), ALL, adds[block]);
        assert_eq!(storage.derived["chain_tip"].len(), expected);
    }

    let last = total.asked.len() - 1;
    let mut storage = before.clone();
    run(&mut storage, db.rebuild_fjall_database(), ALL, last);
    assert_eq!(storage.derived["chain_tip"].len(), 1_001);
}

#[test]
fn a_rebuild_can_be_repeated() {
    let (db, mut storage) = node(6, 2);
    let chain = storage.chain();
    for _ in 0..2 {
        let (_, result) = run(&mut storage, db.rebuild_fjall_database(), ALL, ALL);
        assert_eq!(result, Some(Ok(())));
        for keyspace in open_main_chain_keyspaces() {
            assert!(storage.derived[keyspace.name()] == chain);
        }
    }
    let numbered: Vec<usize> = storage.derived["pre_rct_outputs"].iter().map(|a| a.3).collect();
    assert_eq!(numbered, [0, 1, 2, 3, 4, 5]);
}

#[test]
fn a_rebuild_that_failed_can_be_made_good_at_once() {
    let (db, mut before) = node(4, 2);
    let chain = before.chain();
    before.derived.get_mut("chain_tip").unwrap().pop();
    let mut total = before.clone();
    run(&mut total, db.rebuild_fjall_database(), ALL, ALL);
    let adds = (0..total.asked.len()).filter(|n| total.asked[*n] == "AddBlock");
    for failing in adds {
        let mut storage = before.clone();
        let (operation, result) = run(&mut storage, db.rebuild_fjall_database(), ALL, failing);
        assert_eq!(result, Some(Err(BlockchainError::Storage)));
        assert!(!storage.staged.is_empty());

        let (_, result) = run(&mut storage, operation.db.make_consistent_on(1), ALL, ALL);
        assert_eq!(result, Some(Ok(())));
        for keyspace in open_main_chain_keyspaces() {
            assert!(storage.derived[keyspace.name()] == chain);
        }
    }
}

#[test]
fn a_rebuild_puts_the_tip_back_even_if_it_fails() {
    let (db, before) = node(2, 1);
    let db = BlockchainDatabase { prunable_tip: true, ..db };
    let mut total = before.clone();
    run(&mut total, db.rebuild_fjall_database(), ALL, ALL);

    for (failing, name) in total.asked.iter().enumerate() {
        if ["ReadTxInfo", "ReadBytes", "StageTransaction"].contains(&name.as_str()) {
            continue;
        }
        let mut storage = before.clone();
        let (operation, result) = run(&mut storage, db.rebuild_fjall_database(), ALL, failing);
        assert_eq!(result, Some(Err(BlockchainError::Storage)));
        assert_eq!(operation.db, db);
    }
    for most in 14..total.asked.len() {
        let mut storage = before.clone();
        let (operation, _) = run(&mut storage, db.rebuild_fjall_database(), most, ALL);
        assert!(!operation.db.prunable_tip);
    }
}

#[test]
fn a_rebuild_that_is_cut_short_leaves_the_tips_apart() {
    let (db, mut before) = node(5, 1);
    for (_, chain) in before.derived.iter_mut() {
        chain.truncate(4);
    }
    let mut total = before.clone();
    run(&mut total, db.rebuild_fjall_database(), ALL, ALL);
    for most in 0..total.asked.len() {
        let mut storage = before.clone();
        run(&mut storage, db.rebuild_fjall_database(), most, ALL);
        assert!(!storage.in_sync());
    }
    assert!(total.in_sync());
}

#[test]
fn a_consistent_database_is_left_alone() {
    let (db, before) = node(3, 1);
    let db = BlockchainDatabase {
        config: Config { prune: false, ..db.config },
        ..db
    };
    let mut storage = before.clone();
    let (operation, result) = run(&mut storage, db.make_consistent(), ALL, ALL);
    assert_eq!(result, Some(Ok(())));
    assert_eq!(operation.db, db);
    assert_eq!(storage.asked, ["TakeSnapshots", "TapeLen", "ReadBlockInfo", "ReadChainTip"]);
    assert_eq!(storage.prunable, before.prunable);
}

#[test]
fn a_startup_that_fails_leaves_the_database_as_it_was() {
    let (db, mut before) = node(2, 1);
    let db = BlockchainDatabase {
        config: Config { prune: false, ..db.config },
        prunable_tip: true,
        ..db
    };
    before.tip = Some(BTreeMap::new());
    before.derived.get_mut("chain_tip").unwrap().pop();
    let mut total = before.clone();
    run(&mut total, db.make_consistent_on(1), ALL, ALL);
    for (failing, name) in total.asked.iter().enumerate() {
        if ["ReadTxInfo", "ReadBytes", "StageTransaction"].contains(&name.as_str()) {
            continue;
        }
        let mut storage = before.clone();
        let (operation, result) = run(&mut storage, db.make_consistent_on(1), ALL, failing);
        assert_eq!(result, Some(Err(BlockchainError::Storage)));
        assert_eq!(operation.db, db);
    }
}

#[test]
fn a_database_out_of_sync_is_rebuilt_and_pruned() {
    let (db, before) = node(3, 1);
    let mut storage = before.clone();
    storage.derived.get_mut("chain_tip").unwrap().pop();
    let (operation, result) = run(&mut storage, db.make_consistent_on(4), ALL, ALL);
    assert_eq!(result, Some(Ok(())));
    assert!(storage.in_sync());
    for keyspace in open_main_chain_keyspaces() {
        assert!(storage.derived[keyspace.name()] == before.chain());
    }
    assert_eq!(operation.db.pruning_seed(), seed(4));
    assert_eq!(storage.tip, Some(entries(&before, 0)));
}

#[test]
fn a_pruned_node_without_its_tip_is_refused() {
    let (db, mut storage) = node(3, 1);
    storage.metadata = encode_seed(&seed(2));
    let db = BlockchainDatabase { pruning_seed: seed(2), ..db };
    let (operation, result) = run(&mut storage, db.make_consistent(), ALL, ALL);
    assert_eq!(result, Some(Err(BlockchainError::MissingPrunableTip)));
    assert_eq!(operation.db, db);

    let db = BlockchainDatabase { prunable_tip: true, ..db };
    let (operation, result) = run(&mut storage, db.make_consistent(), ALL, ALL);
    assert_eq!(result, Some(Ok(())));
    assert_eq!(operation.db, db);
}

#[test]
fn a_half_filled_tip_does_not_keep_a_node_from_being_pruned() {
    let (db, mut storage) = node(3, 1);
    storage.tip = Some(BTreeMap::new());
    let db = BlockchainDatabase { prunable_tip: true, ..db };
    let expected = entries(&storage, 0);
    let (operation, result) = run(&mut storage, db.make_consistent_on(6), ALL, ALL);
    assert_eq!(result, Some(Ok(())));
    assert_eq!(operation.db.pruning_seed(), seed(6));
    assert_eq!(storage.tip, Some(expected));
}

#[test]
fn closing_ignores_failures() {
    let (db, before) = node(0, 0);
    let mut storage = before.clone();
    let (_, result) = run(&mut storage, db.close(), ALL, ALL);
    assert_eq!(result, Some(Ok(())));
    assert_eq!(storage.asked, ["PersistKeyspaces", "BeginAppend", "CommitTapes"]);

    let mut storage = before.clone();
    let (_, result) = run(&mut storage, db.close(), ALL, 0);
    assert_eq!(result, Some(Ok(())));
    assert_eq!(storage.asked, ["BeginAppend", "CommitTapes"]);

    let mut storage = before;
    let (_, result) = run(&mut storage, db.close(), ALL, 2);
    assert_eq!(result, Some(Ok(())));
    assert_eq!(storage.asked, ["PersistKeyspaces", "BeginAppend"]);
}
