use blockchain_database::layout::{encode_seed, CacheSizes, Config};
use blockchain_database::opening::read_pruning_seed;
use blockchain_database::operation::Operation;
use blockchain_database::pruning::{DecompressedPruningSeed, PruningSeed};
use blockchain_database::request::{Action, Reply};
use blockchain_database::state::BlockchainDatabase;

fn config() -> Config {
    Config {
        cache_sizes: CacheSizes {
            rct_outputs: 1,
            tx_infos: 2,
            block_infos: 3,
            pruned_blobs: 4,
            v1_prunable_blobs: 5,
            prunable_blobs: 6,
        },
        prune: false,
    }
}

#[test]
fn a_stored_seed_is_read_back() {
    assert_eq!(
        read_pruning_seed(&encode_seed(&PruningSeed::NotPruned)),
        Some(PruningSeed::NotPruned)
    );
    for stripe in 1..=8 {
        let seed = PruningSeed::Pruned(DecompressedPruningSeed { log_stripes: 3, stripe });
        assert_eq!(read_pruning_seed(&encode_seed(&seed)), Some(seed));
    }
}

#[test]
fn other_bytes_are_no_seed() {
    assert_eq!(read_pruning_seed(&vec![]), None);
    assert_eq!(read_pruning_seed(&vec![0x80, 0x01, 0]), None);
    assert_eq!(read_pruning_seed(&vec![0x80, 0x01, 0, 0, 0]), None);
    assert_eq!(read_pruning_seed(&vec![0x88, 0x01, 0, 0]), None);
}

#[test]
fn the_requests_carry_their_options() {
    let mut asked = Vec::new();
    let (mut operation, mut action) = BlockchainDatabase::open_with_fjall_database(&config());
    while let Action::Perform(request) = action {
        let text = format!("{request:?}");
        let reply = if text.starts_with("KeyspaceExists") {
            Reply::Exists(true)
        } else if text.starts_with("TapeLen") {
            Reply::Len(Some(4))
        } else if text.starts_with("ReadBytes") {
            Reply::Bytes(vec![0x81, 0x01, 0, 0])
        } else {
            Reply::Done
        };
        asked.push(text);
        (operation, action) = operation.step(reply).unwrap();
    }

    assert_eq!(
        asked[0],
        "OpenKeyspace { keyspace: BlockHeights, options: KeyspaceOptions { kv_separation: None } }"
    );
    assert_eq!(
        asked[13],
        "OpenKeyspace { keyspace: PrunableTip, options: KeyspaceOptions { kv_separation: \
         Some(KvSeparation { separation_threshold: 3000, compression: Uncompressed }) } }"
    );
    assert_eq!(asked[14], "OpenTapes { dir: Index }");
    assert_eq!(
        asked[19],
        "OpenTape { tape: TapesMetadata, options: TapeOptions { top_cache_size: 8, dir: Index } }"
    );
    assert_eq!(asked[22], "TapeLen { tape: TapesMetadata }");
    assert_eq!(asked[23], "ReadBytes { tape: TapesMetadata, offset: 0, len: 4 }");
    assert_eq!(
        asked[24],
        "OpenTape { tape: Prunable(1), options: TapeOptions { top_cache_size: 6, dir: Blob } }"
    );
    assert_eq!(asked[25], "CommitTapes");
    assert_eq!(
        asked[26],
        "DeleteTape { tape: Prunable(0), options: TapeOptions { top_cache_size: 6, dir: Blob } }"
    );
    assert_eq!(asked.len(), 33);
}

#[test]
fn a_tape_without_a_length_is_an_empty_one() {
    let (mut operation, mut action) = BlockchainDatabase::open_with_fjall_database(&config());
    loop {
        let request = match action {
            Action::Perform(request) => request,
            Action::Finished(result) => {
                let db = result.unwrap();
                assert_eq!(db.pruning_seed(), PruningSeed::NotPruned);
                assert!(!db.prunable_tip);
                assert!((0..8).all(|index| db.is_tape_open(index)));
                return;
            }
        };
        let text = format!("{request:?}");
        let reply = if text.starts_with("KeyspaceExists") {
            Reply::Exists(false)
        } else if text.starts_with("TapeLen") {
            Reply::Len(None)
        } else {
            Reply::Done
        };
        (operation, action) = operation.step(reply).unwrap();
    }
}
