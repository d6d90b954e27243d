use blockchain_database::layout::{
    chain_keyspace, chain_tip_key, common_tape, encode_seed, keeps, next_tape,
    open_alt_chain_keyspaces, open_main_chain_keyspaces, prunable_tip_options, tape_options,
    tapes_dir_name, tip_key, CacheSizes, Compression, Keyspace, KvSeparation, Tape, TapeDir,
    TapeOptions,
};
use blockchain_database::pruning::{DecompressedPruningSeed, PruningSeed};

fn cache_sizes() -> CacheSizes {
    CacheSizes {
        rct_outputs: 1,
        tx_infos: 2,
        block_infos: 3,
        pruned_blobs: 4,
        v1_prunable_blobs: 5,
        prunable_blobs: 6,
    }
}

fn stripe(stripe: u32) -> PruningSeed {
    PruningSeed::Pruned(DecompressedPruningSeed { log_stripes: 3, stripe })
}

#[test]
fn keyspaces_have_their_names() {
    let names: Vec<&str> = (0..12).map(|index| chain_keyspace(index).name()).collect();
    assert_eq!(
        names,
        [
            "block_heights",
            "chain_tip",
            "key_images",
            "pre_rct_outputs",
            "tx_ids",
            "tx_outputs",
            "alt_chain_infos",
            "alt_block_heights",
            "alt_block_infos",
            "alt_block_blobs",
            "alt_transaction_blobs",
            "alt_transaction_infos",
        ]
    );
    assert_eq!(Keyspace::PrunableTip.name(), "prunable_tip");
}

#[test]
fn main_chain_keyspaces_come_first() {
    assert_eq!(open_main_chain_keyspaces().len(), 6);
    assert_eq!(open_alt_chain_keyspaces().len(), 6);
    assert_eq!(open_main_chain_keyspaces()[5], Keyspace::V1TxOutputs);
    assert_eq!(open_alt_chain_keyspaces()[0], Keyspace::AltChainInfos);
    assert_eq!(chain_keyspace(6), Keyspace::AltChainInfos);
}

#[test]
fn tapes_have_their_names() {
    let names: Vec<&str> = (0..6).map(|index| common_tape(index).name()).collect();
    assert_eq!(
        names,
        [
            "rct_outputs",
            "tx_infos",
            "block_infos",
            "tapes_metadata",
            "pruned_blobs",
            "v1_prunable_blobs",
        ]
    );
    let names: Vec<&str> = (0..8).map(|index| Tape::Prunable(index).name()).collect();
    assert_eq!(
        names,
        [
            "prunable1",
            "prunable2",
            "prunable3",
            "prunable4",
            "prunable5",
            "prunable6",
            "prunable7",
            "prunable8",
        ]
    );
    assert_eq!(tapes_dir_name(), "tapes");
}

#[test]
fn tapes_are_opened_with_their_options() {
    let options = |tape| tape_options(tape, &cache_sizes());
    let index = |top_cache_size| TapeOptions { top_cache_size, dir: TapeDir::Index };
    let blob = |top_cache_size| TapeOptions { top_cache_size, dir: TapeDir::Blob };
    assert_eq!(options(Tape::RctOutputs), index(1));
    assert_eq!(options(Tape::TxInfos), index(2));
    assert_eq!(options(Tape::BlockInfos), index(3));
    assert_eq!(options(Tape::TapesMetadata), index(8));
    assert_eq!(options(Tape::PrunedBlobs), blob(4));
    assert_eq!(options(Tape::V1PrunableBlobs), blob(5));
    assert_eq!(options(Tape::Prunable(7)), blob(6));
}

#[test]
fn large_values_of_the_tip_are_kept_apart_and_uncompressed() {
    assert_eq!(
        prunable_tip_options().kv_separation,
        Some(KvSeparation {
            separation_threshold: 3000,
            compression: Compression::Uncompressed,
        })
    );
}

#[test]
fn a_pruned_node_keeps_one_tape() {
    for kept in 1..=8 {
        let count = (0..8).filter(|index| keeps(&stripe(kept), *index)).count();
        assert_eq!(count, 1);
        assert!(keeps(&stripe(kept), kept as usize - 1));
    }
    assert!((0..8).all(|index| keeps(&PruningSeed::NotPruned, index)));
}

#[test]
fn the_next_tape_is_found() {
    assert_eq!(next_tape(&stripe(3), true, 0), 2);
    assert_eq!(next_tape(&stripe(3), true, 3), 8);
    assert_eq!(next_tape(&stripe(3), false, 0), 0);
    assert_eq!(next_tape(&stripe(3), false, 2), 3);
    assert_eq!(next_tape(&PruningSeed::NotPruned, false, 0), 8);
    assert_eq!(next_tape(&PruningSeed::NotPruned, true, 5), 5);
    assert_eq!(next_tape(&stripe(3), false, 8), 8);
}

#[test]
fn seeds_and_keys_are_encoded() {
    assert_eq!(encode_seed(&PruningSeed::NotPruned), [0, 0, 0, 0]);
    assert_eq!(encode_seed(&stripe(8)), [0x87, 0x01, 0, 0]);
    assert_eq!(tip_key(0x0102_0304), [4, 3, 2, 1, 0, 0, 0, 0]);
    assert_eq!(tip_key(u64::MAX), [255; 8]);
    assert_eq!(chain_tip_key(), b"tip");
}

#[test]
fn names_and_keys_do_not_collide() {
    let mut names: Vec<&str> = (0..12).map(|index| chain_keyspace(index).name()).collect();
    names.push(Keyspace::PrunableTip.name());
    names.sort();
    names.dedup();
    assert_eq!(names.len(), 13);

    let mut names: Vec<&str> = (0..6).map(|index| common_tape(index).name()).collect();
    names.extend((0..8).map(|index| Tape::Prunable(index).name()));
    names.sort();
    names.dedup();
    assert_eq!(names.len(), 14);

    assert_ne!(tip_key(1), tip_key(256));
}
