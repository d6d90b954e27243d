use blockchain_database::pruning::{
    get_block_pruning_stripe, DecompressedPruningSeed, PruningError, PruningSeed,
    CRYPTONOTE_PRUNING_LOG_STRIPES, CRYPTONOTE_PRUNING_TIP_BLOCKS,
};

fn seed(stripe: u32, log_stripes: u32) -> PruningSeed {
    PruningSeed::Pruned(DecompressedPruningSeed { log_stripes, stripe })
}

#[test]
fn seeds_are_compressed() {
    assert_eq!(PruningSeed::NotPruned.compress(), 0);
    assert_eq!(seed(1, 3).compress(), 384);
    assert_eq!(seed(8, 3).compress(), 391);
    assert_eq!(seed(128, 7).compress(), 1023);
}

#[test]
fn compressed_seeds_are_read_back() {
    assert_eq!(PruningSeed::decompress(0), Ok(PruningSeed::NotPruned));
    for log_stripes in 1..=7 {
        for stripe in 1..=1 << log_stripes {
            let number = seed(stripe, log_stripes).compress();
            assert_eq!(PruningSeed::decompress(number), Ok(seed(stripe, log_stripes)));
        }
    }
}

#[test]
fn the_seed_of_the_only_stripe_has_the_number_of_no_seed() {
    assert_eq!(seed(1, 0).compress(), 0);
}

#[test]
fn numbers_that_are_no_seed_are_refused() {
    assert_eq!(PruningSeed::decompress(392), Err(PruningError::StripeOutOfRange));
    assert_eq!(PruningSeed::decompress(1), Err(PruningError::StripeOutOfRange));
    assert_eq!(PruningSeed::decompress(130), Err(PruningError::StripeOutOfRange));
}

#[test]
fn bits_above_the_seed_are_ignored() {
    assert_eq!(PruningSeed::decompress(384 + 1024), Ok(seed(1, 3)));
}

#[test]
fn seeds_out_of_range_are_refused() {
    assert_eq!(PruningSeed::new_pruned(1, 8), Err(PruningError::LogStripesOutOfRange));
    assert_eq!(PruningSeed::new_pruned(0, 3), Err(PruningError::StripeOutOfRange));
    assert_eq!(PruningSeed::new_pruned(9, 3), Err(PruningError::StripeOutOfRange));
    assert_eq!(PruningSeed::new_pruned(8, 3), Ok(seed(8, 3)));
}

#[test]
fn a_seed_names_its_stripe() {
    assert_eq!(seed(5, 3).get_stripe(), Some(5));
    assert_eq!(PruningSeed::NotPruned.get_stripe(), None);
}

#[test]
fn blocks_are_dealt_out_to_stripes() {
    let stripe =
        |height| get_block_pruning_stripe(height, usize::MAX, CRYPTONOTE_PRUNING_LOG_STRIPES);
    assert_eq!(stripe(0), Some(1));
    assert_eq!(stripe(4095), Some(1));
    assert_eq!(stripe(4096), Some(2));
    assert_eq!(stripe(8 * 4096 - 1), Some(8));
    assert_eq!(stripe(8 * 4096), Some(1));
    assert_eq!(stripe(3_000_000), Some(5));
}

#[test]
fn the_top_of_the_chain_has_no_stripe() {
    let height = CRYPTONOTE_PRUNING_TIP_BLOCKS + 10;
    assert_eq!(get_block_pruning_stripe(10, height, 3), None);
    assert_eq!(get_block_pruning_stripe(9, height, 3), Some(1));
}
