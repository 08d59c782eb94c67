use penumbra::block::{Builder, Commitment, Insert, InsertError, Position, Witness, TIER_CAPACITY};

#[test]
fn insert_appends_kept_and_forgotten_items() {
    let mut builder = Builder::default();
    assert!(builder.block.is_empty());
    assert_eq!(builder.insert(Witness::Keep, Commitment([1; 32])), Ok(Position(0)));
    assert_eq!(builder.insert(Witness::Forget, Commitment([2; 32])), Ok(Position(1)));
    assert_eq!(builder.block.len(), 2);
    assert!(matches!(builder.block[0], Insert::Keep(Commitment(c)) if c == [1; 32]));
    assert!(matches!(builder.block[1], Insert::Hash(_)));
}

#[test]
fn full_block_refuses_insert_and_is_unchanged() {
    let mut builder = Builder::new();
    for i in 0..TIER_CAPACITY {
        let witness = if i % 2 == 0 { Witness::Keep } else { Witness::Forget };
        assert_eq!(builder.insert(witness, Commitment([(i % 256) as u8; 32])), Ok(Position(i as u16)));
    }
    assert_eq!(builder.block.len(), 65536);
    assert_eq!(builder.insert(Witness::Keep, Commitment([0; 32])), Err(InsertError::BlockFull));
    assert_eq!(builder.insert(Witness::Forget, Commitment([0; 32])), Err(InsertError::BlockFull));
    assert_eq!(builder.block.len(), TIER_CAPACITY);
    let mut full = builder.clone();
    assert_eq!(full.insert(Witness::Keep, Commitment([9; 32])), Err(InsertError::BlockFull));
    assert_eq!(full, builder);
}
