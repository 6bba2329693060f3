use endian::pool::{offset_in_pool, BlockPool, BLOCK_SIZE, MAX_BLOCKS, POOL_SIZE};

#[test]
fn pool_hands_out_blocks_in_order() {
    let mut p = BlockPool::new();
    assert_eq!(p.aligned_alloc(32, 16), Some(0));
    assert_eq!(p.aligned_alloc(32, 64), Some(BLOCK_SIZE));
    assert_eq!(p.aligned_alloc(32, 1), Some(2 * BLOCK_SIZE));
    assert!(!p.is_free(0));
    assert!(p.is_free(3 * BLOCK_SIZE));
}

#[test]
fn pool_refuses_large_requests() {
    let mut p = BlockPool::new();
    assert_eq!(p.aligned_alloc(32, BLOCK_SIZE + 1), None);
    assert_eq!(p.aligned_alloc(32, 0), Some(0));
}

#[test]
fn pool_release_is_reused_first() {
    let mut p = BlockPool::new();
    let a = p.aligned_alloc(8, 8).unwrap();
    let b = p.aligned_alloc(8, 8).unwrap();
    p.aligned_free(a + 5);
    assert!(p.is_free(a));
    assert_eq!(p.aligned_alloc(8, 8), Some(a));
    p.aligned_free(b);
    assert_eq!(p.aligned_alloc(8, 8), Some(b));
    assert_eq!(p.aligned_alloc(8, 8), Some(2 * BLOCK_SIZE));
}

#[test]
fn pool_exhaustion() {
    let mut p = BlockPool::new();
    for i in 0..MAX_BLOCKS {
        assert_eq!(p.aligned_alloc(64, 64), Some(i * BLOCK_SIZE));
    }
    assert_eq!(p.aligned_alloc(64, 1), None);
    p.aligned_free(POOL_SIZE - 1);
    assert_eq!(p.aligned_alloc(64, 1), Some(POOL_SIZE - BLOCK_SIZE));
    assert_eq!(p.aligned_alloc(64, 1), None);
}

#[test]
fn fresh_pool_hands_out_disjoint_blocks() {
    let mut p = BlockPool::new();
    let mut seen = vec![false; MAX_BLOCKS];
    for _ in 0..MAX_BLOCKS {
        let off = p.aligned_alloc(1, BLOCK_SIZE).unwrap();
        assert_eq!(off % BLOCK_SIZE, 0);
        assert!(off + BLOCK_SIZE <= POOL_SIZE);
        assert!(!seen[off / BLOCK_SIZE]);
        seen[off / BLOCK_SIZE] = true;
    }
    assert_eq!(p.aligned_alloc(1, 1), None);
    assert_eq!(p.aligned_alloc(1, BLOCK_SIZE), None);
}

#[test]
fn offset_in_pool_bounds() {
    assert_eq!(offset_in_pool(1000, 1000), Some(0));
    assert_eq!(offset_in_pool(1000 + POOL_SIZE - 1, 1000), Some(POOL_SIZE - 1));
    assert_eq!(offset_in_pool(1000 + POOL_SIZE, 1000), None);
    assert_eq!(offset_in_pool(999, 1000), None);
    assert_eq!(offset_in_pool(usize::MAX, 0), None);
}
