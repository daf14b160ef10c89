use imgui_renderer::pool::{ScratchVertexPool, INDEX_COUNT, POOL_CAPACITY, POOL_HEADROOM};

#[test]
fn index_buffer_is_identity() {
    let pool = ScratchVertexPool::with_capacity(8, 2);
    assert_eq!(pool.indices.len(), INDEX_COUNT);
    assert_eq!(pool.indices[0], 0);
    assert_eq!(pool.indices[1], 1);
    assert_eq!(pool.indices[12345], 12345);
    assert_eq!(pool.indices[INDEX_COUNT - 1], (INDEX_COUNT - 1) as u16);
}

#[test]
fn default_sizing() {
    assert_eq!(POOL_CAPACITY, 0x200000);
    assert_eq!(POOL_HEADROOM, 0x66700);
    assert!(POOL_HEADROOM < POOL_CAPACITY);
}

#[test]
fn writes_up_to_threshold_never_touch_the_start() {
    // capacity 100, headroom 10: the rewind threshold is 90.
    let mut pool = ScratchVertexPool::with_capacity(100, 10);
    for i in 0..90u32 {
        pool.write_vertex(i, i + 1, 0, i + 2, i + 3, 1, 2, 3, 4);
        pool.maybe_rewind(1);
    }
    // 90 single-vertex commands: emitted == 90 is not yet past the threshold
    assert_eq!(pool.cursor, 90);
    assert_eq!(pool.emitted, 90);
    // the first written vertex is intact
    assert_eq!(pool.positions[0], 0);
    assert_eq!(pool.positions[1], 1);
    assert_eq!(pool.positions[2], 0);
    assert_eq!(pool.texcoords[0], 2);
    assert_eq!(pool.texcoords[1], 3);
    assert_eq!(pool.colors[0..4], [1, 2, 3, 4]);
}

#[test]
fn crossing_threshold_rewinds_exactly_once() {
    let mut pool = ScratchVertexPool::with_capacity(100, 10);
    for i in 0..90u32 {
        pool.write_vertex(i, 0, 0, 0, 0, 0, 0, 0, 0);
        pool.maybe_rewind(1);
    }
    assert_eq!((pool.cursor, pool.emitted), (90, 90));
    // the 91st vertex pushes the emitted count past 90 and triggers the rewind
    pool.write_vertex(1000, 1001, 0, 0, 0, 0, 0, 0, 0);
    pool.maybe_rewind(1);
    assert_eq!((pool.cursor, pool.emitted), (0, 0));
    // that vertex went to slot 90, not to the start
    assert_eq!(pool.positions[3 * 90], 1000);
    assert_eq!(pool.positions[0], 0);
    // the next write after the rewind lands at buffer offset 0
    pool.write_vertex(2000, 2001, 0, 0, 0, 0, 0, 0, 0);
    pool.maybe_rewind(1);
    assert_eq!((pool.cursor, pool.emitted), (1, 1));
    assert_eq!(pool.positions[0], 2000);
    assert_eq!(pool.positions[1], 2001);
}

#[test]
fn rewind_books_whole_commands() {
    let mut pool = ScratchVertexPool::with_capacity(100, 40);
    // threshold is 60; a 30-vertex command stays, the next one rewinds
    pool.maybe_rewind(30);
    assert_eq!(pool.emitted, 30);
    pool.maybe_rewind(30);
    assert_eq!(pool.emitted, 60);
    pool.maybe_rewind(30);
    assert_eq!((pool.cursor, pool.emitted), (0, 0));
}
