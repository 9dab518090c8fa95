use rustcraft::buffer_pool::TextureBufferPool;

#[test]
fn empty_pool_has_no_buffer() {
    let mut pool: TextureBufferPool<u32> = TextureBufferPool::new();
    assert_eq!(pool.get_buffer(), None);
}

#[test]
fn returned_buffer_is_reused_only_after_cleaning() {
    let mut pool = TextureBufferPool::new();
    pool.return_buffer(7u32);
    assert_eq!(pool.get_buffer(), None);
    assert_eq!(pool.dirty(), &vec![7]);
    pool.clean_buffers();
    assert!(pool.dirty().is_empty());
    assert_eq!(pool.get_buffer(), Some(7));
    assert_eq!(pool.get_buffer(), None);
}

#[test]
fn cleaning_moves_dirty_buffers_top_first() {
    let mut pool = TextureBufferPool::new();
    pool.return_buffer(1u32);
    pool.return_buffer(2);
    pool.return_buffer(3);
    pool.clean_buffers();
    assert_eq!(pool.get_buffer(), Some(1));
    assert_eq!(pool.get_buffer(), Some(2));
    assert_eq!(pool.get_buffer(), Some(3));
    assert_eq!(pool.get_buffer(), None);
}

#[test]
fn resizing_drops_every_buffer() {
    let mut pool = TextureBufferPool::new();
    pool.return_buffer(1u32);
    pool.clean_buffers();
    pool.return_buffer(2);
    pool.resize_buffers();
    assert!(pool.dirty().is_empty());
    assert_eq!(pool.get_buffer(), None);
}
