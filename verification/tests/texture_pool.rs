use nebula_tunes::loops::visual::{PoorOverlay, POOR_VISIBLE_FOR};
use nebula_tunes::media::texture_pool::{BgaTexturePool, PoolKey};

const SECOND: u64 = 1_000_000_000;

fn key(width: u32) -> PoolKey {
    PoolKey { width, height: 256, format: 1 }
}

#[test]
fn empty_pool_has_nothing_to_hand_out() {
    let mut pool: BgaTexturePool<&'static str> = BgaTexturePool::new(2, SECOND);
    assert_eq!(pool.acquire(key(256), 0), None);
    let mut pool: BgaTexturePool<u8> = BgaTexturePool::default();
    assert_eq!(pool.acquire(key(1), 5), None);
}

#[test]
fn latest_released_texture_is_reused_first() {
    let mut pool = BgaTexturePool::new(3, 10 * SECOND);
    pool.release("a", key(256), 0);
    pool.release("b", key(256), SECOND);
    pool.release("c", key(512), SECOND);
    assert_eq!(pool.acquire(key(256), 2 * SECOND), Some("b"));
    assert_eq!(pool.acquire(key(256), 2 * SECOND), Some("a"));
    assert_eq!(pool.acquire(key(256), 2 * SECOND), None);
    assert_eq!(pool.acquire(key(512), 2 * SECOND), Some("c"));
}

#[test]
fn pool_keeps_no_more_than_its_limit_for_a_key() {
    let mut pool = BgaTexturePool::new(2, 10 * SECOND);
    pool.release(1, key(256), 0);
    pool.release(2, key(256), 0);
    pool.release(3, key(256), 0);
    pool.release(9, key(64), 0);
    assert_eq!(pool.acquire(key(256), 1), Some(2));
    assert_eq!(pool.acquire(key(256), 1), Some(1));
    assert_eq!(pool.acquire(key(256), 1), None);
    assert_eq!(pool.acquire(key(64), 1), Some(9));
    let mut none = BgaTexturePool::new(0, SECOND);
    none.release(1, key(256), 0);
    assert_eq!(none.acquire(key(256), 0), None);
}

#[test]
fn expired_textures_are_given_up() {
    let mut pool = BgaTexturePool::new(4, 10 * SECOND);
    pool.release("old", key(256), 0);
    pool.release("new", key(256), 5 * SECOND);
    assert_eq!(pool.acquire(key(256), 10 * SECOND), Some("new"));
    assert_eq!(pool.acquire(key(256), 10 * SECOND), None);
    pool.release("x", key(256), 20 * SECOND);
    assert_eq!(pool.acquire(key(256), 30 * SECOND - 1), Some("x"));
    pool.release("y", key(256), 20 * SECOND);
    assert_eq!(pool.acquire(key(256), 30 * SECOND), None);
    pool.release("z", key(256), 50 * SECOND);
    assert_eq!(pool.acquire(key(256), 40 * SECOND), Some("z"));
}

#[test]
fn cleanup_and_clear_empty_the_pool() {
    let mut pool = BgaTexturePool::new(4, 10 * SECOND);
    pool.release("a", key(1), 0);
    pool.release("b", key(1), 8 * SECOND);
    pool.release("c", key(2), 0);
    pool.cleanup_expired(12 * SECOND);
    assert_eq!(pool.acquire(key(2), 12 * SECOND), None);
    assert_eq!(pool.acquire(key(1), 12 * SECOND), Some("b"));
    pool.release("d", key(1), 12 * SECOND);
    pool.release("e", key(3), 12 * SECOND);
    pool.clear();
    assert_eq!(pool.acquire(key(1), 12 * SECOND), None);
    assert_eq!(pool.acquire(key(3), 12 * SECOND), None);
}

#[test]
fn miss_layer_shows_for_a_fifth_of_a_second() {
    let mut overlay = PoorOverlay::new();
    assert!(!overlay.refresh(0));
    overlay.trigger(1_000);
    assert_eq!(overlay.until, Some(1_000 + POOR_VISIBLE_FOR));
    assert!(overlay.refresh(1_000));
    assert!(overlay.refresh(1_000 + POOR_VISIBLE_FOR - 1));
    assert!(!overlay.refresh(1_000 + POOR_VISIBLE_FOR));
    assert_eq!(overlay, PoorOverlay::new());
    overlay.trigger(5_000);
    overlay.trigger(6_000);
    assert!(overlay.refresh(5_000 + POOR_VISIBLE_FOR));
    assert!(!overlay.refresh(6_000 + POOR_VISIBLE_FOR));
}

#[test]
fn miss_layer_stays_when_its_end_cannot_be_told() {
    let mut overlay = PoorOverlay::new();
    overlay.trigger(u64::MAX - 5);
    assert_eq!(overlay.until, None);
    assert!(overlay.refresh(u64::MAX));
}
