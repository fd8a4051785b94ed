use easypdf::cache::{Tile, TileCache, TileKey, ZoomBucket};
use easypdf::protocol::{Response, WorkerError};
use easypdf::session::{cached_page, finish_render, opened};

fn tile(bytes: usize) -> Tile {
    Tile { width: 1, height: 1, pixels: vec![0; bytes] }
}

/// Zoom 1.0 is eight steps of an eighth.
fn key(page: usize) -> TileKey {
    TileKey { page, zoom: ZoomBucket::from_steps(8), rotation: 0 }
}

#[test]
fn cache_never_exceeds_its_budget() {
    let mut cache = TileCache::new(1000);
    for page in 0..50 {
        cache.insert(key(page), tile(100));
        assert!(cache.used_bytes() <= 1000, "budget exceeded at page {page}");
    }
}

#[test]
fn eviction_removes_least_recently_used() {
    let mut cache = TileCache::new(300);
    cache.insert(key(0), tile(100));
    cache.insert(key(1), tile(100));
    cache.insert(key(2), tile(100));

    assert!(cache.get(&key(0)).is_some());
    cache.insert(key(3), tile(100));

    assert!(cache.get(&key(0)).is_some(), "recently used tile was evicted");
    assert!(cache.get(&key(1)).is_none(), "LRU tile should have been evicted");
}

#[test]
fn reinserting_a_key_does_not_double_count_memory() {
    let mut cache = TileCache::new(1000);
    cache.insert(key(0), tile(100));
    cache.insert(key(0), tile(200));
    assert_eq!(cache.used_bytes(), 200);
    assert_eq!(cache.len(), 1);
}

#[test]
fn oversized_tile_is_rejected_without_flushing_the_cache() {
    let mut cache = TileCache::new(500);
    cache.insert(key(0), tile(100));
    assert!(!cache.insert(key(1), tile(5000)));
    assert!(cache.get(&key(0)).is_some(), "existing tiles must survive");
}

#[test]
fn clear_resets_accounting() {
    let mut cache = TileCache::new(1000);
    cache.insert(key(0), tile(400));
    cache.clear();
    assert_eq!(cache.used_bytes(), 0);
    assert!(cache.is_empty());
}

#[test]
fn an_inserted_tile_is_found_again() {
    let mut cache = TileCache::new(1000);
    let wanted = Tile { width: 2, height: 1, pixels: vec![1, 2, 3, 4, 5, 6, 7, 8] };
    assert!(cache.insert(key(4), wanted.clone()));
    assert_eq!(cache.get(&key(4)), Some(&wanted));
}

#[test]
fn a_tile_exactly_the_budget_replaces_everything() {
    let mut cache = TileCache::new(300);
    cache.insert(key(0), tile(100));
    cache.insert(key(1), tile(100));
    assert!(cache.insert(key(2), tile(300)));
    assert_eq!(cache.len(), 1);
    assert_eq!(cache.used_bytes(), 300);
    assert!(cache.get(&key(0)).is_none());
    assert!(cache.get(&key(2)).is_some());
}

#[test]
fn eviction_stops_as_soon_as_the_tile_fits() {
    let mut cache = TileCache::new(400);
    cache.insert(key(0), tile(100));
    cache.insert(key(1), tile(100));
    cache.insert(key(2), tile(100));
    cache.insert(key(3), tile(100));
    assert!(cache.insert(key(4), tile(150)));
    assert!(cache.get(&key(0)).is_none());
    assert!(cache.get(&key(1)).is_none());
    assert!(cache.get(&key(2)).is_some());
    assert!(cache.get(&key(3)).is_some());
    assert_eq!(cache.used_bytes(), 350);
}

#[test]
fn keys_differ_by_zoom_and_rotation() {
    let mut cache = TileCache::new(1000);
    let base = key(0);
    let zoomed = TileKey { zoom: ZoomBucket::from_steps(16), ..base };
    let turned = TileKey { rotation: 90, ..base };
    cache.insert(base, tile(1));
    cache.insert(zoomed, tile(2));
    cache.insert(turned, tile(3));
    assert_eq!(cache.len(), 3);
    assert_eq!(cache.get(&zoomed).map(|t| t.pixels.len()), Some(2));
    assert_eq!(ZoomBucket::from_steps(0), ZoomBucket::from_steps(1));
    assert_eq!(ZoomBucket::from_steps(0).steps(), 1);
    assert_eq!(ZoomBucket::from_steps(20).steps(), 20);
}

#[test]
fn a_zero_budget_cache_still_holds_empty_tiles() {
    let mut cache = TileCache::new(0);
    assert!(!cache.insert(key(0), tile(1)));
    assert!(cache.insert(key(1), tile(0)));
    assert_eq!(cache.len(), 1);
    assert_eq!(tile(7).size_bytes(), 7);
}

#[test]
fn a_rendered_page_is_converted_cached_and_served_again_without_the_worker() {
    let mut cache = TileCache::new(1000);
    assert!(cached_page(&mut cache, key(0)).is_none());
    let reply = Response::PageRendered { width: 1, height: 2, pixels: vec![1, 2, 3, 4, 5, 6, 7, 8] };
    let tile = finish_render(&mut cache, key(0), reply).unwrap();
    assert_eq!((tile.width, tile.height), (1, 2));
    assert_eq!(tile.pixels, vec![3, 2, 1, 4, 7, 6, 5, 8]);
    assert_eq!(cache.used_bytes(), 8);
    let again = cached_page(&mut cache, key(0)).unwrap();
    assert_eq!(again, tile);
}

#[test]
fn failed_and_unexpected_replies_leave_the_cache_alone() {
    let mut cache = TileCache::new(1000);
    cache.insert(key(1), tile(10));
    assert_eq!(
        finish_render(&mut cache, key(0), Response::Failed(WorkerError::WorkerDied)),
        Err("worker process terminated unexpectedly".to_owned())
    );
    assert_eq!(
        finish_render(&mut cache, key(0), Response::Done),
        Err("unexpected response: Done".to_owned())
    );
    assert_eq!(cache.len(), 1);
    let big = Response::PageRendered { width: 100, height: 100, pixels: vec![0; 40_000] };
    assert_eq!(finish_render(&mut cache, key(0), big).unwrap().pixels.len(), 40_000);
    assert_eq!(cache.len(), 1, "a page larger than the budget is returned but not cached");
}

#[test]
fn an_opened_document_clears_the_cache() {
    let mut cache = TileCache::new(1000);
    cache.insert(key(0), tile(10));
    assert_eq!(
        opened(Response::Failed(WorkerError::BadPassword), &mut cache),
        Err("incorrect or missing password".to_owned())
    );
    assert_eq!(
        opened(Response::TextExtracted { text: String::new() }, &mut cache),
        Err("unexpected response: TextExtracted".to_owned())
    );
    assert_eq!(cache.len(), 1);
    let reply = Response::DocumentOpened { page_count: 7, encrypted: true, signed: false };
    assert_eq!(opened(reply, &mut cache), Ok((7, true)));
    assert!(cache.is_empty());
}
