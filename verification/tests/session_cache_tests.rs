use sway_lsp_server::path::ProjectPath;
use sway_lsp_server::session_cache::LruSessionCache;

fn path(text: &str) -> ProjectPath {
    ProjectPath::parse(text)
}

fn cached(cache: &LruSessionCache) -> Vec<(String, u64)> {
    let mut entries: Vec<(String, u64)> = cache
        .iter()
        .into_iter()
        .map(|(path, session)| (path.components.join("|"), session))
        .collect();
    entries.sort();
    entries
}

#[test]
fn insertion_and_retrieval() {
    let mut cache = LruSessionCache::new(2);
    cache.insert(path("/path/1"), 10);
    assert_eq!(cache.get(&path("/path/1")), Some(10));
    assert_eq!(cache.get(&path("/path/2")), None);
}

#[test]
fn retrieval_goes_by_components() {
    let mut cache = LruSessionCache::new(2);
    cache.insert(path("/path/1"), 10);
    assert_eq!(cache.get(&path("/path//1/")), Some(10));
    assert_eq!(cache.get(&path("path/1")), None);
}

#[test]
fn capacity_evicts_the_oldest() {
    let mut cache = LruSessionCache::new(2);
    cache.insert(path("/path/1"), 1);
    cache.insert(path("/path/2"), 2);
    cache.insert(path("/path/3"), 3);
    assert_eq!(cache.get(&path("/path/1")), None);
    assert_eq!(cache.get(&path("/path/2")), Some(2));
    assert_eq!(cache.get(&path("/path/3")), Some(3));
}

#[test]
fn get_updates_the_order() {
    let mut cache = LruSessionCache::new(2);
    cache.insert(path("/path/1"), 1);
    cache.insert(path("/path/2"), 2);
    assert_eq!(cache.get(&path("/path/1")), Some(1));
    cache.insert(path("/path/3"), 3);
    assert_eq!(cache.get(&path("/path/1")), Some(1));
    assert_eq!(cache.get(&path("/path/2")), None);
    assert_eq!(cache.get(&path("/path/3")), Some(3));
}

#[test]
fn get_below_capacity_updates_the_order() {
    let mut cache = LruSessionCache::new(3);
    cache.insert(path("/path/1"), 1);
    cache.insert(path("/path/2"), 2);
    assert_eq!(cache.get(&path("/path/1")), Some(1));
    cache.insert(path("/path/3"), 3);
    cache.insert(path("/path/4"), 4);
    assert_eq!(cache.get(&path("/path/2")), None);
    assert_eq!(cache.get(&path("/path/1")), Some(1));
}

#[test]
fn get_of_a_missing_path_changes_nothing() {
    let mut cache = LruSessionCache::new(2);
    cache.insert(path("/path/1"), 1);
    cache.insert(path("/path/2"), 2);
    assert_eq!(cache.get(&path("/path/9")), None);
    assert_eq!(cached(&cache), vec![("/|path|1".to_string(), 1), ("/|path|2".to_string(), 2)]);
    cache.insert(path("/path/3"), 3);
    assert_eq!(cached(&cache), vec![("/|path|2".to_string(), 2), ("/|path|3".to_string(), 3)]);
}

#[test]
fn insert_keeps_a_cached_session() {
    let mut cache = LruSessionCache::new(2);
    cache.insert(path("/path/1"), 1);
    cache.insert(path("/path/1"), 9);
    assert_eq!(cache.get(&path("/path/1")), Some(1));
    assert_eq!(cached(&cache).len(), 1);
}

#[test]
fn insert_of_a_cached_path_at_capacity_updates_the_order() {
    let mut cache = LruSessionCache::new(2);
    cache.insert(path("/path/1"), 1);
    cache.insert(path("/path/2"), 2);
    cache.insert(path("/path/1"), 9);
    cache.insert(path("/path/3"), 3);
    assert_eq!(cache.get(&path("/path/1")), Some(1));
    assert_eq!(cache.get(&path("/path/2")), None);
}

#[test]
fn insert_of_a_cached_path_below_capacity_keeps_the_order() {
    let mut cache = LruSessionCache::new(3);
    cache.insert(path("/path/1"), 1);
    cache.insert(path("/path/2"), 2);
    cache.insert(path("/path/1"), 9);
    cache.insert(path("/path/3"), 3);
    cache.insert(path("/path/4"), 4);
    assert_eq!(cache.get(&path("/path/1")), None);
    assert_eq!(cache.get(&path("/path/2")), Some(2));
}

#[test]
fn without_capacity_no_session_is_held() {
    let mut cache = LruSessionCache::new(0);
    cache.insert(path("/path/1"), 1);
    assert_eq!(cache.iter().len(), 0);
    assert_eq!(cache.get(&path("/path/1")), None);
    cache.insert(path("/path/2"), 2);
    cache.insert(path("/path/2"), 3);
    assert_eq!(cache.get(&path("/path/2")), None);
    assert!(cached(&cache).is_empty());
}

#[test]
fn a_cache_of_one_holds_the_last_session() {
    let mut cache = LruSessionCache::new(1);
    cache.insert(path("/path/1"), 1);
    assert_eq!(cache.get(&path("/path/1")), Some(1));
    cache.insert(path("/path/2"), 2);
    assert_eq!(cache.get(&path("/path/1")), None);
    assert_eq!(cache.get(&path("/path/2")), Some(2));
    assert_eq!(cached(&cache).len(), 1);
}

#[test]
fn a_second_get_changes_nothing_more() {
    for times in 1..4 {
        let mut cache = LruSessionCache::new(3);
        cache.insert(path("/path/1"), 1);
        cache.insert(path("/path/2"), 2);
        cache.insert(path("/path/3"), 3);
        for _ in 0..times {
            assert_eq!(cache.get(&path("/path/1")), Some(1));
        }
        cache.insert(path("/path/4"), 4);
        assert_eq!(cache.get(&path("/path/2")), None);
        cache.insert(path("/path/5"), 5);
        assert_eq!(cache.get(&path("/path/3")), None);
        cache.insert(path("/path/6"), 6);
        assert_eq!(cache.get(&path("/path/1")), None);
        assert_eq!(cached(&cache).len(), 3);
    }
}

#[test]
fn the_number_of_sessions_stays_within_capacity() {
    let mut cache = LruSessionCache::new(4);
    for number in 0..20u64 {
        cache.insert(path(&format!("/path/{}", number % 7)), number);
        cache.get(&path(&format!("/path/{}", number % 3)));
        assert!(cached(&cache).len() <= 4);
    }
    assert_eq!(cached(&cache).len(), 4);
}

#[test]
fn a_recently_used_session_survives() {
    let mut cache = LruSessionCache::new(3);
    cache.insert(path("/path/1"), 1);
    cache.insert(path("/path/2"), 2);
    cache.insert(path("/path/3"), 3);
    assert_eq!(cache.get(&path("/path/1")), Some(1));
    cache.insert(path("/path/4"), 4);
    cache.insert(path("/path/5"), 5);
    assert_eq!(cached(&cache).len(), 3);
    assert_eq!(cache.get(&path("/path/1")), Some(1));
    assert_eq!(cache.get(&path("/path/3")), None);
}

#[test]
fn an_empty_cache_holds_nothing() {
    let mut cache = LruSessionCache::new(4);
    assert!(cache.iter().is_empty());
    assert_eq!(cache.get(&path("")), None);
}
