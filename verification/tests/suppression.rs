use opensync::clipboard::{clipboard_event_for_text, remote_text_received, WatchBackoff};
use opensync::state::CacheState;
use opensync::suppression::{hash, SuppresionCache};

#[test]
fn hash_is_blake3_lowercase_hex() {
    let h = hash("hello");
    assert_eq!(h, blake3::hash(b"hello").to_string());
    assert_eq!(h.len(), 64);
    assert!(h.chars().all(|c| c.is_ascii_digit() || ('a'..='f').contains(&c)));
    assert_ne!(h, "hello");
}

#[test]
fn hash_of_empty_text() {
    assert_eq!(
        hash(""),
        "af1349b9f5f9a1a6a0404dea36dcc9499bcb25c9adc112b7cc9a93cae41f3262"
    );
}

#[test]
fn new_cache_contains_nothing() {
    let cache = SuppresionCache::new();
    assert!(!cache.contains("anything"));
    assert!(!cache.contains(""));
    let cache = SuppresionCache::default();
    assert!(!cache.contains("anything"));
}

#[test]
fn insert_returns_hash_and_contains() {
    let mut cache = SuppresionCache::new();
    let h = cache.insert("copied text".to_string());
    assert_eq!(h, hash("copied text"));
    assert!(cache.contains("copied text"));
    assert!(cache.contains_hash(&h));
    assert!(!cache.contains("other text"));
}

#[test]
fn remove_forgets_only_that_hash() {
    let mut cache = SuppresionCache::new();
    let a = cache.insert("a".to_string());
    let _b = cache.insert("b".to_string());
    cache.remove(&a);
    assert!(!cache.contains("a"));
    assert!(cache.contains("b"));
    cache.remove("not a hash");
    assert!(cache.contains("b"));
}

#[test]
fn insert_twice_then_remove_once() {
    let mut cache = SuppresionCache::new();
    let h1 = cache.insert("same".to_string());
    let h2 = cache.insert("same".to_string());
    assert_eq!(h1, h2);
    cache.remove(&h1);
    assert!(!cache.contains("same"));
}

#[test]
fn remote_text_is_not_echoed_back() {
    let mut state = CacheState::new();
    let h = remote_text_received(state.cache_mut(), "from phone".to_string());
    assert_eq!(h, Some(hash("from phone")));
    assert!(clipboard_event_for_text(state.cache(), "from phone", "dev-1").is_none());
    let event = clipboard_event_for_text(state.cache(), "typed here", "dev-1").unwrap();
    assert_eq!(event.content, "typed here");
    assert_eq!(event.device_id, "dev-1");
    assert_eq!(event.hash, hash("typed here"));
}

#[test]
fn remote_text_twice_is_handled_once() {
    let mut cache = SuppresionCache::new();
    assert!(remote_text_received(&mut cache, "x".to_string()).is_some());
    assert!(remote_text_received(&mut cache, "x".to_string()).is_none());
}

#[test]
fn suppression_ends_after_removal() {
    let mut cache = SuppresionCache::new();
    let h = remote_text_received(&mut cache, "note".to_string()).unwrap();
    cache.remove(&h);
    assert!(clipboard_event_for_text(&cache, "note", "d").is_some());
}

#[test]
fn backoff_doubles_up_to_five_seconds_and_resets() {
    let mut b = WatchBackoff::new();
    assert_eq!(b.delay_ms(), 200);
    let waits: Vec<u64> = (0..7).map(|_| b.listener_failed()).collect();
    assert_eq!(waits, vec![200, 400, 800, 1600, 3200, 5000, 5000]);
    b.listener_started();
    assert_eq!(b.delay_ms(), 200);
}
