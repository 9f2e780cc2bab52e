//! The decoded-sample cache: one entry per cue id, explicit invalidation.

use cueball::cache::AudioData;
use cueball::cache::DecodeCache;

fn data(rate: u32, samples: Vec<i16>, duration_ms: Option<u64>) -> AudioData {
    AudioData { samples, rate, duration_ms }
}

#[test]
fn empty_cache_has_nothing() {
    let c = DecodeCache::new();
    assert_eq!(c.len(), 0);
    assert!(c.get("1".to_string()).is_none());
}

#[test]
fn cached_decode_comes_back() {
    let mut c = DecodeCache::new();
    c.insert("7".to_string(), data(44_100, vec![1, -1, 2, -2], Some(1_000)));
    assert_eq!(c.len(), 1);
    let d = c.get("7".to_string()).expect("cached");
    assert_eq!(d.rate, 44_100);
    assert_eq!(d.samples, vec![1, -1, 2, -2]);
    assert_eq!(d.duration_ms, Some(1_000));
    assert!(c.get("8".to_string()).is_none());
}

#[test]
fn reinserting_replaces_not_duplicates() {
    let mut c = DecodeCache::new();
    c.insert("7".to_string(), data(44_100, vec![1], None));
    c.insert("9".to_string(), data(48_000, vec![2], None));
    c.insert("7".to_string(), data(22_050, vec![3, 4], Some(50)));
    assert_eq!(c.len(), 2);
    let d = c.get("7".to_string()).expect("cached");
    assert_eq!(d.rate, 22_050);
    assert_eq!(d.samples, vec![3, 4]);
    assert_eq!(c.get("9".to_string()).expect("cached").rate, 48_000);
}

#[test]
fn invalidation_drops_only_the_stale_entry() {
    let mut c = DecodeCache::new();
    c.insert("1".to_string(), data(44_100, vec![1], None));
    c.insert("2".to_string(), data(44_100, vec![2], None));
    c.insert("3".to_string(), data(44_100, vec![3], None));
    c.invalidate("2".to_string());
    assert_eq!(c.len(), 2);
    assert!(c.get("2".to_string()).is_none());
    assert_eq!(c.get("1".to_string()).expect("kept").samples, vec![1]);
    assert_eq!(c.get("3".to_string()).expect("kept").samples, vec![3]);
    // invalidating an id that is not cached changes nothing
    c.invalidate("9".to_string());
    assert_eq!(c.len(), 2);
}
