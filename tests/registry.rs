use rust_audio::{AudioError, StreamConfig, StreamEntry, StreamRegistry};

const MONO: StreamConfig = StreamConfig { channels: 1, sample_rate: 48000 };

#[test]
fn first_handle_is_one() {
    let mut registry: StreamRegistry<&str> = StreamRegistry::new();
    assert_eq!(registry.next_handle(), Some(1));
    assert_eq!(registry.insert(StreamEntry { stream: "a", config: MONO }), 1);
    assert_eq!(registry.count(), 1);
}

#[test]
fn handles_strictly_increase() {
    let mut registry: StreamRegistry<u32> = StreamRegistry::new();
    let mut last: u64 = 0;
    for i in 0..20u32 {
        let h = registry.insert(StreamEntry { stream: i, config: MONO });
        assert!(h > last);
        last = h;
        if i % 3 == 0 {
            assert!(registry.remove(h));
        }
    }
    assert_eq!(last, 20);
}

#[test]
fn removed_handle_is_not_reused() {
    let mut registry: StreamRegistry<u32> = StreamRegistry::new();
    let a = registry.insert(StreamEntry { stream: 1, config: MONO });
    assert!(registry.remove(a));
    let b = registry.insert(StreamEntry { stream: 2, config: MONO });
    assert_ne!(a, b);
    assert_eq!(b, 2);
}

#[test]
fn get_returns_entry() {
    let mut registry: StreamRegistry<u32> = StreamRegistry::new();
    let config = StreamConfig { channels: 2, sample_rate: 96000 };
    let h = registry.insert(StreamEntry { stream: 42, config });
    let e = registry.get(h).unwrap();
    assert_eq!(e.stream, 42);
    assert_eq!(e.config, config);
}

#[test]
fn get_unknown_handle_is_not_found() {
    let registry: StreamRegistry<u32> = StreamRegistry::new();
    assert!(matches!(registry.get(1), Err(AudioError::NotFound)));
    assert!(matches!(registry.get(0), Err(AudioError::NotFound)));
}

#[test]
fn free_twice_is_a_no_op() {
    let mut registry: StreamRegistry<u32> = StreamRegistry::new();
    let h = registry.insert(StreamEntry { stream: 5, config: MONO });
    let other = registry.insert(StreamEntry { stream: 6, config: MONO });
    assert!(registry.remove(h));
    assert_eq!(registry.count(), 1);
    assert!(!registry.remove(h));
    assert_eq!(registry.count(), 1);
    assert!(matches!(registry.get(h), Err(AudioError::NotFound)));
    assert_eq!(registry.get(other).unwrap().stream, 6);
}

#[test]
fn free_unknown_handle_is_a_no_op() {
    let mut registry: StreamRegistry<u32> = StreamRegistry::new();
    assert!(!registry.remove(99));
    assert_eq!(registry.count(), 0);
}

#[test]
fn clear_drops_everything() {
    let mut registry: StreamRegistry<u32> = StreamRegistry::new();
    let a = registry.insert(StreamEntry { stream: 1, config: MONO });
    let b = registry.insert(StreamEntry { stream: 2, config: MONO });
    registry.clear();
    assert_eq!(registry.count(), 0);
    assert!(registry.get(a).is_err());
    assert!(registry.get(b).is_err());
    assert_eq!(registry.next_handle(), Some(3));
}
