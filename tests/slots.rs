use rust_audio::{deinit, status, AudioError, BadArgument, CallbackSlots, Status, StreamConfig, StreamEntry, StreamRegistry};

fn data_a(_: u64, _: &[f32]) {}
fn data_b(_: u64, _: &[f32]) {}
fn error_a(_: &str) {}
fn error_b(_: &str) {}

type Data = fn(u64, &[f32]);
type Failure = fn(&str);

#[test]
fn new_slots_are_empty() {
    let slots: CallbackSlots<Data, Failure> = CallbackSlots::new();
    assert!(!slots.has_data_callback());
    assert!(!slots.has_error_callback());
    assert!(slots.data_callback().is_none());
    assert!(slots.error_callback().is_none());
}

#[test]
fn install_rejects_missing_data_callback() {
    let mut slots: CallbackSlots<Data, Failure> = CallbackSlots::new();
    let r = slots.install(None, Some(error_a as Failure));
    assert_eq!(r, Err(AudioError::InvalidArgument(BadArgument::DataCallback)));
    assert!(!slots.has_data_callback());
    assert!(!slots.has_error_callback());
}

#[test]
fn install_rejects_missing_error_callback() {
    let mut slots: CallbackSlots<Data, Failure> = CallbackSlots::new();
    let r = slots.install(Some(data_a as Data), None);
    assert_eq!(r, Err(AudioError::InvalidArgument(BadArgument::ErrorCallback)));
    assert!(!slots.has_data_callback());
    assert!(!slots.has_error_callback());
}

#[test]
fn failed_install_keeps_previous_pair() {
    let mut slots: CallbackSlots<Data, Failure> = CallbackSlots::new();
    assert_eq!(slots.install(Some(data_a as Data), Some(error_a as Failure)), Ok(()));
    assert!(slots.install(None, Some(error_b as Failure)).is_err());
    assert!(*slots.data_callback().unwrap() == data_a as Data);
    assert!(*slots.error_callback().unwrap() == error_a as Failure);
}

#[test]
fn second_install_replaces_first() {
    let mut slots: CallbackSlots<Data, Failure> = CallbackSlots::new();
    let registry: StreamRegistry<u8> = StreamRegistry::new();
    assert_eq!(slots.install(Some(data_a as Data), Some(error_a as Failure)), Ok(()));
    assert_eq!(slots.install(Some(data_b as Data), Some(error_b as Failure)), Ok(()));
    assert!(*slots.data_callback().unwrap() == data_b as Data);
    assert!(*slots.error_callback().unwrap() == error_b as Failure);
    let s = status(&slots, &registry);
    assert_eq!(
        s,
        Status { streams_count: 0, has_audio_callback: true, has_error_callback: true }
    );
}

#[test]
fn clear_unsets_both_slots() {
    let mut slots: CallbackSlots<Data, Failure> = CallbackSlots::new();
    slots.install(Some(data_a as Data), Some(error_a as Failure)).unwrap();
    slots.clear();
    assert!(!slots.has_data_callback());
    assert!(!slots.has_error_callback());
    assert!(slots.data_callback().is_none());
}

#[test]
fn status_counts_streams() {
    let mut slots: CallbackSlots<Data, Failure> = CallbackSlots::new();
    let mut registry: StreamRegistry<u8> = StreamRegistry::new();
    let config = StreamConfig { channels: 2, sample_rate: 44100 };
    registry.insert(StreamEntry { stream: 1, config });
    registry.insert(StreamEntry { stream: 2, config });
    slots.install(Some(data_a as Data), Some(error_a as Failure)).unwrap();
    assert_eq!(
        status(&slots, &registry),
        Status { streams_count: 2, has_audio_callback: true, has_error_callback: true }
    );
}

#[test]
fn deinit_then_status_is_quiescent() {
    let mut slots: CallbackSlots<Data, Failure> = CallbackSlots::new();
    let mut registry: StreamRegistry<u8> = StreamRegistry::new();
    let config = StreamConfig { channels: 1, sample_rate: 48000 };
    slots.install(Some(data_a as Data), Some(error_a as Failure)).unwrap();
    registry.insert(StreamEntry { stream: 7, config });
    registry.insert(StreamEntry { stream: 8, config });
    deinit(&mut slots, &mut registry);
    assert_eq!(
        status(&slots, &registry),
        Status { streams_count: 0, has_audio_callback: false, has_error_callback: false }
    );
}

#[test]
fn handles_continue_after_deinit() {
    let mut slots: CallbackSlots<Data, Failure> = CallbackSlots::new();
    let mut registry: StreamRegistry<u8> = StreamRegistry::new();
    let config = StreamConfig { channels: 1, sample_rate: 48000 };
    assert_eq!(registry.insert(StreamEntry { stream: 1, config }), 1);
    deinit(&mut slots, &mut registry);
    assert_eq!(registry.next_handle(), Some(2));
    assert_eq!(registry.insert(StreamEntry { stream: 2, config }), 2);
}
