//! Properties that relate several operations of the library.
use vstd::prelude::*;

use crate::callbacks::CallbackSlots;
use crate::devices::{has_device, is_named};
use crate::error::AudioError;
use crate::registry::{StreamConfig, StreamEntry, StreamRegistry};
use crate::service::{status_of, Status};

verus! {

proof fn lemma_counter_grows<S>(states: Seq<StreamRegistry<S>>, issued: Seq<Option<u64>>, i: int, j: int)
    requires
        states.len() == issued.len() + 1,
        forall|k: int| 0 <= k < issued.len() ==> StreamRegistry::step(#[trigger] states[k], states[k + 1], issued[k]),
        0 <= i <= j < states.len(),
    ensures
        states[i].next() <= states[j].next(),
    decreases j - i,
{
    if i < j {
        lemma_counter_grows(states, issued, i, j - 1);
        assert(StreamRegistry::step(states[j - 1], states[j], issued[j - 1]));
    }
}

/// Over any run of registry operations (openings, frees, clears, deinits,
/// in any order), the handles issued are pairwise distinct and strictly
/// increasing in the order they were issued; a freed or cleared handle is
/// never issued again.
pub proof fn lemma_issued_handles_increase<S>(states: Seq<StreamRegistry<S>>, issued: Seq<Option<u64>>)
    requires
        states.len() == issued.len() + 1,
        forall|k: int| 0 <= k < issued.len() ==> StreamRegistry::step(#[trigger] states[k], states[k + 1], issued[k]),
    ensures
        forall|i: int, j: int|
            0 <= i < j < issued.len() && #[trigger] issued[i] is Some && #[trigger] issued[j] is Some
                ==> issued[i]->0 < issued[j]->0,
{
    assert forall|i: int, j: int|
        0 <= i < j < issued.len() && #[trigger] issued[i] is Some && #[trigger] issued[j] is Some
            implies issued[i]->0 < issued[j]->0 by {
        assert(StreamRegistry::step(states[i], states[i + 1], issued[i]));
        assert(StreamRegistry::step(states[j], states[j + 1], issued[j]));
        lemma_counter_grows(states, issued, i + 1, j);
    }
}

/// Freeing a handle twice: the second free finds no stream and changes
/// nothing, and after the first free the handle is absent, so looking it
/// up to start or pause it fails with `NotFound`.
pub proof fn lemma_free_twice<S>(
    r0: StreamRegistry<S>,
    r1: StreamRegistry<S>,
    r2: StreamRegistry<S>,
    h: u64,
    second: bool,
)
    requires
        r1.entries() == r0.entries().remove(h),
        r1.next() == r0.next(),
        second == r1.entries().contains_key(h),
        r2.entries() == r1.entries().remove(h),
        r2.next() == r1.next(),
    ensures
        !second,
        !r1.entries().contains_key(h),
        r1.lookup(h) == Err::<StreamEntry<S>, AudioError>(AudioError::NotFound),
        r2.entries() == r1.entries(),
        r2.next() == r1.next(),
{
    assert(r1.entries().remove(h) =~= r1.entries());
}

/// Installing callbacks twice: both installs succeed, the second pair
/// replaces the first, and each slot holds exactly one callback.
pub proof fn lemma_install_twice<D, E, S>(
    s0: CallbackSlots<D, E>,
    s1: CallbackSlots<D, E>,
    s2: CallbackSlots<D, E>,
    data_a: D,
    error_a: E,
    data_b: D,
    error_b: E,
    r1: Result<(), AudioError>,
    r2: Result<(), AudioError>,
    streams: StreamRegistry<S>,
)
    requires
        CallbackSlots::install_post(s0, Some(data_a), Some(error_a), s1, r1),
        CallbackSlots::install_post(s1, Some(data_b), Some(error_b), s2, r2),
    ensures
        r1 is Ok,
        r2 is Ok,
        s2.data_slot() == Some(data_b),
        s2.error_slot() == Some(error_b),
        status_of(s2, streams).has_audio_callback,
        status_of(s2, streams).has_error_callback,
{
}

/// Right after `deinit`, the status reports no streams and no callbacks.
pub proof fn lemma_status_after_deinit<D, E, S>(callbacks: CallbackSlots<D, E>, streams: StreamRegistry<S>)
    requires
        callbacks.data_slot() is None,
        callbacks.error_slot() is None,
        streams.entries() == Map::<u64, StreamEntry<S>>::empty(),
    ensures
        status_of(callbacks, streams) == (Status {
            streams_count: 0,
            has_audio_callback: false,
            has_error_callback: false,
        }),
{
    assert(streams.entries().dom() =~= Set::<u64>::empty());
}

/// A name taken from the device list is found when the same list is
/// searched for it, so opening it never fails with `DeviceNotFound`: it
/// succeeds or fails at a later step.
pub proof fn lemma_listed_name_is_found(
    devices: Seq<Option<String>>,
    names: Seq<String>,
    i: int,
    opened: Result<(u64, StreamConfig), AudioError>,
)
    requires
        names.len() == devices.len(),
        forall|k: int| 0 <= k < devices.len() ==> #[trigger] devices[k] == Some(names[k]),
        0 <= i < names.len(),
        opened == Err::<(u64, StreamConfig), AudioError>(AudioError::DeviceNotFound) <==> !has_device(
            devices,
            names[i]@,
        ),
    ensures
        has_device(devices, names[i]@),
        opened != Err::<(u64, StreamConfig), AudioError>(AudioError::DeviceNotFound),
{
    assert(is_named(devices[i], names[i]@));
}

} // verus!
