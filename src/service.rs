use vstd::prelude::*;

use crate::callbacks::CallbackSlots;
use crate::registry::{StreamEntry, StreamRegistry};

verus! {

/// A snapshot of the process state: how many streams are live and which
/// callbacks are installed.
#[derive(Clone, Copy, Debug, PartialEq, Eq, Structural)]
pub struct Status {
    pub streams_count: u64,
    pub has_audio_callback: bool,
    pub has_error_callback: bool,
}

/// The status that `status` reports for these slots and this registry.
pub open spec fn status_of<D, E, S>(callbacks: CallbackSlots<D, E>, streams: StreamRegistry<S>) -> Status {
    Status {
        streams_count: streams.entries().len() as u64,
        has_audio_callback: callbacks.data_slot() is Some,
        has_error_callback: callbacks.error_slot() is Some,
    }
}

/// Reports the number of live streams and which callbacks are installed.
pub fn status<D, E, S>(callbacks: &CallbackSlots<D, E>, streams: &StreamRegistry<S>) -> (r: Status)
    ensures
        r == status_of(*callbacks, *streams),
{
    let streams_count = streams.count();
    Status {
        streams_count,
        has_audio_callback: callbacks.has_data_callback(),
        has_error_callback: callbacks.has_error_callback(),
    }
}

/// Tears the process state down: the callbacks are cleared first, so that
/// no buffer is delivered to a stream being dropped, then every stream is
/// dropped. The handle counter is kept, so no handle is issued again.
pub fn deinit<D, E, S>(callbacks: &mut CallbackSlots<D, E>, streams: &mut StreamRegistry<S>)
    requires
        old(streams).wf(),
    ensures
        final(callbacks).data_slot() is None,
        final(callbacks).error_slot() is None,
        final(callbacks).wf(),
        final(streams).entries() == Map::<u64, StreamEntry<S>>::empty(),
        final(streams).next() == old(streams).next(),
        final(streams).wf(),
        StreamRegistry::step(*old(streams), *final(streams), None),
{
    callbacks.clear();
    streams.clear();
}

} // verus!
