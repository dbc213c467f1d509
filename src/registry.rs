use vstd::prelude::*;

use std::collections::HashMap;

use crate::error::AudioError;

verus! {

broadcast use vstd::std_specs::hash::group_hash_axioms;

/// The configuration a capture stream was opened with; samples are
/// always 32-bit floats.
#[derive(Clone, Copy, Debug, PartialEq, Eq, Structural)]
pub struct StreamConfig {
    pub channels: u16,
    pub sample_rate: u32,
}

/// One live capture stream with the configuration it runs at.
pub struct StreamEntry<S> {
    pub stream: S,
    pub config: StreamConfig,
}

/// Live streams under their handles. Handles come from a counter that
/// starts at 1 and only grows, so a handle is never issued twice.
pub struct StreamRegistry<S> {
    streams: HashMap<u64, StreamEntry<S>>,
    next_id: u64,
}

impl<S> StreamRegistry<S> {
    /// The live streams by handle.
    pub closed spec fn entries(&self) -> Map<u64, StreamEntry<S>> {
        self.streams@
    }

    /// The handle the next insertion will receive.
    pub closed spec fn next(&self) -> u64 {
        self.next_id
    }

    /// Finitely many streams are live, and every live handle was issued
    /// before the counter's current value.
    pub open spec fn wf(&self) -> bool {
        &&& self.entries().dom().finite()
        &&& 1 <= self.next()
        &&& forall|h: u64| #[trigger] self.entries().contains_key(h) ==> 1 <= h < self.next()
    }

    /// One operation from `pre` to `post`: the counter never goes down, and
    /// where the operation issued a handle, it issued the counter's value
    /// and moved the counter on by one. Every operation that changes a
    /// registry ensures this, with `Some` of the handle where it issued one.
    pub open spec fn step(pre: Self, post: Self, issued: Option<u64>) -> bool {
        &&& pre.next() <= post.next()
        &&& match issued {
            Some(h) => h == pre.next() && post.next() == pre.next() + 1,
            None => true,
        }
    }

    /// What a lookup of `h` yields: the stream under it, or `NotFound`.
    pub open spec fn lookup(&self, h: u64) -> Result<StreamEntry<S>, AudioError> {
        if self.entries().contains_key(h) {
            Ok(self.entries()[h])
        } else {
            Err(AudioError::NotFound)
        }
    }

    /// An empty registry whose first handle is 1.
    pub fn new() -> (r: Self)
        ensures
            r.wf(),
            r.entries() == Map::<u64, StreamEntry<S>>::empty(),
            r.next() == 1,
    {
        StreamRegistry { streams: HashMap::new(), next_id: 1 }
    }

    /// The handle that `insert` would issue now, or `None` once the
    /// counter is spent.
    pub fn next_handle(&self) -> (r: Option<u64>)
        ensures
            r == (if self.next() < u64::MAX { Some(self.next()) } else { None::<u64> }),
    {
        if self.next_id < u64::MAX {
            Some(self.next_id)
        } else {
            None
        }
    }

    /// Stores a stream under a fresh handle and returns that handle.
    pub fn insert(&mut self, entry: StreamEntry<S>) -> (r: u64)
        requires
            old(self).wf(),
            old(self).next() < u64::MAX,
        ensures
            r == old(self).next(),
            final(self).next() == old(self).next() + 1,
            !old(self).entries().contains_key(r),
            final(self).entries() == old(self).entries().insert(r, entry),
            final(self).wf(),
            Self::step(*old(self), *final(self), Some(r)),
    {
        let id = self.next_id;
        self.streams.insert(id, entry);
        self.next_id = id + 1;
        id
    }

    /// The stream under `h`, or `NotFound`.
    pub fn get(&self, h: u64) -> (r: Result<&StreamEntry<S>, AudioError>)
        ensures
            match r {
                Ok(e) => self.lookup(h) == Ok::<StreamEntry<S>, AudioError>(*e),
                Err(err) => self.lookup(h) == Err::<StreamEntry<S>, AudioError>(err),
            },
    {
        match self.streams.get(&h) {
            Some(e) => Ok(e),
            None => Err(AudioError::NotFound),
        }
    }

    /// Drops the stream under `h`, which stops its capture; an absent handle
    /// is no error. Returns whether a stream was there.
    pub fn remove(&mut self, h: u64) -> (r: bool)
        requires
            old(self).wf(),
        ensures
            r == old(self).entries().contains_key(h),
            final(self).entries() == old(self).entries().remove(h),
            final(self).next() == old(self).next(),
            final(self).wf(),
            Self::step(*old(self), *final(self), None),
    {
        let found = self.streams.remove(&h).is_some();
        assert forall|k: u64| #[trigger] self.entries().contains_key(k) implies 1 <= k < self.next() by {
            assert(old(self).entries().contains_key(k));
        }
        found
    }

    /// Drops every stream. The counter keeps its value.
    pub fn clear(&mut self)
        requires
            old(self).wf(),
        ensures
            final(self).entries() == Map::<u64, StreamEntry<S>>::empty(),
            final(self).next() == old(self).next(),
            final(self).wf(),
            Self::step(*old(self), *final(self), None),
    {
        self.streams.clear();
    }

    /// How many streams are live.
    pub fn count(&self) -> (r: u64)
        ensures
            r as int == self.entries().len(),
    {
        self.streams.len() as u64
    }
}

} // verus!
