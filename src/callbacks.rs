use vstd::prelude::*;

use crate::error::{AudioError, BadArgument};

verus! {

/// The two process-wide callback slots: one for sample buffers, one for
/// error text. They are set and cleared together, never one alone.
pub struct CallbackSlots<D, E> {
    data: Option<D>,
    error: Option<E>,
}

impl<D, E> CallbackSlots<D, E> {
    /// The callback that receives sample buffers, if one is installed.
    pub closed spec fn data_slot(&self) -> Option<D> {
        self.data
    }

    /// The callback that receives error text, if one is installed.
    pub closed spec fn error_slot(&self) -> Option<E> {
        self.error
    }

    /// Both slots are set, or both are unset.
    pub open spec fn wf(&self) -> bool {
        self.data_slot().is_some() == self.error_slot().is_some()
    }

    /// What `install` does: on success both slots hold the new callbacks,
    /// on failure nothing changes.
    pub open spec fn install_post(
        pre: Self,
        data: Option<D>,
        error: Option<E>,
        post: Self,
        r: Result<(), AudioError>,
    ) -> bool {
        match (data, error) {
            (None, _) => r == Err::<(), AudioError>(AudioError::InvalidArgument(BadArgument::DataCallback))
                && post == pre,
            (Some(_), None) => r == Err::<(), AudioError>(AudioError::InvalidArgument(BadArgument::ErrorCallback))
                && post == pre,
            (Some(_), Some(_)) => r is Ok && post.data_slot() == data && post.error_slot() == error,
        }
    }

    /// Two empty slots.
    pub fn new() -> (r: Self)
        ensures
            r.data_slot() is None,
            r.error_slot() is None,
            r.wf(),
    {
        CallbackSlots { data: None, error: None }
    }

    /// Installs both callbacks at once, replacing any installed before.
    /// A missing callback is rejected and leaves both slots as they were.
    pub fn install(&mut self, data: Option<D>, error: Option<E>) -> (r: Result<(), AudioError>)
        requires
            old(self).wf(),
        ensures
            Self::install_post(*old(self), data, error, *final(self), r),
            final(self).wf(),
    {
        match (data, error) {
            (None, _) => Err(AudioError::InvalidArgument(BadArgument::DataCallback)),
            (Some(_), None) => Err(AudioError::InvalidArgument(BadArgument::ErrorCallback)),
            (Some(d), Some(e)) => {
                self.data = Some(d);
                self.error = Some(e);
                Ok(())
            },
        }
    }

    /// Unsets both slots.
    pub fn clear(&mut self)
        ensures
            final(self).data_slot() is None,
            final(self).error_slot() is None,
            final(self).wf(),
    {
        self.data = None;
        self.error = None;
    }

    pub fn has_data_callback(&self) -> (r: bool)
        ensures
            r == self.data_slot().is_some(),
    {
        self.data.is_some()
    }

    pub fn has_error_callback(&self) -> (r: bool)
        ensures
            r == self.error_slot().is_some(),
    {
        self.error.is_some()
    }

    /// The installed data callback; `None` means a delivered buffer is dropped.
    pub fn data_callback(&self) -> (r: Option<&D>)
        ensures
            match r {
                Some(d) => self.data_slot() == Some(*d),
                None => self.data_slot() is None,
            },
    {
        match &self.data {
            Some(d) => Some(d),
            None => None,
        }
    }

    /// The installed error callback; `None` means a reported error is dropped.
    pub fn error_callback(&self) -> (r: Option<&E>)
        ensures
            match r {
                Some(e) => self.error_slot() == Some(*e),
                None => self.error_slot() is None,
            },
    {
        match &self.error {
            Some(e) => Some(e),
            None => None,
        }
    }
}

} // verus!
