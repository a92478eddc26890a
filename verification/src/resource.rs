use crate::error::DriverError;
use vstd::prelude::*;

verus! {

/// The sole owner of one native handle. The wrapper holds the handle from a successful
/// initialization until it is released, and is empty from then on.
pub struct ManagedCResource<T> {
    resource: Option<T>,
}

impl<T> View for ManagedCResource<T> {
    type V = Option<T>;

    /// The handle that the wrapper owns; `None` once it has been released.
    closed spec fn view(&self) -> Option<T> {
        self.resource
    }
}

impl<T: Copy> ManagedCResource<T> {
    /// Takes ownership of what an initializer produced. `status` is the status that the
    /// initializer reported and `resource` the handle that it left in its output slot. A
    /// negative status is a failure: no wrapper is made, so nothing can ever be finalized
    /// for it, and the status comes back as the error.
    pub fn new(status: i32, resource: T) -> (made: Result<Self, i32>)
        ensures
            status < 0 ==> made == Err::<Self, i32>(status),
            status >= 0 ==> made is Ok && made->Ok_0@ == Some(resource),
    {
        if status < 0 {
            return Err(status);
        }
        Ok(ManagedCResource { resource: Some(resource) })
    }

    /// The handle, for the native calls that read or drive the resource. An empty wrapper
    /// has none to give.
    pub fn get(&self) -> (handle: Result<T, DriverError>)
        ensures
            handle == match self@ {
                Some(resource) => Ok::<T, DriverError>(resource),
                None => Err::<T, DriverError>(DriverError::AccessError),
            },
    {
        match self.resource {
            Some(resource) => Ok(resource),
            None => Err(DriverError::AccessError),
        }
    }

    /// Whether the wrapper still owns its handle.
    pub fn is_live(&self) -> (live: bool)
        ensures
            live == self@.is_some(),
    {
        self.resource.is_some()
    }

    /// Gives the handle up for finalization. The first call on a live wrapper hands the
    /// handle out and empties the wrapper; every later call hands out nothing, so no
    /// handle can reach its finalizer twice.
    pub fn release(&mut self) -> (handle: Option<T>)
        ensures
            handle == old(self)@,
            final(self)@ == None::<T>,
    {
        self.resource.take()
    }
}

} // verus!
