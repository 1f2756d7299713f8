//! Owned wrapper of the device for the blocking API.

use vstd::prelude::*;

use crate::context::AsyncFtdiDevice;

verus! {

/// A blocking FTDI device handle for native applications.
///
/// It holds the asynchronous device; `into_async`, `as_async` and
/// `as_async_mut` reach it, `AsyncFtdiDevice::into_blocking` wraps it.
#[derive(Debug)]
pub struct FtdiDevice(AsyncFtdiDevice);

impl FtdiDevice {
    pub closed spec fn spec_inner(&self) -> AsyncFtdiDevice {
        self.0
    }

    /// The wrapped asynchronous device.
    pub fn into_async(self) -> (d: AsyncFtdiDevice)
        ensures
            d == self.spec_inner(),
    {
        self.0
    }

    /// Borrow the wrapped asynchronous device.
    pub fn as_async(&self) -> (d: &AsyncFtdiDevice)
        ensures
            *d == self.spec_inner(),
    {
        &self.0
    }

    /// Mutably borrow the wrapped asynchronous device.
    pub fn as_async_mut(&mut self) -> (d: &mut AsyncFtdiDevice)
        ensures
            *d == old(self).spec_inner(),
            final(self).spec_inner() == *final(d),
    {
        &mut self.0
    }
}

impl AsyncFtdiDevice {
    /// Wrap this asynchronous device in the blocking API.
    pub fn into_blocking(self) -> (d: FtdiDevice)
        ensures
            d.spec_inner() == self,
    {
        FtdiDevice(self)
    }
}

} // verus!
