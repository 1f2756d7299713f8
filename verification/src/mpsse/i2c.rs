//! I2C bus binding.
//!
//! An [`I2cBus`] remembers the device, recovery epoch and protocol epoch it
//! was configured for; recovering the device or reconfiguring the MPSSE for
//! another protocol invalidates it.

use vstd::prelude::*;

use crate::error::{Error, Result};

use super::MpsseSession;

verus! {

/// An I2C master configured on an MPSSE session.
#[derive(Debug, Clone, Copy)]
pub struct I2cBus {
    device_id: u64,
    recovery_epoch: u64,
    protocol_epoch: u64,
}

/// The bus type used by the asynchronous API.
pub type AsyncI2cBus = I2cBus;

impl I2cBus {
    pub closed spec fn spec_binding(&self) -> (u64, u64, u64) {
        (self.device_id, self.recovery_epoch, self.protocol_epoch)
    }

    /// A bus bound to the session's device, its recovery epoch and the
    /// session's protocol epoch.
    pub fn bound_to(s: &MpsseSession) -> (b: Self)
        ensures
            b.spec_binding() == (
                s.spec_dev().spec_device_id(),
                s.spec_dev().spec_recovery_epoch(),
                s.spec_ctx()@.protocol_epoch,
            ),
    {
        let dev = s.device();
        I2cBus {
            device_id: dev.device_id(),
            recovery_epoch: dev.recovery_epoch(),
            protocol_epoch: s.protocol_epoch(),
        }
    }

    /// Fails with [`Error::InvalidMpsseContext`] unless the session drives the
    /// device, recovery epoch and protocol epoch this bus was configured for.
    pub fn ensure_current(&self, s: &MpsseSession) -> (r: Result<()>)
        ensures
            r is Ok <==> self.spec_binding() == (
                s.spec_dev().spec_device_id(),
                s.spec_dev().spec_recovery_epoch(),
                s.spec_ctx()@.protocol_epoch,
            ),
            r matches Err(e) ==> e == Error::InvalidMpsseContext,
    {
        let dev = s.device();
        if self.device_id == dev.device_id() && self.recovery_epoch == dev.recovery_epoch()
            && self.protocol_epoch == s.protocol_epoch() {
            Ok(())
        } else {
            Err(Error::InvalidMpsseContext)
        }
    }
}

} // verus!
