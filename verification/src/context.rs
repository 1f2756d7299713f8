//! Device bookkeeping: identity, chip family, recovery state.
//!
//! A device records whether a stateful operation (MPSSE transaction, mode
//! change, streaming session) was interrupted. Such a device refuses further
//! I/O with [`Error::RecoveryRequired`] until it has been recovered. Every
//! recovery and every MPSSE re-initialization advances the recovery epoch,
//! which invalidates MPSSE contexts and bus objects created before.

use vstd::prelude::*;

use crate::error::{Error, Result};
use crate::types::ChipType;

verus! {

/// State of one opened FTDI device port.
#[derive(Debug)]
pub struct FtdiDevice {
    chip_type: ChipType,
    device_id: u64,
    recovery_epoch: u64,
    recovery_required: bool,
    read_timeout: core::time::Duration,
}

/// The device type used by the asynchronous API.
pub type AsyncFtdiDevice = FtdiDevice;

impl FtdiDevice {
    pub closed spec fn spec_chip_type(&self) -> ChipType {
        self.chip_type
    }

    pub closed spec fn spec_device_id(&self) -> u64 {
        self.device_id
    }

    pub closed spec fn spec_recovery_epoch(&self) -> u64 {
        self.recovery_epoch
    }

    pub closed spec fn spec_recovery_required(&self) -> bool {
        self.recovery_required
    }

    pub closed spec fn spec_read_timeout(&self) -> core::time::Duration {
        self.read_timeout
    }

    /// A freshly opened device with the given identity. `device_id` must be
    /// unique among the devices of the process.
    pub fn new(chip_type: ChipType, device_id: u64, read_timeout: core::time::Duration) -> (d:
        Self)
        ensures
            d.spec_chip_type() == chip_type,
            d.spec_device_id() == device_id,
            d.spec_recovery_epoch() == 0,
            !d.spec_recovery_required(),
            d.spec_read_timeout() == read_timeout,
    {
        FtdiDevice { chip_type, device_id, recovery_epoch: 0, recovery_required: false, read_timeout }
    }

    /// Chip family of this device.
    pub fn chip_type(&self) -> (c: ChipType)
        ensures
            c == self.spec_chip_type(),
    {
        self.chip_type
    }

    /// Process-unique identity of this device.
    pub fn device_id(&self) -> (id: u64)
        ensures
            id == self.spec_device_id(),
    {
        self.device_id
    }

    /// Number of recoveries and MPSSE re-initializations so far (wrapping).
    pub fn recovery_epoch(&self) -> (e: u64)
        ensures
            e == self.spec_recovery_epoch(),
    {
        self.recovery_epoch
    }

    /// Timeout of read operations.
    pub fn read_timeout(&self) -> (t: core::time::Duration)
        ensures
            t == self.spec_read_timeout(),
    {
        self.read_timeout
    }

    /// Change the timeout of read operations.
    pub fn set_read_timeout(&mut self, timeout: core::time::Duration)
        ensures
            final(self).spec_read_timeout() == timeout,
            final(self).spec_chip_type() == old(self).spec_chip_type(),
            final(self).spec_device_id() == old(self).spec_device_id(),
            final(self).spec_recovery_epoch() == old(self).spec_recovery_epoch(),
            final(self).spec_recovery_required() == old(self).spec_recovery_required(),
    {
        self.read_timeout = timeout;
    }

    /// Whether an interrupted stateful operation left the device in need
    /// of recovery.
    pub fn recovery_required(&self) -> (r: bool)
        ensures
            r == self.spec_recovery_required(),
    {
        self.recovery_required
    }

    /// Fails with [`Error::RecoveryRequired`] exactly when the device needs
    /// recovery.
    pub fn ensure_ready(&self) -> (r: Result<()>)
        ensures
            r is Ok <==> !self.spec_recovery_required(),
            r matches Err(e) ==> e == Error::RecoveryRequired,
    {
        if self.recovery_required {
            Err(Error::RecoveryRequired)
        } else {
            Ok(())
        }
    }

    /// Record that a stateful operation was interrupted (its future was
    /// dropped, or a streaming session was abandoned).
    pub fn mark_recovery_required(&mut self)
        ensures
            final(self).spec_recovery_required(),
            final(self).spec_chip_type() == old(self).spec_chip_type(),
            final(self).spec_device_id() == old(self).spec_device_id(),
            final(self).spec_recovery_epoch() == old(self).spec_recovery_epoch(),
            final(self).spec_read_timeout() == old(self).spec_read_timeout(),
    {
        self.recovery_required = true;
    }

    /// Advance the recovery epoch, invalidating every MPSSE context and bus
    /// object created before.
    pub fn bump_recovery_epoch(&mut self)
        ensures
            final(self).spec_recovery_epoch() == (old(self).spec_recovery_epoch() + 1) % 0x1_0000_0000_0000_0000,
            final(self).spec_recovery_required() == old(self).spec_recovery_required(),
            final(self).spec_chip_type() == old(self).spec_chip_type(),
            final(self).spec_device_id() == old(self).spec_device_id(),
            final(self).spec_read_timeout() == old(self).spec_read_timeout(),
    {
        self.recovery_epoch = self.recovery_epoch.wrapping_add(1);
    }

    /// Record a successful recovery: the device is ready again and every MPSSE
    /// context and bus object created before is invalid.
    pub fn complete_recovery(&mut self)
        ensures
            !final(self).spec_recovery_required(),
            final(self).spec_recovery_epoch() == (old(self).spec_recovery_epoch() + 1) % 0x1_0000_0000_0000_0000,
            final(self).spec_chip_type() == old(self).spec_chip_type(),
            final(self).spec_device_id() == old(self).spec_device_id(),
            final(self).spec_read_timeout() == old(self).spec_read_timeout(),
    {
        self.recovery_required = false;
        self.bump_recovery_epoch();
    }
}

/// A change of a device's bookkeeping, as made by the methods of
/// [`FtdiDevice`].
#[derive(Debug, Clone, Copy, PartialEq, Eq, Structural)]
pub enum DeviceEvent {
    /// [`FtdiDevice::mark_recovery_required`]: a stateful operation (such
    /// as a streaming session) was dropped before it finished.
    Interrupted,
    /// [`FtdiDevice::bump_recovery_epoch`]: the MPSSE was re-initialized.
    EpochBumped,
    /// [`FtdiDevice::set_read_timeout`].
    TimeoutChanged,
    /// [`FtdiDevice::complete_recovery`].
    Recovered,
}

/// Whether `after` is what the method of event `e` leaves of `before`, as
/// far as the recovery flag goes (each method's contract).
pub open spec fn device_step(before: FtdiDevice, e: DeviceEvent, after: FtdiDevice) -> bool {
    match e {
        DeviceEvent::Interrupted => after.spec_recovery_required(),
        DeviceEvent::EpochBumped | DeviceEvent::TimeoutChanged => after.spec_recovery_required()
            == before.spec_recovery_required(),
        DeviceEvent::Recovered => !after.spec_recovery_required(),
    }
}

/// Whether `devs` is a history of one device under `events`.
pub open spec fn is_history(devs: Seq<FtdiDevice>, events: Seq<DeviceEvent>) -> bool {
    &&& devs.len() == events.len() + 1
    &&& forall|i: int|
        0 <= i < events.len() ==> device_step(devs[i], #[trigger] events[i], devs[i + 1])
}

proof fn lemma_required_at(devs: Seq<FtdiDevice>, events: Seq<DeviceEvent>, k: int)
    requires
        is_history(devs, events),
        devs[0].spec_recovery_required(),
        forall|i: int| 0 <= i < events.len() ==> events[i] != DeviceEvent::Recovered,
        0 <= k < devs.len(),
    ensures
        devs[k].spec_recovery_required(),
    decreases k,
{
    if k > 0 {
        lemma_required_at(devs, events, k - 1);
        assert(device_step(devs[k - 1], events[k - 1], devs[k]));
    }
}

/// Once a stateful operation was interrupted, the device needs recovery,
/// and [`FtdiDevice::ensure_ready`] (which every I/O path checks) refuses
/// with [`Error::RecoveryRequired`], in every later state until a recovery
/// completes; after a completed recovery the device is ready again.
pub proof fn lemma_interrupted_until_recovered(devs: Seq<FtdiDevice>, events: Seq<DeviceEvent>)
    requires
        is_history(devs, events),
        events.len() > 0,
        events[0] == DeviceEvent::Interrupted,
        forall|i: int| 1 <= i < events.len() ==> events[i] != DeviceEvent::Recovered,
    ensures
        forall|k: int| 1 <= k < devs.len() ==> #[trigger] devs[k].spec_recovery_required(),
        forall|d: FtdiDevice| #[trigger]
            device_step(devs.last(), DeviceEvent::Recovered, d) ==> !d.spec_recovery_required(),
{
    assert(device_step(devs[0], events[0], devs[1]));
    let tail = devs.subrange(1, devs.len() as int);
    let ev = events.subrange(1, events.len() as int);
    assert forall|i: int| 0 <= i < ev.len() implies device_step(
        tail[i],
        #[trigger] ev[i],
        tail[i + 1],
    ) by {
        assert(device_step(devs[i + 1], events[i + 1], devs[i + 2]));
    }
    assert forall|k: int| 1 <= k < devs.len() implies #[trigger] devs[k].spec_recovery_required() by {
        lemma_required_at(tail, ev, k - 1);
        assert(tail[k - 1] == devs[k]);
    }
}

} // verus!
