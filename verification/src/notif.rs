//! Virtqueue notification: where and what a queue writes to tell the
//! device that new work is available.
//!
//! This transport serves every queue from the one shared notify register,
//! so the notification area is that register alone: the base is its fixed
//! byte offset inside the register block, and the per-queue multiplier
//! is 0.

use vstd::prelude::*;

use crate::regs::{MmioRegisterLayout, RegsView};

verus! {

/// Byte offset of the notify register inside the fixed register layout.
pub const QUEUE_NOTIFY_OFFSET: usize = 0x50;

/// A notification payload, assembled from its 4 bytes least-significant
/// first.
pub open spec fn notif_word(s: Seq<u8>) -> u32
    recommends
        s.len() == 4,
{
    (s[0] as u32) | ((s[1] as u32) << 8) | ((s[2] as u32) << 16) | ((s[3] as u32) << 24)
}

/// Where the notification addresses of the virtqueues are computed from.
pub struct NotifCfg {
    /// Offset of the shared notify register from the mapped base of the
    /// register block; whoever maps the block adds its base address.
    pub queue_notify: usize,
}

impl NotifCfg {
    /// Reads the notification geometry from the register layout.  The
    /// block itself is not touched: the notify register's position is
    /// fixed by the layout.
    pub fn new(registers: &mut MmioRegisterLayout) -> (r: NotifCfg)
        ensures
            final(registers)@ == old(registers)@,
            r.queue_notify == QUEUE_NOTIFY_OFFSET,
    {
        let _ = registers;
        NotifCfg { queue_notify: QUEUE_NOTIFY_OFFSET }
    }

    /// Base of the notification area (the shared notify register).
    pub fn base(&self) -> (r: usize)
        ensures
            r == self.queue_notify,
    {
        self.queue_notify
    }

    /// Multiplier for computing a specific queue's notification address;
    /// always 0 for this transport, as there is no per-queue stride.
    pub fn multiplier(&self) -> (r: u32)
        ensures
            r == 0,
    {
        0
    }
}

/// Notifies the device on behalf of one virtqueue; typically held by the
/// queue.
pub struct NotifCtrl {
    /// Whether the extended notification-data feature was negotiated.
    pub f_notif_data: bool,
    /// Where to write notifications, as handed out by [`NotifCfg`].
    pub notif_addr: usize,
}

impl NotifCtrl {
    /// A new controller; the notification-data feature starts disabled.
    pub fn new(notif_addr: usize) -> (r: NotifCtrl)
        ensures
            r.f_notif_data == false,
            r.notif_addr == notif_addr,
    {
        NotifCtrl { f_notif_data: false, notif_addr }
    }

    /// Records that the extended notification-data feature was negotiated,
    /// changing what callers hand to [`Self::notify_dev`].  Only sound if
    /// the feature really was negotiated.
    pub fn enable_notif_data(&mut self)
        ensures
            final(self).f_notif_data == true,
            final(self).notif_addr == old(self).notif_addr,
    {
        self.f_notif_data = true;
    }

    /// Writes a notification payload of exactly 4 bytes to the notify
    /// register, least-significant byte first.  No validation of the
    /// payload beyond its length.
    pub fn notify_dev(&self, regs: &mut MmioRegisterLayout, notif_data: &[u8])
        requires
            notif_data@.len() == 4,
        ensures
            final(regs)@ == (RegsView { queue_notify: notif_word(notif_data@), ..old(regs)@ }),
    {
        let data = (notif_data[0] as u32) | ((notif_data[1] as u32) << 8) | ((notif_data[2] as u32)
            << 16) | ((notif_data[3] as u32) << 24);
        regs.write_queue_notify(data);
    }
}

} // verus!
