//! The device-status and feature-negotiation state machine, and the
//! per-queue configuration handle it hands out.
//!
//! The status register walks RESET, ACKNOWLEDGED, DRIVER-BOUND,
//! FEATURES-NEGOTIATED, LIVE by having bits added to it; FAILED is an
//! absorbing overlay reachable from any state, and only a full reset clears
//! bits.  The operations below are the only sanctioned writers of the
//! status register.
//!
//! Exclusive access to the register block cannot be retained inside a
//! handle here, so every operation takes the block as an explicit mutable
//! borrow; the callers serialize access between the control path and the
//! interrupt handler.

use vstd::prelude::*;

use crate::device::{ACKNOWLEDGE, DRIVER, DRIVER_OK, FAILED, FEATURES_OK};
use crate::regs::{min32, with_queue, MmioRegisterLayout, QueueRegs, RegsView};

verus! {

/// A transient, exclusive handle over one virtqueue's configuration
/// registers, handed out by [`ComCfg::select_vq`] only for queues that
/// exist.  Each operation re-selects the queue before acting, so the
/// shared selector always holds this handle's index while it works.
pub struct VqCfgHandler {
    vq_index: u32,
}

impl VqCfgHandler {
    /// The index of the queue this handle configures.
    pub closed spec fn queue_index(self) -> u32 {
        self.vq_index
    }

    /// Sets the size of the queue.  A size beyond the hardware-reported
    /// maximum is clamped to that maximum; the written (and returned) size
    /// never exceeds it.  Clamping, not rejection, is the policy.
    pub fn set_vq_size(&mut self, regs: &mut MmioRegisterLayout, size: u16) -> (r: u16)
        ensures
            r as u32 == min32(size as u32, old(regs)@.queue_max(old(self).queue_index())),
            r <= size,
            final(regs)@ == with_queue(
                old(regs)@,
                old(self).queue_index(),
                QueueRegs {
                    num: r as u32,
                    ..old(regs)@.queues[old(self).queue_index() as int]
                },
            ),
    {
        let chosen = regs.set_queue_size(self.vq_index, size as u32);
        chosen as u16
    }

    /// Writes the 64-bit physical address of the descriptor table.
    /// Alignment is the allocator's contract; none is checked here.
    pub fn set_ring_addr(&mut self, regs: &mut MmioRegisterLayout, addr: u64)
        ensures
            final(regs)@ == with_queue(
                old(regs)@,
                old(self).queue_index(),
                QueueRegs {
                    desc_lo: crate::regs::lo32(addr),
                    desc_hi: crate::regs::hi32(addr),
                    ..old(regs)@.queues[old(self).queue_index() as int]
                },
            ),
    {
        regs.set_ring_addr(self.vq_index, addr);
    }

    /// Writes the 64-bit physical address of the driver (available) ring.
    pub fn set_drv_ctrl_addr(&mut self, regs: &mut MmioRegisterLayout, addr: u64)
        ensures
            final(regs)@ == with_queue(
                old(regs)@,
                old(self).queue_index(),
                QueueRegs {
                    driver_lo: crate::regs::lo32(addr),
                    driver_hi: crate::regs::hi32(addr),
                    ..old(regs)@.queues[old(self).queue_index() as int]
                },
            ),
    {
        regs.set_drv_ctrl_addr(self.vq_index, addr);
    }

    /// Writes the 64-bit physical address of the device (used) ring.
    pub fn set_dev_ctrl_addr(&mut self, regs: &mut MmioRegisterLayout, addr: u64)
        ensures
            final(regs)@ == with_queue(
                old(regs)@,
                old(self).queue_index(),
                QueueRegs {
                    device_lo: crate::regs::lo32(addr),
                    device_hi: crate::regs::hi32(addr),
                    ..old(regs)@.queues[old(self).queue_index() as int]
                },
            ),
    {
        regs.set_dev_ctrl_addr(self.vq_index, addr);
    }

    /// The per-queue offset into the notification area.  This transport
    /// serves every queue from one shared notify register, so the offset
    /// is always 0.
    pub fn notif_off(&mut self) -> (r: u16)
        ensures
            r == 0,
    {
        0
    }

    /// Marks the queue ready.  After this the device may consume and
    /// produce on the rings; no further address or size change should
    /// follow (caller discipline, not enforced here).
    pub fn enable_queue(&mut self, regs: &mut MmioRegisterLayout)
        ensures
            final(regs)@ == with_queue(
                old(regs)@,
                old(self).queue_index(),
                QueueRegs { ready: 1, ..old(regs)@.queues[old(self).queue_index() as int] },
            ),
    {
        regs.enable_queue(self.vq_index);
    }
}

/// The common-configuration interface of the device: device status,
/// feature negotiation, and queue selection.
pub struct ComCfg {
    /// Preference of the device for this configuration, from 1 (highest)
    /// to 127 (lowest).
    rank: u8,
}

impl ComCfg {
    /// A new interface over the register block.  The block itself is not
    /// touched.
    pub fn new(raw: &mut MmioRegisterLayout, rank: u8) -> (r: ComCfg)
        ensures
            final(raw)@ == old(raw)@,
    {
        let _ = raw;
        ComCfg { rank }
    }

    /// Selects a queue by index.  Returns a handle exactly when the queue
    /// exists, that is when the hardware-reported maximum size read through
    /// the selector is nonzero; otherwise there is no such queue.  Handles
    /// are not a finite resource: the same index can be selected again.
    pub fn select_vq(&mut self, regs: &mut MmioRegisterLayout, index: u16) -> (r: Option<
        VqCfgHandler,
    >)
        ensures
            final(regs)@ == (RegsView { queue_sel: index as u32, ..old(regs)@ }),
            r is Some <==> old(regs)@.queue_max(index as u32) != 0,
            r matches Some(h) ==> h.queue_index() == index as u32,
    {
        if regs.get_max_queue_size(index as u32) == 0 {
            None
        } else {
            Some(VqCfgHandler { vq_index: index as u32 })
        }
    }

    /// The hardware-reported maximum size of queue `sel`, read through the
    /// selector; 0 means the queue does not exist.
    pub fn get_max_queue_size(&mut self, regs: &mut MmioRegisterLayout, sel: u32) -> (r: u32)
        ensures
            final(regs)@ == (RegsView { queue_sel: sel, ..old(regs)@ }),
            r == old(regs)@.queue_max(sel),
    {
        regs.get_max_queue_size(sel)
    }

    /// Whether queue `sel` has been marked ready, read through the
    /// selector.
    pub fn is_queue_ready(&mut self, regs: &mut MmioRegisterLayout, sel: u32) -> (r: bool)
        ensures
            final(regs)@ == (RegsView { queue_sel: sel, ..old(regs)@ }),
            r == (old(regs)@.queue_ready(sel) != 0),
    {
        regs.is_queue_ready(sel)
    }

    /// The device-status byte.
    pub fn dev_status(&self, regs: &MmioRegisterLayout) -> (r: u8)
        requires
            regs@.wf(),
        ensures
            r as u32 == regs@.status,
    {
        let s = regs.read_status();
        proof {
            assert(s < 256 ==> (s as u8) as u32 == s) by (bit_vector);
        }
        s as u8
    }

    /// Resets the device: writes status 0.  Allowed at any time; the one
    /// way to leave FAILED and to clear previously set bits.
    pub fn reset_dev(&mut self, regs: &mut MmioRegisterLayout)
        ensures
            final(regs)@ == (RegsView { status: 0, ..old(regs)@ }),
            final(regs)@.wf(),
    {
        proof {
            assert(0u32 & FEATURES_OK == 0) by (bit_vector);
        }
        regs.write_status(0);
    }

    /// Sets the device status to FAILED: the guest has given up on the
    /// device.  Idempotent; after this the driver must not negotiate any
    /// further without a reset.
    pub fn set_failed(&mut self, regs: &mut MmioRegisterLayout)
        ensures
            final(regs)@ == (RegsView { status: FAILED, ..old(regs)@ }),
            final(regs)@.wf(),
    {
        proof {
            assert(FAILED & FEATURES_OK == 0 && FAILED < 256) by (bit_vector);
        }
        regs.write_status(FAILED);
    }

    /// Adds the ACKNOWLEDGE bit: the guest has noticed the device.  Every
    /// previously set bit is preserved.
    pub fn ack_dev(&mut self, regs: &mut MmioRegisterLayout)
        requires
            old(regs)@.wf(),
        ensures
            final(regs)@ == (RegsView { status: old(regs)@.status | ACKNOWLEDGE, ..old(regs)@ }),
            final(regs)@.wf(),
    {
        let status = regs.read_status();
        proof {
            assert((status | ACKNOWLEDGE) & FEATURES_OK == status & FEATURES_OK) by (bit_vector);
            assert(status < 256 ==> (status | ACKNOWLEDGE) < 256) by (bit_vector);
        }
        regs.write_status(status | ACKNOWLEDGE);
    }

    /// Adds the DRIVER bit: the guest knows how to drive the device.
    /// Every previously set bit is preserved.
    pub fn set_drv(&mut self, regs: &mut MmioRegisterLayout)
        requires
            old(regs)@.wf(),
        ensures
            final(regs)@ == (RegsView { status: old(regs)@.status | DRIVER, ..old(regs)@ }),
            final(regs)@.wf(),
    {
        let status = regs.read_status();
        proof {
            assert((status | DRIVER) & FEATURES_OK == status & FEATURES_OK) by (bit_vector);
            assert(status < 256 ==> (status | DRIVER) < 256) by (bit_vector);
        }
        regs.write_status(status | DRIVER);
    }

    /// Writes the FEATURES_OK bit, completing the driver's side of feature
    /// negotiation.  The device evaluates the written-back subset at this
    /// very write: if it rejects the subset, the bit does not stick and the
    /// status is unchanged; otherwise the bit is added and every previously
    /// set bit is preserved.  No new features may be accepted afterwards.
    pub fn features_ok(&mut self, regs: &mut MmioRegisterLayout)
        requires
            old(regs)@.wf(),
        ensures
            final(regs)@ == (RegsView {
                status: (if old(regs)@.device_rejects_features {
                    old(regs)@.status
                } else {
                    old(regs)@.status | FEATURES_OK
                }),
                ..old(regs)@
            }),
            final(regs)@.wf(),
    {
        let status = regs.read_status();
        proof {
            assert(status & FEATURES_OK == 0 ==> ((status | FEATURES_OK) & !FEATURES_OK) == status)
                by (bit_vector);
            assert((status | FEATURES_OK) & FEATURES_OK != 0) by (bit_vector);
            assert(status < 256 ==> (status | FEATURES_OK) < 256) by (bit_vector);
        }
        regs.write_status(status | FEATURES_OK);
    }

    /// Re-reads the device status and reports whether FEATURES_OK is still
    /// set.  Must be called after [`Self::features_ok`]: a clear bit means
    /// the device rejected the requested subset, and the driver must call
    /// [`Self::set_failed`] and abort initialization instead of going live.
    pub fn check_features(&self, regs: &MmioRegisterLayout) -> (r: bool)
        ensures
            r == (regs@.status & FEATURES_OK == FEATURES_OK),
    {
        let status = regs.read_status();
        status & FEATURES_OK == FEATURES_OK
    }

    /// Adds the DRIVER_OK bit: the device is live and may process queues
    /// and raise interrupts.  Every previously set bit is preserved; no
    /// further negotiation call is valid until a reset.
    pub fn drv_ok(&mut self, regs: &mut MmioRegisterLayout)
        requires
            old(regs)@.wf(),
        ensures
            final(regs)@ == (RegsView { status: old(regs)@.status | DRIVER_OK, ..old(regs)@ }),
            final(regs)@.wf(),
    {
        let status = regs.read_status();
        proof {
            assert((status | DRIVER_OK) & FEATURES_OK == status & FEATURES_OK) by (bit_vector);
            assert(status < 256 ==> (status | DRIVER_OK) < 256) by (bit_vector);
        }
        regs.write_status(status | DRIVER_OK);
    }

    /// The 64-bit feature word the device offers, read as two
    /// selector-gated halves.  A pure read: no state transition.
    pub fn dev_features(&mut self, regs: &mut MmioRegisterLayout) -> (r: u64)
        ensures
            r == old(regs)@.device_feature_word(),
            final(regs)@ == (RegsView { device_features_sel: 0, ..old(regs)@ }),
    {
        regs.dev_features()
    }

    /// Writes the driver's chosen feature subset back through the two
    /// selector-gated halves.  Must be called before [`Self::features_ok`].
    pub fn set_drv_features(&mut self, regs: &mut MmioRegisterLayout, feats: u64)
        ensures
            final(regs)@ == (RegsView {
                driver_features_lo: crate::regs::lo32(feats),
                driver_features_hi: crate::regs::hi32(feats),
                driver_features_sel: 1,
                ..old(regs)@
            }),
    {
        regs.set_drv_features(feats);
    }

    /// A human-readable report of the register block; see
    /// [`MmioRegisterLayout::print_information`] for the side effects of
    /// gathering it.
    pub fn print_information(&mut self, regs: &mut MmioRegisterLayout) -> (r: String)
        ensures
            final(regs)@ == (RegsView {
                device_features_sel: 0,
                config: final(regs)@.config,
                config_generation: final(regs)@.config_generation,
                pending_config: Seq::<[u32; 3]>::empty(),
                ..old(regs)@
            }),
    {
        regs.print_information()
    }
}

} // verus!
