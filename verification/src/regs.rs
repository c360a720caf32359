//! The fixed-offset register block of the MMIO transport, modelled as a
//! value.
//!
//! On hardware every field access is a volatile read or write with a fence;
//! here the block is an owned record, and the device's half of the shared
//! block is part of the model:
//!
//! * per-queue registers sit behind the single queue selector
//!   (select-then-act),
//! * the 64-bit feature words are exposed as two 32-bit halves behind a
//!   half selector,
//! * configuration space is guarded by a generation counter; the device may
//!   change it between any two reads (a script of pending updates, one
//!   applied per generation read),
//! * the device may veto FEATURES_OK at the moment the driver writes it,
//! * writing the interrupt-ack register clears the acknowledged causes.

use vstd::prelude::*;

use crate::device::{dev_id_of, DevId, FEATURES_OK};

verus! {

/// Low 32-bit half of a 64-bit register value.
pub open spec fn lo32(x: u64) -> u32 {
    x as u32
}

/// High 32-bit half of a 64-bit register value.
pub open spec fn hi32(x: u64) -> u32 {
    (x >> 32) as u32
}

/// A 64-bit register value assembled from its two halves.
pub open spec fn word64(hi: u32, lo: u32) -> u64 {
    ((hi as u64) << 32) | (lo as u64)
}

/// The generation counter after one configuration-space change.
pub open spec fn wrap_inc(g: u32) -> u32 {
    if g == 0xffff_ffff {
        0
    } else {
        (g + 1) as u32
    }
}

/// The generation counter after `n` configuration-space changes.
pub open spec fn wrap_add(g: u32, n: nat) -> u32
    decreases n,
{
    if n == 0 {
        g
    } else {
        wrap_inc(wrap_add(g, (n - 1) as nat))
    }
}

/// The smaller of two register values.
pub open spec fn min32(a: u32, b: u32) -> u32 {
    if a <= b {
        a
    } else {
        b
    }
}

/// The backing store of one virtqueue's selector-gated registers.
#[derive(Clone, Copy, Debug, PartialEq, Eq, Structural)]
pub struct QueueRegs {
    /// Maximum queue size supported by the device; 0 means the queue does
    /// not exist.
    pub num_max: u32,
    /// Queue size chosen by the driver.
    pub num: u32,
    /// Ready flag; nonzero once the driver has enabled the queue.
    pub ready: u32,
    /// Descriptor-table address, low half.
    pub desc_lo: u32,
    /// Descriptor-table address, high half.
    pub desc_hi: u32,
    /// Driver-ring (available) address, low half.
    pub driver_lo: u32,
    /// Driver-ring (available) address, high half.
    pub driver_hi: u32,
    /// Device-ring (used) address, low half.
    pub device_lo: u32,
    /// Device-ring (used) address, high half.
    pub device_hi: u32,
}

/// A queue record as the device initializes it: only the maximum size set.
pub open spec fn fresh_queue(num_max: u32) -> QueueRegs {
    QueueRegs {
        num_max,
        num: 0,
        ready: 0,
        desc_lo: 0,
        desc_hi: 0,
        driver_lo: 0,
        driver_hi: 0,
        device_lo: 0,
        device_hi: 0,
    }
}

/// The abstract state of the register block.
#[verifier::ext_equal]
pub ghost struct RegsView {
    pub magic_value: u32,
    pub version: u32,
    pub device_id: DevId,
    pub vendor_id: u32,
    /// Device feature word, low half (selector value 0).
    pub device_features_lo: u32,
    /// Device feature word, high half (selector value 1).
    pub device_features_hi: u32,
    pub device_features_sel: u32,
    /// Driver feature word, low half (selector value 0).
    pub driver_features_lo: u32,
    /// Driver feature word, high half (selector value 1).
    pub driver_features_hi: u32,
    pub driver_features_sel: u32,
    /// The shared queue selector; per-queue registers act on
    /// `queues[queue_sel]`.
    pub queue_sel: u32,
    pub queues: Seq<QueueRegs>,
    pub queue_notify: u32,
    pub interrupt_status: u32,
    pub interrupt_ack: u32,
    /// Device-status byte (held in a 32-bit register).
    pub status: u32,
    pub config_generation: u32,
    /// Device-specific configuration space.
    pub config: [u32; 3],
    /// Configuration changes the device has not yet made visible; one is
    /// applied (config replaced, generation bumped) per generation read.
    pub pending_config: Seq<[u32; 3]>,
    /// Whether the device will refuse the driver's feature subset by
    /// clearing FEATURES_OK as soon as it is written.
    pub device_rejects_features: bool,
}

impl RegsView {
    /// Model consistency: the status register holds a byte, and on a device
    /// that rejects feature negotiation FEATURES_OK never sticks.
    pub open spec fn wf(self) -> bool {
        &&& self.status < 256
        &&& self.device_rejects_features ==> self.status & FEATURES_OK == 0
    }

    /// The maximum size of queue `sel`; 0 if no such queue exists.
    pub open spec fn queue_max(self, sel: u32) -> u32 {
        if sel < self.queues.len() {
            self.queues[sel as int].num_max
        } else {
            0
        }
    }

    /// The ready flag of queue `sel`; 0 if no such queue exists.
    pub open spec fn queue_ready(self, sel: u32) -> u32 {
        if sel < self.queues.len() {
            self.queues[sel as int].ready
        } else {
            0
        }
    }

    /// The 64-bit feature word the device offers.
    pub open spec fn device_feature_word(self) -> u64 {
        word64(self.device_features_hi, self.device_features_lo)
    }

    /// The 64-bit feature word the driver has written back.
    pub open spec fn driver_feature_word(self) -> u64 {
        word64(self.driver_features_hi, self.driver_features_lo)
    }
}

/// The register block after a select-then-act step on queue `sel`: the
/// queue selector holds `sel`, and if the queue exists its backing record
/// is replaced by `q` (a write to a nonexistent queue is dropped).
pub open spec fn with_queue(v: RegsView, sel: u32, q: QueueRegs) -> RegsView {
    RegsView {
        queue_sel: sel,
        queues: (if sel < v.queues.len() {
            v.queues.update(sel as int, q)
        } else {
            v.queues
        }),
        ..v
    }
}

/// The layout of the MMIO device's register block.
///
/// On hardware this is a fixed 32-bit-word layout at a hypervisor-provided
/// physical address, exclusively owned for the device's presence; every
/// access below models one volatile, fenced access to it.
pub struct MmioRegisterLayout {
    magic_value: u32,
    version: u32,
    device_id: DevId,
    vendor_id: u32,
    device_features_lo: u32,
    device_features_hi: u32,
    device_features_sel: u32,
    driver_features_lo: u32,
    driver_features_hi: u32,
    driver_features_sel: u32,
    queue_sel: u32,
    queues: Vec<QueueRegs>,
    queue_notify: u32,
    interrupt_status: u32,
    interrupt_ack: u32,
    status: u32,
    config_generation: u32,
    config: [u32; 3],
    pending_config: Vec<[u32; 3]>,
    device_rejects_features: bool,
}

impl View for MmioRegisterLayout {
    type V = RegsView;

    closed spec fn view(&self) -> RegsView {
        RegsView {
            magic_value: self.magic_value,
            version: self.version,
            device_id: self.device_id,
            vendor_id: self.vendor_id,
            device_features_lo: self.device_features_lo,
            device_features_hi: self.device_features_hi,
            device_features_sel: self.device_features_sel,
            driver_features_lo: self.driver_features_lo,
            driver_features_hi: self.driver_features_hi,
            driver_features_sel: self.driver_features_sel,
            queue_sel: self.queue_sel,
            queues: self.queues@,
            queue_notify: self.queue_notify,
            interrupt_status: self.interrupt_status,
            interrupt_ack: self.interrupt_ack,
            status: self.status,
            config_generation: self.config_generation,
            config: self.config,
            pending_config: self.pending_config@,
            device_rejects_features: self.device_rejects_features,
        }
    }
}

impl MmioRegisterLayout {
    /// A freshly discovered device: the fields the hypervisor presents are
    /// given, every driver-writable register reads zero.
    pub fn new(
        magic_value: u32,
        version: u32,
        device_id: u32,
        vendor_id: u32,
        device_features: u64,
        queue_max_sizes: Vec<u32>,
        config: [u32; 3],
        device_rejects_features: bool,
    ) -> (r: Self)
        ensures
            r@.magic_value == magic_value,
            r@.version == version,
            r@.device_id == dev_id_of(device_id),
            r@.vendor_id == vendor_id,
            r@.device_features_lo == lo32(device_features),
            r@.device_features_hi == hi32(device_features),
            r@.device_features_sel == 0,
            r@.driver_features_lo == 0,
            r@.driver_features_hi == 0,
            r@.driver_features_sel == 0,
            r@.queue_sel == 0,
            r@.queues.len() == queue_max_sizes@.len(),
            forall|j: int|
                0 <= j < r@.queues.len() ==> r@.queues[j] == fresh_queue(queue_max_sizes@[j]),
            r@.queue_notify == 0,
            r@.interrupt_status == 0,
            r@.interrupt_ack == 0,
            r@.status == 0,
            r@.config_generation == 0,
            r@.config == config,
            r@.pending_config == Seq::<[u32; 3]>::empty(),
            r@.device_rejects_features == device_rejects_features,
            r@.wf(),
    {
        let mut queues: Vec<QueueRegs> = Vec::new();
        let mut i: usize = 0;
        while i < queue_max_sizes.len()
            invariant
                i <= queue_max_sizes.len(),
                queues@.len() == i,
                forall|j: int| 0 <= j < i ==> queues@[j] == fresh_queue(queue_max_sizes@[j]),
            decreases queue_max_sizes.len() - i,
        {
            queues.push(QueueRegs {
                num_max: queue_max_sizes[i],
                num: 0,
                ready: 0,
                desc_lo: 0,
                desc_hi: 0,
                driver_lo: 0,
                driver_hi: 0,
                device_lo: 0,
                device_hi: 0,
            });
            i = i + 1;
        }
        proof {
            assert(0u32 & FEATURES_OK == 0) by (bit_vector);
        }
        MmioRegisterLayout {
            magic_value,
            version,
            device_id: DevId::from(device_id),
            vendor_id,
            device_features_lo: device_features as u32,
            device_features_hi: (device_features >> 32) as u32,
            device_features_sel: 0,
            driver_features_lo: 0,
            driver_features_hi: 0,
            driver_features_sel: 0,
            queue_sel: 0,
            queues,
            queue_notify: 0,
            interrupt_status: 0,
            interrupt_ack: 0,
            status: 0,
            config_generation: 0,
            config,
            pending_config: Vec::new(),
            device_rejects_features,
        }
    }

    /// The magic value the device presents at offset 0.
    pub fn get_magic_value(&self) -> (r: u32)
        ensures
            r == self@.magic_value,
    {
        self.magic_value
    }

    /// The transport version; 1 is the legacy interface.
    pub fn get_version(&self) -> (r: u32)
        ensures
            r == self@.version,
    {
        self.version
    }

    /// The device-type identifier.
    pub fn get_device_id(&self) -> (r: DevId)
        ensures
            r == self@.device_id,
    {
        self.device_id
    }

    /// Select-then-read: writes the queue selector, then reads the maximum
    /// queue size the device reports for that queue.
    pub fn get_max_queue_size(&mut self, sel: u32) -> (r: u32)
        ensures
            final(self)@ == (RegsView { queue_sel: sel, ..old(self)@ }),
            r == old(self)@.queue_max(sel),
    {
        self.queue_sel = sel;
        if (sel as usize) < self.queues.len() {
            self.queues[sel as usize].num_max
        } else {
            0
        }
    }

    /// Select-then-write: clamps `size` to the queue's reported maximum,
    /// writes the clamped value into the queue-size register, and returns
    /// it.  A write to a nonexistent queue is dropped by the device.
    pub fn set_queue_size(&mut self, sel: u32, size: u32) -> (r: u32)
        ensures
            r == min32(size, old(self)@.queue_max(sel)),
            final(self)@ == with_queue(
                old(self)@,
                sel,
                QueueRegs { num: r, ..old(self)@.queues[sel as int] },
            ),
    {
        self.queue_sel = sel;
        let idx = sel as usize;
        if idx < self.queues.len() {
            let num_max = self.queues[idx].num_max;
            let chosen = if num_max >= size {
                size
            } else {
                num_max
            };
            self.queues[idx].num = chosen;
            chosen
        } else {
            0
        }
    }

    /// Select-then-write: stores a 64-bit descriptor-table address as two
    /// halves into the selected queue's ring-address registers.
    pub fn set_ring_addr(&mut self, sel: u32, addr: u64)
        ensures
            final(self)@ == with_queue(
                old(self)@,
                sel,
                QueueRegs {
                    desc_lo: lo32(addr),
                    desc_hi: hi32(addr),
                    ..old(self)@.queues[sel as int]
                },
            ),
    {
        self.queue_sel = sel;
        let idx = sel as usize;
        if idx < self.queues.len() {
            self.queues[idx].desc_lo = addr as u32;
            self.queues[idx].desc_hi = (addr >> 32) as u32;
        }
    }

    /// Select-then-write: stores the 64-bit driver-ring (available ring)
    /// address as two halves.
    pub fn set_drv_ctrl_addr(&mut self, sel: u32, addr: u64)
        ensures
            final(self)@ == with_queue(
                old(self)@,
                sel,
                QueueRegs {
                    driver_lo: lo32(addr),
                    driver_hi: hi32(addr),
                    ..old(self)@.queues[sel as int]
                },
            ),
    {
        self.queue_sel = sel;
        let idx = sel as usize;
        if idx < self.queues.len() {
            self.queues[idx].driver_lo = addr as u32;
            self.queues[idx].driver_hi = (addr >> 32) as u32;
        }
    }

    /// Select-then-write: stores the 64-bit device-ring (used ring) address
    /// as two halves.
    pub fn set_dev_ctrl_addr(&mut self, sel: u32, addr: u64)
        ensures
            final(self)@ == with_queue(
                old(self)@,
                sel,
                QueueRegs {
                    device_lo: lo32(addr),
                    device_hi: hi32(addr),
                    ..old(self)@.queues[sel as int]
                },
            ),
    {
        self.queue_sel = sel;
        let idx = sel as usize;
        if idx < self.queues.len() {
            self.queues[idx].device_lo = addr as u32;
            self.queues[idx].device_hi = (addr >> 32) as u32;
        }
    }

    /// Select-then-write: marks the selected queue ready.  After this the
    /// device may consume and produce on the queue's rings.
    pub fn enable_queue(&mut self, sel: u32)
        ensures
            final(self)@ == with_queue(
                old(self)@,
                sel,
                QueueRegs { ready: 1, ..old(self)@.queues[sel as int] },
            ),
    {
        self.queue_sel = sel;
        let idx = sel as usize;
        if idx < self.queues.len() {
            self.queues[idx].ready = 1;
        }
    }

    /// Select-then-read: whether the selected queue's ready flag is set.
    pub fn is_queue_ready(&mut self, sel: u32) -> (r: bool)
        ensures
            final(self)@ == (RegsView { queue_sel: sel, ..old(self)@ }),
            r == (old(self)@.queue_ready(sel) != 0),
    {
        self.queue_sel = sel;
        if (sel as usize) < self.queues.len() {
            self.queues[sel as usize].ready != 0
        } else {
            false
        }
    }

    /// One read of the device-features window: the half chosen by the
    /// current selector (0 is the low half, anything else the high half).
    fn read_device_features_window(&self) -> (r: u32)
        ensures
            r == (if self@.device_features_sel == 0 {
                self@.device_features_lo
            } else {
                self@.device_features_hi
            }),
    {
        if self.device_features_sel == 0 {
            self.device_features_lo
        } else {
            self.device_features_hi
        }
    }

    /// One write of the driver-features window: lands in the half chosen by
    /// the current selector (0 is the low half, anything else the high half).
    fn write_driver_features_window(&mut self, val: u32)
        ensures
            final(self)@ == (if old(self)@.driver_features_sel == 0 {
                RegsView { driver_features_lo: val, ..old(self)@ }
            } else {
                RegsView { driver_features_hi: val, ..old(self)@ }
            }),
    {
        if self.driver_features_sel == 0 {
            self.driver_features_lo = val;
        } else {
            self.driver_features_hi = val;
        }
    }

    /// Reads the 64-bit feature word the device offers: selects the high
    /// half, reads it, selects the low half, reads it, and assembles the
    /// word.  Each selector write precedes its dependent read.
    pub fn dev_features(&mut self) -> (r: u64)
        ensures
            r == old(self)@.device_feature_word(),
            final(self)@ == (RegsView { device_features_sel: 0, ..old(self)@ }),
    {
        self.device_features_sel = 1;
        let hi = self.read_device_features_window();
        self.device_features_sel = 0;
        let lo = self.read_device_features_window();
        ((hi as u64) << 32) | (lo as u64)
    }

    /// Writes the driver's chosen 64-bit feature subset as two halves:
    /// selects the low half, writes it, selects the high half, writes it.
    /// Each selector write precedes its dependent data write.
    pub fn set_drv_features(&mut self, feats: u64)
        ensures
            final(self)@ == (RegsView {
                driver_features_lo: lo32(feats),
                driver_features_hi: hi32(feats),
                driver_features_sel: 1,
                ..old(self)@
            }),
    {
        let low: u32 = feats as u32;
        let high: u32 = (feats >> 32) as u32;
        self.driver_features_sel = 0;
        self.write_driver_features_window(low);
        self.driver_features_sel = 1;
        self.write_driver_features_window(high);
    }

    /// One read of the device-status register.
    pub(crate) fn read_status(&self) -> (r: u32)
        ensures
            r == self@.status,
    {
        self.status
    }

    /// One write of the device-status register.  The device reacts at once:
    /// if it rejects the driver's feature subset, a written FEATURES_OK bit
    /// does not stick.
    pub(crate) fn write_status(&mut self, val: u32)
        ensures
            final(self)@ == (RegsView {
                status: (if old(self)@.device_rejects_features && val & FEATURES_OK != 0 {
                    val & !FEATURES_OK
                } else {
                    val
                }),
                ..old(self)@
            }),
    {
        if self.device_rejects_features && val & FEATURES_OK != 0 {
            self.status = val & !FEATURES_OK;
        } else {
            self.status = val;
        }
    }

    /// One read of the interrupt-status register.
    pub(crate) fn read_interrupt_status(&self) -> (r: u32)
        ensures
            r == self@.interrupt_status,
    {
        self.interrupt_status
    }

    /// One write of the interrupt-ack register.  The device reacts by
    /// clearing the acknowledged causes from the interrupt-status register,
    /// so it can raise them again later.
    pub(crate) fn write_interrupt_ack(&mut self, val: u32)
        ensures
            final(self)@ == (RegsView {
                interrupt_ack: val,
                interrupt_status: old(self)@.interrupt_status & !val,
                ..old(self)@
            }),
    {
        self.interrupt_ack = val;
        self.interrupt_status = self.interrupt_status & !val;
    }

    /// One write of the notify register: how a queue signals the device
    /// that new work is available.
    pub(crate) fn write_queue_notify(&mut self, val: u32)
        ensures
            final(self)@ == (RegsView { queue_notify: val, ..old(self)@ }),
    {
        self.queue_notify = val;
    }

    /// Device side: the device reads the queue-size register the driver
    /// chose for queue `index` (to size its own view of the rings).
    pub fn device_read_queue(&self, index: u32) -> (r: Option<QueueRegs>)
        ensures
            r == (if index < self@.queues.len() {
                Some(self@.queues[index as int])
            } else {
                None::<QueueRegs>
            }),
    {
        if (index as usize) < self.queues.len() {
            Some(self.queues[index as usize])
        } else {
            None
        }
    }

    /// Device side: the feature word the device sees the driver having
    /// written back through the two selector-gated halves.
    pub fn device_read_driver_features(&self) -> (r: u64)
        ensures
            r == self@.driver_feature_word(),
    {
        ((self.driver_features_hi as u64) << 32) | (self.driver_features_lo as u64)
    }

    /// Device side: the last value the driver wrote to the notify register.
    pub fn device_read_notify(&self) -> (r: u32)
        ensures
            r == self@.queue_notify,
    {
        self.queue_notify
    }

    /// Device side: the device raises interrupt causes by setting bits in
    /// the interrupt-status register.
    pub fn device_raise_interrupt(&mut self, causes: u32)
        ensures
            final(self)@ == (RegsView {
                interrupt_status: old(self)@.interrupt_status | causes,
                ..old(self)@
            }),
    {
        self.interrupt_status = self.interrupt_status | causes;
    }

    /// One read of the generation counter.  Before the counter is sampled
    /// the device makes one scheduled configuration change visible, if any:
    /// the configuration words are replaced and the counter is bumped.
    fn read_config_generation(&mut self) -> (g: u32)
        ensures
            old(self)@.pending_config.len() == 0 ==> final(self)@ == old(self)@,
            old(self)@.pending_config.len() > 0 ==> final(self)@ == (RegsView {
                config: old(self)@.pending_config[0],
                config_generation: wrap_inc(old(self)@.config_generation),
                pending_config: old(self)@.pending_config.drop_first(),
                ..old(self)@
            }),
            g == final(self)@.config_generation,
    {
        if self.pending_config.len() > 0 {
            let words = self.pending_config.remove(0);
            self.config = words;
            self.config_generation = if self.config_generation == 0xffff_ffff {
                0
            } else {
                self.config_generation + 1
            };
            proof {
                assert(self.pending_config@ =~= old(self)@.pending_config.drop_first());
            }
        }
        self.config_generation
    }

    /// Snapshot of the device-specific configuration space, guarded against
    /// torn reads: reads the generation counter, the configuration words,
    /// and the counter again, and retries the whole sequence until the two
    /// counter reads agree.  The loop ends because the device's scheduled
    /// changes are finite; the returned words are then the latest
    /// configuration, read under a stable counter.
    #[verifier::loop_isolation(false)]
    pub fn get_config(&mut self) -> (r: [u32; 3])
        ensures
            r == final(self)@.config,
            final(self)@.config == (if old(self)@.pending_config.len() > 0 {
                old(self)@.pending_config.last()
            } else {
                old(self)@.config
            }),
            final(self)@.config_generation == wrap_add(
                old(self)@.config_generation,
                old(self)@.pending_config.len(),
            ),
            final(self)@ == (RegsView {
                config: final(self)@.config,
                config_generation: final(self)@.config_generation,
                pending_config: Seq::<[u32; 3]>::empty(),
                ..old(self)@
            }),
    {
        let ghost mut k: nat = 0;
        proof {
            assert(old(self)@.pending_config.skip(0) =~= old(self)@.pending_config);
        }
        loop
            invariant
                k <= old(self)@.pending_config.len(),
                self@.pending_config == old(self)@.pending_config.skip(k as int),
                self@.config_generation == wrap_add(old(self)@.config_generation, k),
                self@.config == (if k == 0 {
                    old(self)@.config
                } else {
                    old(self)@.pending_config[k as int - 1]
                }),
                self@ == (RegsView {
                    config: self@.config,
                    config_generation: self@.config_generation,
                    pending_config: self@.pending_config,
                    ..old(self)@
                }),
            decreases old(self)@.pending_config.len() - k,
        {
            let ghost pre = self@;
            let before = self.read_config_generation();
            proof {
                if pre.pending_config.len() > 0 {
                    assert(pre.pending_config.drop_first() =~= old(self)@.pending_config.skip(
                        k as int + 1,
                    ));
                    assert(wrap_add(old(self)@.config_generation, k + 1) == wrap_inc(
                        wrap_add(old(self)@.config_generation, k),
                    ));
                    k = k + 1;
                }
            }
            let cfg = self.config;
            let ghost mid = self@;
            let after = self.read_config_generation();
            proof {
                if mid.pending_config.len() > 0 {
                    assert(mid.pending_config.drop_first() =~= old(self)@.pending_config.skip(
                        k as int + 1,
                    ));
                    assert(wrap_add(old(self)@.config_generation, k + 1) == wrap_inc(
                        wrap_add(old(self)@.config_generation, k),
                    ));
                    k = k + 1;
                }
            }
            if before == after {
                proof {
                    assert(self@.pending_config =~= Seq::<[u32; 3]>::empty());
                }
                return cfg;
            }
        }
    }

    /// Device side: schedules a configuration-space change.  The change
    /// becomes visible (configuration words replaced, generation counter
    /// bumped) at a later generation read.
    pub fn device_push_config_update(&mut self, words: [u32; 3])
        ensures
            final(self)@ == (RegsView {
                pending_config: old(self)@.pending_config.push(words),
                ..old(self)@
            }),
    {
        self.pending_config.push(words);
    }

    /// A human-readable report of the register block: version, device and
    /// vendor identifiers, the offered feature word, interrupt and device
    /// status, and a stable snapshot of the configuration space.  Reading
    /// the features leaves the feature selector at 0, and the snapshot
    /// applies the device's scheduled configuration changes.
    pub fn print_information(&mut self) -> (r: String)
        ensures
            final(self)@ == (RegsView {
                device_features_sel: 0,
                config: final(self)@.config,
                config_generation: final(self)@.config_generation,
                pending_config: Seq::<[u32; 3]>::empty(),
                ..old(self)@
            }),
            final(self)@.config == (if old(self)@.pending_config.len() > 0 {
                old(self)@.pending_config.last()
            } else {
                old(self)@.config
            }),
    {
        let version = self.get_version();
        let device_id = self.get_device_id();
        let vendor_id = self.vendor_id;
        let features = self.dev_features();
        let interrupt_status = self.read_interrupt_status();
        let status = self.read_status();
        let config = self.get_config();
        render_information(version, device_id, vendor_id, features, interrupt_status, status, config)
    }
}

/// Relies on std's `format!` to lay the register values out as text;
/// nothing is claimed of the resulting string.
#[verifier::external_body]
fn render_information(
    version: u32,
    device_id: DevId,
    vendor_id: u32,
    features: u64,
    interrupt_status: u32,
    status: u32,
    config: [u32; 3],
) -> String {
    format!(
        " MMIO REGISTER LAYOUT INFORMATION \nDevice version: {version:#X}\nDevice ID: {device_id:?}\nVendor ID: {vendor_id:#X}\nDevice Features: {features:#X}\nInterrupt status: {interrupt_status:#X}\nDevice status: {status:#X}\nConfiguration space: {config:#X?}\n",
    )
}

} // verus!
