//! The interrupt-status/interrupt-ack register pair: answers "why was I
//! interrupted" and acknowledges the causes.

use vstd::prelude::*;

use crate::regs::{MmioRegisterLayout, RegsView};

verus! {

/// Wraps the interrupt-status and interrupt-ack registers of the block.
/// Exclusive access to the block cannot be retained inside the handle, so
/// each operation takes the register block as an explicit borrow; the
/// interrupt handler and the control path must be serialized externally.
pub struct IsrStatus {}

impl IsrStatus {
    /// A new interface over the register block.  The block itself is not
    /// touched.
    pub fn new(registers: &mut MmioRegisterLayout) -> (r: IsrStatus)
        ensures
            final(registers)@ == old(registers)@,
    {
        let _ = registers;
        IsrStatus {  }
    }

    /// Whether a queue raised the interrupt (interrupt-status bit 0).
    /// A pure read: no side effect beyond the read itself.
    pub fn is_interrupt(&self, regs: &MmioRegisterLayout) -> (r: bool)
        ensures
            r == (regs@.interrupt_status & 0x1 == 0x1),
    {
        let status = regs.read_interrupt_status();
        status & 0x1 == 0x1
    }

    /// Whether the device configuration changed (interrupt-status bit 1).
    /// A pure read: no side effect beyond the read itself.
    pub fn is_cfg_change(&self, regs: &MmioRegisterLayout) -> (r: bool)
        ensures
            r == (regs@.interrupt_status & 0x2 == 0x2),
    {
        let status = regs.read_interrupt_status();
        status & 0x2 == 0x2
    }

    /// Reads the interrupt status and writes it back into the ack
    /// register, clearing the reported causes so the device can raise new
    /// ones.  Must be called after servicing an interrupt; skipping it
    /// starves further interrupts.
    pub fn acknowledge(&mut self, regs: &mut MmioRegisterLayout)
        ensures
            final(regs)@ == (RegsView {
                interrupt_ack: old(regs)@.interrupt_status,
                interrupt_status: 0,
                ..old(regs)@
            }),
    {
        let status = regs.read_interrupt_status();
        proof {
            assert(status & !status == 0) by (bit_vector);
        }
        regs.write_interrupt_ack(status);
    }
}

} // verus!
