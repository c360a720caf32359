//! Device-side transport binding for a paravirtualized I/O device family
//! reachable through a memory-mapped register block.
//!
//! The crate models the fixed register layout of the MMIO transport, the
//! device-status and feature-negotiation state machine, per-queue
//! configuration, the interrupt-status and notification sub-registers, and
//! the top-level initialization that dispatches to a concrete driver by
//! device type.  The register block is held as a value of
//! [`regs::MmioRegisterLayout`]; the device's half of the shared block
//! (raising interrupts, changing configuration space, vetoing feature
//! negotiation) is part of the model, so every driver-visible behaviour is
//! stated in contracts and proved.

pub mod device;
pub mod regs;
pub mod com_cfg;
pub mod isr;
pub mod notif;
pub mod init;
pub mod laws;
