//! Top-level device initialization: validates the transport version, reads
//! the device-type identifier, and dispatches to the matching driver
//! constructor.  Today only the network variant is implemented.

use vstd::prelude::*;

use crate::com_cfg::ComCfg;
use crate::device::{DevId, DriverError, VirtioError, ACKNOWLEDGE, DRIVER, DRIVER_OK, FAILED,
    FEATURES_OK};
use crate::isr::IsrStatus;
use crate::notif::NotifCfg;
use crate::regs::{hi32, lo32, MmioRegisterLayout, RegsView};

verus! {

/// The register block after a complete, successful negotiation: every
/// handshake bit set, the device's feature word written back in two
/// halves, and the selectors where the two-half protocol leaves them.
pub open spec fn negotiated_view(v0: RegsView) -> RegsView {
    RegsView {
        status: v0.status | ACKNOWLEDGE | DRIVER | FEATURES_OK | DRIVER_OK,
        device_features_sel: 0,
        driver_features_lo: lo32(v0.device_feature_word()),
        driver_features_hi: hi32(v0.device_feature_word()),
        driver_features_sel: 1,
        ..v0
    }
}

/// The register block after the device rejected the feature subset: the
/// driver abandoned negotiation and set the terminal FAILED status so the
/// hypervisor observes a consistent state.
pub open spec fn failed_negotiation_view(v0: RegsView) -> RegsView {
    RegsView {
        status: FAILED,
        device_features_sel: 0,
        driver_features_lo: lo32(v0.device_feature_word()),
        driver_features_hi: hi32(v0.device_feature_word()),
        driver_features_sel: 1,
        ..v0
    }
}

/// A network driver bound to the transport.
///
/// The driver performs the whole negotiation in [`Self::init`]; afterwards
/// it owns the transport handles and the negotiated feature word.  Queue
/// setup and packet handling sit on top of these handles and are not part
/// of the transport.
pub struct VirtioNetDriver {
    pub com_cfg: ComCfg,
    pub isr: IsrStatus,
    pub notif_cfg: NotifCfg,
    /// Interrupt line the device raises; its handler must be registered
    /// with the platform's interrupt controller by the caller.
    pub irq_no: u32,
    /// The negotiated 64-bit feature word.
    pub features: u64,
}

impl VirtioNetDriver {
    /// Binds a network driver to the device: acknowledges it, marks the
    /// driver bound, reads the offered features, writes the subset back
    /// (this driver takes the full offered word), marks FEATURES_OK and
    /// verifies that the device retained it.  If the device rejected the
    /// subset the driver sets FAILED and aborts; otherwise it marks the
    /// device live.
    pub fn init(registers: &mut MmioRegisterLayout, irq_no: u32) -> (r: Result<
        VirtioNetDriver,
        VirtioError,
    >)
        requires
            old(registers)@.wf(),
        ensures
            !old(registers)@.device_rejects_features ==> (r matches Ok(d) && d.features == old(
                registers,
            )@.device_feature_word() && d.irq_no == irq_no) && final(registers)@
                == negotiated_view(old(registers)@),
            old(registers)@.device_rejects_features ==> r == Err::<VirtioNetDriver, VirtioError>(
                VirtioError::FeatureNegotiationFailed,
            ) && final(registers)@ == failed_negotiation_view(old(registers)@),
            final(registers)@.wf(),
    {
        let mut com_cfg = ComCfg::new(registers, 1);
        let isr = IsrStatus::new(registers);
        let notif_cfg = NotifCfg::new(registers);

        com_cfg.ack_dev(registers);
        com_cfg.set_drv(registers);

        let feats = com_cfg.dev_features(registers);
        com_cfg.set_drv_features(registers, feats);
        com_cfg.features_ok(registers);

        proof {
            let s = old(registers)@.status;
            assert((((s | ACKNOWLEDGE) | DRIVER) | FEATURES_OK) & FEATURES_OK == FEATURES_OK)
                by (bit_vector);
        }
        if !com_cfg.check_features(registers) {
            com_cfg.set_failed(registers);
            return Err(VirtioError::FeatureNegotiationFailed);
        }
        com_cfg.drv_ok(registers);

        Ok(VirtioNetDriver { com_cfg, isr, notif_cfg, irq_no, features: feats })
    }
}

/// A driver bound to a recognized device, tagged by device type.
pub enum VirtioDriver {
    Network(VirtioNetDriver),
}

/// Binds a driver to the device behind a register block.
///
/// Rejects the legacy interface (version 1) without touching any other
/// register; dispatches on the device-type identifier; and on any unknown
/// or unimplemented type, or a failure from the delegated constructor,
/// returns the tagged error instead of a partly initialized device.  On
/// success the caller registers the returned driver's interrupt handler
/// under `irq_no` with the platform's interrupt controller.
pub fn init_device(registers: &mut MmioRegisterLayout, irq_no: u32) -> (r: Result<
    VirtioDriver,
    DriverError,
>)
    requires
        old(registers)@.wf(),
    ensures
        old(registers)@.version == 1 ==> r == Err::<VirtioDriver, DriverError>(
            DriverError::InitVirtioDevFail(VirtioError::UnsupportedTransportVersion),
        ) && final(registers)@ == old(registers)@,
        old(registers)@.version != 1 && old(registers)@.device_id != DevId::VIRTIO_DEV_ID_NET
            ==> r == Err::<VirtioDriver, DriverError>(
            DriverError::InitVirtioDevFail(VirtioError::UnsupportedDeviceType),
        ) && final(registers)@ == old(registers)@,
        old(registers)@.version != 1 && old(registers)@.device_id == DevId::VIRTIO_DEV_ID_NET
            && old(registers)@.device_rejects_features ==> r == Err::<VirtioDriver, DriverError>(
            DriverError::InitVirtioDevFail(VirtioError::FeatureNegotiationFailed),
        ) && final(registers)@ == failed_negotiation_view(old(registers)@),
        old(registers)@.version != 1 && old(registers)@.device_id == DevId::VIRTIO_DEV_ID_NET
            && !old(registers)@.device_rejects_features ==> (r matches Ok(d) && d matches
            VirtioDriver::Network(n) && n.features == old(registers)@.device_feature_word()
            && n.irq_no == irq_no) && final(registers)@ == negotiated_view(old(registers)@),
        final(registers)@.wf(),
{
    if registers.get_version() == 1 {
        return Err(DriverError::InitVirtioDevFail(VirtioError::UnsupportedTransportVersion));
    }

    match registers.get_device_id() {
        DevId::VIRTIO_DEV_ID_NET => match VirtioNetDriver::init(registers, irq_no) {
            Ok(virt_net_drv) => Ok(VirtioDriver::Network(virt_net_drv)),
            Err(virtio_error) => Err(DriverError::InitVirtioDevFail(virtio_error)),
        },
        _ => Err(DriverError::InitVirtioDevFail(VirtioError::UnsupportedDeviceType)),
    }
}

} // verus!
