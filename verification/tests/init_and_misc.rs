use virtio_mmio::device::{DevId, DriverError, VirtioError};
use virtio_mmio::init::{init_device, VirtioDriver};
use virtio_mmio::isr::IsrStatus;
use virtio_mmio::notif::{NotifCfg, NotifCtrl, QUEUE_NOTIFY_OFFSET};
use virtio_mmio::regs::MmioRegisterLayout;

fn device(version: u32, device_id: u32, rejects: bool) -> MmioRegisterLayout {
    MmioRegisterLayout::new(0x74726976, version, device_id, 0, 0x33, vec![8], [0, 0, 0], rejects)
}

#[test]
fn init_device_rejects_legacy_version_untouched() {
    let mut regs = device(1, 1, false);
    let r = init_device(&mut regs, 11);
    assert_eq!(
        r.err().unwrap(),
        DriverError::InitVirtioDevFail(VirtioError::UnsupportedTransportVersion)
    );
    // No other register was touched.
    assert_eq!(regs.device_read_driver_features(), 0);
    assert_eq!(regs.device_read_queue(0).unwrap().num, 0);
    assert_eq!(regs.device_read_notify(), 0);
}

#[test]
fn init_device_rejects_block_device_type() {
    let mut regs = device(2, 2, false);
    let r = init_device(&mut regs, 11);
    assert_eq!(
        r.err().unwrap(),
        DriverError::InitVirtioDevFail(VirtioError::UnsupportedDeviceType)
    );
}

#[test]
fn init_device_rejects_console_and_invalid_device_types() {
    for id in [3u32, 0, 9] {
        let mut regs = device(2, id, false);
        let r = init_device(&mut regs, 11);
        assert_eq!(
            r.err().unwrap(),
            DriverError::InitVirtioDevFail(VirtioError::UnsupportedDeviceType)
        );
    }
}

#[test]
fn init_device_binds_a_network_driver() {
    let mut regs = device(2, 1, false);
    match init_device(&mut regs, 11) {
        Ok(VirtioDriver::Network(d)) => {
            assert_eq!(d.features, 0x33);
            assert_eq!(d.irq_no, 11);
        }
        Err(_) => panic!("network device must bind"),
    }
    // ACKNOWLEDGE | DRIVER | FEATURES_OK | DRIVER_OK
    assert_eq!(regs.device_read_driver_features(), 0x33);
}

#[test]
fn init_device_propagates_feature_negotiation_failure() {
    let mut regs = device(2, 1, true);
    let r = init_device(&mut regs, 11);
    assert_eq!(
        r.err().unwrap(),
        DriverError::InitVirtioDevFail(VirtioError::FeatureNegotiationFailed)
    );
}

#[test]
fn rejected_negotiation_leaves_the_device_failed() {
    let mut regs = device(2, 1, true);
    let r = virtio_mmio::init::VirtioNetDriver::init(&mut regs, 11);
    assert_eq!(r.err().unwrap(), VirtioError::FeatureNegotiationFailed);
    // The driver abandoned negotiation, so the terminal FAILED status is
    // what the hypervisor observes.
    let com = virtio_mmio::com_cfg::ComCfg::new(&mut regs, 1);
    assert_eq!(com.dev_status(&regs), 128);
}

#[test]
fn config_snapshot_applies_scheduled_changes_and_settles() {
    let mut regs = device(2, 1, false);
    // The counter changes between the boundary reads of early attempts:
    // the snapshot is discarded and retried until two reads agree.
    regs.device_push_config_update([4, 5, 6]);
    regs.device_push_config_update([7, 8, 9]);
    regs.device_push_config_update([10, 11, 12]);
    assert_eq!(regs.get_config(), [10, 11, 12]);
    // Once stable, a second snapshot agrees immediately.
    assert_eq!(regs.get_config(), [10, 11, 12]);
}

#[test]
fn config_snapshot_without_changes_is_the_plain_read() {
    let mut regs = MmioRegisterLayout::new(0x74726976, 2, 1, 0, 0, vec![], [1, 2, 3], false);
    assert_eq!(regs.get_config(), [1, 2, 3]);
}

#[test]
fn isr_reports_and_acknowledges_causes() {
    let mut regs = device(2, 1, false);
    let mut isr = IsrStatus::new(&mut regs);

    assert!(!isr.is_interrupt(&regs));
    assert!(!isr.is_cfg_change(&regs));

    regs.device_raise_interrupt(0x1);
    assert!(isr.is_interrupt(&regs));
    assert!(!isr.is_cfg_change(&regs));

    regs.device_raise_interrupt(0x2);
    assert!(isr.is_cfg_change(&regs));

    isr.acknowledge(&mut regs);
    assert!(!isr.is_interrupt(&regs));
    assert!(!isr.is_cfg_change(&regs));

    // Acknowledging lets the device raise new causes.
    regs.device_raise_interrupt(0x2);
    assert!(isr.is_cfg_change(&regs));
    assert!(!isr.is_interrupt(&regs));
}

#[test]
fn notification_geometry_is_one_shared_register() {
    let mut regs = device(2, 1, false);
    let cfg = NotifCfg::new(&mut regs);
    assert_eq!(cfg.base(), QUEUE_NOTIFY_OFFSET);
    assert_eq!(cfg.base(), 0x50);
    assert_eq!(cfg.multiplier(), 0);
}

#[test]
fn notify_dev_writes_the_four_byte_payload() {
    let mut regs = device(2, 1, false);
    let cfg = NotifCfg::new(&mut regs);
    let mut ctrl = NotifCtrl::new(cfg.base());
    assert!(!ctrl.f_notif_data);
    ctrl.enable_notif_data();
    assert!(ctrl.f_notif_data);

    ctrl.notify_dev(&mut regs, &[0x01, 0x02, 0x03, 0x04]);
    assert_eq!(regs.device_read_notify(), 0x0403_0201);
}

#[test]
fn device_id_conversions_follow_the_external_codes() {
    assert_eq!(DevId::from(0u32), DevId::INVALID);
    assert_eq!(DevId::from(1u32), DevId::VIRTIO_DEV_ID_NET);
    assert_eq!(DevId::from(2u32), DevId::VIRTIO_DEV_ID_BLK);
    assert_eq!(DevId::from(3u32), DevId::VIRTIO_DEV_ID_CONSOLE);
    assert_eq!(DevId::from(7u32), DevId::INVALID);

    assert_eq!(u32::from(DevId::INVALID), 0);
    assert_eq!(u32::from(DevId::VIRTIO_DEV_ID_NET), 1);
    assert_eq!(u32::from(DevId::VIRTIO_DEV_ID_BLK), 2);
    assert_eq!(u32::from(DevId::VIRTIO_DEV_ID_CONSOLE), 3);
}

#[test]
fn layout_getters_report_the_presented_fields() {
    let regs = MmioRegisterLayout::new(0x74726976, 2, 3, 0x554d4551, 0, vec![], [0, 0, 0], false);
    assert_eq!(regs.get_magic_value(), 0x74726976);
    assert_eq!(regs.get_version(), 2);
    assert_eq!(regs.get_device_id(), DevId::VIRTIO_DEV_ID_CONSOLE);
}
