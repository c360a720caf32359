use virtio_mmio::com_cfg::ComCfg;
use virtio_mmio::regs::MmioRegisterLayout;

const ACKNOWLEDGE: u8 = 1;
const DRIVER: u8 = 2;
const DRIVER_OK: u8 = 4;
const FEATURES_OK: u8 = 8;
const FAILED: u8 = 128;

fn accepting_device(features: u64) -> MmioRegisterLayout {
    MmioRegisterLayout::new(0x74726976, 2, 1, 0, features, vec![8], [0, 0, 0], false)
}

fn rejecting_device(features: u64) -> MmioRegisterLayout {
    MmioRegisterLayout::new(0x74726976, 2, 1, 0, features, vec![8], [0, 0, 0], true)
}

#[test]
fn status_bits_accumulate_monotonically() {
    let mut regs = accepting_device(0x33);
    let mut com = ComCfg::new(&mut regs, 1);

    assert_eq!(com.dev_status(&regs), 0);
    com.ack_dev(&mut regs);
    assert_eq!(com.dev_status(&regs), ACKNOWLEDGE);
    com.set_drv(&mut regs);
    assert_eq!(com.dev_status(&regs), ACKNOWLEDGE | DRIVER);
    let feats = com.dev_features(&mut regs);
    com.set_drv_features(&mut regs, feats);
    assert_eq!(com.dev_status(&regs), ACKNOWLEDGE | DRIVER);
    com.features_ok(&mut regs);
    assert_eq!(com.dev_status(&regs), ACKNOWLEDGE | DRIVER | FEATURES_OK);
    com.drv_ok(&mut regs);
    assert_eq!(com.dev_status(&regs), ACKNOWLEDGE | DRIVER | FEATURES_OK | DRIVER_OK);
}

#[test]
fn reset_clears_status_to_exactly_zero() {
    let mut regs = accepting_device(0x33);
    let mut com = ComCfg::new(&mut regs, 1);

    com.ack_dev(&mut regs);
    com.set_drv(&mut regs);
    com.features_ok(&mut regs);
    assert_ne!(com.dev_status(&regs), 0);
    com.reset_dev(&mut regs);
    assert_eq!(com.dev_status(&regs), 0);
}

#[test]
fn set_failed_is_a_terminal_overlay_and_idempotent() {
    let mut regs = accepting_device(0x33);
    let mut com = ComCfg::new(&mut regs, 1);

    com.ack_dev(&mut regs);
    com.set_drv(&mut regs);
    com.set_failed(&mut regs);
    assert_eq!(com.dev_status(&regs), FAILED);
    com.set_failed(&mut regs);
    assert_eq!(com.dev_status(&regs), FAILED);
    // Recovery is a full reset.
    com.reset_dev(&mut regs);
    assert_eq!(com.dev_status(&regs), 0);
}

#[test]
fn check_features_true_when_device_accepts() {
    let mut regs = accepting_device(0x33);
    let mut com = ComCfg::new(&mut regs, 1);

    com.ack_dev(&mut regs);
    com.set_drv(&mut regs);
    let feats = com.dev_features(&mut regs);
    com.set_drv_features(&mut regs, feats);
    com.features_ok(&mut regs);
    assert!(com.check_features(&regs));
}

#[test]
fn check_features_false_when_device_rejects() {
    let mut regs = rejecting_device(0x33);
    let mut com = ComCfg::new(&mut regs, 1);

    com.ack_dev(&mut regs);
    com.set_drv(&mut regs);
    let feats = com.dev_features(&mut regs);
    com.set_drv_features(&mut regs, feats);
    com.features_ok(&mut regs);
    assert!(!com.check_features(&regs));
    // The bits set before the rejected FEATURES_OK write are untouched.
    assert_eq!(com.dev_status(&regs), ACKNOWLEDGE | DRIVER);
}

#[test]
fn feature_word_round_trips_through_the_two_halves() {
    let mut regs = accepting_device(0);
    let mut com = ComCfg::new(&mut regs, 1);

    let subset: u64 = 0xdead_beef_1234_5678;
    com.set_drv_features(&mut regs, subset);
    assert_eq!(regs.device_read_driver_features(), subset);

    let subset2: u64 = 1;
    com.set_drv_features(&mut regs, subset2);
    assert_eq!(regs.device_read_driver_features(), 1);

    let subset3: u64 = 1 << 63;
    com.set_drv_features(&mut regs, subset3);
    assert_eq!(regs.device_read_driver_features(), 1 << 63);
}

#[test]
fn dev_features_assembles_the_offered_word() {
    let mut regs = accepting_device(0xabcd_0123_4567_89ef);
    let mut com = ComCfg::new(&mut regs, 1);
    assert_eq!(com.dev_features(&mut regs), 0xabcd_0123_4567_89ef);
    // A second read sees the same word.
    assert_eq!(com.dev_features(&mut regs), 0xabcd_0123_4567_89ef);
}

#[test]
fn print_information_reports_the_block() {
    let mut regs = accepting_device(0x33);
    let mut com = ComCfg::new(&mut regs, 1);
    let report = com.print_information(&mut regs);
    assert!(report.contains("Device version"));
    assert!(report.contains("Device status"));
}
