use virtio_mmio::com_cfg::ComCfg;
use virtio_mmio::regs::MmioRegisterLayout;

fn demo_regs(queue_max_sizes: Vec<u32>) -> MmioRegisterLayout {
    MmioRegisterLayout::new(0x74726976, 2, 1, 0x554d4551, 0x33, queue_max_sizes, [0, 0, 0], false)
}

#[test]
fn set_size_clamps_to_hardware_maximum() {
    let mut regs = demo_regs(vec![8, 256]);
    let mut com = ComCfg::new(&mut regs, 1);

    let mut h = com.select_vq(&mut regs, 0).unwrap();
    assert_eq!(h.set_vq_size(&mut regs, 16), 8);
    assert_eq!(regs.device_read_queue(0).unwrap().num, 8);

    assert_eq!(h.set_vq_size(&mut regs, 4), 4);
    assert_eq!(regs.device_read_queue(0).unwrap().num, 4);

    let mut h1 = com.select_vq(&mut regs, 1).unwrap();
    assert_eq!(h1.set_vq_size(&mut regs, 256), 256);
    assert_eq!(regs.device_read_queue(1).unwrap().num, 256);
    assert_eq!(h1.set_vq_size(&mut regs, 0xffff), 256);
    assert_eq!(regs.device_read_queue(1).unwrap().num, 256);
}

#[test]
fn select_vq_iff_queue_exists() {
    let mut regs = demo_regs(vec![8, 0, 64]);
    let mut com = ComCfg::new(&mut regs, 1);

    assert!(com.select_vq(&mut regs, 0).is_some());
    assert!(com.select_vq(&mut regs, 1).is_none());
    assert!(com.select_vq(&mut regs, 2).is_some());
    assert!(com.select_vq(&mut regs, 3).is_none());
    assert!(com.select_vq(&mut regs, 1000).is_none());
}

#[test]
fn select_vq_repeats_without_exhaustion() {
    let mut regs = demo_regs(vec![8]);
    let mut com = ComCfg::new(&mut regs, 1);

    for _ in 0..5 {
        assert!(com.select_vq(&mut regs, 0).is_some());
    }
    assert_eq!(com.get_max_queue_size(&mut regs, 0), 8);
}

#[test]
fn ring_addresses_are_split_into_halves() {
    let mut regs = demo_regs(vec![8]);
    let mut com = ComCfg::new(&mut regs, 1);
    let mut h = com.select_vq(&mut regs, 0).unwrap();

    h.set_ring_addr(&mut regs, 0x1234_5678_9abc_def0);
    h.set_drv_ctrl_addr(&mut regs, 0x0000_0001_0000_0002);
    h.set_dev_ctrl_addr(&mut regs, 0xffff_ffff_ffff_ffff);

    let q = regs.device_read_queue(0).unwrap();
    assert_eq!(q.desc_lo, 0x9abc_def0);
    assert_eq!(q.desc_hi, 0x1234_5678);
    assert_eq!(q.driver_lo, 0x0000_0002);
    assert_eq!(q.driver_hi, 0x0000_0001);
    assert_eq!(q.device_lo, 0xffff_ffff);
    assert_eq!(q.device_hi, 0xffff_ffff);
}

#[test]
fn enable_queue_sets_ready() {
    let mut regs = demo_regs(vec![8, 16]);
    let mut com = ComCfg::new(&mut regs, 1);

    assert!(!com.is_queue_ready(&mut regs, 0));
    let mut h = com.select_vq(&mut regs, 0).unwrap();
    h.enable_queue(&mut regs);
    assert!(com.is_queue_ready(&mut regs, 0));
    assert!(!com.is_queue_ready(&mut regs, 1));
}

#[test]
fn writes_to_nonexistent_queue_are_dropped() {
    let mut regs = demo_regs(vec![8]);
    let mut com = ComCfg::new(&mut regs, 1);

    assert_eq!(regs.set_queue_size(5, 32), 0);
    regs.enable_queue(5);
    assert!(!com.is_queue_ready(&mut regs, 5));
    assert_eq!(regs.device_read_queue(0).unwrap().num, 0);
    assert!(regs.device_read_queue(5).is_none());
}

#[test]
fn notif_off_is_zero() {
    let mut regs = demo_regs(vec![8]);
    let mut com = ComCfg::new(&mut regs, 1);
    let mut h = com.select_vq(&mut regs, 0).unwrap();
    assert_eq!(h.notif_off(), 0);
}
