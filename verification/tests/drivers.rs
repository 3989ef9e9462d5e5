use starry::cvitek_nic::{
    buffer_descriptor, dma_reset_late, dma_reset_pending, dma_reset_request,
    mac_address_from_regs, CvitekNic, CvitekNicDevice, Des, Dma, Packet, RxRing, TxRing,
    CONFIG_RX_DESCR_NUM, RX_DESC_PHYS_ADDR, TX_DESC_PHYS_ADDR, TX_DESCR_NUM,
};
use starry::cvitek_phy::{
    configure, configure_head, configure_tail, configure_trim_echo_rc, configure_trim_tx_itune,
    configure_trim_txrx_term, eth_config_read_addr, eth_config_values, ffs, mdio_idle, mdio_polling,
    mii_read_command, mii_write_command, phy_id, phy_id_valid, CvitekPhyDevice, PhyProbe,
    PhyReset,
};
use starry::dma_remap::dma_hs_remap_values;
use starry::mmio::{modify_value, RegOp};
use starry::plic::{
    classify_trap, claimed_irq, percpu_init_sources, intc_irq_base_value, plic_claim_reg, plic_pending_bit, plic_prio_reg,
    plic_threshold_reg, prio_update, register_handler, PlicEnable, RegisterAction, TrapCause,
};

fn des(status: u32, cntl: u32) -> Des {
    Des { txrx_status: status, dmamac_cntl: cntl, dmamac_addr: 0, dmamac_next: 0 }
}

#[test]
fn ffs_finds_the_lowest_set_bit() {
    assert_eq!(ffs(0), 0);
    assert_eq!(ffs(1), 1);
    assert_eq!(ffs(0xffffffff), 1);
    assert_eq!(ffs(0b1000), 4);
    assert_eq!(ffs(0b1011000), 4);
    assert_eq!(ffs(0x100), 9);
    assert_eq!(ffs(0x8000), 16);
    assert_eq!(ffs(0x10000), 17);
    assert_eq!(ffs(0x00f0_0000), 21);
    assert_eq!(ffs(0x0100_0000), 25);
    assert_eq!(ffs(0x8000_0000), 32);
    for n in 0..32u32 {
        assert_eq!(ffs(1u32 << n), n as i32 + 1);
        assert_eq!(ffs(u32::MAX << n), n as i32 + 1);
    }
}

#[test]
fn mii_commands() {
    assert_eq!(mii_read_command(0, 0), 0x11);
    assert_eq!(mii_read_command(1, 2), (1 << 11) | (2 << 6) | 0x11);
    assert_eq!(mii_read_command(0x3f, 0x3f), (0x1f << 11) | (0x1f << 6) | 0x11);
    assert_eq!(mii_write_command(1, 2), (1 << 11) | (2 << 6) | 0x13);
    assert!(mdio_idle(0x10));
    assert!(!mdio_idle(0x11));
    assert!(mdio_polling(100, 3099));
    assert!(!mdio_polling(100, 3100));
}

#[test]
fn phy_id_and_probe() {
    assert_eq!(phy_id(0x0243, 0x0c54), 0x0243_0c54);
    assert!(phy_id_valid(0x0243_0c54));
    assert!(!phy_id_valid(0xffff_ffff));
    assert!(!phy_id_valid(0x1fff_ffff));
    let mut phy = CvitekPhyDevice::new(0x1000);
    assert_eq!(phy.mii_addr_reg(), 0x1010);
    assert_eq!(phy.mii_data_reg(), 0x1014);
    let mut probe = PhyProbe::new(0b0110);
    assert_eq!(probe.next_addr(), Some(1));
    assert!(!phy.get_phy_by_mask_step(&mut probe, 1, Err(-1)));
    assert_eq!(phy.phy_addr(), 0);
    // The search keeps probing the lowest address of the initial mask.
    assert_eq!(probe.next_addr(), Some(1));
    assert!(phy.get_phy_by_mask_step(&mut probe, 1, Ok(0x0243_0c54)));
    assert_eq!(phy.phy_addr(), 1);
    let mut empty = PhyProbe::new(0);
    assert_eq!(empty.next_addr(), None);
    let mut single = PhyProbe::new(0b100);
    assert_eq!(single.next_addr(), Some(2));
    assert!(!single.record(2, Ok(0xffff_ffff)));
    assert_eq!(single.next_addr(), None);
    phy.start();
    phy.stop();
}

#[test]
fn phy_reset_polls() {
    assert_eq!(PhyReset::request(0x1140), 0x9140);
    let mut r = PhyReset::new();
    assert!(r.poll(0x1140));
    let mut r = PhyReset::new();
    let mut polls = 0;
    while !r.poll(0x8000) {
        polls += 1;
    }
    assert_eq!(polls, 600);
    assert!(PhyReset::timed_out(0x8000));
    assert!(!PhyReset::timed_out(0x1000));
}

#[test]
fn eth_config() {
    assert_eq!(eth_config_read_addr(), 0x03009000);
    let (a, b, c) = eth_config_values(0x0000_00ff);
    assert_eq!(a, 0xfb);
    assert_eq!(b, 0xf9);
    assert_eq!(c, 0xffff_ffff);
}

#[test]
fn configure_program_branches() {
    let none = configure(0, 0, 0);
    let all = configure(0x200, 0x100, 0x800);
    let mut staged = configure_head();
    staged.extend(configure_trim_tx_itune(0x200));
    staged.extend(configure_trim_echo_rc(0x100));
    staged.extend(configure_trim_txrx_term(0x800));
    staged.extend(configure_tail());
    assert_eq!(staged, all);
    assert_eq!(configure_head().len(), 6);
    assert_eq!(configure_trim_tx_itune(0x100), vec![RegOp::Write { addr: 0x03009064, value: 0x5a5a }]);
    assert_eq!(configure_trim_echo_rc(0x900)[1], RegOp::Modify { addr: 0x03009054, clear: 0xff00, set: 0 });
    assert_eq!(configure_trim_txrx_term(0)[0], RegOp::Write { addr: 0x03009058, value: 0x0bb0 });
    assert_eq!(*configure_tail().last().unwrap(), RegOp::Write { addr: 0x03009804, value: 0 });
    assert_eq!(none.len() + 3, all.len());
    assert_eq!(none[0], RegOp::Write { addr: 0x03009804, value: 0x0001 });
    assert_eq!(none[6], RegOp::Write { addr: 0x03009064, value: 0x5a5a });
    assert_eq!(all[6], RegOp::Read { addr: 0x03051024 });
    assert_eq!(all[7], RegOp::Modify { addr: 0x03009064, clear: 0xffff, set: 0 });
    assert_eq!(*none.last().unwrap(), RegOp::Write { addr: 0x03009804, value: 0x0000 });
    let writes = none.iter().filter(|op| matches!(op, RegOp::Write { .. })).count();
    let modifies = none.iter().filter(|op| matches!(op, RegOp::Modify { .. })).count();
    assert_eq!((writes, modifies), (107, 2));
    assert!(none.contains(&RegOp::Modify { addr: 0x03009040, clear: 0, set: 1 }));
    assert!(none.contains(&RegOp::Modify { addr: 0x03009068, clear: 0x0f00, set: 0 }));
    assert_eq!(modify_value(0xffff, 0x0f00, 0x1), 0xf0ff);
}

#[test]
fn dma_ring_addresses() {
    let d: Dma<Des> = Dma::new(0x4000, 0x8000, 4);
    assert_eq!(d.element_addr(0), Some(0x4000));
    assert_eq!(d.element_addr(3), Some(0x4000 + 3 * 16));
    assert_eq!(d.element_addr(4), None);
    let p = Packet::new(0x1234, 60);
    assert_eq!((p.skb_va, p.len), (0x1234, 60));
}

#[test]
fn descriptors_carry_the_buffer_address() {
    let d = buffer_descriptor(0x12_3456_7890);
    assert_eq!(d, des(0x3456_7890, 0x12));
    let d = buffer_descriptor(0xab_12_3456_7890);
    assert_eq!(d, des(0x3456_7890, 0x12));
}

#[test]
fn rings() {
    let mut rx = RxRing::new(0x7000);
    assert_eq!((rx.idx, rx.skbuf.len(), rx.rd.count, rx.rd.phy_addr), (0, 0, CONFIG_RX_DESCR_NUM, RX_DESC_PHYS_ADDR));
    rx.init_dma_desc_rings();
    rx.set_head_tail_ptr(0);
    let w = rx.set_idx_addr_owner(2, 0x12_1000_0000).unwrap();
    assert_eq!(w.addr, 0x7000 + 2 * 16);
    assert_eq!(w.desc, des(0x9000_0000, 0x12));
    assert!(w.desc.txrx_status & 0x8000_0000 != 0);
    assert!(rx.set_idx_addr_owner(64, 0x9000_0000).is_none());
    let mut tx = TxRing::new(0x8000);
    assert_eq!((tx.idx, tx.td.count, tx.td.phy_addr), (0, TX_DESCR_NUM, TX_DESC_PHYS_ADDR));
    tx.init_dma_desc_rings();
    let w = tx.set_idx_addr_owner(1, true, true, false, true, 0x9100_0000, 60, 0xff00);
    assert_eq!(w.addr, 0x8000 + 16);
    assert_eq!(w.desc, des(0x9100_0000, 0));
    assert_eq!(tx.skbuf, vec![0xff00]);
    tx.set_tail_ptr(0);
}

#[test]
fn nic_receive_and_transmit() {
    let mut dev = CvitekNicDevice::new(0x0407_0000, 0x10_0000, 0x7000, 0x8000);
    assert!(dev.receive(des(0x8000_0000, 0)).is_none());
    assert_eq!(dev.rx_rings().idx, 0);
    let w = dev.transmit(Packet::new(0xa000, 42), 0x9100_0000, 0xa000);
    assert_eq!(w.addr, 0x8000);
    assert_eq!(dev.get_tx_idx(), 1);
    assert_eq!(dev.tx_rings().skbuf, vec![0xa000]);
    for _ in 0..511 {
        dev.transmit(Packet::new(0xa000, 42), 0x9100_0000, 0xa000);
    }
    assert_eq!(dev.get_tx_idx(), 0);
    assert_eq!(dev.bus_mode_reg(), 0x10_1000);
    let prog = dev.init_program();
    assert_eq!(prog[0], RegOp::Write { addr: 0x10_1018, value: 0x2202906 });
    assert_eq!(prog[3], RegOp::Write { addr: 0x10_101c, value: 0x10040 });
    assert_eq!(dev.mac_address_regs(), (0x10_0040, 0x10_0044));
}

#[test]
fn nic_receive_takes_the_buffer_of_the_index() {
    let dev = CvitekNicDevice::new(0x0407_0000, 0x10_0000, 0x7000, 0x8000);
    let mut nic = CvitekNic::init(dev);
    assert_eq!(nic.tx_buffer_phys(), 0x9100_0000);
    let p = nic.tx_buffer_packet(0x5000, 100);
    assert_eq!((p.skb_va, p.len), (0x5000, 100));
    nic.device_mut().transmit(Packet::new(0xa000, 42), 0x9100_0000, 0xa000);
    assert_eq!(nic.tx_buffer_phys(), 0x9100_1000);
    let p = nic.tx_buffer_packet(0x6000, 100);
    assert_eq!(p.skb_va, 0x7000);
    assert_eq!(nic.device().get_tx_idx(), 1);
}

#[test]
fn dma_reset_and_mac_address() {
    assert_eq!(dma_reset_request(0x10), 0x11);
    assert!(dma_reset_pending(0x11));
    assert!(!dma_reset_pending(0x10));
    assert!(dma_reset_late(0, 3000));
    assert!(!dma_reset_late(0, 2999));
    assert_eq!(mac_address_from_regs(0xffff_0605, 0x0403_0201), [1, 2, 3, 4, 5, 6]);
}

#[test]
fn plic_registers() {
    let e = PlicEnable::new(33);
    assert_eq!(e.prio_addr, 0x7000_0000 + 4 * 33);
    assert_eq!(e.sie_addr, 0x7000_2080 + 4);
    assert_eq!(e.mask, 1 << 1);
    assert_eq!(e.sie_update(0b100, true), 0b110);
    assert_eq!(e.sie_update(0b110, false), 0b100);
    assert_eq!(prio_update(7), None);
    assert_eq!(prio_update(1), Some(7));
    assert_eq!(plic_prio_reg(5), 0x7000_0014);
    assert_eq!(plic_threshold_reg(), 0x7020_1000);
    assert_eq!(plic_claim_reg(), 0x7020_1004);
    assert_eq!(claimed_irq(0), None);
    assert_eq!(claimed_irq(32), Some(32));
    assert_eq!(plic_pending_bit(32), (0x7000_1004, 1));
    assert_eq!(plic_pending_bit(5), (0x7000_1000, 1 << 5));
}

#[test]
fn trap_causes_and_registration() {
    let base = intc_irq_base_value();
    assert_eq!(base, 1usize << (usize::BITS - 1));
    assert_eq!(classify_trap(base + 5), Some(TrapCause::Timer));
    assert_eq!(classify_trap(base + 9), Some(TrapCause::External { irq: 9 }));
    assert_eq!(classify_trap(base + 1), None);
    assert_eq!(register_handler(base + 5, false), RegisterAction::SetTimer);
    assert_eq!(register_handler(base + 5, true), RegisterAction::TimerTaken);
    assert_eq!(register_handler(base + 9, true), RegisterAction::External { irq: 9 });
}

#[test]
fn dma_remap_values() {
    assert_eq!(dma_hs_remap_values(), (0x8007_0d0c, 0xa602_1514));
}

#[test]
fn percpu_sources() {
    let s = percpu_init_sources();
    assert_eq!(s.len(), 127);
    assert_eq!(s[0], 1);
    assert_eq!(s[126], 127);
}
