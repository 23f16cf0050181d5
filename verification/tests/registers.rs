use phytium_ddma::field::{Field, FieldValue};
use phytium_ddma::reg::{
    channel_offset, ChannelImage, ChannelReg, DdmaImage, DdmaRegister, DmaChannelRegisters,
    GlobalReg, CHANNEL_BASE_OFFSET, CHANNEL_REGISTER_SIZE, MAX_CHANNELS,
};
use phytium_ddma::BusOp;

fn zero_image() -> DdmaImage {
    DdmaImage {
        dma_ctl: 0,
        dma_chal_config: 0,
        dma_stat: 0,
        dma_mask_int: 0,
        dma_upaxi_awconfig: 0,
        dma_upaxi_arconfig: 0,
        dma_dwnaxi_awconfig: 0,
        dma_dwnaxi_arconfig: 0,
        dma_channel_bind: 0,
        dma_gcap: 0,
        dma_chal_config1: 0,
    }
}

fn zero_channel_image() -> ChannelImage {
    ChannelImage {
        ddr_upaddr: 0,
        ddr_lwaddr: 0,
        dev_addr: 0,
        ts: 0,
        crt_upaddr: 0,
        crt_lwaddr: 0,
        ctl: 0,
        sts: 0,
        timeout_cnt: 0,
    }
}

#[test]
fn layout_constants() {
    assert_eq!(MAX_CHANNELS, 8);
    assert_eq!(CHANNEL_REGISTER_SIZE, 0x40);
    assert_eq!(CHANNEL_BASE_OFFSET, 0x40);
    assert_eq!(GlobalReg::Ctl.offset(), 0x00);
    assert_eq!(GlobalReg::ChalConfig.offset(), 0x04);
    assert_eq!(GlobalReg::Stat.offset(), 0x08);
    assert_eq!(GlobalReg::MaskInt.offset(), 0x0C);
    assert_eq!(GlobalReg::ChannelBind.offset(), 0x20);
    assert_eq!(GlobalReg::Gcap.offset(), 0x24);
    assert_eq!(GlobalReg::ChalConfig1.offset(), 0x28);
    assert_eq!(ChannelReg::DdrUpaddr.offset(), 0x00);
    assert_eq!(ChannelReg::DdrLwaddr.offset(), 0x04);
    assert_eq!(ChannelReg::DevAddr.offset(), 0x08);
    assert_eq!(ChannelReg::Ts.offset(), 0x0C);
    assert_eq!(ChannelReg::Ctl.offset(), 0x18);
    assert_eq!(ChannelReg::Sts.offset(), 0x1C);
    assert_eq!(ChannelReg::TimeoutCnt.offset(), 0x20);
}

#[test]
fn channel_blocks_follow_at_fixed_stride() {
    assert_eq!(channel_offset(0), 0x40);
    assert_eq!(channel_offset(1), 0x80);
    assert_eq!(channel_offset(7), 0x200);
    let regs = DmaChannelRegisters::new(3, zero_channel_image());
    assert_eq!(regs.offset_of(ChannelReg::Ctl), 0x40 + 3 * 0x40 + 0x18);
}

#[test]
fn set_channel_config_encodes_selection_and_enable() {
    let mut regs = DdmaRegister::new(zero_image());
    regs.set_channel_config(5, 0x23, true);
    assert_eq!(regs.image.dma_chal_config1, 0xA300);
    assert_eq!(regs.image.dma_chal_config, 0);
    assert_eq!(regs.pending, vec![BusOp::Write { offset: 0x28, value: 0xA300 }]);
}

#[test]
fn set_channel_config_cuts_selection_to_seven_bits() {
    let mut regs = DdmaRegister::new(zero_image());
    regs.set_channel_config(1, 0xFF, true);
    assert_eq!(regs.image.dma_chal_config, 0xFF00);
    let mut regs = DdmaRegister::new(zero_image());
    regs.set_channel_config(1, 0x1FF, false);
    assert_eq!(regs.image.dma_chal_config, 0x7F00);
}

#[test]
fn set_channel_config_keeps_other_channels() {
    let mut image = zero_image();
    image.dma_chal_config = 0xFFFF_FFFF;
    let mut regs = DdmaRegister::new(image);
    regs.set_channel_config(1, 0, false);
    assert_eq!(regs.image.dma_chal_config, 0xFFFF_00FF);
    regs.set_channel_config(3, 0x12, true);
    assert_eq!(regs.image.dma_chal_config, 0x92FF_00FF);
    assert_eq!(
        regs.pending,
        vec![
            BusOp::Write { offset: 0x04, value: 0xFFFF_00FF },
            BusOp::Write { offset: 0x04, value: 0x92FF_00FF },
        ]
    );
}

#[test]
fn set_channel_interrupt_mask_touches_one_bit() {
    let mut image = zero_image();
    image.dma_mask_int = 0x8000_0001;
    let mut regs = DdmaRegister::new(image);
    regs.set_channel_interrupt_mask(3, true);
    assert_eq!(regs.image.dma_mask_int, 0x8000_0009);
    regs.set_channel_interrupt_mask(0, false);
    assert_eq!(regs.image.dma_mask_int, 0x8000_0008);
    assert_eq!(
        regs.pending,
        vec![
            BusOp::Write { offset: 0x0C, value: 0x8000_0009 },
            BusOp::Write { offset: 0x0C, value: 0x8000_0008 },
        ]
    );
}

#[test]
fn set_channel_interrupt_mask_ignores_channel_out_of_range() {
    let mut regs = DdmaRegister::new(zero_image());
    regs.set_channel_interrupt_mask(8, true);
    assert_eq!(regs.image, zero_image());
    assert!(regs.pending.is_empty());
}

#[test]
fn is_channel_complete_reads_every_fourth_bit() {
    let mut image = zero_image();
    image.dma_stat = 0x1000_0011;
    let regs = DdmaRegister::new(image);
    let done: Vec<bool> = (0..9).map(|ch| regs.is_channel_complete(ch)).collect();
    assert_eq!(done, vec![true, true, false, false, false, false, false, true, false]);
    let mut image = zero_image();
    image.dma_stat = 0xEEEE_EEEE;
    let regs = DdmaRegister::new(image);
    assert!((0..8).all(|ch| !regs.is_channel_complete(ch)));
}

#[test]
fn clear_channel_complete_stores_a_single_one() {
    let mut image = zero_image();
    image.dma_stat = 0x11;
    let mut regs = DdmaRegister::new(image);
    regs.clear_channel_complete(1);
    assert_eq!(regs.image.dma_stat, 0x01);
    assert_eq!(regs.pending, vec![BusOp::Write { offset: 0x08, value: 0x10 }]);
    regs.clear_channel_complete(9);
    assert_eq!(regs.image.dma_stat, 0x01);
    assert_eq!(regs.pending.len(), 1);
}

#[test]
fn bind_bitmap_round_trip() {
    let mut regs = DdmaRegister::new(zero_image());
    assert!(!regs.is_channel_bind(7));
    regs.set_channel_bind(7, true);
    regs.set_channel_bind(2, true);
    assert!(regs.is_channel_bind(7));
    assert!(regs.is_channel_bind(2));
    assert!(!regs.is_channel_bind(3));
    assert_eq!(regs.image.dma_channel_bind, 0x84);
    regs.set_channel_bind(7, false);
    assert_eq!(regs.image.dma_channel_bind, 0x04);
    assert_eq!(
        regs.pending,
        vec![
            BusOp::Write { offset: 0x20, value: 0x80 },
            BusOp::Write { offset: 0x20, value: 0x84 },
            BusOp::Write { offset: 0x20, value: 0x04 },
        ]
    );
}

#[test]
fn bind_bitmap_ignores_channel_out_of_range() {
    let mut image = zero_image();
    image.dma_channel_bind = 0x100;
    let mut regs = DdmaRegister::new(image);
    assert!(!regs.is_channel_bind(8));
    regs.set_channel_bind(8, true);
    assert_eq!(regs.image.dma_channel_bind, 0x100);
    assert!(regs.pending.is_empty());
}

#[test]
fn status_register_is_write_one_to_clear() {
    let mut image = zero_image();
    image.dma_stat = 0x1111_0000;
    let mut regs = DdmaRegister::new(image);
    regs.set(GlobalReg::Stat, 0x0101_0001);
    assert_eq!(regs.get(GlobalReg::Stat), 0x1010_0000);
    regs.set(GlobalReg::Stat, 0);
    assert_eq!(regs.get(GlobalReg::Stat), 0x1010_0000);
}

#[test]
fn capability_register_ignores_stores() {
    let mut image = zero_image();
    image.dma_gcap = 8;
    let mut regs = DdmaRegister::new(image);
    regs.set(GlobalReg::Gcap, 0);
    assert_eq!(regs.get(GlobalReg::Gcap), 8);
    assert_eq!(regs.pending, vec![BusOp::Write { offset: 0x24, value: 0 }]);
}

#[test]
fn modify_keeps_bits_outside_the_field() {
    let mut image = zero_image();
    image.dma_ctl = 0xFFFF_FFF0;
    let mut regs = DdmaRegister::new(image);
    regs.modify(GlobalReg::Ctl, FieldValue { mask: 0x0000_0F0F, value: 0x0000_0A05 });
    assert_eq!(regs.get(GlobalReg::Ctl), 0xFFFF_FAF5);
    regs.write(GlobalReg::Ctl, FieldValue { mask: 0x2, value: 0x2 });
    assert_eq!(regs.get(GlobalReg::Ctl), 0x2);
}

#[test]
fn is_set_looks_at_the_field_only() {
    let mut image = zero_image();
    image.dma_mask_int = 0x8000_0000;
    let regs = DdmaRegister::new(image);
    assert!(regs.is_set(GlobalReg::MaskInt, Field::bit(31)));
    assert!(!regs.is_set(GlobalReg::MaskInt, Field::bit(30)));
    assert!(regs.is_set(GlobalReg::MaskInt, Field { mask: 0x3, shift: 30 }));
}

#[test]
fn take_pending_drains_the_journal_in_order() {
    let mut regs = DdmaRegister::new(zero_image());
    regs.set(GlobalReg::Ctl, 1);
    regs.set(GlobalReg::MaskInt, 2);
    let ops = regs.take_pending();
    assert_eq!(
        ops,
        vec![BusOp::Write { offset: 0, value: 1 }, BusOp::Write { offset: 0x0C, value: 2 }]
    );
    assert!(regs.pending.is_empty());
    assert_eq!(regs.image.dma_ctl, 1);
}

#[test]
fn channel_registers_journal_absolute_offsets() {
    let mut regs = DmaChannelRegisters::new(2, zero_channel_image());
    regs.set(ChannelReg::Ts, 64);
    regs.modify(ChannelReg::Ctl, FieldValue { mask: 0x4, value: 0x4 });
    regs.await_clear(ChannelReg::Ctl, Field::bit(2));
    assert_eq!(regs.get(ChannelReg::Ts), 64);
    assert_eq!(regs.get(ChannelReg::Ctl), 0);
    assert!(!regs.is_set(ChannelReg::Ctl, Field::bit(2)));
    assert_eq!(
        regs.take_pending(),
        vec![
            BusOp::Write { offset: 0xCC, value: 64 },
            BusOp::Write { offset: 0xD8, value: 4 },
            BusOp::AwaitClear { offset: 0xD8, mask: 4 },
        ]
    );
}
