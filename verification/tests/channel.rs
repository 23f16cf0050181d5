use phytium_ddma::buffer::{DmaBuffer, BUFFER_ALIGN};
use phytium_ddma::chan::mode;
use phytium_ddma::reg::{ChannelImage, DmaChannelRegisters};
use phytium_ddma::{BusOp, Channel, ChannelConfig, DmaDirection};

fn channel_image(ctl: u32) -> ChannelImage {
    ChannelImage {
        ddr_upaddr: 0,
        ddr_lwaddr: 0,
        dev_addr: 0,
        ts: 0,
        crt_upaddr: 0,
        crt_lwaddr: 0,
        ctl,
        sts: 0,
        timeout_cnt: 0,
    }
}

fn config(blk_size: usize, direction: DmaDirection) -> ChannelConfig {
    ChannelConfig {
        slave_id: 3,
        direction,
        timeout_count: 0x1000,
        blk_size,
        dev_addr: 0x2800_d000,
        irq: false,
    }
}

fn make(n: u8, ctl: u32, blk_size: usize, bus_addr: Option<u64>) -> Option<Channel> {
    Channel::new(
        n,
        DmaChannelRegisters::new(n, channel_image(ctl)),
        config(blk_size, DmaDirection::MemoryToDevice),
        bus_addr,
    )
}

#[test]
fn channel_is_constructible_iff_size_and_address_are_aligned() {
    for size in 0..40usize {
        for addr in [0u64, 1, 2, 3, 4, 0x1000, 0x1002, 0xFFFF_FFFF_FFFF_FFFC] {
            let expected = size >= 4 && size % 4 == 0 && addr % 4 == 0;
            assert_eq!(make(0, 0, size, Some(addr)).is_some(), expected, "{size} {addr}");
        }
        assert!(make(0, 0, size, None).is_none());
    }
}

#[test]
fn new_channel_programs_registers_in_order() {
    let mut ch = make(2, 0, 16, Some(0x0000_0001_0000_2000)).unwrap();
    assert_eq!(ch.index(), 2);
    assert_eq!(ch.buff().len(), 16);
    assert_eq!(ch.buff().bus_addr(), 0x1_0000_2000);
    assert!(ch.buff().as_slice().iter().all(|b| *b == 0));
    assert_eq!(ch.reg().image.ddr_lwaddr, 0x2000);
    assert_eq!(ch.reg().image.ddr_upaddr, 1);
    assert_eq!(ch.reg().image.dev_addr, 0x2800_d000);
    assert_eq!(ch.reg().image.ts, 16);
    assert_eq!(
        ch.take_pending(),
        vec![
            BusOp::Write { offset: 0xC4, value: 0x2000 },
            BusOp::Write { offset: 0xC0, value: 1 },
            BusOp::Write { offset: 0xC8, value: 0x2800_d000 },
            BusOp::Write { offset: 0xCC, value: 16 },
            BusOp::Write { offset: 0xD8, value: 0 },
        ]
    );
}

#[test]
fn new_channel_resets_a_channel_left_enabled() {
    let mut ch = make(0, 0x5, 4, Some(0x4000)).unwrap();
    assert_eq!(
        ch.take_pending(),
        vec![
            BusOp::Write { offset: 0x58, value: 0x4 },
            BusOp::AwaitClear { offset: 0x58, mask: 0x1 },
            BusOp::Write { offset: 0x58, value: 0x6 },
            BusOp::Write { offset: 0x58, value: 0x4 },
            BusOp::Write { offset: 0x44, value: 0x4000 },
            BusOp::Write { offset: 0x40, value: 0 },
            BusOp::Write { offset: 0x48, value: 0x2800_d000 },
            BusOp::Write { offset: 0x4C, value: 4 },
            BusOp::Write { offset: 0x58, value: 0 },
        ]
    );
    assert!(!ch.is_running());
}

#[test]
fn direction_is_encoded_in_bit_two() {
    assert_eq!(mode(DmaDirection::MemoryToDevice), 0);
    assert_eq!(mode(DmaDirection::DeviceToMemory), 1);
    let rx = Channel::new(
        1,
        DmaChannelRegisters::new(1, channel_image(0)),
        config(8, DmaDirection::DeviceToMemory),
        Some(0x100),
    )
    .unwrap();
    assert_eq!(rx.reg().image.ctl, 0x4);
    let tx = Channel::new(
        1,
        DmaChannelRegisters::new(1, channel_image(0x4)),
        config(8, DmaDirection::MemoryToDevice),
        Some(0x100),
    )
    .unwrap();
    assert_eq!(tx.reg().image.ctl, 0x0);
}

#[test]
fn active_and_deactive_toggle_the_enable_bit_only() {
    let mut ch = Channel::new(
        1,
        DmaChannelRegisters::new(1, channel_image(0)),
        config(8, DmaDirection::DeviceToMemory),
        Some(0x100),
    )
    .unwrap();
    ch.take_pending();
    assert!(!ch.is_running());
    ch.active();
    assert!(ch.is_running());
    assert_eq!(ch.reg().image.ctl, 0x5);
    ch.deactive();
    assert!(!ch.is_running());
    assert_eq!(ch.reg().image.ctl, 0x4);
    assert_eq!(ch.reg().image.ts, 8);
    ch.active();
    assert_eq!(
        ch.take_pending(),
        vec![
            BusOp::Write { offset: 0x98, value: 0x5 },
            BusOp::Write { offset: 0x98, value: 0x4 },
            BusOp::Write { offset: 0x98, value: 0x5 },
        ]
    );
}

#[test]
fn deactive_on_inactive_channel_changes_no_register() {
    let mut ch = make(4, 0, 8, Some(0x100)).unwrap();
    let before = ch.reg().image;
    ch.deactive();
    assert_eq!(ch.reg().image, before);
    ch.deactive();
    assert_eq!(ch.reg().image, before);
    assert!(!ch.is_running());
}

#[test]
fn reset_pulses_soft_reset_after_waiting() {
    let mut ch = make(7, 0, 8, Some(0x100)).unwrap();
    ch.active();
    ch.take_pending();
    ch.reset();
    assert!(!ch.is_running());
    assert_eq!(ch.reg().image.ctl, 0);
    assert_eq!(
        ch.take_pending(),
        vec![
            BusOp::Write { offset: 0x218, value: 0 },
            BusOp::AwaitClear { offset: 0x218, mask: 1 },
            BusOp::Write { offset: 0x218, value: 2 },
            BusOp::Write { offset: 0x218, value: 0 },
        ]
    );
}

#[test]
fn is_running_follows_a_refreshed_image() {
    let mut ch = make(0, 0, 8, Some(0x100)).unwrap();
    ch.active();
    assert!(ch.is_running());
    let mut image = ch.reg().image;
    image.ctl = 0x4;
    image.sts = 0x2;
    ch.refresh(image);
    assert!(!ch.is_running());
    let dump = ch.debug_registers();
    assert_eq!(dump.n, 0);
    assert_eq!(dump.image, image);
    assert!(!dump.fifo_full);
    assert!(dump.fifo_empty);
    assert!(!dump.enabled);
    assert_eq!(dump.bus_addr, 0x100);
}

#[test]
fn debug_registers_decodes_flags() {
    let mut ch = make(0, 0, 8, Some(0x100)).unwrap();
    let mut image = ch.reg().image;
    image.ctl = 0x1;
    image.sts = 0x1;
    ch.refresh(image);
    let dump = ch.debug_registers();
    assert!(dump.fifo_full);
    assert!(!dump.fifo_empty);
    assert!(dump.enabled);
}

#[test]
fn buffer_round_trip() {
    let mut ch = make(0, 0, 8, Some(0x100)).unwrap();
    ch.buff_mut().write(2, b"AB\r\n");
    assert_eq!(ch.buff().read(2, 4), b"AB\r\n".to_vec());
    assert_eq!(ch.buff().as_slice(), &[0, 0, b'A', b'B', b'\r', b'\n', 0, 0]);
    ch.buff_mut().set(7, 0xEE);
    assert_eq!(ch.buff().get(7), Some(0xEE));
    assert_eq!(ch.buff().get(6), Some(0));
    assert_eq!(ch.buff().get(8), None);
    assert_eq!(ch.buff().bus_addr(), 0x100);
}

#[test]
fn buffer_zeros() {
    let b = DmaBuffer::zeros(5, 0xABCD);
    assert_eq!(b.len(), 5);
    assert!(!b.is_empty());
    assert_eq!(b.bus_addr(), 0xABCD);
    assert_eq!(b.as_slice(), &[0u8; 5]);
    assert!(DmaBuffer::zeros(0, 0).is_empty());
    assert_eq!(BUFFER_ALIGN, 128);
}

#[test]
fn transfer_size_is_stored_as_32_bits() {
    let ch = make(0, 0, 0x1000, Some(0xFFFF_FFFF_0000_0000)).unwrap();
    assert_eq!(ch.reg().image.ts, 0x1000);
    assert_eq!(ch.reg().image.ddr_lwaddr, 0);
    assert_eq!(ch.reg().image.ddr_upaddr, 0xFFFF_FFFF);
}
