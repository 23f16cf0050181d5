//! One transfer channel: its buffer, its register sub-block, and the
//! sequences of register operations that configure, reset, start and stop it.

use crate::buffer::{DmaBuffer, DmaBufferModel};
use crate::bus::BusOp;
use crate::field::field_val;
use crate::field::Field;
use crate::reg::{ChannelImage, ChannelReg, ChannelRegsModel, DmaChannelRegisters};
use crate::reg::{CHALX_EN, CHALX_MODE, CHALX_SRST, FIFO_EMPTY, FIFO_FULL, MODE_RX, MODE_TX};
use crate::types::DmaDirection;
use vstd::prelude::*;

verus! {

/// What a caller asks of a new channel.
#[derive(Debug, Clone, Copy)]
pub struct ChannelConfig {
    /// Request line of the peripheral, 0 to 31.
    pub slave_id: u8,
    /// Direction of the transfers.
    pub direction: DmaDirection,
    /// Threshold of the hardware timeout.
    pub timeout_count: u32,
    /// Size in bytes of the block to transfer, and of the buffer.
    pub blk_size: usize,
    /// Address on the device side.
    pub dev_addr: u32,
    /// Whether completion raises the interrupt line.
    pub irq: bool,
}

/// The value of the direction bit for `direction`.
pub open spec fn spec_mode(direction: DmaDirection) -> u32 {
    match direction {
        DmaDirection::MemoryToDevice => MODE_TX,
        DmaDirection::DeviceToMemory => MODE_RX,
    }
}

/// Whether a buffer of `blk_size` bytes at `bus_addr` can serve a channel:
/// the address is a multiple of four, and the size is a multiple of four and
/// at least four.
pub open spec fn spec_transfer_ok(bus_addr: u64, blk_size: usize) -> bool {
    bus_addr % 4 == 0 && blk_size >= 4 && blk_size % 4 == 0
}

impl ChannelRegsModel {
    /// Whether the channel's enable bit is set.
    pub open spec fn is_running(self) -> bool {
        Field::bit(CHALX_EN).spec_is_set(self.image.ctl)
    }

    /// Setting the enable bit.
    pub open spec fn active(self) -> ChannelRegsModel {
        self.modify(ChannelReg::Ctl, Field::bit(CHALX_EN).spec_val(1))
    }

    /// Clearing the enable bit.
    pub open spec fn deactive(self) -> ChannelRegsModel {
        self.modify(ChannelReg::Ctl, Field::bit(CHALX_EN).spec_val(0))
    }

    /// The reset sequence: clear the enable bit, wait until it reads as
    /// clear, then set and clear the soft-reset bit.
    pub open spec fn reset(self) -> ChannelRegsModel {
        self.deactive().await_clear(ChannelReg::Ctl, Field::bit(CHALX_EN)).modify(
            ChannelReg::Ctl,
            Field::bit(CHALX_SRST).spec_val(1),
        ).modify(ChannelReg::Ctl, Field::bit(CHALX_SRST).spec_val(0))
    }

    /// The programming sequence of a new channel: the reset sequence if the
    /// channel was left enabled; then the buffer's bus address, lower half
    /// first, the device address, the size, and the direction.
    pub open spec fn program(self, bus_addr: u64, config: ChannelConfig) -> ChannelRegsModel {
        let start = if self.is_running() {
            self.reset()
        } else {
            self
        };
        start.set(ChannelReg::DdrLwaddr, (bus_addr & 0xFFFF_FFFF) as u32).set(
            ChannelReg::DdrUpaddr,
            (bus_addr >> 32) as u32,
        ).set(ChannelReg::DevAddr, config.dev_addr).set(
            ChannelReg::Ts,
            config.blk_size as u32,
        ).modify(ChannelReg::Ctl, Field::bit(CHALX_MODE).spec_val(spec_mode(config.direction)))
    }
}

/// Mathematical model of a channel.
pub struct ChannelModel {
    pub n: u8,
    pub reg: ChannelRegsModel,
    pub buff: DmaBufferModel,
}

/// What `Channel::new` makes of its arguments: nothing without a buffer or
/// with one that cannot serve; else the channel with its registers
/// programmed and a buffer of `blk_size` zero bytes.
pub open spec fn spec_new_channel(
    n: u8,
    reg: ChannelRegsModel,
    config: ChannelConfig,
    bus_addr: Option<u64>,
) -> Option<ChannelModel> {
    match bus_addr {
        Some(addr) if spec_transfer_ok(addr, config.blk_size) => Some(
            ChannelModel {
                n,
                reg: reg.program(addr, config),
                buff: DmaBufferModel {
                    bus_addr: addr,
                    bytes: Seq::new(config.blk_size as nat, |i: int| 0u8),
                },
            },
        ),
        _ => None,
    }
}

/// What the registers of a channel show, decoded.
#[derive(Debug, Clone, Copy, PartialEq, Eq)]
pub struct ChannelDebug {
    /// Channel number.
    pub n: u8,
    /// The raw registers.
    pub image: ChannelImage,
    /// FIFO-full flag of the status register.
    pub fifo_full: bool,
    /// FIFO-empty flag of the status register.
    pub fifo_empty: bool,
    /// Enable bit of the control register.
    pub enabled: bool,
    /// Bus address of the buffer.
    pub bus_addr: u64,
}

/// One transfer channel.
#[derive(Debug)]
pub struct Channel {
    n: u8,
    reg: DmaChannelRegisters,
    buff: DmaBuffer,
}

impl View for Channel {
    type V = ChannelModel;

    closed spec fn view(&self) -> ChannelModel {
        ChannelModel { n: self.n, reg: self.reg@, buff: self.buff@ }
    }
}

/// The value of the direction bit for `direction`.
pub fn mode(direction: DmaDirection) -> (m: u32)
    ensures
        m == spec_mode(direction),
{
    match direction {
        DmaDirection::MemoryToDevice => MODE_TX,
        DmaDirection::DeviceToMemory => MODE_RX,
    }
}

impl Channel {
    /// Makes channel `n` over the register sub-block `reg`. `bus_addr` is
    /// what the platform's allocator answered to a request for
    /// `config.blk_size` bytes: the bus address of the allocation, or nothing
    /// if there is no memory.
    ///
    /// Fails, leaving nothing behind, if there is no buffer, if its bus
    /// address is not a multiple of four, or if the size is below four or not
    /// a multiple of four. Otherwise resets a channel that was left enabled,
    /// and programs the buffer address, the device address, the size and the
    /// direction, in this order.
    pub fn new(n: u8, reg: DmaChannelRegisters, config: ChannelConfig, bus_addr: Option<u64>) -> (r:
        Option<Channel>)
        ensures
            r.is_some() <==> (bus_addr matches Some(addr) && spec_transfer_ok(
                addr,
                config.blk_size,
            )),
            match r {
                Some(ch) => Some(ch@) == spec_new_channel(n, reg@, config, bus_addr),
                None => spec_new_channel(n, reg@, config, bus_addr).is_none(),
            },
    {
        let ddr = match bus_addr {
            Some(addr) => addr,
            None => { return None; },
        };
        if ddr % 4 != 0 {
            return None;
        }
        if config.blk_size < 4 || config.blk_size % 4 != 0 {
            return None;
        }
        let mut s = Channel { n, reg, buff: DmaBuffer::zeros(config.blk_size, ddr) };
        if s.is_running() {
            s.reset();
        }
        s.reg.set(ChannelReg::DdrLwaddr, (ddr & 0xFFFF_FFFF) as u32);
        s.reg.set(ChannelReg::DdrUpaddr, (ddr >> 32) as u32);
        s.reg.set(ChannelReg::DevAddr, config.dev_addr);
        s.reg.set(ChannelReg::Ts, #[verifier::truncate] (config.blk_size as u32));
        s.reg.modify(ChannelReg::Ctl, field_val(Field::bit(CHALX_MODE), mode(config.direction)));
        Some(s)
    }

    /// The channel's number.
    pub fn index(&self) -> (n: u8)
        ensures
            n == self@.n,
    {
        self.n
    }

    /// Stops the channel and resets its internal registers and FIFO: clears
    /// the enable bit, has the platform wait until the hardware shows it
    /// clear, then pulses the soft-reset bit.
    pub fn reset(&mut self)
        ensures
            final(self)@ == (ChannelModel { reg: old(self)@.reg.reset(), ..old(self)@ }),
    {
        self.reg.modify(ChannelReg::Ctl, field_val(Field::bit(CHALX_EN), 0));
        self.reg.await_clear(ChannelReg::Ctl, Field::bit(CHALX_EN));
        self.reg.modify(ChannelReg::Ctl, field_val(Field::bit(CHALX_SRST), 1));
        self.reg.modify(ChannelReg::Ctl, field_val(Field::bit(CHALX_SRST), 0));
    }

    /// Starts the channel: sets its enable bit and nothing else. A completion
    /// flag left from an earlier transfer stays; see `clear_and_active`.
    pub fn active(&mut self)
        ensures
            final(self)@ == (ChannelModel { reg: old(self)@.reg.active(), ..old(self)@ }),
    {
        self.reg.modify(ChannelReg::Ctl, field_val(Field::bit(CHALX_EN), 1));
    }

    /// Clears the channel's completion flag at the controller, then starts
    /// the channel.
    pub fn clear_and_active(&mut self, dma: &mut crate::ddma::DDMA)
        ensures
            final(dma)@ == old(dma)@.clear_channel_complete(old(self)@.n as int),
            final(self)@ == (ChannelModel { reg: old(self)@.reg.active(), ..old(self)@ }),
    {
        dma.clear_transfer_complete(self.n);
        self.active();
    }

    /// Stops the channel: clears its enable bit and keeps its configuration,
    /// so that it can be started again as it is.
    pub fn deactive(&mut self)
        ensures
            final(self)@ == (ChannelModel { reg: old(self)@.reg.deactive(), ..old(self)@ }),
    {
        self.reg.modify(ChannelReg::Ctl, field_val(Field::bit(CHALX_EN), 0));
    }

    /// The channel's register sub-block.
    pub fn reg(&self) -> (r: &DmaChannelRegisters)
        ensures
            r@ == self@.reg,
    {
        &self.reg
    }

    /// The channel's buffer.
    pub fn buff(&self) -> (b: &DmaBuffer)
        ensures
            b@ == self@.buff,
    {
        &self.buff
    }

    /// The channel's buffer, to write to. Whatever the caller leaves in it is
    /// the channel's buffer afterwards; number and registers stay.
    pub fn buff_mut(&mut self) -> (b: &mut DmaBuffer)
        ensures
            b@ == old(self)@.buff,
            final(self)@ == (ChannelModel { buff: final(b)@, ..old(self)@ }),
    {
        &mut self.buff
    }

    /// The registers of the channel as the image shows them, with the flags
    /// of the status and control registers decoded.
    pub fn debug_registers(&self) -> (d: ChannelDebug)
        ensures
            d.n == self@.n,
            d.image == self@.reg.image,
            d.fifo_full == Field::bit(FIFO_FULL).spec_is_set(self@.reg.image.sts),
            d.fifo_empty == Field::bit(FIFO_EMPTY).spec_is_set(self@.reg.image.sts),
            d.enabled == self@.reg.is_running(),
            d.bus_addr == self@.buff.bus_addr,
    {
        ChannelDebug {
            n: self.n,
            image: self.reg.image,
            fifo_full: self.reg.is_set(ChannelReg::Sts, Field::bit(FIFO_FULL)),
            fifo_empty: self.reg.is_set(ChannelReg::Sts, Field::bit(FIFO_EMPTY)),
            enabled: self.reg.is_set(ChannelReg::Ctl, Field::bit(CHALX_EN)),
            bus_addr: self.buff.bus_addr(),
        }
    }

    /// Whether the enable bit is set in the image of the control register.
    pub fn is_running(&self) -> (running: bool)
        ensures
            running == self@.reg.is_running(),
    {
        self.reg.is_set(ChannelReg::Ctl, Field::bit(CHALX_EN))
    }

    /// Replaces the image of the channel's registers by `image`, as read from
    /// the hardware. The journal, the number and the buffer stay.
    pub fn refresh(&mut self, image: ChannelImage)
        ensures
            final(self)@ == (ChannelModel {
                reg: ChannelRegsModel { image, ..old(self)@.reg },
                ..old(self)@
            }),
    {
        self.reg.image = image;
    }

    /// Takes the journal of the channel's register sub-block.
    pub fn take_pending(&mut self) -> (ops: Vec<BusOp>)
        ensures
            ops@ == old(self)@.reg.pending,
            final(self)@ == (ChannelModel {
                reg: ChannelRegsModel { pending: Seq::empty(), ..old(self)@.reg },
                ..old(self)@
            }),
    {
        self.reg.take_pending()
    }
}

} // verus!
