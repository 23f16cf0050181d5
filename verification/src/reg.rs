//! Register model of the controller: the layout of the global block, the
//! fields of its registers, and what a store does to each register.

use crate::bus::BusOp;
use crate::field::{field_is_set, field_val, field_value_modify, field_value_plus};
use crate::field::{Field, FieldValue};
use vstd::prelude::*;

verus! {

/// Number of transfer channels of one controller.
pub const MAX_CHANNELS: usize = 8;

/// Size in bytes of one channel's register sub-block.
pub const CHANNEL_REGISTER_SIZE: usize = 0x40;

/// Offset in bytes of channel 0's sub-block from the controller base.
pub const CHANNEL_BASE_OFFSET: usize = 0x40;

/// Position of the global enable bit in the control register.
pub const DMA_ENABLE: u32 = 0;

/// Position of the global soft-reset bit in the control register.
pub const DMA_SRST: u32 = 1;

/// Position of the global interrupt-enable bit in the interrupt-mask
/// register.
pub const GLOBAL_EN: u32 = 31;

/// Position of a channel's enable bit in its control register.
pub const CHALX_EN: u32 = 0;

/// Position of a channel's soft-reset bit in its control register.
pub const CHALX_SRST: u32 = 1;

/// Position of a channel's direction bit in its control register.
pub const CHALX_MODE: u32 = 2;

/// Direction value for transfers from memory to the device.
pub const MODE_TX: u32 = 0;

/// Direction value for transfers from the device to memory.
pub const MODE_RX: u32 = 1;

/// Position of the FIFO-full flag in a channel's status register.
pub const FIFO_FULL: u32 = 0;

/// Position of the FIFO-empty flag in a channel's status register.
pub const FIFO_EMPTY: u32 = 1;

/// Mask of the threshold in a channel's timeout register.
pub const TIMEOUT_CNT_MASK: u32 = 0x3FFF_FFFF;

/// Position of the enable bit in a channel's timeout register.
pub const TIMEOUT_EN: u32 = 31;

/// The registers of the global block.
#[derive(Clone, Copy, Debug, PartialEq, Eq)]
pub enum GlobalReg {
    /// Global control.
    Ctl,
    /// Request-line selection of channels 0 to 3.
    ChalConfig,
    /// Transfer-complete status, one bit per channel every four bits; a
    /// completion bit is cleared by storing a one to it.
    Stat,
    /// Interrupt mask, one bit per channel, and the global enable at bit 31.
    MaskInt,
    UpAxiAwConfig,
    UpAxiArConfig,
    DwnAxiAwConfig,
    DwnAxiArConfig,
    /// Bitmap of the channels bound to a peripheral.
    ChannelBind,
    /// Capability register; stores to it are ignored.
    Gcap,
    /// Request-line selection of channels 4 to 7.
    ChalConfig1,
}

impl GlobalReg {
    pub open spec fn spec_offset(self) -> usize {
        match self {
            GlobalReg::Ctl => 0x00,
            GlobalReg::ChalConfig => 0x04,
            GlobalReg::Stat => 0x08,
            GlobalReg::MaskInt => 0x0C,
            GlobalReg::UpAxiAwConfig => 0x10,
            GlobalReg::UpAxiArConfig => 0x14,
            GlobalReg::DwnAxiAwConfig => 0x18,
            GlobalReg::DwnAxiArConfig => 0x1C,
            GlobalReg::ChannelBind => 0x20,
            GlobalReg::Gcap => 0x24,
            GlobalReg::ChalConfig1 => 0x28,
        }
    }

    /// Offset in bytes of the register from the controller base.
    #[verifier::when_used_as_spec(spec_offset)]
    pub fn offset(self) -> (o: usize)
        ensures
            o == self.spec_offset(),
    {
        match self {
            GlobalReg::Ctl => 0x00,
            GlobalReg::ChalConfig => 0x04,
            GlobalReg::Stat => 0x08,
            GlobalReg::MaskInt => 0x0C,
            GlobalReg::UpAxiAwConfig => 0x10,
            GlobalReg::UpAxiArConfig => 0x14,
            GlobalReg::DwnAxiAwConfig => 0x18,
            GlobalReg::DwnAxiArConfig => 0x1C,
            GlobalReg::ChannelBind => 0x20,
            GlobalReg::Gcap => 0x24,
            GlobalReg::ChalConfig1 => 0x28,
        }
    }
}

/// What the registers of the global block hold.
#[derive(Clone, Copy, Debug, PartialEq, Eq)]
pub struct DdmaImage {
    pub dma_ctl: u32,
    pub dma_chal_config: u32,
    pub dma_stat: u32,
    pub dma_mask_int: u32,
    pub dma_upaxi_awconfig: u32,
    pub dma_upaxi_arconfig: u32,
    pub dma_dwnaxi_awconfig: u32,
    pub dma_dwnaxi_arconfig: u32,
    pub dma_channel_bind: u32,
    pub dma_gcap: u32,
    pub dma_chal_config1: u32,
}

impl DdmaImage {
    /// What register `r` holds.
    pub open spec fn get(self, r: GlobalReg) -> u32 {
        match r {
            GlobalReg::Ctl => self.dma_ctl,
            GlobalReg::ChalConfig => self.dma_chal_config,
            GlobalReg::Stat => self.dma_stat,
            GlobalReg::MaskInt => self.dma_mask_int,
            GlobalReg::UpAxiAwConfig => self.dma_upaxi_awconfig,
            GlobalReg::UpAxiArConfig => self.dma_upaxi_arconfig,
            GlobalReg::DwnAxiAwConfig => self.dma_dwnaxi_awconfig,
            GlobalReg::DwnAxiArConfig => self.dma_dwnaxi_arconfig,
            GlobalReg::ChannelBind => self.dma_channel_bind,
            GlobalReg::Gcap => self.dma_gcap,
            GlobalReg::ChalConfig1 => self.dma_chal_config1,
        }
    }

    /// The image after `v` was stored to register `r`: the status register
    /// drops every bit that `v` has set, the capability register keeps its
    /// value, any other register takes `v`.
    pub open spec fn stored(self, r: GlobalReg, v: u32) -> DdmaImage {
        match r {
            GlobalReg::Ctl => DdmaImage { dma_ctl: v, ..self },
            GlobalReg::ChalConfig => DdmaImage { dma_chal_config: v, ..self },
            GlobalReg::Stat => DdmaImage { dma_stat: self.dma_stat & !v, ..self },
            GlobalReg::MaskInt => DdmaImage { dma_mask_int: v, ..self },
            GlobalReg::UpAxiAwConfig => DdmaImage { dma_upaxi_awconfig: v, ..self },
            GlobalReg::UpAxiArConfig => DdmaImage { dma_upaxi_arconfig: v, ..self },
            GlobalReg::DwnAxiAwConfig => DdmaImage { dma_dwnaxi_awconfig: v, ..self },
            GlobalReg::DwnAxiArConfig => DdmaImage { dma_dwnaxi_arconfig: v, ..self },
            GlobalReg::ChannelBind => DdmaImage { dma_channel_bind: v, ..self },
            GlobalReg::Gcap => self,
            GlobalReg::ChalConfig1 => DdmaImage { dma_chal_config1: v, ..self },
        }
    }
}

/// The configuration register that holds channel `ch`'s request-line
/// selection.
pub open spec fn spec_chal_config_reg(ch: int) -> GlobalReg {
    if ch < 4 {
        GlobalReg::ChalConfig
    } else {
        GlobalReg::ChalConfig1
    }
}

/// Channel `ch`'s seven-bit request-line selection.
pub open spec fn spec_chal_sel(ch: int) -> Field {
    Field { mask: 0x7F, shift: (8 * (ch % 4)) as u32 }
}

/// Channel `ch`'s selection-enable flag, right above its selection.
pub open spec fn spec_chal_sel_en(ch: int) -> Field {
    Field { mask: 1, shift: (8 * (ch % 4) + 7) as u32 }
}

/// Channel `ch`'s transfer-complete bit of the status register.
pub open spec fn spec_stat_bit(ch: int) -> Field {
    Field { mask: 1, shift: (4 * ch) as u32 }
}

/// Channel `ch`'s bit of the interrupt-mask register.
pub open spec fn spec_mask_bit(ch: int) -> Field {
    Field { mask: 1, shift: ch as u32 }
}

pub open spec fn spec_flag(b: bool) -> u32 {
    if b {
        1
    } else {
        0
    }
}

/// A flag as the value of a single-bit field.
#[verifier::when_used_as_spec(spec_flag)]
pub fn flag(b: bool) -> (v: u32)
    ensures
        v == spec_flag(b),
{
    if b {
        1
    } else {
        0
    }
}

/// The configuration register that holds `channel`'s request-line selection.
pub fn chal_config_reg(channel: usize) -> (r: GlobalReg)
    ensures
        r == spec_chal_config_reg(channel as int),
{
    if channel < 4 {
        GlobalReg::ChalConfig
    } else {
        GlobalReg::ChalConfig1
    }
}

/// `channel`'s seven-bit request-line selection in its configuration
/// register.
pub fn chal_sel(channel: usize) -> (f: Field)
    ensures
        f == spec_chal_sel(channel as int),
        f.valid(),
{
    Field { mask: 0x7F, shift: 8 * ((channel % 4) as u32) }
}

/// `channel`'s selection-enable flag in its configuration register.
pub fn chal_sel_en(channel: usize) -> (f: Field)
    ensures
        f == spec_chal_sel_en(channel as int),
        f.valid(),
{
    Field { mask: 1, shift: 8 * ((channel % 4) as u32) + 7 }
}

/// `channel`'s transfer-complete bit in the status register.
pub fn stat_bit(channel: usize) -> (f: Field)
    requires
        channel < MAX_CHANNELS,
    ensures
        f == spec_stat_bit(channel as int),
        f.valid(),
{
    Field { mask: 1, shift: 4 * (channel as u32) }
}

/// `channel`'s bit in the interrupt-mask register.
pub fn mask_bit(channel: usize) -> (f: Field)
    requires
        channel < MAX_CHANNELS,
    ensures
        f == spec_mask_bit(channel as int),
        f.valid(),
{
    Field { mask: 1, shift: channel as u32 }
}

/// Mathematical model of the global block: what its registers hold, and the
/// bus operations decided on so far that the platform has not yet performed.
pub struct DdmaModel {
    pub image: DdmaImage,
    pub pending: Seq<BusOp>,
}

impl DdmaModel {
    /// A raw store of `v` to register `r`.
    pub open spec fn set(self, r: GlobalReg, v: u32) -> DdmaModel {
        DdmaModel {
            image: self.image.stored(r, v),
            pending: self.pending.push(BusOp::Write { offset: r.spec_offset(), value: v }),
        }
    }

    /// A store of the field value alone: every bit outside it is stored as
    /// zero.
    pub open spec fn write(self, r: GlobalReg, fv: FieldValue) -> DdmaModel {
        self.set(r, fv.value)
    }

    /// Read-modify-write: the fields of `fv` are replaced, all other bits of
    /// the register are stored back as they were read.
    pub open spec fn modify(self, r: GlobalReg, fv: FieldValue) -> DdmaModel {
        self.set(r, fv.spec_modify(self.image.get(r)))
    }

    pub open spec fn set_channel_config(self, ch: int, sel: u32, enable: bool) -> DdmaModel {
        self.modify(
            spec_chal_config_reg(ch),
            spec_chal_sel(ch).spec_val(sel).spec_plus(spec_chal_sel_en(ch).spec_val(spec_flag(enable))),
        )
    }

    pub open spec fn set_channel_interrupt_mask(self, ch: int, mask: bool) -> DdmaModel {
        if 0 <= ch < 8 {
            self.modify(GlobalReg::MaskInt, spec_mask_bit(ch).spec_val(spec_flag(mask)))
        } else {
            self
        }
    }

    pub open spec fn is_channel_complete(self, ch: int) -> bool {
        0 <= ch < 8 && spec_stat_bit(ch).spec_is_set(self.image.dma_stat)
    }

    pub open spec fn clear_channel_complete(self, ch: int) -> DdmaModel {
        if 0 <= ch < 8 {
            self.write(GlobalReg::Stat, spec_stat_bit(ch).spec_val(1))
        } else {
            self
        }
    }

    pub open spec fn is_channel_bind(self, ch: int) -> bool {
        0 <= ch < 8 && self.image.dma_channel_bind & (1u32 << (ch as u32)) != 0
    }

    pub open spec fn set_channel_bind(self, ch: int, bind: bool) -> DdmaModel {
        if 0 <= ch < 8 {
            if bind {
                self.set(
                    GlobalReg::ChannelBind,
                    self.image.dma_channel_bind | (1u32 << (ch as u32)),
                )
            } else {
                self.set(
                    GlobalReg::ChannelBind,
                    self.image.dma_channel_bind & !(1u32 << (ch as u32)),
                )
            }
        } else {
            self
        }
    }
}

/// The global register block: an image of its registers, and the journal of
/// bus operations that the calls made so far have decided on.
#[derive(Debug)]
pub struct DdmaRegister {
    pub image: DdmaImage,
    pub pending: Vec<BusOp>,
}

impl View for DdmaRegister {
    type V = DdmaModel;

    open spec fn view(&self) -> DdmaModel {
        DdmaModel { image: self.image, pending: self.pending@ }
    }
}

impl DdmaRegister {
    /// A register block that holds `image`, with an empty journal.
    pub fn new(image: DdmaImage) -> (r: DdmaRegister)
        ensures
            r@ == (DdmaModel { image, pending: Seq::empty() }),
    {
        DdmaRegister { image, pending: Vec::new() }
    }

    /// What register `r` holds.
    pub fn get(&self, r: GlobalReg) -> (v: u32)
        ensures
            v == self@.image.get(r),
    {
        match r {
            GlobalReg::Ctl => self.image.dma_ctl,
            GlobalReg::ChalConfig => self.image.dma_chal_config,
            GlobalReg::Stat => self.image.dma_stat,
            GlobalReg::MaskInt => self.image.dma_mask_int,
            GlobalReg::UpAxiAwConfig => self.image.dma_upaxi_awconfig,
            GlobalReg::UpAxiArConfig => self.image.dma_upaxi_arconfig,
            GlobalReg::DwnAxiAwConfig => self.image.dma_dwnaxi_awconfig,
            GlobalReg::DwnAxiArConfig => self.image.dma_dwnaxi_arconfig,
            GlobalReg::ChannelBind => self.image.dma_channel_bind,
            GlobalReg::Gcap => self.image.dma_gcap,
            GlobalReg::ChalConfig1 => self.image.dma_chal_config1,
        }
    }

    /// Stores `v` to register `r`: the store is appended to the journal and
    /// the image follows it.
    pub fn set(&mut self, r: GlobalReg, v: u32)
        ensures
            final(self)@ == old(self)@.set(r, v),
    {
        match r {
            GlobalReg::Ctl => self.image.dma_ctl = v,
            GlobalReg::ChalConfig => self.image.dma_chal_config = v,
            GlobalReg::Stat => self.image.dma_stat = self.image.dma_stat & !v,
            GlobalReg::MaskInt => self.image.dma_mask_int = v,
            GlobalReg::UpAxiAwConfig => self.image.dma_upaxi_awconfig = v,
            GlobalReg::UpAxiArConfig => self.image.dma_upaxi_arconfig = v,
            GlobalReg::DwnAxiAwConfig => self.image.dma_dwnaxi_awconfig = v,
            GlobalReg::DwnAxiArConfig => self.image.dma_dwnaxi_arconfig = v,
            GlobalReg::ChannelBind => self.image.dma_channel_bind = v,
            GlobalReg::Gcap => {},
            GlobalReg::ChalConfig1 => self.image.dma_chal_config1 = v,
        }
        self.pending.push(BusOp::Write { offset: r.offset(), value: v });
    }

    /// Stores the field value alone to register `r`.
    pub fn write(&mut self, r: GlobalReg, fv: FieldValue)
        ensures
            final(self)@ == old(self)@.write(r, fv),
    {
        self.set(r, fv.value);
    }

    /// Replaces the fields of `fv` in register `r` and keeps its other bits.
    pub fn modify(&mut self, r: GlobalReg, fv: FieldValue)
        ensures
            final(self)@ == old(self)@.modify(r, fv),
    {
        let current = self.get(r);
        self.set(r, field_value_modify(fv, current));
    }

    /// Whether any bit of `field` is set in register `r`.
    pub fn is_set(&self, r: GlobalReg, field: Field) -> (b: bool)
        requires
            field.valid(),
        ensures
            b == field.spec_is_set(self@.image.get(r)),
    {
        field_is_set(field, self.get(r))
    }

    /// Selects request line `sel` for `channel` and sets or clears the
    /// selection's enable flag, in one store that keeps the other channels'
    /// selections. `sel` is cut to the seven bits of the field.
    pub fn set_channel_config(&mut self, channel: usize, sel: u32, enable: bool)
        requires
            channel < MAX_CHANNELS,
        ensures
            final(self)@ == old(self)@.set_channel_config(channel as int, sel, enable),
    {
        let fv = field_value_plus(
            field_val(chal_sel(channel), sel),
            field_val(chal_sel_en(channel), flag(enable)),
        );
        self.modify(chal_config_reg(channel), fv);
    }

    /// Masks (`mask` true) or unmasks the completion interrupt of `channel`,
    /// keeping every other bit of the mask register. Does nothing for a
    /// channel number out of range.
    pub fn set_channel_interrupt_mask(&mut self, channel: usize, mask: bool)
        ensures
            final(self)@ == old(self)@.set_channel_interrupt_mask(channel as int, mask),
    {
        if channel < MAX_CHANNELS {
            self.modify(GlobalReg::MaskInt, field_val(mask_bit(channel), flag(mask)));
        }
    }

    /// Whether the status register shows `channel`'s transfer as complete;
    /// false for a channel number out of range.
    pub fn is_channel_complete(&self, channel: usize) -> (done: bool)
        ensures
            done == self@.is_channel_complete(channel as int),
    {
        if channel < MAX_CHANNELS {
            self.is_set(GlobalReg::Stat, stat_bit(channel))
        } else {
            false
        }
    }

    /// Clears `channel`'s transfer-complete bit by storing a one to it and
    /// zeros to all other bits, so that no other channel's status changes.
    /// Does nothing for a channel number out of range.
    pub fn clear_channel_complete(&mut self, channel: usize)
        ensures
            final(self)@ == old(self)@.clear_channel_complete(channel as int),
    {
        if channel < MAX_CHANNELS {
            self.write(GlobalReg::Stat, field_val(stat_bit(channel), 1));
        }
    }

    /// Whether `channel` is marked bound; false for a channel number out of
    /// range.
    pub fn is_channel_bind(&self, channel: usize) -> (bound: bool)
        ensures
            bound == self@.is_channel_bind(channel as int),
    {
        if channel >= MAX_CHANNELS {
            return false;
        }
        (self.get(GlobalReg::ChannelBind) & (1u32 << (channel as u32))) != 0
    }

    /// Marks `channel` bound or unbound in the bind bitmap. Does nothing for
    /// a channel number out of range.
    pub fn set_channel_bind(&mut self, channel: usize, bind: bool)
        ensures
            final(self)@ == old(self)@.set_channel_bind(channel as int, bind),
    {
        if channel >= MAX_CHANNELS {
            return;
        }
        let current = self.get(GlobalReg::ChannelBind);
        if bind {
            self.set(GlobalReg::ChannelBind, current | (1u32 << (channel as u32)));
        } else {
            self.set(GlobalReg::ChannelBind, current & !(1u32 << (channel as u32)));
        }
    }

    /// Takes the journal: returns the pending bus operations in the order in
    /// which they were decided, and leaves none pending.
    pub fn take_pending(&mut self) -> (ops: Vec<BusOp>)
        ensures
            ops@ == old(self)@.pending,
            final(self)@ == (DdmaModel { image: old(self)@.image, pending: Seq::empty() }),
    {
        let mut ops: Vec<BusOp> = Vec::new();
        ops.append(&mut self.pending);
        ops
    }
}

/// The registers of one channel's sub-block.
#[derive(Clone, Copy, Debug, PartialEq, Eq)]
pub enum ChannelReg {
    /// Upper 32 bits of the buffer's bus address.
    DdrUpaddr,
    /// Lower 32 bits of the buffer's bus address.
    DdrLwaddr,
    /// Address on the device side.
    DevAddr,
    /// Transfer size in bytes.
    Ts,
    /// Upper half of the hardware's progress pointer.
    CrtUpaddr,
    /// Lower half of the hardware's progress pointer.
    CrtLwaddr,
    /// Control: enable, soft reset, direction.
    Ctl,
    /// Status: FIFO full and empty.
    Sts,
    /// Timeout threshold and its enable bit.
    TimeoutCnt,
}

impl ChannelReg {
    pub open spec fn spec_offset(self) -> usize {
        match self {
            ChannelReg::DdrUpaddr => 0x00,
            ChannelReg::DdrLwaddr => 0x04,
            ChannelReg::DevAddr => 0x08,
            ChannelReg::Ts => 0x0C,
            ChannelReg::CrtUpaddr => 0x10,
            ChannelReg::CrtLwaddr => 0x14,
            ChannelReg::Ctl => 0x18,
            ChannelReg::Sts => 0x1C,
            ChannelReg::TimeoutCnt => 0x20,
        }
    }

    /// Offset in bytes of the register from the start of its sub-block.
    #[verifier::when_used_as_spec(spec_offset)]
    pub fn offset(self) -> (o: usize)
        ensures
            o == self.spec_offset(),
    {
        match self {
            ChannelReg::DdrUpaddr => 0x00,
            ChannelReg::DdrLwaddr => 0x04,
            ChannelReg::DevAddr => 0x08,
            ChannelReg::Ts => 0x0C,
            ChannelReg::CrtUpaddr => 0x10,
            ChannelReg::CrtLwaddr => 0x14,
            ChannelReg::Ctl => 0x18,
            ChannelReg::Sts => 0x1C,
            ChannelReg::TimeoutCnt => 0x20,
        }
    }
}

/// Offset in bytes, from the controller base, of the sub-block of channel
/// `index`: the sub-blocks follow each other at a fixed stride.
pub open spec fn spec_channel_offset(index: u8) -> usize {
    (CHANNEL_BASE_OFFSET + index * CHANNEL_REGISTER_SIZE) as usize
}

/// Offset in bytes, from the controller base, of the sub-block of channel
/// `index`.
#[verifier::when_used_as_spec(spec_channel_offset)]
pub fn channel_offset(index: u8) -> (o: usize)
    ensures
        o == spec_channel_offset(index),
        o == 0x40 + 0x40 * index,
{
    CHANNEL_BASE_OFFSET + (index as usize) * CHANNEL_REGISTER_SIZE
}

/// What the registers of one channel's sub-block hold.
#[derive(Clone, Copy, Debug, PartialEq, Eq)]
pub struct ChannelImage {
    pub ddr_upaddr: u32,
    pub ddr_lwaddr: u32,
    pub dev_addr: u32,
    pub ts: u32,
    pub crt_upaddr: u32,
    pub crt_lwaddr: u32,
    pub ctl: u32,
    pub sts: u32,
    pub timeout_cnt: u32,
}

impl ChannelImage {
    /// What register `r` holds.
    pub open spec fn get(self, r: ChannelReg) -> u32 {
        match r {
            ChannelReg::DdrUpaddr => self.ddr_upaddr,
            ChannelReg::DdrLwaddr => self.ddr_lwaddr,
            ChannelReg::DevAddr => self.dev_addr,
            ChannelReg::Ts => self.ts,
            ChannelReg::CrtUpaddr => self.crt_upaddr,
            ChannelReg::CrtLwaddr => self.crt_lwaddr,
            ChannelReg::Ctl => self.ctl,
            ChannelReg::Sts => self.sts,
            ChannelReg::TimeoutCnt => self.timeout_cnt,
        }
    }

    /// The image with register `r` holding `v`.
    pub open spec fn stored(self, r: ChannelReg, v: u32) -> ChannelImage {
        match r {
            ChannelReg::DdrUpaddr => ChannelImage { ddr_upaddr: v, ..self },
            ChannelReg::DdrLwaddr => ChannelImage { ddr_lwaddr: v, ..self },
            ChannelReg::DevAddr => ChannelImage { dev_addr: v, ..self },
            ChannelReg::Ts => ChannelImage { ts: v, ..self },
            ChannelReg::CrtUpaddr => ChannelImage { crt_upaddr: v, ..self },
            ChannelReg::CrtLwaddr => ChannelImage { crt_lwaddr: v, ..self },
            ChannelReg::Ctl => ChannelImage { ctl: v, ..self },
            ChannelReg::Sts => ChannelImage { sts: v, ..self },
            ChannelReg::TimeoutCnt => ChannelImage { timeout_cnt: v, ..self },
        }
    }
}

/// Mathematical model of one channel's sub-block: which channel it belongs
/// to, what its registers hold, and the bus operations not yet performed.
pub struct ChannelRegsModel {
    pub index: u8,
    pub image: ChannelImage,
    pub pending: Seq<BusOp>,
}

impl ChannelRegsModel {
    /// Offset of register `r` of this sub-block from the controller base.
    pub open spec fn offset_of(self, r: ChannelReg) -> usize {
        (spec_channel_offset(self.index) + r.spec_offset()) as usize
    }

    /// A raw store of `v` to register `r`.
    pub open spec fn set(self, r: ChannelReg, v: u32) -> ChannelRegsModel {
        ChannelRegsModel {
            image: self.image.stored(r, v),
            pending: self.pending.push(BusOp::Write { offset: self.offset_of(r), value: v }),
            ..self
        }
    }

    /// Read-modify-write: the fields of `fv` are replaced, all other bits of
    /// the register are stored back as they were read.
    pub open spec fn modify(self, r: ChannelReg, fv: FieldValue) -> ChannelRegsModel {
        self.set(r, fv.spec_modify(self.image.get(r)))
    }

    /// A wait until `field` of register `r` reads as clear: nothing is
    /// stored, and afterwards the image shows the field clear.
    pub open spec fn await_clear(self, r: ChannelReg, field: Field) -> ChannelRegsModel {
        ChannelRegsModel {
            image: self.image.stored(r, field.spec_val(0).spec_modify(self.image.get(r))),
            pending: self.pending.push(
                BusOp::AwaitClear { offset: self.offset_of(r), mask: field.bits() },
            ),
            ..self
        }
    }
}

/// One channel's register sub-block: the channel's number, an image of its
/// registers, and the journal of bus operations decided on.
#[derive(Debug)]
pub struct DmaChannelRegisters {
    pub index: u8,
    pub image: ChannelImage,
    pub pending: Vec<BusOp>,
}

impl View for DmaChannelRegisters {
    type V = ChannelRegsModel;

    open spec fn view(&self) -> ChannelRegsModel {
        ChannelRegsModel { index: self.index, image: self.image, pending: self.pending@ }
    }
}

impl DmaChannelRegisters {
    /// The sub-block of channel `index`, holding `image`, with an empty
    /// journal.
    pub fn new(index: u8, image: ChannelImage) -> (r: DmaChannelRegisters)
        ensures
            r@ == (ChannelRegsModel { index, image, pending: Seq::empty() }),
    {
        DmaChannelRegisters { index, image, pending: Vec::new() }
    }

    /// Offset of register `r` of this sub-block from the controller base.
    pub fn offset_of(&self, r: ChannelReg) -> (o: usize)
        ensures
            o == self@.offset_of(r),
    {
        channel_offset(self.index) + r.offset()
    }

    /// What register `r` holds.
    pub fn get(&self, r: ChannelReg) -> (v: u32)
        ensures
            v == self@.image.get(r),
    {
        match r {
            ChannelReg::DdrUpaddr => self.image.ddr_upaddr,
            ChannelReg::DdrLwaddr => self.image.ddr_lwaddr,
            ChannelReg::DevAddr => self.image.dev_addr,
            ChannelReg::Ts => self.image.ts,
            ChannelReg::CrtUpaddr => self.image.crt_upaddr,
            ChannelReg::CrtLwaddr => self.image.crt_lwaddr,
            ChannelReg::Ctl => self.image.ctl,
            ChannelReg::Sts => self.image.sts,
            ChannelReg::TimeoutCnt => self.image.timeout_cnt,
        }
    }

    fn put(&mut self, r: ChannelReg, v: u32)
        ensures
            final(self).index == old(self).index,
            final(self).pending == old(self).pending,
            final(self).image == old(self).image.stored(r, v),
    {
        match r {
            ChannelReg::DdrUpaddr => self.image.ddr_upaddr = v,
            ChannelReg::DdrLwaddr => self.image.ddr_lwaddr = v,
            ChannelReg::DevAddr => self.image.dev_addr = v,
            ChannelReg::Ts => self.image.ts = v,
            ChannelReg::CrtUpaddr => self.image.crt_upaddr = v,
            ChannelReg::CrtLwaddr => self.image.crt_lwaddr = v,
            ChannelReg::Ctl => self.image.ctl = v,
            ChannelReg::Sts => self.image.sts = v,
            ChannelReg::TimeoutCnt => self.image.timeout_cnt = v,
        }
    }

    /// Stores `v` to register `r`: the store is appended to the journal and
    /// the image follows it.
    pub fn set(&mut self, r: ChannelReg, v: u32)
        ensures
            final(self)@ == old(self)@.set(r, v),
    {
        let offset = self.offset_of(r);
        self.put(r, v);
        self.pending.push(BusOp::Write { offset, value: v });
    }

    /// Replaces the fields of `fv` in register `r` and keeps its other bits.
    pub fn modify(&mut self, r: ChannelReg, fv: FieldValue)
        ensures
            final(self)@ == old(self)@.modify(r, fv),
    {
        let current = self.get(r);
        self.set(r, field_value_modify(fv, current));
    }

    /// Whether any bit of `field` is set in register `r`.
    pub fn is_set(&self, r: ChannelReg, field: Field) -> (b: bool)
        requires
            field.valid(),
        ensures
            b == field.spec_is_set(self@.image.get(r)),
    {
        field_is_set(field, self.get(r))
    }

    /// Asks the platform to wait until `field` of register `r` reads as
    /// clear. The image shows the field clear from here on.
    pub fn await_clear(&mut self, r: ChannelReg, field: Field)
        requires
            field.valid(),
        ensures
            final(self)@ == old(self)@.await_clear(r, field),
    {
        let offset = self.offset_of(r);
        let cleared = field_val(field, 0);
        let current = self.get(r);
        self.put(r, field_value_modify(cleared, current));
        self.pending.push(BusOp::AwaitClear { offset, mask: cleared.mask });
    }

    /// Takes the journal: returns the pending bus operations in the order in
    /// which they were decided, and leaves none pending.
    pub fn take_pending(&mut self) -> (ops: Vec<BusOp>)
        ensures
            ops@ == old(self)@.pending,
            final(self)@ == (ChannelRegsModel { pending: Seq::empty(), ..old(self)@ }),
    {
        let mut ops: Vec<BusOp> = Vec::new();
        ops.append(&mut self.pending);
        ops
    }
}

} // verus!
