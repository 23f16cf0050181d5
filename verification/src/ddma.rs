//! The controller: global enable and reset, the table of bound channels, and
//! the creation of channels.

use crate::bus::BusOp;
use crate::chan::{spec_new_channel, Channel, ChannelConfig, ChannelModel};
use crate::field::{field_val, Field};
use crate::irq::IrqHandler;
use crate::reg::{ChannelImage, ChannelRegsModel, DdmaImage, DdmaModel, DdmaRegister};
use crate::reg::{DmaChannelRegisters, GlobalReg, DMA_ENABLE, DMA_SRST, GLOBAL_EN, MAX_CHANNELS};
use vstd::prelude::*;

verus! {

impl DdmaModel {
    /// Setting the global enable bit.
    pub open spec fn enable(self) -> DdmaModel {
        self.modify(GlobalReg::Ctl, Field::bit(DMA_ENABLE).spec_val(1))
    }

    /// Clearing the global enable bit.
    pub open spec fn disable(self) -> DdmaModel {
        self.modify(GlobalReg::Ctl, Field::bit(DMA_ENABLE).spec_val(0))
    }

    /// Quiescing channel `ch`: unbind it if it is bound, mask its interrupt,
    /// clear its completion flag, clear its request-line selection.
    pub open spec fn quiesce(self, ch: int) -> DdmaModel {
        let unbound = if self.is_channel_bind(ch) {
            self.set_channel_bind(ch, false)
        } else {
            self
        };
        unbound.set_channel_interrupt_mask(ch, true).clear_channel_complete(
            ch,
        ).set_channel_config(ch, 0, false)
    }

    /// Quiescing the channels below `count`, in rising order.
    pub open spec fn quiesce_below(self, count: nat) -> DdmaModel
        decreases count,
    {
        if count == 0 {
            self
        } else {
            self.quiesce_below((count - 1) as nat).quiesce(count - 1)
        }
    }

    /// The reset sequence of the controller.
    pub open spec fn reset(self) -> DdmaModel {
        self.write(GlobalReg::Ctl, Field::bit(DMA_ENABLE).spec_val(0)).write(
            GlobalReg::MaskInt,
            Field::bit(GLOBAL_EN).spec_val(0),
        ).quiesce_below(8).write(GlobalReg::Ctl, Field::bit(DMA_SRST).spec_val(1)).write(
            GlobalReg::Ctl,
            Field::bit(DMA_SRST).spec_val(0),
        ).set(GlobalReg::MaskInt, u32::MAX)
    }

    /// Binding channel `n` once its registers are programmed: the operations
    /// that programmed them join the journal, then the request line is
    /// selected and enabled, the channel is marked bound, and its interrupt
    /// is masked unless the caller asked for it.
    pub open spec fn bind(self, n: u8, config: ChannelConfig, programmed: Seq<BusOp>) -> DdmaModel {
        (DdmaModel { pending: self.pending + programmed, ..self }).set_channel_config(
            n as int,
            config.slave_id as u32,
            true,
        ).set_channel_bind(n as int, true).set_channel_interrupt_mask(n as int, !config.irq)
    }

    /// What `new_channel` leaves of the controller, and what it returns.
    pub open spec fn new_channel(
        self,
        n: u8,
        config: ChannelConfig,
        snapshot: ChannelImage,
        bus_addr: Option<u64>,
    ) -> (DdmaModel, Option<ChannelModel>) {
        if self.is_channel_bind(n as int) {
            (self, None)
        } else {
            let fresh = ChannelRegsModel { index: n, image: snapshot, pending: Seq::empty() };
            match spec_new_channel(n, fresh, config, bus_addr) {
                None => (self.disable(), None),
                Some(ch) => (
                    self.disable().bind(n, config, ch.reg.pending),
                    Some(
                        ChannelModel {
                            reg: ChannelRegsModel { pending: Seq::empty(), ..ch.reg },
                            ..ch
                        },
                    ),
                ),
            }
        }
    }
}

/// The controller.
#[derive(Debug)]
pub struct DDMA {
    reg: DdmaRegister,
}

impl View for DDMA {
    type V = DdmaModel;

    closed spec fn view(&self) -> DdmaModel {
        self.reg@
    }
}

impl DDMA {
    /// A controller over the register block `reg`.
    pub fn new(reg: DdmaRegister) -> (dma: DDMA)
        ensures
            dma@ == reg@,
    {
        DDMA { reg }
    }

    /// The controller's register block.
    pub fn reg(&self) -> (r: &DdmaRegister)
        ensures
            r@ == self@,
    {
        &self.reg
    }

    /// Brings the controller to its initial state: disables it and the
    /// global interrupt; then, channel by channel in rising order, unbinds
    /// the channel if it is bound, masks its interrupt, clears its completion
    /// flag and clears its request-line selection; only then pulses the
    /// global soft-reset bit; and at last masks every interrupt.
    pub fn reset(&mut self)
        ensures
            final(self)@ == old(self)@.reset(),
    {
        self.reg.write(GlobalReg::Ctl, field_val(Field::bit(DMA_ENABLE), 0));
        self.reg.write(GlobalReg::MaskInt, field_val(Field::bit(GLOBAL_EN), 0));
        let ghost start = self.reg@;
        let mut chan_id: usize = 0;
        while chan_id < MAX_CHANNELS
            invariant
                chan_id <= MAX_CHANNELS,
                self.reg@ == start.quiesce_below(chan_id as nat),
            decreases MAX_CHANNELS - chan_id,
        {
            if self.reg.is_channel_bind(chan_id) {
                self.reg.set_channel_bind(chan_id, false);
            }
            self.reg.set_channel_interrupt_mask(chan_id, true);
            self.reg.clear_channel_complete(chan_id);
            self.reg.set_channel_config(chan_id, 0, false);
            chan_id += 1;
        }
        self.reg.write(GlobalReg::Ctl, field_val(Field::bit(DMA_SRST), 1));
        self.reg.write(GlobalReg::Ctl, field_val(Field::bit(DMA_SRST), 0));
        self.reg.set(GlobalReg::MaskInt, u32::MAX);
    }

    /// Sets the global enable bit and touches nothing else.
    pub fn enable(&mut self)
        ensures
            final(self)@ == old(self)@.enable(),
    {
        self.reg.modify(GlobalReg::Ctl, field_val(Field::bit(DMA_ENABLE), 1));
    }

    /// Clears the global enable bit and touches nothing else.
    pub fn disable(&mut self)
        ensures
            final(self)@ == old(self)@.disable(),
    {
        self.reg.modify(GlobalReg::Ctl, field_val(Field::bit(DMA_ENABLE), 0));
    }

    /// Whether `new_channel` accepts channel number `n` with `config`: the
    /// number is below eight and the request line below thirty-two.
    pub fn accepts(n: u8, config: &ChannelConfig) -> (ok: bool)
        ensures
            ok == (n <= 7 && config.slave_id <= 31),
    {
        n <= 7 && config.slave_id <= 31
    }

    /// Creates channel `n` and binds it to the peripheral of `config`.
    /// `snapshot` is what the channel's registers hold now; `bus_addr` is
    /// what the platform's allocator answered to a request for
    /// `config.blk_size` bytes.
    ///
    /// A channel that is already bound is refused before anything is
    /// decided: the controller stays as it is. Otherwise the controller is
    /// disabled first. If the channel cannot be made, nothing more happens,
    /// and the bind bitmap stays as it was. If it can, its registers are
    /// programmed, and only then the request line is selected, the channel
    /// marked bound and its interrupt masked or unmasked as asked. All of
    /// this goes to the controller's journal, in this order; the channel
    /// comes back with an empty one.
    pub fn new_channel(
        &mut self,
        n: u8,
        config: ChannelConfig,
        snapshot: ChannelImage,
        bus_addr: Option<u64>,
    ) -> (r: Option<Channel>)
        requires
            n <= 7,
            config.slave_id <= 31,
        ensures
            final(self)@ == old(self)@.new_channel(n, config, snapshot, bus_addr).0,
            match r {
                Some(ch) => Some(ch@) == old(self)@.new_channel(n, config, snapshot, bus_addr).1,
                None => old(self)@.new_channel(n, config, snapshot, bus_addr).1.is_none(),
            },
            r.is_some() <==> !old(self)@.is_channel_bind(n as int) && (bus_addr matches Some(
                addr,
            ) && crate::chan::spec_transfer_ok(addr, config.blk_size)),
    {
        let channel = n as usize;
        if self.reg.is_channel_bind(channel) {
            return None;
        }
        self.disable();
        let reg = DmaChannelRegisters::new(n, snapshot);
        let mut made = match Channel::new(n, reg, config, bus_addr) {
            Some(ch) => ch,
            None => { return None; },
        };
        let mut programmed = made.take_pending();
        self.reg.pending.append(&mut programmed);
        self.reg.set_channel_config(channel, config.slave_id as u32, true);
        self.reg.set_channel_bind(channel, true);
        if config.irq {
            self.reg.set_channel_interrupt_mask(channel, false);
        } else {
            self.reg.set_channel_interrupt_mask(channel, true);
        }
        Some(made)
    }

    /// `new_channel` for any channel number and request line: a number above
    /// seven or a request line above thirty-one is refused, and the
    /// controller stays as it is.
    pub fn try_new_channel(
        &mut self,
        n: u8,
        config: ChannelConfig,
        snapshot: ChannelImage,
        bus_addr: Option<u64>,
    ) -> (r: Option<Channel>)
        ensures
            !(n <= 7 && config.slave_id <= 31) ==> r.is_none() && final(self)@ == old(self)@,
            n <= 7 && config.slave_id <= 31 ==> {
                &&& final(self)@ == old(self)@.new_channel(n, config, snapshot, bus_addr).0
                &&& match r {
                    Some(ch) => Some(ch@) == old(self)@.new_channel(
                        n,
                        config,
                        snapshot,
                        bus_addr,
                    ).1,
                    None => old(self)@.new_channel(n, config, snapshot, bus_addr).1.is_none(),
                }
            },
    {
        if DDMA::accepts(n, &config) {
            self.new_channel(n, config, snapshot, bus_addr)
        } else {
            None
        }
    }

    /// Whether the status register shows `channel`'s transfer as complete;
    /// false for a channel number above seven.
    pub fn is_transfer_complete(&self, channel: u8) -> (done: bool)
        ensures
            done == self@.is_channel_complete(channel as int),
    {
        if channel > 7 {
            return false;
        }
        self.reg.is_channel_complete(channel as usize)
    }

    /// The control, status, bind and interrupt-mask registers, in this
    /// order, as the image holds them.
    pub fn debug_status(&self, _channel: u8) -> (s: (u32, u32, u32, u32))
        ensures
            s == (
                self@.image.dma_ctl,
                self@.image.dma_stat,
                self@.image.dma_channel_bind,
                self@.image.dma_mask_int,
            ),
    {
        let dma_ctl = self.reg.get(GlobalReg::Ctl);
        let dma_stat = self.reg.get(GlobalReg::Stat);
        let bind_status = self.reg.get(GlobalReg::ChannelBind);
        let mask_int = self.reg.get(GlobalReg::MaskInt);
        (dma_ctl, dma_stat, bind_status, mask_int)
    }

    /// Clears `channel`'s completion flag and no other; does nothing for a
    /// channel number above seven.
    pub fn clear_transfer_complete(&mut self, channel: u8)
        ensures
            final(self)@ == old(self)@.clear_channel_complete(channel as int),
    {
        if channel <= 7 {
            self.reg.clear_channel_complete(channel as usize);
        }
    }

    /// Masks or unmasks `channel`'s completion interrupt; the status register
    /// is not touched. Does nothing for a channel number above seven.
    pub fn set_channel_interrupt_mask(&mut self, channel: u8, mask: bool)
        ensures
            final(self)@ == old(self)@.set_channel_interrupt_mask(channel as int, mask),
    {
        if channel <= 7 {
            self.reg.set_channel_interrupt_mask(channel as usize, mask);
        }
    }

    /// The status register as the image holds it.
    pub fn status(&self) -> (s: u32)
        ensures
            s == self@.image.dma_stat,
    {
        self.reg.get(GlobalReg::Stat)
    }

    /// Clears every completion flag with one store of all ones to the status
    /// register.
    pub fn acknowledge_all(&mut self)
        ensures
            final(self)@ == old(self)@.acknowledge_all(),
            final(self)@.image.dma_stat == 0,
    {
        let ghost before = self.reg@.image.dma_stat;
        self.reg.set(GlobalReg::Stat, u32::MAX);
        assert(before & !u32::MAX == 0) by (bit_vector);
    }

    /// The handler to call when the controller's interrupt line fires.
    pub fn irq_handler(&self) -> IrqHandler {
        IrqHandler {  }
    }

    /// Replaces the image of the registers by `image`, as read from the
    /// hardware. The journal stays.
    pub fn refresh(&mut self, image: DdmaImage)
        ensures
            final(self)@ == (DdmaModel { image, ..old(self)@ }),
    {
        self.reg.image = image;
    }

    /// Takes the journal: the bus operations decided on since it was last
    /// taken, in order.
    pub fn take_pending(&mut self) -> (ops: Vec<BusOp>)
        ensures
            ops@ == old(self)@.pending,
            final(self)@ == (DdmaModel { pending: Seq::empty(), ..old(self)@ }),
    {
        self.reg.take_pending()
    }
}

} // verus!
