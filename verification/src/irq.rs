//! Decoding of the shared status register into per-channel completions.

use crate::ddma::DDMA;
use crate::reg::{spec_stat_bit, DdmaModel, GlobalReg};
use vstd::prelude::*;

verus! {

/// Which channels had their completion flag set when the status register was
/// decoded: bit `i` stands for channel `i`.
#[derive(Debug, Clone, Copy)]
pub struct CompletedChannels {
    channels: u8,
}

impl View for CompletedChannels {
    type V = u8;

    closed spec fn view(&self) -> u8 {
        self.channels
    }
}

/// Whether bit `channel` of the bitmask `mask` is set; false from eight on.
pub open spec fn spec_completed(mask: u8, channel: int) -> bool {
    0 <= channel < 8 && mask & (1u8 << (channel as u8)) != 0
}

/// The completion bitmask that the status word `status` decodes to: bit `i`
/// is bit `4 * i` of the status word.
pub open spec fn spec_decode(status: u32) -> u8 {
    (((status & 0x1) | ((status >> 3) & 0x2) | ((status >> 6) & 0x4) | ((status >> 9) & 0x8) | ((
    status >> 12) & 0x10) | ((status >> 15) & 0x20) | ((status >> 18) & 0x40) | ((status >> 21)
        & 0x80)) & 0xFF) as u8
}

impl Default for CompletedChannels {
    /// No channel completed.
    fn default() -> (c: CompletedChannels)
        ensures
            c@ == 0,
    {
        CompletedChannels { channels: 0 }
    }
}

impl CompletedChannels {
    /// Whether `channel` had completed.
    pub fn is_channel_completed(&self, channel: u8) -> (done: bool)
        ensures
            done == spec_completed(self@, channel as int),
    {
        if channel < 8 {
            (self.channels & (1u8 << channel)) != 0
        } else {
            false
        }
    }

    /// The completions as a bitmask.
    pub fn bitmask(&self) -> (mask: u8)
        ensures
            mask == self@,
    {
        self.channels
    }

    /// Marks `channel` completed; does nothing from eight on.
    pub fn set_channel_completed(&mut self, channel: u8)
        ensures
            final(self)@ == if channel < 8 {
                old(self)@ | (1u8 << channel)
            } else {
                old(self)@
            },
    {
        if channel < 8 {
            self.channels = self.channels | (1u8 << channel);
        }
    }

    /// Decodes the status word `status`.
    pub fn decode(status: u32) -> (c: CompletedChannels)
        ensures
            c@ == spec_decode(status),
            forall|ch: int|
                0 <= ch < 8 ==> (#[trigger] spec_completed(c@, ch) == spec_stat_bit(
                    ch,
                ).spec_is_set(status)),
    {
        let mut completed = CompletedChannels::default();
        let mut channel: u8 = 0;
        while channel < 8
            invariant
                channel <= 8,
                completed@ == spec_decode_below(status, channel),
            decreases 8 - channel,
        {
            let field = crate::reg::stat_bit(channel as usize);
            if crate::field::field_is_set(field, status) {
                completed.set_channel_completed(channel);
            }
            proof {
                lemma_decode_step(status, channel);
            }
            channel += 1;
        }
        proof {
            lemma_decode_all(status);
        }
        completed
    }
}

/// The completion bits of the channels below `count` in the status word
/// `status`.
pub open spec fn spec_decode_below(status: u32, count: u8) -> u8
    decreases count,
{
    if count == 0 {
        0
    } else {
        let below = spec_decode_below(status, (count - 1) as u8);
        if status & (1u32 << ((4 * (count - 1)) as u32)) != 0 {
            below | (1u8 << ((count - 1) as u8))
        } else {
            below
        }
    }
}

proof fn lemma_decode_step(status: u32, channel: u8)
    requires
        channel < 8,
    ensures
        spec_stat_bit(channel as int).spec_is_set(status) == (status & (1u32 << ((4 * channel) as u32))
            != 0),
        spec_decode_below(status, (channel + 1) as u8) == if status & (1u32 << ((4
            * channel) as u32)) != 0 {
            spec_decode_below(status, channel) | (1u8 << channel)
        } else {
            spec_decode_below(status, channel)
        },
{
    let plus: u8 = (channel + 1) as u8;
    assert((plus - 1) as u8 == channel);
    assert((4 * (plus - 1)) as u32 == (4 * channel) as u32);
}

proof fn lemma_decode_all(status: u32)
    ensures
        spec_decode_below(status, 8) == spec_decode(status),
        forall|ch: int|
            0 <= ch < 8 ==> (#[trigger] spec_completed(spec_decode(status), ch) == spec_stat_bit(
                ch,
            ).spec_is_set(status)),
{
    reveal_with_fuel(spec_decode_below, 9);
    let d = spec_decode_below(status, 8);
    assert(d == spec_decode(status)) by {
        lemma_decode_bits(status);
    }
    assert forall|ch: int| 0 <= ch < 8 implies (#[trigger] spec_completed(
        spec_decode(status),
        ch,
    ) == spec_stat_bit(ch).spec_is_set(status)) by {
        lemma_decoded_bit(status, ch as u8);
    }
}

proof fn lemma_decode_bits(status: u32)
    ensures
        spec_decode_below(status, 8) == spec_decode(status),
{
    reveal_with_fuel(spec_decode_below, 9);
    let b0: u8 = if status & (1u32 << 0u32) != 0 { 0u8 | (1u8 << 0u8) } else { 0u8 };
    let b1: u8 = if status & (1u32 << 4u32) != 0 { b0 | (1u8 << 1u8) } else { b0 };
    let b2: u8 = if status & (1u32 << 8u32) != 0 { b1 | (1u8 << 2u8) } else { b1 };
    let b3: u8 = if status & (1u32 << 12u32) != 0 { b2 | (1u8 << 3u8) } else { b2 };
    let b4: u8 = if status & (1u32 << 16u32) != 0 { b3 | (1u8 << 4u8) } else { b3 };
    let b5: u8 = if status & (1u32 << 20u32) != 0 { b4 | (1u8 << 5u8) } else { b4 };
    let b6: u8 = if status & (1u32 << 24u32) != 0 { b5 | (1u8 << 6u8) } else { b5 };
    let b7: u8 = if status & (1u32 << 28u32) != 0 { b6 | (1u8 << 7u8) } else { b6 };
    assert(spec_decode_below(status, 1) == b0);
    assert(spec_decode_below(status, 2) == b1);
    assert(spec_decode_below(status, 3) == b2);
    assert(spec_decode_below(status, 4) == b3);
    assert(spec_decode_below(status, 5) == b4);
    assert(spec_decode_below(status, 6) == b5);
    assert(spec_decode_below(status, 7) == b6);
    assert(spec_decode_below(status, 8) == b7);
    assert(b7 == (((status & 0x1) | ((status >> 3) & 0x2) | ((status >> 6) & 0x4) | ((status >> 9)
        & 0x8) | ((status >> 12) & 0x10) | ((status >> 15) & 0x20) | ((status >> 18) & 0x40) | ((
    status >> 21) & 0x80)) & 0xFF) as u8) by (bit_vector)
        requires
            b0 == if status & (1u32 << 0u32) != 0 { 0u8 | (1u8 << 0u8) } else { 0u8 },
            b1 == if status & (1u32 << 4u32) != 0 { b0 | (1u8 << 1u8) } else { b0 },
            b2 == if status & (1u32 << 8u32) != 0 { b1 | (1u8 << 2u8) } else { b1 },
            b3 == if status & (1u32 << 12u32) != 0 { b2 | (1u8 << 3u8) } else { b2 },
            b4 == if status & (1u32 << 16u32) != 0 { b3 | (1u8 << 4u8) } else { b3 },
            b5 == if status & (1u32 << 20u32) != 0 { b4 | (1u8 << 5u8) } else { b4 },
            b6 == if status & (1u32 << 24u32) != 0 { b5 | (1u8 << 6u8) } else { b5 },
            b7 == if status & (1u32 << 28u32) != 0 { b6 | (1u8 << 7u8) } else { b6 },
    ;
}

proof fn lemma_decoded_bit(status: u32, ch: u8)
    requires
        ch < 8,
    ensures
        spec_completed(spec_decode(status), ch as int) == spec_stat_bit(ch as int).spec_is_set(
            status,
        ),
{
    let d = spec_decode(status);
    let shift: u32 = (4 * ch) as u32;
    assert(spec_stat_bit(ch as int).shift == shift);
    assert((d & (1u8 << ch) != 0) == (status & (1u32 << shift) != 0)) by (bit_vector)
        requires
            ch < 8,
            shift == 4 * ch,
            d == (((status & 0x1) | ((status >> 3) & 0x2) | ((status >> 6) & 0x4) | ((status >> 9)
                & 0x8) | ((status >> 12) & 0x10) | ((status >> 15) & 0x20) | ((status >> 18)
                & 0x40) | ((status >> 21) & 0x80)) & 0xFF) as u8,
    ;
    assert((ch as int) as u8 == ch);
}

/// The handler of the controller's interrupt. It holds nothing: whoever
/// calls it lends it the controller.
#[derive(Debug, Clone, Copy)]
pub struct IrqHandler {}

impl DdmaModel {
    /// Acknowledging every completion: a store of all ones to the status
    /// register.
    pub open spec fn acknowledge_all(self) -> DdmaModel {
        self.set(GlobalReg::Stat, u32::MAX)
    }
}

impl IrqHandler {
    /// Reads the status register once, decodes the completion flag of each
    /// channel, then clears all of them with a single store of all ones.
    pub fn handle_irq(&self, dma: &mut DDMA) -> (completed: CompletedChannels)
        ensures
            completed@ == spec_decode(old(dma)@.image.dma_stat),
            forall|ch: int|
                0 <= ch < 8 ==> (#[trigger] spec_completed(completed@, ch) == old(
                    dma,
                )@.is_channel_complete(ch)),
            final(dma)@ == old(dma)@.acknowledge_all(),
            final(dma)@.image.dma_stat == 0,
    {
        let status = dma.status();
        let completed = CompletedChannels::decode(status);
        dma.acknowledge_all();
        completed
    }
}

} // verus!
