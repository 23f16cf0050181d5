//! What holds of the driver whatever the registers hold: general statements
//! over the models, each proved from the definitions.

use crate::buffer::spec_written;
use crate::chan::ChannelConfig;
use crate::field::{Field, FieldValue};
use crate::reg::{spec_chal_config_reg, spec_chal_sel, spec_chal_sel_en, spec_mask_bit};
use crate::reg::{spec_stat_bit, ChannelImage, ChannelRegsModel, DdmaModel, GlobalReg};
use vstd::prelude::*;

verus! {

/// A read-modify-write touches the bits of its field value and no others:
/// outside the mask the register keeps what it held, inside it takes the
/// value.
pub proof fn law_modify_keeps_other_bits(fv: FieldValue, reg: u32)
    ensures
        fv.spec_modify(reg) & !fv.mask == reg & !fv.mask,
        fv.spec_modify(reg) & fv.mask == fv.value & fv.mask,
{
    let m = fv.mask;
    let v = fv.value;
    assert(((reg & !m) | (v & m)) & !m == reg & !m) by (bit_vector);
    assert(((reg & !m) | (v & m)) & m == v & m) by (bit_vector);
}

/// After a channel's request line is selected, its selection reads back as
/// the line cut to seven bits, its enable flag as given, and the selection
/// and flag of every other channel in the same register as before.
pub proof fn law_channel_config_reads_back(
    s: DdmaModel,
    ch: int,
    sel: u32,
    enable: bool,
    other: int,
)
    requires
        0 <= ch < 8,
        0 <= other < 8,
        other != ch,
    ensures
        spec_chal_sel(ch).spec_read(
            s.set_channel_config(ch, sel, enable).image.get(spec_chal_config_reg(ch)),
        ) == sel & 0x7F,
        spec_chal_sel_en(ch).spec_is_set(
            s.set_channel_config(ch, sel, enable).image.get(spec_chal_config_reg(ch)),
        ) == enable,
        spec_chal_sel(other).spec_read(
            s.set_channel_config(ch, sel, enable).image.get(spec_chal_config_reg(other)),
        ) == spec_chal_sel(other).spec_read(s.image.get(spec_chal_config_reg(other))),
        spec_chal_sel_en(other).spec_is_set(
            s.set_channel_config(ch, sel, enable).image.get(spec_chal_config_reg(other)),
        ) == spec_chal_sel_en(other).spec_is_set(s.image.get(spec_chal_config_reg(other))),
{
    let old_reg = s.image.get(spec_chal_config_reg(ch));
    let new_reg = s.set_channel_config(ch, sel, enable).image.get(spec_chal_config_reg(ch));
    let sh: u32 = (8 * (ch % 4)) as u32;
    let sh7: u32 = (sh + 7) as u32;
    let en: u32 = if enable { 1 } else { 0 };
    assert(spec_chal_sel(ch).shift == sh);
    assert(spec_chal_sel_en(ch).shift == sh7);
    let am: u32 = 0x7Fu32 << sh;
    let av: u32 = (sel & 0x7F) << sh;
    let bm: u32 = 1u32 << sh7;
    let bv: u32 = (en & 1) << sh7;
    assert(new_reg == (old_reg & !(am | bm)) | (((av & am) | (bv & bm)) & (am | bm)));
    assert(sh == 0 || sh == 8 || sh == 16 || sh == 24);
    assert(((new_reg & (0x7Fu32 << sh)) >> sh) == sel & 0x7F && (new_reg & (1u32 << sh7) != 0) == (
    en == 1)) by (bit_vector)
        requires
            sh == 0 || sh == 8 || sh == 16 || sh == 24,
            sh7 == sh + 7,
            en == 0 || en == 1,
            am == 0x7Fu32 << sh,
            av == (sel & 0x7F) << sh,
            bm == 1u32 << sh7,
            bv == (en & 1) << sh7,
            new_reg == (old_reg & !(am | bm)) | (((av & am) | (bv & bm)) & (am | bm)),
    ;
    if spec_chal_config_reg(other) == spec_chal_config_reg(ch) {
        let so: u32 = (8 * (other % 4)) as u32;
        let so7: u32 = (so + 7) as u32;
        assert(spec_chal_sel(other).shift == so);
        assert(spec_chal_sel_en(other).shift == so7);
        assert(so != sh);
        assert(so == 0 || so == 8 || so == 16 || so == 24);
        assert(((new_reg & (0x7Fu32 << so)) >> so) == ((old_reg & (0x7Fu32 << so)) >> so) && (
        new_reg & (1u32 << so7) != 0) == (old_reg & (1u32 << so7) != 0)) by (bit_vector)
            requires
                sh == 0 || sh == 8 || sh == 16 || sh == 24,
                so == 0 || so == 8 || so == 16 || so == 24,
                so != sh,
                sh7 == sh + 7,
                so7 == so + 7,
                am == 0x7Fu32 << sh,
                av == (sel & 0x7F) << sh,
                bm == 1u32 << sh7,
                bv == (en & 1) << sh7,
                new_reg == (old_reg & !(am | bm)) | (((av & am) | (bv & bm)) & (am | bm)),
        ;
    }
}

/// Marking a channel bound makes it read as bound, marking it unbound makes
/// it read as unbound, and either leaves every other channel's mark alone.
pub proof fn law_bind_reads_back(s: DdmaModel, ch: int, bind: bool, other: int)
    requires
        0 <= ch < 8,
        0 <= other < 8,
        other != ch,
    ensures
        s.set_channel_bind(ch, bind).is_channel_bind(ch) == bind,
        s.set_channel_bind(ch, bind).is_channel_bind(other) == s.is_channel_bind(other),
{
    let b = s.image.dma_channel_bind;
    let c: u32 = ch as u32;
    let o: u32 = other as u32;
    assert(((b | (1u32 << c)) & (1u32 << c) != 0) && ((b & !(1u32 << c)) & (1u32 << c) == 0) && (((
    b | (1u32 << c)) & (1u32 << o) != 0) == (b & (1u32 << o) != 0)) && (((b & !(1u32 << c)) & (1u32
        << o) != 0) == (b & (1u32 << o) != 0))) by (bit_vector)
        requires
            c < 8,
            o < 8,
            c != o,
    ;
}

/// Clearing a channel's completion flag leaves it clear and leaves the flag
/// of every other channel as it was.
pub proof fn law_clear_reads_back(s: DdmaModel, ch: int, other: int)
    requires
        0 <= ch < 8,
        0 <= other < 8,
        other != ch,
    ensures
        !s.clear_channel_complete(ch).is_channel_complete(ch),
        s.clear_channel_complete(ch).is_channel_complete(other) == s.is_channel_complete(other),
{
    let st = s.image.dma_stat;
    let c: u32 = (4 * ch) as u32;
    let o: u32 = (4 * other) as u32;
    assert(spec_stat_bit(ch).shift == c);
    assert(spec_stat_bit(other).shift == o);
    assert(((st & !((1u32 & 1u32) << c)) & (1u32 << c) == 0) && (((st & !((1u32 & 1u32) << c)) & (
    1u32 << o) != 0) == (st & (1u32 << o) != 0))) by (bit_vector)
        requires
            c < 32,
            o < 32,
            c != o,
    ;
}

/// Clearing the completion flag of a channel whose flag is clear already
/// leaves every register as it was.
pub proof fn law_clear_is_idempotent(s: DdmaModel, ch: int)
    requires
        !s.is_channel_complete(ch),
    ensures
        s.clear_channel_complete(ch).image == s.image,
        s.clear_channel_complete(ch).clear_channel_complete(ch).image == s.clear_channel_complete(
            ch,
        ).image,
{
    if 0 <= ch < 8 {
        let st = s.image.dma_stat;
        let c: u32 = (4 * ch) as u32;
        assert(spec_stat_bit(ch).shift == c);
        assert(st & !((1u32 & 1u32) << c) == st) by (bit_vector)
            requires
                c < 32,
                st & (1u32 << c) == 0,
        ;
    }
}

/// Stopping a channel that is not running leaves every one of its registers
/// as it was; stopping twice is the same as stopping once.
pub proof fn law_deactive_is_idempotent(r: ChannelRegsModel)
    ensures
        !r.is_running() ==> r.deactive().image == r.image,
        !r.deactive().is_running(),
        r.deactive().deactive().image == r.deactive().image,
{
    let c = r.image.ctl;
    let d = r.deactive().image.ctl;
    assert(c & (1u32 << 0u32) == 0 ==> ((c & !(1u32 << 0u32)) | (((0u32 & 1u32) << 0u32) & (1u32
        << 0u32))) == c) by (bit_vector);
    assert(d & (1u32 << 0u32) == 0 ==> ((d & !(1u32 << 0u32)) | (((0u32 & 1u32) << 0u32) & (1u32
        << 0u32))) == d) by (bit_vector);
    assert(((c & !(1u32 << 0u32)) | (((0u32 & 1u32) << 0u32) & (1u32 << 0u32))) & (1u32 << 0u32)
        == 0) by (bit_vector);
}

/// Starting a channel makes it read as running, and keeps its direction and
/// soft-reset bits.
pub proof fn law_active_reads_back(r: ChannelRegsModel)
    ensures
        r.active().is_running(),
        r.active().image.ctl & !1u32 == r.image.ctl & !1u32,
{
    let c = r.image.ctl;
    assert((((c & !(1u32 << 0u32)) | (((1u32 & 1u32) << 0u32) & (1u32 << 0u32))) & (1u32 << 0u32)
        != 0) && (((c & !(1u32 << 0u32)) | (((1u32 & 1u32) << 0u32) & (1u32 << 0u32))) & !1u32 == c
        & !1u32)) by (bit_vector);
}

/// A channel that was created is bound, and a second request for the same
/// channel, whatever it asks for, is refused and leaves the controller as it
/// is: its registers and its journal.
pub proof fn law_second_creation_is_refused(
    s: DdmaModel,
    n: u8,
    config: ChannelConfig,
    snapshot: ChannelImage,
    bus_addr: Option<u64>,
    config2: ChannelConfig,
    snapshot2: ChannelImage,
    bus_addr2: Option<u64>,
)
    requires
        n <= 7,
        s.new_channel(n, config, snapshot, bus_addr).1.is_some(),
    ensures
        s.new_channel(n, config, snapshot, bus_addr).0.is_channel_bind(n as int),
        s.new_channel(n, config, snapshot, bus_addr).0.new_channel(
            n,
            config2,
            snapshot2,
            bus_addr2,
        ) == (s.new_channel(n, config, snapshot, bus_addr).0, None::<crate::chan::ChannelModel>),
{
    let after = s.new_channel(n, config, snapshot, bus_addr).0;
    let fresh = ChannelRegsModel { index: n, image: snapshot, pending: Seq::empty() };
    let ch = crate::chan::spec_new_channel(n, fresh, config, bus_addr).unwrap();
    let joined = DdmaModel { pending: s.disable().pending + ch.reg.pending, ..s.disable() };
    let selected = joined.set_channel_config(n as int, config.slave_id as u32, true);
    law_bind_reads_back(selected, n as int, true, if n == 0 { 1 } else { 0 });
    let bound = selected.set_channel_bind(n as int, true);
    assert(bound.is_channel_bind(n as int));
    assert(after == bound.set_channel_interrupt_mask(n as int, !config.irq));
    assert(after.image.dma_channel_bind == bound.image.dma_channel_bind);
}

/// A request for a channel succeeds exactly when the channel is not bound,
/// the allocator gave a buffer, the buffer's bus address is a multiple of
/// four, and the size is a multiple of four and at least four.
pub proof fn law_creation_succeeds_iff(
    s: DdmaModel,
    n: u8,
    config: ChannelConfig,
    snapshot: ChannelImage,
    bus_addr: Option<u64>,
)
    ensures
        s.new_channel(n, config, snapshot, bus_addr).1.is_some() <==> !s.is_channel_bind(n as int)
            && bus_addr.is_some() && bus_addr.unwrap() % 4 == 0 && config.blk_size >= 4
            && config.blk_size % 4 == 0,
        s.new_channel(n, config, snapshot, bus_addr).1.is_none() ==> s.new_channel(
            n,
            config,
            snapshot,
            bus_addr,
        ).0.image.dma_channel_bind == s.image.dma_channel_bind,
{
}

/// Enabling, disabling, masking, clearing and acknowledging keep the bind
/// bitmap: between a channel's creation and the next reset it stays bound.
pub proof fn law_binding_is_kept(s: DdmaModel, ch: int, flag: bool)
    ensures
        s.enable().image.dma_channel_bind == s.image.dma_channel_bind,
        s.disable().image.dma_channel_bind == s.image.dma_channel_bind,
        s.set_channel_interrupt_mask(ch, flag).image.dma_channel_bind == s.image.dma_channel_bind,
        s.clear_channel_complete(ch).image.dma_channel_bind == s.image.dma_channel_bind,
        s.acknowledge_all().image.dma_channel_bind == s.image.dma_channel_bind,
{
}

/// Enabling and disabling the controller change the enable bit of the
/// control register and nothing else.
pub proof fn law_enable_touches_one_bit(s: DdmaModel)
    ensures
        s.enable().image == (crate::reg::DdmaImage { dma_ctl: s.image.dma_ctl | 1, ..s.image }),
        s.disable().image == (crate::reg::DdmaImage { dma_ctl: s.image.dma_ctl & !1u32, ..s.image }),
{
    let c = s.image.dma_ctl;
    assert(((c & !(1u32 << 0u32)) | (((1u32 & 1u32) << 0u32) & (1u32 << 0u32))) == c | 1) by (bit_vector);
    assert(((c & !(1u32 << 0u32)) | (((0u32 & 1u32) << 0u32) & (1u32 << 0u32))) == c & !1u32) by (bit_vector);
}

/// Masking a channel's interrupt reads back, keeps the mask of every other
/// channel, and never touches the status register.
pub proof fn law_mask_reads_back(s: DdmaModel, ch: int, mask: bool, other: int)
    requires
        0 <= ch < 8,
        0 <= other < 8,
        other != ch,
    ensures
        spec_mask_bit(ch).spec_is_set(
            s.set_channel_interrupt_mask(ch, mask).image.dma_mask_int,
        ) == mask,
        spec_mask_bit(other).spec_is_set(
            s.set_channel_interrupt_mask(ch, mask).image.dma_mask_int,
        ) == spec_mask_bit(other).spec_is_set(s.image.dma_mask_int),
        s.set_channel_interrupt_mask(ch, mask).image.dma_stat == s.image.dma_stat,
{
    let m = s.image.dma_mask_int;
    let c: u32 = ch as u32;
    let o: u32 = other as u32;
    let v: u32 = if mask { 1 } else { 0 };
    let n = (m & !(1u32 << c)) | (((v & 1u32) << c) & (1u32 << c));
    assert(s.set_channel_interrupt_mask(ch, mask).image.dma_mask_int == n);
    assert(((n & (1u32 << c) != 0) == (v == 1)) && ((n & (1u32 << o) != 0) == (m & (1u32 << o)
        != 0))) by (bit_vector)
        requires
            c < 8,
            o < 8,
            c != o,
            v == 0 || v == 1,
            n == (m & !(1u32 << c)) | (((v & 1u32) << c) & (1u32 << c)),
    ;
}

/// Channel `ch` is quiet: not bound, no completion flagged, no request line
/// selected and the selection disabled.
pub open spec fn spec_quiet(s: DdmaModel, ch: int) -> bool {
    &&& !s.is_channel_bind(ch)
    &&& !s.is_channel_complete(ch)
    &&& spec_chal_sel(ch).spec_read(s.image.get(spec_chal_config_reg(ch))) == 0
    &&& !spec_chal_sel_en(ch).spec_is_set(s.image.get(spec_chal_config_reg(ch)))
}

proof fn lemma_quiesce_step(p: DdmaModel, last: int, ch: int)
    requires
        0 <= last < 8,
        0 <= ch <= last,
        ch < last ==> spec_quiet(p, ch),
    ensures
        spec_quiet(p.quiesce(last), ch),
{
    let other = if last == 0 {
        1
    } else {
        0
    };
    let a = if p.is_channel_bind(last) {
        p.set_channel_bind(last, false)
    } else {
        p
    };
    let b = a.set_channel_interrupt_mask(last, true);
    let c = b.clear_channel_complete(last);
    let d = c.set_channel_config(last, 0, false);
    assert(d == p.quiesce(last));
    assert(b.image.dma_channel_bind == a.image.dma_channel_bind);
    assert(c.image.dma_channel_bind == a.image.dma_channel_bind);
    assert(d.image.dma_channel_bind == a.image.dma_channel_bind);
    assert(b.image.dma_stat == p.image.dma_stat);
    assert(d.image.dma_stat == c.image.dma_stat);
    assert(c.image.get(spec_chal_config_reg(ch)) == p.image.get(spec_chal_config_reg(ch)));
    if ch < last {
        law_bind_reads_back(p, last, false, ch);
        law_clear_reads_back(b, last, ch);
        law_channel_config_reads_back(c, last, 0, false, ch);
    } else {
        law_bind_reads_back(p, last, false, other);
        law_clear_reads_back(b, last, other);
        law_channel_config_reads_back(c, last, 0, false, other);
        assert(0u32 & 0x7F == 0) by (bit_vector);
    }
}

proof fn lemma_quiesce_below(s: DdmaModel, count: nat)
    requires
        count <= 8,
    ensures
        forall|ch: int| 0 <= ch < count ==> spec_quiet(s.quiesce_below(count), ch),
    decreases count,
{
    if count > 0 {
        lemma_quiesce_below(s, (count - 1) as nat);
        let p = s.quiesce_below((count - 1) as nat);
        assert forall|ch: int| 0 <= ch < count implies spec_quiet(
            s.quiesce_below(count),
            ch,
        ) by {
            lemma_quiesce_step(p, count - 1, ch);
        }
    }
}

/// After a reset the controller is disabled with no soft reset pending,
/// every interrupt is masked, and every channel is quiet: unbound, without a
/// completion flag, without a request line.
pub proof fn law_reset_quiets_all(s: DdmaModel)
    ensures
        s.reset().image.dma_ctl == 0,
        s.reset().image.dma_mask_int == u32::MAX,
        forall|ch: int| 0 <= ch < 8 ==> spec_quiet(s.reset(), ch),
{
    let start = s.write(GlobalReg::Ctl, Field::bit(crate::reg::DMA_ENABLE).spec_val(0)).write(
        GlobalReg::MaskInt,
        Field::bit(crate::reg::GLOBAL_EN).spec_val(0),
    );
    lemma_quiesce_below(start, 8);
    let q = start.quiesce_below(8);
    assert((0u32 & 1u32) << 1u32 == 0) by (bit_vector);
    assert(s.reset().image.dma_channel_bind == q.image.dma_channel_bind);
    assert(s.reset().image.dma_stat == q.image.dma_stat);
    assert(s.reset().image.dma_chal_config == q.image.dma_chal_config);
    assert(s.reset().image.dma_chal_config1 == q.image.dma_chal_config1);
    assert forall|ch: int| 0 <= ch < 8 implies spec_quiet(s.reset(), ch) by {
        assert(spec_quiet(q, ch));
    }
}

/// Bytes written into a buffer are read back unchanged, in order, from the
/// same offsets, and the bytes around them stay.
pub proof fn law_buffer_round_trip(bytes: Seq<u8>, offset: int, src: Seq<u8>)
    requires
        0 <= offset,
        offset + src.len() <= bytes.len(),
    ensures
        spec_written(bytes, offset, src).subrange(offset, offset + src.len()) == src,
        spec_written(bytes, offset, src).len() == bytes.len(),
        forall|k: int|
            0 <= k < bytes.len() && !(offset <= k < offset + src.len()) ==> spec_written(
                bytes,
                offset,
                src,
            )[k] == bytes[k],
{
}

} // verus!
