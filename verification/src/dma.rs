//! The OAM DMA controller as a state machine of its own: a transfer starts
//! after a delay of two ticks and copies one byte per tick.

use vstd::prelude::*;
use crate::bus::{bus_read, bus_read_ok, bus_read_spec};
use crate::cartridge::Cartridge;
use crate::ppu::{spec_oam_update, PPU};

verus! {

pub struct DmaContext {
    pub is_active: bool,
    pub byte: u8,
    pub val: u8,
    pub start_delay: u8,
}

impl DmaContext {
    /// The controller at power-on: idle.
    pub fn new() -> (ctx: DmaContext)
        ensures
            ctx == (DmaContext { is_active: false, byte: 0, val: 0, start_delay: 0 }),
    {
        DmaContext { is_active: false, byte: 0, val: 0, start_delay: 0 }
    }

    /// Whether a tick copies a byte now.
    pub open spec fn copies(&self) -> bool {
        self.is_active && self.start_delay == 0
    }

    /// The source address of the next byte: page `val`, offset `byte`.
    pub open spec fn source(&self) -> u16 {
        (self.val * 256 + self.byte) as u16
    }
}

/// The controller and the PPU after a tick: nothing when idle; during the
/// start delay the delay counts down; otherwise the byte at the source is
/// copied to OAM at the byte counter, which advances, and the transfer ends
/// once it reaches 0xA0.
pub open spec fn dma_tick_spec(ctx: DmaContext, cart: &Cartridge, ppu: PPU) -> (DmaContext, PPU) {
    if !ctx.is_active {
        (ctx, ppu)
    } else if ctx.start_delay != 0 {
        (DmaContext { start_delay: (ctx.start_delay - 1) as u8, ..ctx }, ppu)
    } else {
        let v = bus_read_spec(cart, &ppu, &ctx, ctx.source());
        (
            DmaContext { byte: (ctx.byte + 1) as u8, is_active: ctx.byte + 1 < 0xA0, ..ctx },
            PPU { oam: spec_oam_update(ppu.oam, ctx.byte as u16, v), ..ppu },
        )
    }
}

/// The controller and the PPU after `n` ticks.
pub open spec fn dma_run(ctx: DmaContext, cart: &Cartridge, ppu: PPU, n: nat) -> (DmaContext, PPU)
    decreases n,
{
    if n == 0 {
        (ctx, ppu)
    } else {
        let (c, p) = dma_run(ctx, cart, ppu, (n - 1) as nat);
        dma_tick_spec(c, cart, p)
    }
}

/// The state after `k` copying ticks of a transfer from page `start` that
/// began with the byte counter at 0: `k` bytes copied in order.
proof fn lemma_dma_copies_prefix(ctx: DmaContext, cart: &Cartridge, ppu: PPU, start: u8, k: nat)
    requires
        ctx == (DmaContext { is_active: true, start_delay: 2, val: start, byte: 0, ..ctx }),
        k <= 160,
    ensures
        ({
            let (c, p) = dma_run(ctx, cart, ppu, k + 2);
            &&& c == (DmaContext { byte: k as u8, is_active: k < 160, start_delay: 0, ..ctx })
            &&& p == (PPU { oam: p.oam, ..ppu })
            &&& forall|i: int| 0 <= i < k ==> #[trigger] p.oam@[i] == bus_read_spec(
                cart,
                &ppu,
                &ctx,
                (start * 256 + i) as u16,
            )
            &&& forall|i: int| k <= i < 160 ==> #[trigger] p.oam@[i] == ppu.oam@[i]
        }),
    decreases k,
{
    if k == 0 {
        assert(dma_run(ctx, cart, ppu, 0) == (ctx, ppu));
        assert(dma_run(ctx, cart, ppu, 1) == (DmaContext { start_delay: 1, ..ctx }, ppu));
        assert(dma_run(ctx, cart, ppu, 2) == (DmaContext { start_delay: 0, ..ctx }, ppu));
    } else {
        lemma_dma_copies_prefix(ctx, cart, ppu, start, (k - 1) as nat);
        let (c, p) = dma_run(ctx, cart, ppu, (k + 1) as nat);
        assert(c.source() == (start * 256 + (k - 1)) as u16);
        assert(bus_read_spec(cart, &p, &c, c.source()) == bus_read_spec(cart, &ppu, &ctx, c.source()));
    }
}

/// A transfer started on an idle controller whose byte counter is at 0
/// waits two ticks, then in 160 ticks copies the 160 bytes of the source
/// page into OAM in order (OAM itself reads 0xFF meanwhile), and ends; the
/// rest of the PPU is untouched.
pub proof fn lemma_dma_copies_page(ctx: DmaContext, cart: &Cartridge, ppu: PPU, start: u8)
    requires
        !ctx.is_active,
        ctx.byte == 0,
    ensures
        ({
            let started = DmaContext { is_active: true, start_delay: 2, val: start, ..ctx };
            let (c, p) = dma_run(started, cart, ppu, 162);
            &&& !c.is_active
            &&& c.byte == 160
            &&& p == (PPU { oam: p.oam, ..ppu })
            &&& forall|i: int| 0 <= i < 160 ==> #[trigger] p.oam@[i] == bus_read_spec(
                cart,
                &ppu,
                &started,
                (start * 256 + i) as u16,
            )
        }),
{
    let started = DmaContext { is_active: true, start_delay: 2, val: start, ..ctx };
    lemma_dma_copies_prefix(started, cart, ppu, start, 160);
}

/// A transfer started with the byte counter at 0 is under way for exactly
/// its first 162 ticks: two ticks of start delay and one tick per OAM byte.
pub proof fn lemma_dma_in_progress(ctx: DmaContext, cart: &Cartridge, ppu: PPU, start: u8, k: nat)
    requires
        ctx.byte == 0,
    ensures
        dma_run(DmaContext { is_active: true, start_delay: 2, val: start, ..ctx }, cart, ppu, k).0.is_active
            == (k < 162),
    decreases k,
{
    let started = DmaContext { is_active: true, start_delay: 2, val: start, ..ctx };
    if k == 0 {
    } else if k == 1 {
        assert(dma_run(started, cart, ppu, 0) == (started, ppu));
    } else if k <= 162 {
        lemma_dma_copies_prefix(started, cart, ppu, start, (k - 2) as nat);
    } else {
        lemma_dma_in_progress(ctx, cart, ppu, start, (k - 1) as nat);
    }
}

/// Starts a transfer from page `start`; the byte counter is not reset.
pub fn dma_start(ctx: &mut DmaContext, start: u8)
    ensures
        *final(ctx) == (DmaContext { is_active: true, start_delay: 2, val: start, ..*old(ctx) }),
{
    ctx.is_active = true;
    ctx.start_delay = 2;
    ctx.val = start;
}

/// A tick: nothing when idle; during the start delay the delay counts down;
/// otherwise the byte at the source is copied to OAM at the byte counter,
/// which advances, and the transfer ends once it reaches 0xA0.
pub fn dma_tick(ctx: &mut DmaContext, cart: &Cartridge, ppu: &mut PPU)
    requires
        old(ctx).copies() ==> old(ctx).byte < 160 && bus_read_ok(cart, old(ctx).source()),
    ensures
        !old(ctx).is_active ==> *final(ctx) == *old(ctx) && *final(ppu) == *old(ppu),
        old(ctx).is_active && old(ctx).start_delay != 0 ==> *final(ctx) == (DmaContext {
            start_delay: (old(ctx).start_delay - 1) as u8,
            ..*old(ctx)
        }) && *final(ppu) == *old(ppu),
        (*final(ctx), *final(ppu)) == dma_tick_spec(*old(ctx), cart, *old(ppu)),
        old(ctx).copies() ==> {
            &&& final(ppu).oam@ == old(ppu).oam@.update(
                old(ctx).byte as int,
                bus_read_spec(cart, old(ppu), old(ctx), old(ctx).source()),
            )
            &&& *final(ppu) == (PPU { oam: final(ppu).oam, ..*old(ppu) })
            &&& final(ctx).byte == old(ctx).byte + 1
            &&& final(ctx).is_active == (old(ctx).byte + 1 < 0xA0)
            &&& *final(ctx) == (DmaContext {
                byte: final(ctx).byte,
                is_active: final(ctx).is_active,
                ..*old(ctx)
            })
        },
{
    if !ctx.is_active {
        return;
    }
    if ctx.start_delay != 0 {
        ctx.start_delay -= 1;
        return;
    }
    let address = ctx.val as u16 * 0x100 + ctx.byte as u16;
    let value = bus_read(cart, ppu, ctx, address);
    ppu.oam_write(ctx.byte as u16, value);
    ctx.byte += 1;
    ctx.is_active = ctx.byte < 0xA0;
}

/// Whether a transfer is under way.
pub fn dma_transferring(ctx: &DmaContext) -> (r: bool)
    ensures
        r == ctx.is_active,
{
    ctx.is_active
}

} // verus!
