//! The console: a CPU (with its bus) clocked together with the PPU.
use vstd::prelude::*;
use crate::cartridge::Cartridge;
use crate::cpu::CPU;
use crate::cpu::semantics::CpuState;
use crate::ppu::{PPU, PpuState};
use crate::rendering::{BasicPixelBuffer, PatternTable};
use crate::ppu::debug_view::pattern_table_readable;

verus! {

pub struct NES {
    pub cpu: CPU,
    pub clock_count: usize,
}

/// The CPU after the NMI that the PPU raised, if it raised one.
pub open spec fn after_nmi(s: CpuState) -> CpuState {
    if s.ppu.nmi {
        CpuState { ppu: PpuState { nmi: false, ..s.ppu }, ..s }.non_maskable_interupt_request()
    } else {
        s
    }
}

/// One console tick as seen from the CPU: a PPU dot, a CPU cycle on every third
/// tick, and the NMI the PPU may have raised.
pub open spec fn ticked(s: CpuState, clock_count: usize) -> CpuState {
    let s1 = CpuState { ppu: s.ppu.clock(s.cartridge), ..s };
    let s2 = if clock_count % 3 == 0 {
        s1.clock()
    } else {
        s1
    };
    after_nmi(s2)
}

pub open spec fn tick_ok(s: CpuState, clock_count: usize) -> bool {
    let s1 = CpuState { ppu: s.ppu.clock(s.cartridge), ..s };
    let s2 = if clock_count % 3 == 0 {
        s1.clock()
    } else {
        s1
    };
    &&& clock_count < usize::MAX
    &&& s.ppu.clock_ok(s.cartridge)
    &&& (clock_count % 3 == 0 ==> s1.clock_ok())
    &&& (s2.ppu.nmi ==> s2.interrupt_ok(0xFFFA))
}

/// How many of the `k` ticks counted from `start` run the CPU: those whose count is a
/// multiple of three.
pub open spec fn cpu_clock_runs(start: nat, k: nat) -> nat
    decreases k,
{
    if k == 0 {
        0
    } else {
        cpu_clock_runs(start, (k - 1) as nat) + if (start + k - 1) % 3 == 0 {
            1nat
        } else {
            0nat
        }
    }
}

/// From a fresh console (tick count 0), `k` ticks run the CPU `(k + 2) / 3` times, and
/// any three ticks in a row run it exactly once.
pub proof fn lemma_cpu_runs_every_third_tick(start: nat, k: nat)
    ensures
        cpu_clock_runs(0, k) == (k + 2) / 3,
        cpu_clock_runs(start, 3 * k) == k,
    decreases k,
{
    if k > 0 {
        lemma_cpu_runs_every_third_tick(start, (k - 1) as nat);
        let j = (k - 1) as nat;
        assert(cpu_clock_runs(0, k) == cpu_clock_runs(0, j) + if j % 3 == 0 { 1nat } else { 0nat });
        assert(cpu_clock_runs(start, 3 * k) == cpu_clock_runs(start, (3 * k - 1) as nat) + if (start
            + 3 * k - 1) % 3 == 0 { 1nat } else { 0nat });
        assert(cpu_clock_runs(start, (3 * k - 1) as nat) == cpu_clock_runs(start, (3 * k - 2) as nat)
            + if (start + 3 * k - 2) % 3 == 0 { 1nat } else { 0nat });
        assert(cpu_clock_runs(start, (3 * k - 2) as nat) == cpu_clock_runs(start, 3 * j) + if (start
            + 3 * k - 3) % 3 == 0 { 1nat } else { 0nat });
    }
}

/// Every tick serves the NMI that the PPU raised: afterwards no NMI is pending.
pub proof fn lemma_tick_serves_nmi(s: CpuState, clock_count: usize)
    ensures
        !ticked(s, clock_count).ppu.nmi,
{
}

impl NES {
    pub fn new(pixel_buffer: BasicPixelBuffer, debug_pattern_screen: BasicPixelBuffer, cartridge: Cartridge) -> (r: Self)
        requires
            cartridge@.cpu_read_ok(0xFFFC),
            cartridge@.cpu_read_ok(0xFFFD),
        ensures
            r.clock_count == 0,
            r.cpu@ == CpuState::powered_on(
                cartridge@,
                PPU::new_state(pixel_buffer@, debug_pattern_screen@),
            ).reset(),
    {
        let ppu = PPU::new(pixel_buffer, debug_pattern_screen);
        Self { cpu: CPU::new(cartridge, ppu), clock_count: 0 }
    }

    pub fn reset(&mut self)
        requires
            old(self).cpu@.reset_ok(),
        ensures
            final(self).cpu@ == old(self).cpu@.reset(),
            final(self).clock_count == 0,
    {
        self.cpu.reset();
        self.clock_count = 0;
    }

    /// One tick: the PPU runs three times as fast as the CPU.
    pub fn clock(&mut self)
        requires
            tick_ok(old(self).cpu@, old(self).clock_count),
        ensures
            final(self).cpu@ == ticked(old(self).cpu@, old(self).clock_count),
            final(self).clock_count == old(self).clock_count + 1,
    {
        self.cpu.ppu_clock();
        if self.clock_count % 3 == 0 {
            self.cpu.clock();
        }
        if self.cpu.ppu.nmi {
            self.cpu.ppu.nmi = false;
            self.cpu.non_maskable_interupt_request();
        }
        self.clock_count = self.clock_count + 1;
    }

    /// Whether the PPU finished a frame since the last call; the flag is cleared.
    pub fn check_frame_complete_and_toggle(&mut self) -> (r: bool)
        ensures
            r == old(self).cpu.ppu.frame_complete,
            final(self).cpu@ == (CpuState {
                ppu: PpuState { frame_complete: false, ..old(self).cpu@.ppu },
                ..old(self).cpu@
            }),
            final(self).clock_count == old(self).clock_count,
    {
        let r = self.cpu.ppu.frame_complete;
        self.cpu.ppu.frame_complete = false;
        r
    }

    pub fn cpu(&self) -> (r: &CPU)
        ensures
            r == &self.cpu,
    {
        &self.cpu
    }

    pub fn clock_count(&self) -> (r: usize)
        ensures
            r == self.clock_count,
    {
        self.clock_count
    }

    pub fn get_mut_cpu_ram(&mut self) -> (r: &mut [u8; 2048])
        ensures
            *r == old(self).cpu.ram,
            final(self).cpu@ == (CpuState { ram: final(r)@, ..old(self).cpu@ }),
            final(self).clock_count == old(self).clock_count,
    {
        self.cpu.get_mut_ram()
    }

    /// Draws one pattern table of the cartridge into the pattern table screen with
    /// palette `pallete_id`.
    pub fn render_debug_pattern_table(&mut self, pattern_table_side: PatternTable, pallete_id: u8)
        requires
            old(self).cpu.ppu.pattern_table_screen.buffer@.len() >= 32768,
            pattern_table_readable(old(self).cpu@.cartridge, pattern_table_side.spec_index() as int),
        ensures
            final(self).cpu@ == (CpuState {
                ppu: old(self).cpu@.ppu.pattern_table_drawn(
                    old(self).cpu@.cartridge,
                    pattern_table_side.spec_index() as int,
                    pallete_id,
                ),
                ..old(self).cpu@
            }),
            final(self).clock_count == old(self).clock_count,
    {
        self.cpu.render_debug_pattern_table(pattern_table_side, pallete_id);
    }
}

} // verus!
