//! The frame driver: the machine as a whole, stepped one CPU instruction at a
//! time with the PPU advanced three dots per CPU cycle.
use crate::cartridge::{
    chr_len, load_error, mirroring_of, parse_ines, prg_len, prg_start, LoadError,
};
use crate::cpu::{
    inc16, lemma_step_never_sets_vblank, lemma_step_takes_cycles, step_spec, Cpu, RESET_VECTOR,
};
use crate::mem::{
    lemma_access_never_sets_vblank, BusState, Mem, NAMETABLE_SIZE, OAM_SIZE, PALETTE_SIZE, RAM_SIZE,
    WRAM_SIZE,
};
use crate::ppu::{
    lemma_vblank_only_in_window, ticks_spec, vblank_window, Ppu, PpuState, PRE_RENDER_SCANLINE,
};
use vstd::prelude::*;

verus! {

/// CPU cycles in one frame: the CPU clock over 60 Hz.
pub const CYCLES_PER_FRAME: i32 = 29829;

/// The model of the whole machine.
pub struct Machine {
    pub cpu: Cpu,
    pub ppu: PpuState,
    pub bus: BusState,
}

/// One driver step and the CPU cycles it took: the CPU step with any OAM DMA
/// it started, then the PPU advanced three dots per cycle.
pub open spec fn driver_step(s: Machine) -> (Machine, int) {
    let st = step_spec(s.cpu, s.bus);
    let r = st.cycles + st.bus.dma_stall;
    let (p, m) = ticks_spec(s.ppu, BusState { dma_stall: 0, ..st.bus }, (3 * r) as nat);
    (Machine { cpu: Cpu { cycles: (s.cpu.cycles + r) as u64, ..st.cpu }, ppu: p, bus: m }, r)
}

/// The machine after running steps while `budget` cycles remain.
pub open spec fn run_frame_spec(s: Machine, budget: int) -> Machine
    decreases budget,
{
    if budget <= 0 {
        s
    } else {
        let (s1, r) = driver_step(s);
        if r <= 0 || budget - r <= 0 {
            s1
        } else {
            run_frame_spec(s1, budget - r)
        }
    }
}

/// The emulated console.
pub struct Nes {
    rom_header: Vec<u8>,
    cpu: Cpu,
    ppu: Ppu,
    mem: Mem,
}

impl View for Nes {
    type V = Machine;

    closed spec fn view(&self) -> Machine {
        Machine { cpu: self.cpu, ppu: self.ppu@, bus: self.mem@ }
    }
}

impl Nes {
    /// The cartridge's 16-byte iNES header.
    pub closed spec fn header_bytes(&self) -> Seq<u8> {
        self.rom_header@
    }

    pub open spec fn wf(&self) -> bool {
        self@.ppu.wf() && self@.bus.wf()
    }

    /// Loads an iNES image and resets the machine: the CPU starts at the reset
    /// vector with the cartridge's mirroring in effect.
    pub fn new(rom_bytes: &Vec<u8>) -> (r: Result<Nes, LoadError>)
        ensures
            match load_error(rom_bytes@) {
                Some(e) => r == Err::<Nes, LoadError>(e),
                None => r.is_ok(),
            },
            r.is_ok() ==> r->Ok_0.wf(),
            r.is_ok() ==> r->Ok_0.header_bytes() == rom_bytes@.subrange(0, 16),
            r.is_ok() ==> vblank_consistent(r->Ok_0@),
            r.is_ok() ==> ({
                let s = r->Ok_0@;
                let b = rom_bytes@;
                &&& s.cpu.a == 0 && s.cpu.x == 0 && s.cpu.y == 0
                &&& s.cpu.s == 0xFD && s.cpu.p == 0x24 && s.cpu.cycles == 7
                &&& s.cpu.pc == s.bus.peek(RESET_VECTOR) + 256 * s.bus.peek(inc16(RESET_VECTOR))
                &&& s.bus.prg == b.subrange(prg_start(b), prg_start(b) + prg_len(b))
                &&& s.bus.chr == b.subrange(
                    prg_start(b) + prg_len(b),
                    prg_start(b) + prg_len(b) + chr_len(b),
                )
                &&& s.bus.ram == Seq::new(RAM_SIZE as nat, |i: int| 0u8)
                &&& s.bus.wram == Seq::new(WRAM_SIZE as nat, |i: int| 0u8)
                &&& s.bus.nametables == Seq::new(NAMETABLE_SIZE as nat, |i: int| 0u8)
                &&& s.bus.palette == Seq::new(PALETTE_SIZE as nat, |i: int| 0u8)
                &&& s.bus.oam == Seq::new(OAM_SIZE as nat, |i: int| 0u8)
                &&& s.bus.ctrl == 0 && s.bus.mask == 0 && s.bus.status == 0 && !s.bus.vblank
                &&& s.bus.oam_addr == 0 && s.bus.scroll_x == 0 && s.bus.scroll_y == 0
                &&& s.bus.vram_addr == 0 && !s.bus.write_toggle && s.bus.read_buffer == 0
                &&& !s.bus.trigger_nmi && s.bus.irq == 1 && s.bus.dma_stall == 0
                &&& s.bus.buttons == 0 && s.bus.shift == 0 && s.bus.shift_count == 0 && !s.bus.strobe
                &&& s.bus.mirroring == mirroring_of(b)
                &&& s.ppu.scanline == PRE_RENDER_SCANLINE && s.ppu.dot == 0
            }),
    {
        let cart = match parse_ines(rom_bytes) {
            Ok(c) => c,
            Err(e) => return Err(e),
        };
        let mut mem = Mem::new(cart.prg_rom, cart.chr_rom);
        mem.set_mirroring(cart.mirroring);
        let ghost m0 = mem@;
        let cpu = Cpu::new(&mut mem);
        proof {
            reveal(BusState::after_read);
            lemma_access_never_sets_vblank(m0, RESET_VECTOR, 0);
            lemma_access_never_sets_vblank(m0.after_read(RESET_VECTOR), inc16(RESET_VECTOR), 0);
        }
        Ok(Nes { rom_header: cart.header, cpu, ppu: Ppu::new(), mem })
    }

    /// Runs one frame's worth of CPU cycles, the PPU in step.
    pub fn emulate_frame(&mut self)
        requires
            old(self).wf(),
            old(self)@.cpu.cycles <= u64::MAX - 65536,
        ensures
            final(self).wf(),
            final(self)@ == run_frame_spec(old(self)@, CYCLES_PER_FRAME as int),
    {
        let mut i: i32 = CYCLES_PER_FRAME;
        while i > 0
            invariant
                self.wf(),
                -1024 <= i <= CYCLES_PER_FRAME,
                self@.cpu.cycles == old(self)@.cpu.cycles + (CYCLES_PER_FRAME - i),
                old(self)@.cpu.cycles <= u64::MAX - 65536,
                run_frame_spec(old(self)@, CYCLES_PER_FRAME as int) == run_frame_spec(self@, i as int),
            decreases i + 1024,
        {
            proof {
                lemma_step_takes_cycles(self.cpu, self.mem@);
            }
            let cycles_taken = self.cpu.emulate(&mut self.mem);
            self.ppu.emulate(&mut self.mem, cycles_taken * 3);
            i = i - cycles_taken as i32;
        }
    }

    /// A button goes down (0 A, 1 B, 2 Select, 3 Start, 4 Up, 5 Down, 6 Left, 7 Right).
    pub fn button_press(&mut self, button: u8)
        requires
            button < 8,
        ensures
            final(self)@ == (Machine {
                bus: BusState { buttons: old(self)@.bus.buttons | (1u8 << button), ..old(self)@.bus },
                ..old(self)@
            }),
    {
        self.mem.button_set(button, true);
    }

    /// A button comes up.
    pub fn button_lift(&mut self, button: u8)
        requires
            button < 8,
        ensures
            final(self)@ == (Machine {
                bus: BusState {
                    buttons: old(self)@.bus.buttons & !(1u8 << button),
                    ..old(self)@.bus
                },
                ..old(self)@
            }),
    {
        self.mem.button_set(button, false);
    }

    /// The last frame drawn: 256 x 240 RGBA pixels, row-major.
    pub fn frame(&self) -> (r: &Vec<u8>)
        ensures
            r@ == self@.ppu.frame,
    {
        self.ppu.frame()
    }

    pub fn cpu(&self) -> (r: Cpu)
        ensures
            r == self@.cpu,
    {
        self.cpu
    }

    pub fn rom_header(&self) -> (r: &Vec<u8>)
        ensures
            r@ == self.header_bytes(),
    {
        &self.rom_header
    }
}

/// Whether the vertical-blank flag stands where the PPU's timing allows it.
pub open spec fn vblank_consistent(s: Machine) -> bool {
    s.bus.vblank ==> vblank_window(s.ppu.scanline, s.ppu.dot)
}

/// One driver step keeps the vertical-blank flag within its window: the CPU
/// never sets it, and the PPU sets it only at dot 1 of line 241.
pub proof fn lemma_driver_step_keeps_vblank(s: Machine)
    requires
        s.ppu.wf(),
        vblank_consistent(s),
    ensures
        driver_step(s).0.ppu.wf(),
        vblank_consistent(driver_step(s).0),
{
    let st = step_spec(s.cpu, s.bus);
    let r = st.cycles + st.bus.dma_stall;
    lemma_step_never_sets_vblank(s.cpu, s.bus);
    lemma_step_takes_cycles(s.cpu, s.bus);
    let m = BusState { dma_stall: 0, ..st.bus };
    lemma_vblank_only_in_window(s.ppu, m, (3 * r) as nat);
}

/// Over a whole frame the vertical-blank flag reads 1 only within its window,
/// if it did so at the start.
pub proof fn lemma_frame_keeps_vblank(s: Machine, budget: int)
    requires
        s.ppu.wf(),
        vblank_consistent(s),
    ensures
        run_frame_spec(s, budget).ppu.wf(),
        vblank_consistent(run_frame_spec(s, budget)),
    decreases budget,
{
    if budget > 0 {
        lemma_driver_step_keeps_vblank(s);
        let (s1, r) = driver_step(s);
        if r > 0 && budget - r > 0 {
            lemma_frame_keeps_vblank(s1, budget - r);
        }
    }
}

} // verus!
