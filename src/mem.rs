//! The CPU's memory bus: work RAM, cartridge memory, the PPU's memory-mapped
//! registers, OAM DMA and the first controller.
use vstd::prelude::*;

verus! {

/// How the four logical nametables map onto the two physical ones.
#[derive(Clone, Copy, Debug, PartialEq, Eq, Structural)]
pub enum Mirroring {
    /// 0x2000 and 0x2400 share one table, 0x2800 and 0x2C00 the other.
    Horizontal,
    /// 0x2000 and 0x2800 share one table, 0x2400 and 0x2C00 the other.
    Vertical,
}

/// The mathematical model of the bus: every byte array as a sequence, every
/// register as a plain value.
pub struct BusState {
    pub ram: Seq<u8>,
    pub wram: Seq<u8>,
    pub nametables: Seq<u8>,
    pub palette: Seq<u8>,
    pub oam: Seq<u8>,
    pub prg: Seq<u8>,
    pub chr: Seq<u8>,
    pub mirroring: Mirroring,
    /// The IRQ line, active low as on the chip: 0 means asserted.
    pub irq: u8,
    pub trigger_nmi: bool,
    pub vblank: bool,
    pub ctrl: u8,
    pub mask: u8,
    /// Sprite overflow (bit 5) and sprite-zero hit (bit 6) of STATUS.
    pub status: u8,
    pub oam_addr: u8,
    pub scroll_x: u8,
    pub scroll_y: u8,
    pub vram_addr: u16,
    /// The shared SCROLL/ADDR write latch: true once the first write of a pair is done.
    pub write_toggle: bool,
    pub read_buffer: u8,
    pub buttons: u8,
    pub shift: u8,
    pub shift_count: u8,
    pub strobe: bool,
    /// CPU cycles owed to an OAM DMA that the CPU has not yet accounted for.
    pub dma_stall: u16,
}

pub const RAM_SIZE: usize = 0x800;
pub const WRAM_SIZE: usize = 0x2000;
pub const NAMETABLE_SIZE: usize = 0x800;
pub const PALETTE_SIZE: usize = 32;
pub const OAM_SIZE: usize = 256;
/// CPU cycles that an OAM DMA takes.
pub const DMA_CYCLES: u16 = 513;

/// Index into the two physical nametables for a PPU address in 0x2000..0x3EFF.
pub open spec fn nametable_index(m: Mirroring, addr: u16) -> int {
    let off = (addr as int - 0x2000) % 0x1000;
    let table = off / 0x400;
    let within = off % 0x400;
    match m {
        Mirroring::Horizontal => (table / 2) * 0x400 + within,
        Mirroring::Vertical => (table % 2) * 0x400 + within,
    }
}

/// Index into palette RAM: 32 entries, with 0x3F10/14/18/1C mirroring 0x3F00/04/08/0C.
pub open spec fn palette_index(addr: u16) -> int {
    let i = addr as int % 32;
    if i >= 16 && i % 4 == 0 {
        i - 16
    } else {
        i
    }
}

/// The VRAM address after a DATA access: +1 or +32 by CTRL bit 2, within 14 bits.
pub open spec fn next_vram_addr(addr: u16, ctrl: u8) -> u16 {
    let step: int = if ctrl & 0x04 == 0 {
        1
    } else {
        32
    };
    ((addr as int + step) % 0x4000) as u16
}

impl BusState {
    pub open spec fn wf(self) -> bool {
        &&& self.ram.len() == RAM_SIZE
        &&& self.wram.len() == WRAM_SIZE
        &&& self.nametables.len() == NAMETABLE_SIZE
        &&& self.palette.len() == PALETTE_SIZE
        &&& self.oam.len() == OAM_SIZE
        &&& self.dma_stall <= DMA_CYCLES
        &&& self.vram_addr < 0x4000
    }

    /// What a PPU-side read of `addr` yields.
    pub open spec fn vram_peek(self, addr: u16) -> u8 {
        let a = (addr % 0x4000) as u16;
        if a < 0x2000 {
            if (a as int) < self.chr.len() {
                self.chr[a as int]
            } else {
                0
            }
        } else if a < 0x3F00 {
            self.nametables[nametable_index(self.mirroring, a)]
        } else {
            self.palette[palette_index(a)]
        }
    }

    /// The state after a PPU-side write of `val` to `addr`. Pattern memory is
    /// the cartridge's CHR ROM: writes there are dropped.
    pub open spec fn vram_poke(self, addr: u16, val: u8) -> BusState {
        let a = (addr % 0x4000) as u16;
        if a < 0x2000 {
            self
        } else if a < 0x3F00 {
            BusState {
                nametables: self.nametables.update(nametable_index(self.mirroring, a), val),
                ..self
            }
        } else {
            BusState { palette: self.palette.update(palette_index(a), val), ..self }
        }
    }

    /// The byte at `addr` of PRG ROM, mirrored to fill 0x8000..0xFFFF.
    pub open spec fn prg_peek(self, addr: u16) -> u8 {
        if self.prg.len() == 0 {
            0
        } else {
            self.prg[(addr as int - 0x8000) % (self.prg.len() as int)]
        }
    }

    /// STATUS as a read sees it. Bits 0-4 are open bus on the chip; here they read 0.
    pub open spec fn status_value(self) -> u8 {
        (self.status & 0x60) | (if self.vblank {
            0x80u8
        } else {
            0u8
        })
    }

    /// What a CPU read of `addr` returns.
    #[verifier::opaque]
    pub open spec fn peek(self, addr: u16) -> u8 {
        if addr < 0x2000 {
            self.ram[addr as int % 0x800]
        } else if addr < 0x4000 {
            let reg = addr % 8;
            if reg == 2 {
                self.status_value()
            } else if reg == 4 {
                self.oam[self.oam_addr as int]
            } else if reg == 7 {
                if self.vram_addr % 0x4000 >= 0x3F00 {
                    self.vram_peek(self.vram_addr)
                } else {
                    self.read_buffer
                }
            } else {
                0
            }
        } else if addr == 0x4016 {
            if self.strobe {
                self.buttons & 1
            } else if self.shift_count < 8 {
                (self.shift >> self.shift_count) & 1
            } else {
                1
            }
        } else if 0x6000 <= addr < 0x8000 {
            self.wram[addr - 0x6000]
        } else if addr >= 0x8000 {
            self.prg_peek(addr)
        } else {
            0
        }
    }

    /// The state after a CPU read of `addr`: only STATUS, DATA and the
    /// controller register change anything.
    #[verifier::opaque]
    pub open spec fn after_read(self, addr: u16) -> BusState {
        if 0x2000 <= addr < 0x4000 && addr % 8 == 2 {
            BusState { vblank: false, write_toggle: false, ..self }
        } else if 0x2000 <= addr < 0x4000 && addr % 8 == 7 {
            BusState {
                read_buffer: self.vram_peek(self.vram_addr),
                vram_addr: next_vram_addr(self.vram_addr, self.ctrl),
                ..self
            }
        } else if addr == 0x4016 && !self.strobe && self.shift_count < 8 {
            BusState { shift_count: (self.shift_count + 1) as u8, ..self }
        } else {
            self
        }
    }

    /// OAM after a DMA from CPU page `page`: entry `oam_addr + i` (wrapping)
    /// takes the byte at `page * 256 + i`.
    pub open spec fn dma_oam(self, page: u8) -> Seq<u8> {
        Seq::new(
            256,
            |j: int| self.peek((page as int * 256 + (j - self.oam_addr as int + 256) % 256) as u16),
        )
    }

    /// The state after a CPU write of `val` to a PPU register (`reg` in 0..8).
    pub open spec fn after_reg_write(self, reg: u16, val: u8) -> BusState {
        if reg == 0 {
            BusState { ctrl: val, ..self }
        } else if reg == 1 {
            BusState { mask: val, ..self }
        } else if reg == 3 {
            BusState { oam_addr: val, ..self }
        } else if reg == 4 {
            BusState {
                oam: self.oam.update(self.oam_addr as int, val),
                oam_addr: ((self.oam_addr + 1) % 256) as u8,
                ..self
            }
        } else if reg == 5 {
            if !self.write_toggle {
                BusState { scroll_x: val, write_toggle: true, ..self }
            } else {
                BusState { scroll_y: val, write_toggle: false, ..self }
            }
        } else if reg == 6 {
            if !self.write_toggle {
                BusState {
                    vram_addr: ((val as int % 64) * 256 + self.vram_addr as int % 256) as u16,
                    write_toggle: true,
                    ..self
                }
            } else {
                BusState {
                    vram_addr: ((self.vram_addr as int / 256) * 256 + val as int) as u16,
                    write_toggle: false,
                    ..self
                }
            }
        } else if reg == 7 {
            BusState {
                vram_addr: next_vram_addr(self.vram_addr, self.ctrl),
                ..self.vram_poke(self.vram_addr, val)
            }
        } else {
            self
        }
    }

    /// The state after a CPU write of `val` to `addr`.
    #[verifier::opaque]
    pub open spec fn after_write(self, addr: u16, val: u8) -> BusState {
        if addr < 0x2000 {
            BusState { ram: self.ram.update(addr as int % 0x800, val), ..self }
        } else if addr < 0x4000 {
            self.after_reg_write(addr % 8, val)
        } else if addr == 0x4014 {
            BusState { oam: self.dma_oam(val), dma_stall: DMA_CYCLES, ..self }
        } else if addr == 0x4016 {
            if val & 1 == 1 || self.strobe {
                BusState { strobe: val & 1 == 1, shift: self.buttons, shift_count: 0, ..self }
            } else {
                self
            }
        } else if 0x6000 <= addr < 0x8000 {
            BusState { wram: self.wram.update(addr - 0x6000, val), ..self }
        } else {
            self
        }
    }
}

/// The bus. It owns every byte that the CPU and the PPU share.
pub struct Mem {
    ram: Vec<u8>,
    wram: Vec<u8>,
    nametables: Vec<u8>,
    palette: Vec<u8>,
    oam: Vec<u8>,
    pgr_rom: Vec<u8>,
    chr: Vec<u8>,
    mirroring: Mirroring,
    irq: u8,
    trigger_nmi: bool,
    nmi_occured: bool,
    ppu_ctrl: u8,
    ppu_mask: u8,
    ppu_stat: u8,
    oam_adr: u8,
    scroll_x: u8,
    scroll_y: u8,
    ppu_target_adr: u16,
    write_toggle: bool,
    read_buffer: u8,
    buttons: u8,
    shift: u8,
    shift_count: u8,
    strobe: bool,
    dma_stall: u16,
}

impl View for Mem {
    type V = BusState;

    closed spec fn view(&self) -> BusState {
        BusState {
            ram: self.ram@,
            wram: self.wram@,
            nametables: self.nametables@,
            palette: self.palette@,
            oam: self.oam@,
            prg: self.pgr_rom@,
            chr: self.chr@,
            mirroring: self.mirroring,
            irq: self.irq,
            trigger_nmi: self.trigger_nmi,
            vblank: self.nmi_occured,
            ctrl: self.ppu_ctrl,
            mask: self.ppu_mask,
            status: self.ppu_stat,
            oam_addr: self.oam_adr,
            scroll_x: self.scroll_x,
            scroll_y: self.scroll_y,
            vram_addr: self.ppu_target_adr,
            write_toggle: self.write_toggle,
            read_buffer: self.read_buffer,
            buttons: self.buttons,
            shift: self.shift,
            shift_count: self.shift_count,
            strobe: self.strobe,
            dma_stall: self.dma_stall,
        }
    }
}

impl Mem {
    /// A powered-up bus around a cartridge: all RAM zeroed, horizontal
    /// mirroring, PRG and CHR ROM stored as given.
    pub fn new(pgr_rom: Vec<u8>, chr_rom: Vec<u8>) -> (r: Mem)
        ensures
            r@.wf(),
            r@.ram == Seq::new(RAM_SIZE as nat, |i: int| 0u8),
            r@.wram == Seq::new(WRAM_SIZE as nat, |i: int| 0u8),
            r@.nametables == Seq::new(NAMETABLE_SIZE as nat, |i: int| 0u8),
            r@.palette == Seq::new(PALETTE_SIZE as nat, |i: int| 0u8),
            r@.oam == Seq::new(OAM_SIZE as nat, |i: int| 0u8),
            r@.prg == pgr_rom@,
            r@.chr == chr_rom@,
            r@.mirroring == Mirroring::Horizontal,
            r@.irq == 1,
            !r@.trigger_nmi,
            !r@.vblank,
            r@.ctrl == 0,
            r@.mask == 0,
            r@.status == 0,
            r@.oam_addr == 0,
            r@.scroll_x == 0,
            r@.scroll_y == 0,
            r@.vram_addr == 0,
            !r@.write_toggle,
            r@.read_buffer == 0,
            r@.buttons == 0,
            r@.shift == 0,
            r@.shift_count == 0,
            !r@.strobe,
            r@.dma_stall == 0,
    {
        let r = Mem {
            ram: vec![0u8; RAM_SIZE],
            wram: vec![0u8; WRAM_SIZE],
            nametables: vec![0u8; NAMETABLE_SIZE],
            palette: vec![0u8; PALETTE_SIZE],
            oam: vec![0u8; OAM_SIZE],
            pgr_rom,
            chr: chr_rom,
            mirroring: Mirroring::Horizontal,
            irq: 1,
            trigger_nmi: false,
            nmi_occured: false,
            ppu_ctrl: 0,
            ppu_mask: 0,
            ppu_stat: 0,
            oam_adr: 0,
            scroll_x: 0,
            scroll_y: 0,
            ppu_target_adr: 0,
            write_toggle: false,
            read_buffer: 0,
            buttons: 0,
            shift: 0,
            shift_count: 0,
            strobe: false,
            dma_stall: 0,
        };
        assert(r@.ram =~= Seq::new(RAM_SIZE as nat, |i: int| 0u8));
        assert(r@.wram =~= Seq::new(WRAM_SIZE as nat, |i: int| 0u8));
        assert(r@.nametables =~= Seq::new(NAMETABLE_SIZE as nat, |i: int| 0u8));
        assert(r@.palette =~= Seq::new(PALETTE_SIZE as nat, |i: int| 0u8));
        assert(r@.oam =~= Seq::new(OAM_SIZE as nat, |i: int| 0u8));
        r
    }

    pub fn set_mirroring(&mut self, m: Mirroring)
        ensures
            final(self)@ == (BusState { mirroring: m, ..old(self)@ }),
    {
        self.mirroring = m;
    }

    fn nametable_offset(&self, a: u16) -> (r: usize)
        requires
            0x2000 <= a < 0x3F00,
        ensures
            r as int == nametable_index(self.mirroring, a),
            r < NAMETABLE_SIZE,
    {
        let off: u16 = (a - 0x2000) % 0x1000;
        let table: u16 = off / 0x400;
        let within: u16 = off % 0x400;
        match self.mirroring {
            Mirroring::Horizontal => ((table / 2) * 0x400 + within) as usize,
            Mirroring::Vertical => ((table % 2) * 0x400 + within) as usize,
        }
    }

    fn palette_offset(a: u16) -> (r: usize)
        ensures
            r as int == palette_index(a),
            r < PALETTE_SIZE,
    {
        let i: u16 = a % 32;
        if i >= 16 && i % 4 == 0 {
            (i - 16) as usize
        } else {
            i as usize
        }
    }

    /// A PPU-side read: pattern memory, nametables through the mirroring, palette RAM.
    pub fn read_vram(&self, addr: u16) -> (r: u8)
        requires
            self@.wf(),
        ensures
            r == self@.vram_peek(addr),
    {
        let a: u16 = addr % 0x4000;
        if a < 0x2000 {
            if (a as usize) < self.chr.len() {
                self.chr[a as usize]
            } else {
                0
            }
        } else if a < 0x3F00 {
            self.nametables[self.nametable_offset(a)]
        } else {
            self.palette[Self::palette_offset(a)]
        }
    }

    /// A PPU-side write. Writes to pattern memory (CHR ROM) are dropped.
    pub fn write_vram(&mut self, addr: u16, val: u8)
        requires
            old(self)@.wf(),
        ensures
            final(self)@ == old(self)@.vram_poke(addr, val),
            final(self)@.wf(),
    {
        let a: u16 = addr % 0x4000;
        if a < 0x2000 {
        } else if a < 0x3F00 {
            let i = self.nametable_offset(a);
            self.nametables[i] = val;
        } else {
            self.palette[Self::palette_offset(a)] = val;
        }
    }

    fn status_value(&self) -> (r: u8)
        ensures
            r == self@.status_value(),
    {
        (self.ppu_stat & 0x60) | (if self.nmi_occured {
            0x80u8
        } else {
            0u8
        })
    }

    /// What a read of `addr` would return, without its side effects.
    pub fn peek_u8(&self, addr: u16) -> (r: u8)
        requires
            self@.wf(),
        ensures
            r == self@.peek(addr),
    {
        reveal(BusState::peek);
        if addr < 0x2000 {
            self.ram[(addr % 0x800) as usize]
        } else if addr < 0x4000 {
            let reg: u16 = addr % 8;
            if reg == 2 {
                self.status_value()
            } else if reg == 4 {
                self.oam[self.oam_adr as usize]
            } else if reg == 7 {
                if self.ppu_target_adr % 0x4000 >= 0x3F00 {
                    self.read_vram(self.ppu_target_adr)
                } else {
                    self.read_buffer
                }
            } else {
                0
            }
        } else if addr == 0x4016 {
            if self.strobe {
                self.buttons & 1
            } else if self.shift_count < 8 {
                (self.shift >> self.shift_count) & 1
            } else {
                1
            }
        } else if 0x6000 <= addr && addr < 0x8000 {
            self.wram[(addr - 0x6000) as usize]
        } else if addr >= 0x8000 {
            let len = self.pgr_rom.len();
            if len == 0 {
                0
            } else {
                self.pgr_rom[((addr - 0x8000) as usize) % len]
            }
        } else {
            0
        }
    }

    fn next_target_adr(&self) -> (r: u16)
        ensures
            r == next_vram_addr(self.ppu_target_adr, self.ppu_ctrl),
    {
        let step: u16 = if self.ppu_ctrl & 0x04 == 0 {
            1
        } else {
            32
        };
        ((self.ppu_target_adr as u32 + step as u32) % 0x4000) as u16
    }

    /// A CPU read, with the side effects of STATUS, DATA and the controller register.
    pub fn read_u8(&mut self, addr: u16) -> (r: u8)
        requires
            old(self)@.wf(),
        ensures
            r == old(self)@.peek(addr),
            final(self)@ == old(self)@.after_read(addr),
            final(self)@.wf(),
    {
        reveal(BusState::after_read);
        let r = self.peek_u8(addr);
        if 0x2000 <= addr && addr < 0x4000 && addr % 8 == 2 {
            self.nmi_occured = false;
            self.write_toggle = false;
        } else if 0x2000 <= addr && addr < 0x4000 && addr % 8 == 7 {
            self.read_buffer = self.read_vram(self.ppu_target_adr);
            self.ppu_target_adr = self.next_target_adr();
        } else if addr == 0x4016 && !self.strobe && self.shift_count < 8 {
            self.shift_count = self.shift_count + 1;
        }
        r
    }

    pub fn read_signed(&mut self, addr: u16) -> (r: i8)
        requires
            old(self)@.wf(),
        ensures
            r == old(self)@.peek(addr) as i8,
            final(self)@ == old(self)@.after_read(addr),
            final(self)@.wf(),
    {
        self.read_u8(addr) as i8
    }

    /// Two reads, little-endian: `addr`, then `addr + 1` (wrapping).
    pub fn read_u16(&mut self, addr: u16) -> (r: u16)
        requires
            old(self)@.wf(),
        ensures
            r == old(self)@.peek(addr) as u16 + 256 * old(self)@.after_read(addr).peek(
                addr.wrapping_add(1),
            ) as u16,
            final(self)@ == old(self)@.after_read(addr).after_read(addr.wrapping_add(1)),
            final(self)@.wf(),
    {
        let lower_byte = self.read_u8(addr);
        let upper_byte = self.read_u8(addr.wrapping_add(1));
        (lower_byte as u16) + (upper_byte as u16) * 256
    }

    fn write_ppu_register(&mut self, reg: u16, val: u8)
        requires
            old(self)@.wf(),
            reg < 8,
        ensures
            final(self)@ == old(self)@.after_reg_write(reg, val),
            final(self)@.wf(),
    {
        if reg == 0 {
            self.ppu_ctrl = val;
        } else if reg == 1 {
            self.ppu_mask = val;
        } else if reg == 3 {
            self.oam_adr = val;
        } else if reg == 4 {
            self.oam[self.oam_adr as usize] = val;
            self.oam_adr = self.oam_adr.wrapping_add(1);
        } else if reg == 5 {
            if !self.write_toggle {
                self.scroll_x = val;
            } else {
                self.scroll_y = val;
            }
            self.write_toggle = !self.write_toggle;
        } else if reg == 6 {
            if !self.write_toggle {
                self.ppu_target_adr = ((val % 64) as u16) * 256 + self.ppu_target_adr % 256;
            } else {
                self.ppu_target_adr = (self.ppu_target_adr / 256) * 256 + val as u16;
            }
            self.write_toggle = !self.write_toggle;
        } else if reg == 7 {
            let next = self.next_target_adr();
            self.write_vram(self.ppu_target_adr, val);
            self.ppu_target_adr = next;
        }
    }

    /// OAM DMA from CPU page `page`, starting at the current OAMADDR and wrapping.
    fn oam_dma(&mut self, page: u8)
        requires
            old(self)@.wf(),
        ensures
            final(self)@ == (BusState {
                oam: old(self)@.dma_oam(page),
                dma_stall: DMA_CYCLES,
                ..old(self)@
            }),
            final(self)@.wf(),
    {
        let mut copied: Vec<u8> = Vec::new();
        let mut k: usize = 0;
        while k < OAM_SIZE
            invariant
                self@.wf(),
                k <= OAM_SIZE,
                copied@.len() == k,
                forall|j: int| 0 <= j < k ==> copied@[j] == #[trigger] self@.dma_oam(page)[j],
            decreases OAM_SIZE - k,
        {
            let offset: u16 = ((k + 256 - self.oam_adr as usize) % 256) as u16;
            copied.push(self.peek_u8((page as u16) * 256 + offset));
            k = k + 1;
        }
        assert(copied@ =~= self@.dma_oam(page));
        self.oam = copied;
        self.dma_stall = DMA_CYCLES;
    }

    /// A CPU write: RAM, PPU registers, OAM DMA, controller strobe, cartridge WRAM.
    /// Writes to PRG ROM and to unmapped addresses are dropped.
    pub fn write_u8(&mut self, addr: u16, val: u8)
        requires
            old(self)@.wf(),
        ensures
            final(self)@ == old(self)@.after_write(addr, val),
            final(self)@.wf(),
    {
        reveal(BusState::after_write);
        if addr < 0x2000 {
            self.ram[(addr % 0x800) as usize] = val;
        } else if addr < 0x4000 {
            self.write_ppu_register(addr % 8, val);
        } else if addr == 0x4014 {
            self.oam_dma(val);
        } else if addr == 0x4016 {
            if val & 1 == 1 || self.strobe {
                self.strobe = val & 1 == 1;
                self.shift = self.buttons;
                self.shift_count = 0;
            }
        } else if 0x6000 <= addr && addr < 0x8000 {
            self.wram[(addr - 0x6000) as usize] = val;
        }
    }

    /// The cycles owed to an OAM DMA, handed to the CPU once.
    pub fn take_dma_stall(&mut self) -> (r: u16)
        requires
            old(self)@.wf(),
        ensures
            r == old(self)@.dma_stall,
            final(self)@ == (BusState { dma_stall: 0, ..old(self)@ }),
            final(self)@.wf(),
    {
        let r = self.dma_stall;
        self.dma_stall = 0;
        r
    }

    pub fn set_trigger_nmi(&mut self, set: bool)
        ensures
            final(self)@ == (BusState { trigger_nmi: set, ..old(self)@ }),
    {
        self.trigger_nmi = set;
    }

    pub fn get_trigger_nmi(&self) -> (r: bool)
        ensures
            r == self@.trigger_nmi,
    {
        self.trigger_nmi
    }

    /// Drives the IRQ line: 0 asserts it, anything else releases it.
    pub fn set_irq(&mut self, level: u8)
        ensures
            final(self)@ == (BusState { irq: level, ..old(self)@ }),
    {
        self.irq = level;
    }

    pub fn get_irq(&self) -> (r: u8)
        ensures
            r == self@.irq,
    {
        self.irq
    }

    /// CTRL bit 2 clear: DATA accesses step the address by 1, else by 32.
    pub fn should_increment_by_1(&self) -> (r: bool)
        ensures
            r == (self@.ctrl & 0x04 == 0),
    {
        self.ppu_ctrl & 0x04 == 0
    }

    /// CTRL bit 4 clear: the background uses the pattern table at 0x0000.
    pub fn use_chr_0(&self) -> (r: bool)
        ensures
            r == (self@.ctrl & 0x10 == 0),
    {
        self.ppu_ctrl & 0x10 == 0
    }

    /// CTRL bit 7: raise an NMI at the start of vertical blank.
    pub fn get_nmi_enable(&self) -> (r: bool)
        ensures
            r == (self@.ctrl & 0x80 != 0),
    {
        self.ppu_ctrl & 0x80 != 0
    }

    /// Sets or clears CTRL bit 7, which decides whether vertical blank raises an NMI.
    pub fn set_nmi_output(&mut self, set: bool)
        ensures
            final(self)@ == (BusState {
                ctrl: if set {
                    old(self)@.ctrl | 0x80
                } else {
                    old(self)@.ctrl & 0x7F
                },
                ..old(self)@
            }),
    {
        if set {
            self.ppu_ctrl = self.ppu_ctrl | 0x80;
        } else {
            self.ppu_ctrl = self.ppu_ctrl & 0x7F;
        }
    }

    /// CTRL bit 7: vertical blank raises an NMI.
    pub fn get_nmi_output(&self) -> (r: bool)
        ensures
            r == (self@.ctrl & 0x80 != 0),
    {
        self.ppu_ctrl & 0x80 != 0
    }

    /// Sets or clears the vertical-blank flag of STATUS.
    pub fn set_nmi_occured(&mut self, set: bool)
        ensures
            final(self)@ == (BusState { vblank: set, ..old(self)@ }),
    {
        self.nmi_occured = set;
    }

    pub fn get_nmi_occured(&self) -> (r: bool)
        ensures
            r == self@.vblank,
    {
        self.nmi_occured
    }

    pub fn get_scroll_x(&self) -> (r: u8)
        ensures
            r == self@.scroll_x,
    {
        self.scroll_x
    }

    pub fn get_scroll_y(&self) -> (r: u8)
        ensures
            r == self@.scroll_y,
    {
        self.scroll_y
    }

    /// CTRL bits 0-1: the base nametable.
    pub fn get_nametable_index(&self) -> (r: u8)
        ensures
            r == self@.ctrl & 0x03,
            r < 4,
    {
        let c = self.ppu_ctrl;
        assert(c & 0x03 < 4) by (bit_vector);
        c & 0x03
    }

    /// CTRL bit 3: the pattern table half of 8x8 sprites.
    pub fn get_oam_chr_number(&self) -> (r: u8)
        ensures
            r == (self@.ctrl & 0x08) >> 3,
            r < 2,
    {
        let c = self.ppu_ctrl;
        assert((c & 0x08) >> 3 < 2) by (bit_vector);
        (c & 0x08) >> 3
    }

    /// Sets or clears the sprite-zero hit flag (STATUS bit 6).
    pub fn set_sprite_0_hit(&mut self, hit: bool)
        ensures
            final(self)@ == (BusState {
                status: if hit {
                    old(self)@.status | 0x40
                } else {
                    old(self)@.status & 0xBF
                },
                ..old(self)@
            }),
    {
        if hit {
            self.ppu_stat = self.ppu_stat | 0x40;
        } else {
            self.ppu_stat = self.ppu_stat & 0xBF;
        }
    }

    /// Sets or clears the sprite overflow flag (STATUS bit 5).
    pub fn set_sprite_overflow(&mut self, overflow: bool)
        ensures
            final(self)@ == (BusState {
                status: if overflow {
                    old(self)@.status | 0x20
                } else {
                    old(self)@.status & 0xDF
                },
                ..old(self)@
            }),
    {
        if overflow {
            self.ppu_stat = self.ppu_stat | 0x20;
        } else {
            self.ppu_stat = self.ppu_stat & 0xDF;
        }
    }

    /// CTRL bit 5: sprites are 8x16.
    pub fn should_use_big_sprites(&self) -> (r: bool)
        ensures
            r == (self@.ctrl & 0x20 != 0),
    {
        self.ppu_ctrl & 0x20 != 0
    }

    /// MASK bit 4: sprites are shown.
    pub fn draw_sprites(&self) -> (r: bool)
        ensures
            r == (self@.mask & 0x10 != 0),
    {
        self.ppu_mask & 0x10 != 0
    }

    pub fn get_ppu_ctrl(&self) -> (r: u8)
        ensures
            r == self@.ctrl,
    {
        self.ppu_ctrl
    }

    pub fn get_ppu_mask(&self) -> (r: u8)
        ensures
            r == self@.mask,
    {
        self.ppu_mask
    }

    /// Byte `i` of OAM.
    pub fn oam_byte(&self, i: usize) -> (r: u8)
        requires
            self@.wf(),
            i < OAM_SIZE,
        ensures
            r == self@.oam[i as int],
    {
        self.oam[i]
    }

    /// Sets controller button `bit` (0 A, 1 B, 2 Select, 3 Start, 4 Up,
    /// 5 Down, 6 Left, 7 Right) in the live button image.
    pub fn button_set(&mut self, bit: u8, pressed: bool)
        requires
            bit < 8,
        ensures
            final(self)@ == (BusState {
                buttons: if pressed {
                    old(self)@.buttons | (1u8 << bit)
                } else {
                    old(self)@.buttons & !(1u8 << bit)
                },
                ..old(self)@
            }),
    {
        if pressed {
            self.buttons = self.buttons | (1u8 << bit);
        } else {
            self.buttons = self.buttons & !(1u8 << bit);
        }
    }

    /// The VRAM address that DATA accesses use.
    pub fn vram_address(&self) -> (r: u16)
        ensures
            r == self@.vram_addr,
    {
        self.ppu_target_adr
    }
}


/// A read of STATUS returns the vertical-blank flag in bit 7, then clears the
/// flag and the shared SCROLL/ADDR write latch.
pub proof fn lemma_status_read_clears(m: BusState, addr: u16)
    requires
        0x2000 <= addr < 0x4000,
        addr % 8 == 2,
    ensures
        (m.peek(addr) & 0x80 != 0) == m.vblank,
        !m.after_read(addr).vblank,
        !m.after_read(addr).write_toggle,
{
    reveal(BusState::peek);
    reveal(BusState::after_read);
    let s = m.status;
    assert(((s & 0x60) | 0x80u8) & 0x80 != 0) by (bit_vector);
    assert(((s & 0x60) | 0u8) & 0x80 == 0) by (bit_vector);
}

/// No CPU access sets the vertical-blank flag: only the PPU's timing does.
pub proof fn lemma_access_never_sets_vblank(m: BusState, addr: u16, val: u8)
    ensures
        m.after_read(addr).vblank ==> m.vblank,
        m.after_write(addr, val).vblank ==> m.vblank,
{
    reveal(BusState::after_read);
    reveal(BusState::after_write);
}

/// A CPU read leaves sprite-zero hit and sprite overflow as they are.
pub proof fn lemma_read_keeps_status_bits(m: BusState, addr: u16)
    ensures
        m.after_read(addr).status == m.status,
{
    reveal(BusState::after_read);
}

} // verus!
