//! The picture processing unit: scanline and dot timing, vertical blank and
//! its NMI, and a scanline-accurate renderer of background and sprites into
//! an RGBA frame buffer.
use crate::canvas::{
    canvas_bytes, canvas_height, canvas_new, canvas_put, canvas_raw, canvas_width, Canvas,
};
use crate::mem::{BusState, Mem};
use crate::palette::{get_rgb_color, rgb_table};
use vstd::prelude::*;

verus! {

pub const SCREEN_WIDTH: u32 = 256;
pub const SCREEN_HEIGHT: u32 = 240;
/// Bytes of the RGBA frame buffer: four per pixel, row-major.
pub const FRAME_BYTES: usize = 245760;
pub const DOTS_PER_SCANLINE: u16 = 341;
pub const PRE_RENDER_SCANLINE: i16 = -1;
pub const VBLANK_SCANLINE: i16 = 241;
pub const LAST_SCANLINE: i16 = 260;
/// The dot on a visible scanline at which that line's pixels are produced.
pub const RENDER_DOT: u16 = 256;

/// The model of the PPU's own state.
pub struct PpuState {
    pub scanline: i16,
    pub dot: u16,
    pub cycles_total: u64,
    pub frame: Seq<u8>,
    pub frame_width: u32,
    pub frame_height: u32,
}

impl PpuState {
    pub open spec fn wf(self) -> bool {
        &&& PRE_RENDER_SCANLINE <= self.scanline <= LAST_SCANLINE
        &&& self.dot < DOTS_PER_SCANLINE
        &&& self.frame.len() == FRAME_BYTES
        &&& self.frame_width == SCREEN_WIDTH
        &&& self.frame_height == SCREEN_HEIGHT
    }
}

/// The 2-bit color of a pattern row: `addr` is the row's low plane, `addr + 8`
/// its high plane, `bit` the pixel's bit within the row (7 is leftmost).
pub open spec fn pattern_color(m: BusState, addr: u16, bit: u8) -> u8 {
    ((m.vram_peek(addr) >> bit) & 1) | (((m.vram_peek(((addr + 8) % 0x10000) as u16) >> bit) & 1) << 1)
}

/// The background's palette slot (0 when transparent, else palette * 4 + color)
/// at dot `x` of visible line `line`, after scrolling and the CTRL nametable.
pub open spec fn bg_slot(m: BusState, line: int, x: int) -> u8 {
    let nt = (m.ctrl & 3) as int;
    let sx = (x + m.scroll_x + (nt % 2) * 256) % 512;
    let sy = (line + m.scroll_y + (nt / 2) * 240) % 480;
    let base = 0x2000 + ((sy / 240) * 2 + sx / 256) * 0x400;
    let col = (sx % 256) / 8;
    let row = (sy % 240) / 8;
    let tile = m.vram_peek((base + row * 32 + col) as u16);
    let pattern: int = if m.ctrl & 0x10 == 0 {
        0
    } else {
        0x1000
    };
    let color = pattern_color(m, (pattern + tile * 16 + sy % 8) as u16, (7 - sx % 8) as u8);
    let attr = m.vram_peek((base + 0x3C0 + (row / 4) * 8 + col / 4) as u16);
    let palette = (attr >> ((((row % 4) / 2) * 4 + ((col % 4) / 2) * 2) as u8)) & 3;
    if color == 0 {
        0
    } else {
        (palette * 4 + color) as u8
    }
}

pub open spec fn sprite_height(m: BusState) -> int {
    if m.ctrl & 0x20 != 0 {
        16
    } else {
        8
    }
}

/// The row of sprite `i` that line `line` crosses (OAM holds Y - 1).
pub open spec fn sprite_row(m: BusState, i: int, line: int) -> int {
    line - (m.oam[4 * i] + 1)
}

pub open spec fn sprite_on_line(m: BusState, i: int, line: int) -> bool {
    0 <= sprite_row(m, i, line) < sprite_height(m)
}

/// The 2-bit color of sprite `i` at dot `x` of line `line` (0 when transparent
/// or not covering the dot), with its flips and the 8x8 or 8x16 pattern layout.
pub open spec fn sprite_color(m: BusState, i: int, line: int, x: int) -> u8 {
    let col = x - m.oam[4 * i + 3];
    if !(0 <= col < 8) || !sprite_on_line(m, i, line) {
        0
    } else {
        let attr = m.oam[4 * i + 2];
        let h = sprite_height(m);
        let r0 = sprite_row(m, i, line);
        let r = if attr & 0x80 != 0 {
            h - 1 - r0
        } else {
            r0
        };
        let tile = m.oam[4 * i + 1];
        let addr: int = if h == 8 {
            (if m.ctrl & 0x08 != 0 {
                0x1000int
            } else {
                0int
            }) + tile * 16 + r
        } else {
            (tile % 2) * 0x1000 + ((tile / 2) * 2 + r / 8) * 16 + r % 8
        };
        let bit = if attr & 0x40 != 0 {
            col
        } else {
            7 - col
        };
        pattern_color(m, addr as u16, bit as u8)
    }
}

/// The front-most opaque sprite pixel at dot `x`, among the first eight
/// sprites on the line, scanning OAM from entry `i` with `count` already
/// selected: the entry and its color.
pub open spec fn sprite_at(m: BusState, line: int, x: int, i: int, count: int) -> Option<(int, u8)>
    decreases 64 - i,
{
    if i >= 64 || count >= 8 {
        None
    } else if sprite_on_line(m, i, line) {
        if sprite_color(m, i, line, x) != 0 {
            Some((i, sprite_color(m, i, line, x)))
        } else {
            sprite_at(m, line, x, i + 1, count + 1)
        }
    } else {
        sprite_at(m, line, x, i + 1, count)
    }
}

/// The number of OAM entries from `i` on whose sprite crosses line `line`.
pub open spec fn sprites_on_line(m: BusState, line: int, i: int) -> int
    decreases 64 - i,
{
    if i >= 64 {
        0
    } else {
        (if sprite_on_line(m, i, line) {
            1int
        } else {
            0int
        }) + sprites_on_line(m, line, i + 1)
    }
}

pub open spec fn bg_visible(m: BusState, x: int) -> bool {
    m.mask & 0x08 != 0 && (x >= 8 || m.mask & 0x02 != 0)
}

pub open spec fn sprites_visible(m: BusState, x: int) -> bool {
    m.mask & 0x10 != 0 && (x >= 8 || m.mask & 0x04 != 0)
}

pub open spec fn visible_bg_slot(m: BusState, line: int, x: int) -> u8 {
    if bg_visible(m, x) {
        bg_slot(m, line, x)
    } else {
        0
    }
}

pub open spec fn visible_sprite(m: BusState, line: int, x: int) -> Option<(int, u8)> {
    if sprites_visible(m, x) {
        sprite_at(m, line, x, 0, 0)
    } else {
        None
    }
}

/// The palette RAM slot shown at dot `x` of line `line`: an opaque sprite in
/// front (attribute bit 5 clear) or over a transparent background wins; else
/// the background; 0, the universal background color, when both are transparent.
#[verifier::opaque]
pub open spec fn pixel_slot(m: BusState, line: int, x: int) -> int {
    let bg = visible_bg_slot(m, line, x);
    match visible_sprite(m, line, x) {
        Some((i, c)) => {
            let attr = m.oam[4 * i + 2];
            if bg == 0 || attr & 0x20 == 0 {
                16 + (attr & 3) * 4 + c
            } else {
                bg as int
            }
        },
        None => bg as int,
    }
}

/// Whether sprite 0 meets an opaque background pixel at dot `x`.
#[verifier::opaque]
pub open spec fn sprite_zero_hit_at(m: BusState, line: int, x: int) -> bool {
    8 <= x < 256 && visible_bg_slot(m, line, x) != 0 && match visible_sprite(m, line, x) {
        Some((i, c)) => i == 0,
        None => false,
    }
}

/// The color shown at dot `x` of line `line`: the palette RAM entry of its
/// slot, reduced to the grey column by MASK bit 0.
pub open spec fn pixel_color(m: BusState, line: int, x: int) -> u8 {
    let c = m.vram_peek((0x3F00 + pixel_slot(m, line, x)) as u16);
    if m.mask & 0x01 != 0 {
        c & 0x30
    } else {
        c
    }
}

pub open spec fn pixel_rgb(m: BusState, line: int, x: int) -> (u8, u8, u8) {
    rgb_table(pixel_color(m, line, x) & 0x3F)
}

/// Byte `k` of the frame after line `line` is drawn from `m` over `frame`.
pub open spec fn rendered_byte(frame: Seq<u8>, m: BusState, line: int, k: int) -> u8 {
    if k / 1024 == line {
        rgba_component(pixel_rgb(m, line, (k % 1024) / 4), k % 4)
    } else {
        frame[k]
    }
}

/// Byte `j` of the RGBA encoding of `rgb`, alpha opaque.
pub open spec fn rgba_component(rgb: (u8, u8, u8), j: int) -> u8 {
    if j == 0 {
        rgb.0
    } else if j == 1 {
        rgb.1
    } else if j == 2 {
        rgb.2
    } else {
        255
    }
}

pub open spec fn render_spec(frame: Seq<u8>, m: BusState, line: int) -> Seq<u8> {
    Seq::new(frame.len(), |k: int| rendered_byte(frame, m, line, k))
}

/// STATUS after drawing line `line`: sprite-zero hit and sprite overflow are
/// set when the line produced them, and never cleared here.
pub open spec fn status_after_line(m: BusState, line: int) -> u8 {
    let hit = exists|x: int| 0 <= x < 256 && #[trigger] sprite_zero_hit_at(m, line, x);
    let s1 = if hit {
        m.status | 0x40
    } else {
        m.status
    };
    if sprites_on_line(m, line, 0) > 8 && (m.mask & 0x18 != 0) {
        s1 | 0x20
    } else {
        s1
    }
}
fn pattern_color_at(mem: &Mem, addr: u16, bit: u8) -> (r: u8)
    requires
        mem@.wf(),
        bit < 8,
    ensures
        r == pattern_color(mem@, addr, bit),
        r < 4,
{
    let lo = mem.read_vram(addr);
    let hi = mem.read_vram(addr.wrapping_add(8));
    let r = ((lo >> bit) & 1) | (((hi >> bit) & 1) << 1);
    assert(((lo >> bit) & 1) | (((hi >> bit) & 1) << 1) < 4) by (bit_vector);
    r
}

fn bg_slot_at(mem: &Mem, line: u16, x: u16) -> (r: u8)
    requires
        mem@.wf(),
        line < 240,
        x < 256,
    ensures
        r == bg_slot(mem@, line as int, x as int),
        r < 16,
{
    let nt = mem.get_nametable_index() as u32;
    let sx: u32 = (x as u32 + mem.get_scroll_x() as u32 + (nt % 2) * 256) % 512;
    let sy: u32 = (line as u32 + mem.get_scroll_y() as u32 + (nt / 2) * 240) % 480;
    let base: u32 = 0x2000 + ((sy / 240) * 2 + sx / 256) * 0x400;
    let col: u32 = (sx % 256) / 8;
    let row: u32 = (sy % 240) / 8;
    let tile = mem.read_vram((base + row * 32 + col) as u16);
    let pattern: u32 = if mem.use_chr_0() {
        0
    } else {
        0x1000
    };
    let color = pattern_color_at(mem, (pattern + tile as u32 * 16 + sy % 8) as u16, (7 - sx % 8) as u8);
    let attr = mem.read_vram((base + 0x3C0 + (row / 4) * 8 + col / 4) as u16);
    let shift: u8 = (((row % 4) / 2) * 4 + ((col % 4) / 2) * 2) as u8;
    let palette = (attr >> shift) & 3;
    assert((attr >> shift) & 3 < 4) by (bit_vector);
    if color == 0 {
        0
    } else {
        palette * 4 + color
    }
}

fn sprite_color_at(mem: &Mem, i: usize, line: u16, x: u16) -> (r: u8)
    requires
        mem@.wf(),
        i < 64,
        line < 240,
        x < 256,
    ensures
        r == sprite_color(mem@, i as int, line as int, x as int),
        r < 4,
{
    let col: i32 = x as i32 - mem.oam_byte(4 * i + 3) as i32;
    if !(0 <= col && col < 8) || !sprite_on_line_at(mem, i, line) {
        return 0;
    }
    let attr = mem.oam_byte(4 * i + 2);
    let h: i32 = if mem.should_use_big_sprites() {
        16
    } else {
        8
    };
    let r0: i32 = line as i32 - (mem.oam_byte(4 * i) as i32 + 1);
    let r: i32 = if attr & 0x80 != 0 {
        h - 1 - r0
    } else {
        r0
    };
    let tile = mem.oam_byte(4 * i + 1) as i32;
    let addr: i32 = if h == 8 {
        (if mem.get_oam_chr_number() == 1 {
            0x1000i32
        } else {
            0i32
        }) + tile * 16 + r
    } else {
        (tile % 2) * 0x1000 + ((tile / 2) * 2 + r / 8) * 16 + r % 8
    };
    let bit: i32 = if attr & 0x40 != 0 {
        col
    } else {
        7 - col
    };
    proof {
        let c = mem@.ctrl;
        assert(((c & 0x08) >> 3 == 1) == (c & 0x08 != 0)) by (bit_vector);
    }
    pattern_color_at(mem, addr as u16, bit as u8)
}

fn sprite_on_line_at(mem: &Mem, i: usize, line: u16) -> (r: bool)
    requires
        mem@.wf(),
        i < 64,
        line < 240,
    ensures
        r == sprite_on_line(mem@, i as int, line as int),
{
    let h: i32 = if mem.should_use_big_sprites() {
        16
    } else {
        8
    };
    let row: i32 = line as i32 - (mem.oam_byte(4 * i) as i32 + 1);
    0 <= row && row < h
}

/// The front-most opaque sprite pixel at dot `x` of line `line`:
/// (found, OAM entry, color).
fn sprite_pixel(mem: &Mem, line: u16, x: u16) -> (r: (bool, usize, u8))
    requires
        mem@.wf(),
        line < 240,
        x < 256,
    ensures
        match sprite_at(mem@, line as int, x as int, 0, 0) {
            Some((i, c)) => r.0 && r.1 == i && r.2 == c && i < 64 && c < 4,
            None => !r.0,
        },
{
    let mut i: usize = 0;
    let mut count: usize = 0;
    while i < 64 && count < 8
        invariant
            mem@.wf(),
            line < 240,
            x < 256,
            i <= 64,
            count <= 8,
            sprite_at(mem@, line as int, x as int, 0, 0) == sprite_at(
                mem@,
                line as int,
                x as int,
                i as int,
                count as int,
            ),
        decreases 64 - i,
    {
        if sprite_on_line_at(mem, i, line) {
            let c = sprite_color_at(mem, i, line, x);
            if c != 0 {
                return (true, i, c);
            }
            count = count + 1;
        }
        i = i + 1;
    }
    (false, 0, 0)
}

/// Whether more than eight sprites cross line `line`.
fn sprite_overflow(mem: &Mem, line: u16) -> (r: bool)
    requires
        mem@.wf(),
        line < 240,
    ensures
        r == (sprites_on_line(mem@, line as int, 0) > 8),
{
    let mut total: usize = 0;
    let mut i: usize = 64;
    while i > 0
        invariant
            mem@.wf(),
            line < 240,
            i <= 64,
            total as int == sprites_on_line(mem@, line as int, i as int),
            total <= 64 - i,
        decreases i,
    {
        i = i - 1;
        if sprite_on_line_at(mem, i, line) {
            total = total + 1;
        }
    }
    total > 8
}
/// The palette slot shown at dot `x` of line `line`, and whether sprite 0
/// meets the background there.
fn pixel_at(mem: &Mem, line: u16, x: u16) -> (r: (u16, bool))
    requires
        mem@.wf(),
        line < 240,
        x < 256,
    ensures
        r.0 as int == pixel_slot(mem@, line as int, x as int),
        r.1 == sprite_zero_hit_at(mem@, line as int, x as int),
        r.0 < 32,
{
    reveal(pixel_slot);
    reveal(sprite_zero_hit_at);
    let mask = mem.get_ppu_mask();
    let bg: u8 = if mask & 0x08 != 0 && (x >= 8 || mask & 0x02 != 0) {
        bg_slot_at(mem, line, x)
    } else {
        0
    };
    let (found, i, c) = if mask & 0x10 != 0 && (x >= 8 || mask & 0x04 != 0) {
        sprite_pixel(mem, line, x)
    } else {
        (false, 0, 0)
    };
    if found {
        let attr = mem.oam_byte(4 * i + 2);
        assert(attr & 3 < 4) by (bit_vector);
        let slot: u16 = if bg == 0 || attr & 0x20 == 0 {
            16 + (attr & 3) as u16 * 4 + c as u16
        } else {
            bg as u16
        };
        (slot, i == 0 && bg != 0 && 8 <= x)
    } else {
        (bg as u16, false)
    }
}

/// Writes the RGBA pixel `rgb` at dot `x` of line `line`.
fn put_pixel(frame: &mut Canvas, line: usize, x: usize, rgb: (u8, u8, u8))
    requires
        canvas_bytes(*old(frame)).len() == FRAME_BYTES,
        canvas_width(*old(frame)) == SCREEN_WIDTH,
        canvas_height(*old(frame)) == SCREEN_HEIGHT,
        line < 240,
        x < 256,
    ensures
        canvas_bytes(*final(frame)).len() == FRAME_BYTES,
        canvas_width(*final(frame)) == SCREEN_WIDTH,
        canvas_height(*final(frame)) == SCREEN_HEIGHT,
        forall|k: int|
            0 <= k < FRAME_BYTES ==> canvas_bytes(*final(frame))[k] == if k / 1024 == line && (k
                % 1024) / 4 == x {
                rgba_component(rgb, k % 4)
            } else {
                canvas_bytes(*old(frame))[k]
            },
{
    let ghost before = canvas_bytes(*frame);
    canvas_put(frame, x as u32, line as u32, [rgb.0, rgb.1, rgb.2, 255]);
    let ghost base = (line * 256 + x) * 4;
    assert forall|k: int| 0 <= k < FRAME_BYTES implies #[trigger] canvas_bytes(*frame)[k] == if k
        / 1024 == line && (k % 1024) / 4 == x {
        rgba_component(rgb, k % 4)
    } else {
        before[k]
    } by {
        assert((k / 1024 == line && (k % 1024) / 4 == x) == (base <= k < base + 4));
    }
}

/// Draws every dot of visible line `line`; returns whether sprite 0 met the
/// background on it.
fn draw_line(frame: &mut Canvas, mem: &Mem, line: u16) -> (hit: bool)
    requires
        canvas_bytes(*old(frame)).len() == FRAME_BYTES,
        canvas_width(*old(frame)) == SCREEN_WIDTH,
        canvas_height(*old(frame)) == SCREEN_HEIGHT,
        mem@.wf(),
        line < 240,
    ensures
        canvas_bytes(*final(frame)) =~= render_spec(canvas_bytes(*old(frame)), mem@, line as int),
        canvas_width(*final(frame)) == SCREEN_WIDTH,
        canvas_height(*final(frame)) == SCREEN_HEIGHT,
        hit == exists|x: int| 0 <= x < 256 && #[trigger] sprite_zero_hit_at(mem@, line as int, x),
{
    let ghost m0 = mem@;
    let ghost f0 = canvas_bytes(*frame);
    let mut hit = false;
    let mut x: usize = 0;
    while x < SCREEN_WIDTH as usize
        invariant
            mem@ == m0,
            m0.wf(),
            line < 240,
            x <= SCREEN_WIDTH as usize,
            canvas_bytes(*frame).len() == FRAME_BYTES,
            canvas_width(*frame) == SCREEN_WIDTH,
            canvas_height(*frame) == SCREEN_HEIGHT,
            f0.len() == FRAME_BYTES,
            hit == exists|x2: int| 0 <= x2 < x && #[trigger] sprite_zero_hit_at(m0, line as int, x2),
            forall|k: int|
                0 <= k < FRAME_BYTES ==> canvas_bytes(*frame)[k] == if k / 1024 == line && (k % 1024)
                    / 4 < x {
                    rendered_byte(f0, m0, line as int, k)
                } else {
                    f0[k]
                },
        decreases SCREEN_WIDTH as usize - x,
    {
        let (slot, hit_here) = pixel_at(mem, line, x as u16);
        if hit_here {
            hit = true;
        }
        let entry = mem.read_vram(0x3F00 + slot);
        let color = if mem.get_ppu_mask() & 0x01 != 0 {
            entry & 0x30
        } else {
            entry
        };
        put_pixel(frame, line as usize, x, get_rgb_color(color));
        x = x + 1;
    }
    assert(canvas_bytes(*frame) =~= render_spec(f0, m0, line as int));
    hit
}

/// The model after one dot: the dot's event, then the move to the next dot.
/// Dot 1 of line 241 sets vertical blank and, with CTRL bit 7 set, requests an
/// NMI; dot 1 of the pre-render line clears vertical blank, sprite-zero hit
/// and sprite overflow; dot 256 of a visible line draws that line.
pub open spec fn tick_spec(p: PpuState, m: BusState) -> (PpuState, BusState) {
    let (p1, m1) = if p.scanline == VBLANK_SCANLINE && p.dot == 1 {
        (p, BusState { vblank: true, trigger_nmi: m.trigger_nmi || m.ctrl & 0x80 != 0, ..m })
    } else if p.scanline == PRE_RENDER_SCANLINE && p.dot == 1 {
        (p, BusState { vblank: false, status: (m.status & 0xBF) & 0xDF, ..m })
    } else if 0 <= p.scanline < 240 && p.dot == RENDER_DOT {
        (
            PpuState { frame: render_spec(p.frame, m, p.scanline as int), ..p },
            BusState { status: status_after_line(m, p.scanline as int), ..m },
        )
    } else {
        (p, m)
    };
    (advance_spec(p1), m1)
}

/// The next dot: 341 per line, lines -1 to 260, then -1 again.
pub open spec fn advance_spec(p: PpuState) -> PpuState {
    let cycles_total = ((p.cycles_total + 1) % 0x1_0000_0000_0000_0000) as u64;
    if p.dot + 1 < DOTS_PER_SCANLINE {
        PpuState { dot: (p.dot + 1) as u16, cycles_total, ..p }
    } else if p.scanline < LAST_SCANLINE {
        PpuState { dot: 0, scanline: (p.scanline + 1) as i16, cycles_total, ..p }
    } else {
        PpuState { dot: 0, scanline: PRE_RENDER_SCANLINE, cycles_total, ..p }
    }
}

/// The model after `n` dots.
pub open spec fn ticks_spec(p: PpuState, m: BusState, n: nat) -> (PpuState, BusState)
    decreases n,
{
    if n == 0 {
        (p, m)
    } else {
        let (p1, m1) = ticks_spec(p, m, (n - 1) as nat);
        tick_spec(p1, m1)
    }
}

/// The PPU: its position in the frame and the frame buffer it draws into.
pub struct Ppu {
    current_scanline: i16,
    current_dot: u16,
    cycles_total: u64,
    frame: Canvas,
}

impl View for Ppu {
    type V = PpuState;

    closed spec fn view(&self) -> PpuState {
        PpuState {
            scanline: self.current_scanline,
            dot: self.current_dot,
            cycles_total: self.cycles_total,
            frame: canvas_bytes(self.frame),
            frame_width: canvas_width(self.frame),
            frame_height: canvas_height(self.frame),
        }
    }
}

impl Ppu {
    /// A PPU at the start of the pre-render line with a black frame.
    pub fn new() -> (r: Ppu)
        ensures
            r@.wf(),
            r@.scanline == PRE_RENDER_SCANLINE,
            r@.dot == 0,
            r@.cycles_total == 0,
            r@.frame == Seq::new(FRAME_BYTES as nat, |i: int| 0u8),
    {
        Ppu {
            current_scanline: PRE_RENDER_SCANLINE,
            current_dot: 0,
            cycles_total: 0,
            frame: canvas_new(SCREEN_WIDTH, SCREEN_HEIGHT),
        }
    }

    pub fn scanline(&self) -> (r: i16)
        ensures
            r == self@.scanline,
    {
        self.current_scanline
    }

    pub fn dot(&self) -> (r: u16)
        ensures
            r == self@.dot,
    {
        self.current_dot
    }

    /// The RGBA frame buffer, 256 x 240, row-major.
    pub fn frame(&self) -> (r: &Vec<u8>)
        ensures
            r@ == self@.frame,
    {
        canvas_raw(&self.frame)
    }

    /// Draws visible line `line` into the frame and records sprite-zero hit
    /// and sprite overflow.
    fn render_scanline(&mut self, mem: &mut Mem, line: u16)
        requires
            old(self)@.wf(),
            old(mem)@.wf(),
            line < 240,
        ensures
            final(self)@ == (PpuState {
                frame: render_spec(old(self)@.frame, old(mem)@, line as int),
                ..old(self)@
            }),
            final(mem)@ == (BusState { status: status_after_line(old(mem)@, line as int), ..old(mem)@ }),
            final(mem)@.wf(),
    {
        let hit = draw_line(&mut self.frame, mem, line);
        let overflow = mem.get_ppu_mask() & 0x18 != 0 && sprite_overflow(mem, line);
        if hit {
            mem.set_sprite_0_hit(true);
        }
        if overflow {
            mem.set_sprite_overflow(true);
        }
    }

    /// One dot: its timing event, then the move to the next dot.
    fn tick(&mut self, mem: &mut Mem)
        requires
            old(self)@.wf(),
            old(mem)@.wf(),
        ensures
            (final(self)@, final(mem)@) == tick_spec(old(self)@, old(mem)@),
            final(self)@.wf(),
            final(mem)@.wf(),
    {
        if self.current_scanline == VBLANK_SCANLINE && self.current_dot == 1 {
            mem.set_nmi_occured(true);
            if mem.get_nmi_output() {
                mem.set_trigger_nmi(true);
            }
        } else if self.current_scanline == PRE_RENDER_SCANLINE && self.current_dot == 1 {
            mem.set_nmi_occured(false);
            mem.set_sprite_0_hit(false);
            mem.set_sprite_overflow(false);
        } else if 0 <= self.current_scanline && self.current_scanline < 240 && self.current_dot
            == RENDER_DOT {
            self.render_scanline(mem, self.current_scanline as u16);
        }
        self.cycles_total = self.cycles_total.wrapping_add(1);
        if self.current_dot + 1 < DOTS_PER_SCANLINE {
            self.current_dot = self.current_dot + 1;
        } else if self.current_scanline < LAST_SCANLINE {
            self.current_dot = 0;
            self.current_scanline = self.current_scanline + 1;
        } else {
            self.current_dot = 0;
            self.current_scanline = PRE_RENDER_SCANLINE;
        }
    }

    /// Advances the PPU by `cycles` dots (three per CPU cycle).
    pub fn emulate(&mut self, mem: &mut Mem, cycles: u16)
        requires
            old(self)@.wf(),
            old(mem)@.wf(),
        ensures
            (final(self)@, final(mem)@) == ticks_spec(old(self)@, old(mem)@, cycles as nat),
            final(self)@.wf(),
            final(mem)@.wf(),
    {
        let mut i: u16 = 0;
        while i < cycles
            invariant
                i <= cycles,
                (self@, mem@) == ticks_spec(old(self)@, old(mem)@, i as nat),
                self@.wf(),
                mem@.wf(),
            decreases cycles - i,
        {
            self.tick(mem);
            i = i + 1;
        }
    }
}

/// Where vertical blank may be set, given the next dot to run: from dot 2 of
/// line 241 through line 260, and on the pre-render line until its dot 1 runs.
pub open spec fn vblank_window(scanline: i16, dot: u16) -> bool {
    (scanline == VBLANK_SCANLINE && dot >= 2) || (VBLANK_SCANLINE < scanline <= LAST_SCANLINE) || (
    scanline == PRE_RENDER_SCANLINE && dot <= 1)
}

/// One dot keeps the vertical-blank flag within its window.
pub proof fn lemma_tick_keeps_vblank_window(p: PpuState, m: BusState)
    requires
        p.wf(),
        m.vblank ==> vblank_window(p.scanline, p.dot),
    ensures
        tick_spec(p, m).1.vblank ==> vblank_window(tick_spec(p, m).0.scanline, tick_spec(p, m).0.dot),
{
}

/// The vertical-blank flag reads 1 only within its window, however many dots
/// the PPU runs, if it starts so.
pub proof fn lemma_vblank_only_in_window(p: PpuState, m: BusState, n: nat)
    requires
        p.wf(),
        m.vblank ==> vblank_window(p.scanline, p.dot),
    ensures
        ticks_spec(p, m, n).1.vblank ==> vblank_window(ticks_spec(p, m, n).0.scanline, ticks_spec(p, m, n).0.dot),
        ticks_spec(p, m, n).0.wf(),
    decreases n,
{
    if n > 0 {
        lemma_vblank_only_in_window(p, m, (n - 1) as nat);
        let (p1, m1) = ticks_spec(p, m, (n - 1) as nat);
        lemma_tick_keeps_vblank_window(p1, m1);
        lemma_tick_keeps_wf(p1, m1);
    }
}

proof fn lemma_tick_keeps_wf(p: PpuState, m: BusState)
    requires
        p.wf(),
    ensures
        tick_spec(p, m).0.wf(),
{
}

/// Sprite-zero hit over one dot: drawing a line on which sprite 0 meets the
/// background sets it; once set it stays set through every dot but dot 1 of
/// the pre-render line, which clears it.
pub proof fn lemma_tick_sprite_zero_hit(p: PpuState, m: BusState)
    requires
        p.wf(),
    ensures
        (0 <= p.scanline < 240 && p.dot == RENDER_DOT && exists|x: int|
            0 <= x < 256 && #[trigger] sprite_zero_hit_at(m, p.scanline as int, x)) ==> tick_spec(
            p,
            m,
        ).1.status & 0x40 != 0,
        (m.status & 0x40 != 0 && !(p.scanline == PRE_RENDER_SCANLINE && p.dot == 1)) ==> tick_spec(
            p,
            m,
        ).1.status & 0x40 != 0,
        (p.scanline == PRE_RENDER_SCANLINE && p.dot == 1) ==> tick_spec(p, m).1.status & 0x40 == 0,
{
    let st = m.status;
    assert((st | 0x40) & 0x40 != 0) by (bit_vector);
    assert(((st | 0x40) | 0x20) & 0x40 != 0) by (bit_vector);
    assert(st & 0x40 != 0 ==> (st | 0x20) & 0x40 != 0) by (bit_vector);
    assert(((st & 0xBF) & 0xDF) & 0x40 == 0) by (bit_vector);
}

/// Dots in a frame: 262 lines of 341.
pub open spec fn dots_per_frame() -> int {
    89342
}

/// The index in the frame of the next dot to run: 0 for dot 0 of the
/// pre-render line.
pub open spec fn dot_index(p: PpuState) -> int {
    (p.scanline + 1) * 341 + p.dot
}

/// How many dots run before dot 1 of the pre-render line does.
pub open spec fn dots_before_clear(p: PpuState) -> int {
    (1 - dot_index(p) + dots_per_frame()) % dots_per_frame()
}

/// How many dots run before dot 256 of visible line `line` does.
pub open spec fn dots_before_draw(p: PpuState, line: int) -> int {
    ((line + 1) * 341 + 256 - dot_index(p) + dots_per_frame()) % dots_per_frame()
}

/// The dot whose index is `i`: line `i / 341 - 1`, dot `i % 341`.
proof fn lemma_dot_index_unique(p: PpuState, line: int, dot: int)
    requires
        p.wf(),
        0 <= dot < 341,
        dot_index(p) == (line + 1) * 341 + dot,
    ensures
        p.scanline == line,
        p.dot == dot,
{
    let a = p.scanline + 1;
    let b = line + 1;
    assert(a == b) by (nonlinear_arith)
        requires
            a * 341 + p.dot == b * 341 + dot,
            0 <= p.dot < 341,
            0 <= dot < 341,
    ;
}

proof fn lemma_tick_moves_one_dot(p: PpuState, m: BusState)
    requires
        p.wf(),
    ensures
        tick_spec(p, m).0.wf(),
        dot_index(tick_spec(p, m).0) == (dot_index(p) + 1) % dots_per_frame(),
{
    assert(0 <= dot_index(p) < 89342);
}

/// After `n` dots the PPU is `n` dots further on in the frame, modulo its length.
pub proof fn lemma_ticks_position(p: PpuState, m: BusState, n: nat)
    requires
        p.wf(),
    ensures
        ticks_spec(p, m, n).0.wf(),
        dot_index(ticks_spec(p, m, n).0) == (dot_index(p) + n) % dots_per_frame(),
    decreases n,
{
    if n > 0 {
        lemma_ticks_position(p, m, (n - 1) as nat);
        let (q, mq) = ticks_spec(p, m, (n - 1) as nat);
        lemma_tick_moves_one_dot(q, mq);
        let a = dot_index(p) + n - 1;
        assert(((a % 89342) + 1) % 89342 == (a + 1) % 89342) by (nonlinear_arith)
            requires
                a >= 0,
        ;
    }
}

/// Sprite-zero hit, once set, stays set over every run of dots that does not
/// reach dot 1 of the pre-render line, whatever the run's length.
pub proof fn lemma_sprite_zero_hit_stays(p: PpuState, m: BusState, n: nat)
    requires
        p.wf(),
        m.status & 0x40 != 0,
        n <= dots_before_clear(p),
    ensures
        ticks_spec(p, m, n).1.status & 0x40 != 0,
    decreases n,
{
    if n > 0 {
        lemma_sprite_zero_hit_stays(p, m, (n - 1) as nat);
        lemma_ticks_position(p, m, (n - 1) as nat);
        let (q, mq) = ticks_spec(p, m, (n - 1) as nat);
        lemma_tick_sprite_zero_hit(q, mq);
        let i = dot_index(p);
        let k = n - 1;
        assert((i + k) % 89342 != 1) by (nonlinear_arith)
            requires
                0 <= i < 89342,
                0 <= k < (1 - i + 89342) % 89342,
        ;
        if q.scanline == PRE_RENDER_SCANLINE && q.dot == 1 {
            assert(dot_index(q) == 1);
        }
    }
}

/// Dot 1 of the pre-render line clears sprite-zero hit: right after it runs,
/// STATUS bit 6 reads 0.
pub proof fn lemma_sprite_zero_hit_cleared(p: PpuState, m: BusState)
    requires
        p.wf(),
    ensures
        ticks_spec(p, m, (dots_before_clear(p) + 1) as nat).1.status & 0x40 == 0,
{
    let d = dots_before_clear(p);
    lemma_ticks_position(p, m, d as nat);
    let (q, mq) = ticks_spec(p, m, d as nat);
    lemma_tick_sprite_zero_hit(q, mq);
    let i = dot_index(p);
    assert((i + (1 - i + 89342) % 89342) % 89342 == 1) by (nonlinear_arith)
        requires
            0 <= i < 89342,
    ;
    lemma_dot_index_unique(q, -1, 1);
}

/// Sprite-zero hit over a whole advance: when visible line `line` is drawn
/// from a bus on which sprite 0 meets the background, STATUS bit 6 reads 1
/// right after that line's dot 256 runs.
pub proof fn lemma_sprite_zero_hit_set(p: PpuState, m: BusState, line: int)
    requires
        p.wf(),
        0 <= line < 240,
        exists|x: int|
            0 <= x < 256 && #[trigger] sprite_zero_hit_at(
                ticks_spec(p, m, dots_before_draw(p, line) as nat).1,
                line,
                x,
            ),
    ensures
        ticks_spec(p, m, (dots_before_draw(p, line) + 1) as nat).1.status & 0x40 != 0,
{
    let k = dots_before_draw(p, line);
    lemma_ticks_position(p, m, k as nat);
    let (q, mq) = ticks_spec(p, m, k as nat);
    let i = dot_index(p);
    let t = (line + 1) * 341 + 256;
    assert((i + (t - i + 89342) % 89342) % 89342 == t) by (nonlinear_arith)
        requires
            0 <= i < 89342,
            0 <= t < 89342,
    ;
    lemma_dot_index_unique(q, line, 256);
    lemma_tick_sprite_zero_hit(q, mq);
}

/// Dots change nothing on the bus but STATUS, the vertical-blank flag and the
/// NMI request: what a line is drawn from is what the CPU left there.
pub proof fn lemma_ticks_keep_picture_inputs(p: PpuState, m: BusState, n: nat)
    ensures
        ticks_spec(p, m, n).1 == (BusState {
            status: ticks_spec(p, m, n).1.status,
            vblank: ticks_spec(p, m, n).1.vblank,
            trigger_nmi: ticks_spec(p, m, n).1.trigger_nmi,
            ..m
        }),
    decreases n,
{
    if n > 0 {
        lemma_ticks_keep_picture_inputs(p, m, (n - 1) as nat);
    }
}

} // verus!
