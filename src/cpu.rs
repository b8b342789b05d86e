//! The 6502 interpreter. Every step is stated over the model of the bus: a
//! read returns `peek` and leaves `after_read`, a write leaves `after_write`.
use crate::decode::{decode, instr_of, Instr, Mode, Op};
use crate::mem::{lemma_access_never_sets_vblank, BusState, Mem, DMA_CYCLES};
use vstd::prelude::*;

verus! {

pub const FLAG_C: u8 = 0x01;
pub const FLAG_Z: u8 = 0x02;
pub const FLAG_I: u8 = 0x04;
pub const FLAG_D: u8 = 0x08;
pub const FLAG_B: u8 = 0x10;
pub const FLAG_U: u8 = 0x20;
pub const FLAG_V: u8 = 0x40;
pub const FLAG_N: u8 = 0x80;

pub const NMI_VECTOR: u16 = 0xFFFA;
pub const RESET_VECTOR: u16 = 0xFFFC;
pub const IRQ_VECTOR: u16 = 0xFFFE;

/// The CPU's registers and its running cycle count. The bus is lent to each call.
#[derive(Clone, Copy, Debug, PartialEq, Eq, Structural)]
pub struct Cpu {
    pub pc: u16,
    pub a: u8,
    pub x: u8,
    pub y: u8,
    pub s: u8,
    pub p: u8,
    pub cycles: u64,
}

/// `p` with `flag` set or cleared.
#[verifier::opaque]
pub open spec fn with_flag(p: u8, flag: u8, set: bool) -> u8 {
    if set {
        p | flag
    } else {
        p & !flag
    }
}

pub open spec fn has_flag(p: u8, flag: u8) -> bool {
    p & flag != 0
}

/// `p` with Z and N taken from `v`.
#[verifier::opaque]
pub open spec fn set_nz(p: u8, v: u8) -> u8 {
    with_flag(with_flag(p, FLAG_Z, v == 0), FLAG_N, v >= 128)
}

pub open spec fn carry_in(p: u8) -> int {
    if has_flag(p, FLAG_C) {
        1
    } else {
        0
    }
}

/// A + M + C, as the unbounded sum.
pub open spec fn adc_sum(a: u8, m: u8, p: u8) -> int {
    a + m + carry_in(p)
}

/// The accumulator after ADC.
pub open spec fn adc_value(a: u8, m: u8, p: u8) -> u8 {
    (adc_sum(a, m, p) % 256) as u8
}

/// The status after ADC: C is the carry out of bit 7, V the signed overflow.
#[verifier::opaque]
pub open spec fn adc_flags(a: u8, m: u8, p: u8) -> u8 {
    let r = adc_value(a, m, p);
    set_nz(
        with_flag(
            with_flag(p, FLAG_C, adc_sum(a, m, p) > 0xFF),
            FLAG_V,
            (a ^ r) & (m ^ r) & 0x80 != 0,
        ),
        r,
    )
}

/// The status after a compare of `reg` with `m`.
#[verifier::opaque]
pub open spec fn compare_flags(p: u8, reg: u8, m: u8) -> u8 {
    set_nz(with_flag(p, FLAG_C, reg >= m), ((reg - m + 256) % 256) as u8)
}

/// The status byte as BRK and PHP push it (B set) or as an interrupt pushes it
/// (B clear); bit 5 is set either way.
pub open spec fn pushed_status(p: u8, brk: bool) -> u8 {
    if brk {
        p | FLAG_B | FLAG_U
    } else {
        (p & !FLAG_B) | FLAG_U
    }
}

/// The status that PLP and RTI load from a pulled byte: B dropped, bit 5 set.
pub open spec fn pulled_status(v: u8) -> u8 {
    (v & !FLAG_B) | FLAG_U
}

/// The stack address for stack pointer `s`.
pub open spec fn stack_addr(s: u8) -> u16 {
    (0x100 + s) as u16
}

/// The model after pushing `v`.
pub open spec fn push_spec(c: Cpu, m: BusState, v: u8) -> (Cpu, BusState) {
    (Cpu { s: ((c.s + 255) % 256) as u8, ..c }, m.after_write(stack_addr(c.s), v))
}

/// The model after pulling a byte, with the byte.
pub open spec fn pop_spec(c: Cpu, m: BusState) -> (u8, Cpu, BusState) {
    let s = ((c.s + 1) % 256) as u8;
    (m.peek(stack_addr(s)), Cpu { s, ..c }, m.after_read(stack_addr(s)))
}

/// The model after pushing `v` high byte first.
pub open spec fn push16_spec(c: Cpu, m: BusState, v: u16) -> (Cpu, BusState) {
    let (c1, m1) = push_spec(c, m, (v / 256) as u8);
    push_spec(c1, m1, (v % 256) as u8)
}

/// The model after pulling two bytes, low byte first, with the value.
pub open spec fn pop16_spec(c: Cpu, m: BusState) -> (u16, Cpu, BusState) {
    let (lo, c1, m1) = pop_spec(c, m);
    let (hi, c2, m2) = pop_spec(c1, m1);
    ((lo + 256 * hi) as u16, c2, m2)
}

/// Two bus reads, little-endian, at `lo_addr` and `hi_addr`.
pub open spec fn read16_spec(m: BusState, lo_addr: u16, hi_addr: u16) -> (u16, BusState) {
    let lo = m.peek(lo_addr);
    let m1 = m.after_read(lo_addr);
    let hi = m1.peek(hi_addr);
    ((lo + 256 * hi) as u16, m1.after_read(hi_addr))
}

pub open spec fn inc16(v: u16) -> u16 {
    ((v + 1) % 0x10000) as u16
}

/// What fetching an instruction's operand leaves: the CPU with PC past the
/// operand, the bus, the effective address and whether indexing crossed a page.
pub struct Fetched {
    pub cpu: Cpu,
    pub bus: BusState,
    pub addr: u16,
    pub crossed: bool,
}

/// Zero page, indexed by `index` within page zero.
pub open spec fn fetch_zp(c: Cpu, m: BusState, index: u8) -> Fetched {
    Fetched {
        cpu: Cpu { pc: inc16(c.pc), ..c },
        bus: m.after_read(c.pc),
        addr: ((m.peek(c.pc) + index) % 256) as u16,
        crossed: false,
    }
}

/// Absolute, indexed by `index`; `crossed` when indexing leaves the base's page.
pub open spec fn fetch_abs(c: Cpu, m: BusState, index: u8) -> Fetched {
    let (base, m2) = read16_spec(m, c.pc, inc16(c.pc));
    Fetched {
        cpu: Cpu { pc: inc16(inc16(c.pc)), ..c },
        bus: m2,
        addr: ((base + index) % 0x10000) as u16,
        crossed: base % 256 + index > 0xFF,
    }
}

/// JMP's indirect operand: the pointer's high byte is read without carrying
/// into the pointer's high byte.
pub open spec fn fetch_ind(c: Cpu, m: BusState) -> Fetched {
    let (ptr, m2) = read16_spec(m, c.pc, inc16(c.pc));
    let (target, m3) = read16_spec(m2, ptr, ((ptr / 256) * 256 + (ptr + 1) % 256) as u16);
    Fetched { cpu: Cpu { pc: inc16(inc16(c.pc)), ..c }, bus: m3, addr: target, crossed: false }
}

/// (zp,X): the pointer at zero page `operand + X`, wrapping within page zero.
pub open spec fn fetch_izx(c: Cpu, m: BusState) -> Fetched {
    let zp = ((m.peek(c.pc) + c.x) % 256) as u16;
    let (target, m2) = read16_spec(m.after_read(c.pc), zp, ((zp + 1) % 256) as u16);
    Fetched { cpu: Cpu { pc: inc16(c.pc), ..c }, bus: m2, addr: target, crossed: false }
}

/// (zp),Y: the pointer at zero page `operand`, plus Y.
pub open spec fn fetch_izy(c: Cpu, m: BusState) -> Fetched {
    let b = m.peek(c.pc);
    let (base, m2) = read16_spec(m.after_read(c.pc), b as u16, ((b + 1) % 256) as u16);
    Fetched {
        cpu: Cpu { pc: inc16(c.pc), ..c },
        bus: m2,
        addr: ((base + c.y) % 0x10000) as u16,
        crossed: base % 256 + c.y > 0xFF,
    }
}

/// A branch offset byte as a two's-complement integer.
pub open spec fn signed_offset(b: u8) -> int {
    if b < 128 {
        b as int
    } else {
        b - 256
    }
}

/// Relative: the target is the address after the operand plus the signed
/// offset; `crossed` when the target lies on another page than the branch
/// instruction's operand.
pub open spec fn fetch_rel(c: Cpu, m: BusState) -> Fetched {
    let pc1 = inc16(c.pc);
    let target = ((pc1 + signed_offset(m.peek(c.pc)) + 0x10000) % 0x10000) as u16;
    Fetched {
        cpu: Cpu { pc: pc1, ..c },
        bus: m.after_read(c.pc),
        addr: target,
        crossed: target / 256 != c.pc / 256,
    }
}

/// The operand fetch for `mode`, with PC just past the opcode.
#[verifier::opaque]
pub open spec fn fetch_spec(c: Cpu, m: BusState, mode: Mode) -> Fetched {
    match mode {
        Mode::Imp | Mode::Acc => Fetched { cpu: c, bus: m, addr: 0, crossed: false },
        Mode::Imm => Fetched { cpu: Cpu { pc: inc16(c.pc), ..c }, bus: m, addr: c.pc, crossed: false },
        Mode::Zp => fetch_zp(c, m, 0),
        Mode::Zpx => fetch_zp(c, m, c.x),
        Mode::Zpy => fetch_zp(c, m, c.y),
        Mode::Abs => fetch_abs(c, m, 0),
        Mode::Abx => fetch_abs(c, m, c.x),
        Mode::Aby => fetch_abs(c, m, c.y),
        Mode::Ind => fetch_ind(c, m),
        Mode::Izx => fetch_izx(c, m),
        Mode::Izy => fetch_izy(c, m),
        Mode::Rel => fetch_rel(c, m),
    }
}

pub open spec fn is_read_op(op: Op) -> bool {
    matches!(op, Op::Lda | Op::Ldx | Op::Ldy | Op::Lax | Op::And | Op::Ora | Op::Eor | Op::Adc
        | Op::Sbc | Op::Cmp | Op::Cpx | Op::Cpy | Op::Bit)
}

pub open spec fn is_store_op(op: Op) -> bool {
    matches!(op, Op::Sta | Op::Stx | Op::Sty | Op::Sax)
}

pub open spec fn is_rmw_op(op: Op) -> bool {
    matches!(op, Op::Asl | Op::Lsr | Op::Rol | Op::Ror | Op::Inc | Op::Dec | Op::Slo | Op::Rla
        | Op::Sre | Op::Rra | Op::Dcp | Op::Isc)
}

pub open spec fn is_branch_op(op: Op) -> bool {
    matches!(op, Op::Bpl | Op::Bmi | Op::Bvc | Op::Bvs | Op::Bcc | Op::Bcs | Op::Bne | Op::Beq)
}

/// The registers after an operation that reads the operand `v`.
#[verifier::opaque]
pub open spec fn read_op_spec(c: Cpu, op: Op, v: u8) -> Cpu {
    match op {
        Op::Lda => Cpu { a: v, p: set_nz(c.p, v), ..c },
        Op::Ldx => Cpu { x: v, p: set_nz(c.p, v), ..c },
        Op::Ldy => Cpu { y: v, p: set_nz(c.p, v), ..c },
        Op::Lax => Cpu { a: v, x: v, p: set_nz(c.p, v), ..c },
        Op::And => Cpu { a: c.a & v, p: set_nz(c.p, c.a & v), ..c },
        Op::Ora => Cpu { a: c.a | v, p: set_nz(c.p, c.a | v), ..c },
        Op::Eor => Cpu { a: c.a ^ v, p: set_nz(c.p, c.a ^ v), ..c },
        Op::Adc => Cpu { a: adc_value(c.a, v, c.p), p: adc_flags(c.a, v, c.p), ..c },
        Op::Sbc => Cpu { a: adc_value(c.a, !v, c.p), p: adc_flags(c.a, !v, c.p), ..c },
        Op::Cmp => Cpu { p: compare_flags(c.p, c.a, v), ..c },
        Op::Cpx => Cpu { p: compare_flags(c.p, c.x, v), ..c },
        Op::Cpy => Cpu { p: compare_flags(c.p, c.y, v), ..c },
        Op::Bit => Cpu {
            p: with_flag(
                with_flag(with_flag(c.p, FLAG_Z, c.a & v == 0), FLAG_V, v & 0x40 != 0),
                FLAG_N,
                v & 0x80 != 0,
            ),
            ..c
        },
        _ => c,
    }
}

/// The byte that a store operation writes.
pub open spec fn store_value(c: Cpu, op: Op) -> u8 {
    match op {
        Op::Sta => c.a,
        Op::Stx => c.x,
        Op::Sty => c.y,
        _ => c.a & c.x,
    }
}

/// ASL, LSR, ROL, ROR on `v`: the result and the status.
#[verifier::opaque]
pub open spec fn shift_spec(op: Op, v: u8, p: u8) -> (u8, u8) {
    let r: u8 = match op {
        Op::Asl => ((v * 2) % 256) as u8,
        Op::Lsr => v / 2,
        Op::Rol => ((v * 2 + carry_in(p)) % 256) as u8,
        _ => (v / 2 + 128 * carry_in(p)) as u8,
    };
    let carry = match op {
        Op::Asl | Op::Rol => v >= 128,
        _ => v % 2 == 1,
    };
    (r, set_nz(with_flag(p, FLAG_C, carry), r))
}

/// A read-modify-write operation on the operand `v`: the byte written back
/// and the registers after it.
#[verifier::opaque]
pub open spec fn rmw_spec(c: Cpu, op: Op, v: u8) -> (u8, Cpu) {
    match op {
        Op::Asl | Op::Lsr | Op::Rol | Op::Ror => {
            let (r, p) = shift_spec(op, v, c.p);
            (r, Cpu { p, ..c })
        },
        Op::Inc => {
            let r = ((v + 1) % 256) as u8;
            (r, Cpu { p: set_nz(c.p, r), ..c })
        },
        Op::Dec => {
            let r = ((v + 255) % 256) as u8;
            (r, Cpu { p: set_nz(c.p, r), ..c })
        },
        Op::Slo => {
            let (r, p) = shift_spec(Op::Asl, v, c.p);
            (r, read_op_spec(Cpu { p, ..c }, Op::Ora, r))
        },
        Op::Rla => {
            let (r, p) = shift_spec(Op::Rol, v, c.p);
            (r, read_op_spec(Cpu { p, ..c }, Op::And, r))
        },
        Op::Sre => {
            let (r, p) = shift_spec(Op::Lsr, v, c.p);
            (r, read_op_spec(Cpu { p, ..c }, Op::Eor, r))
        },
        Op::Rra => {
            let (r, p) = shift_spec(Op::Ror, v, c.p);
            (r, read_op_spec(Cpu { p, ..c }, Op::Adc, r))
        },
        Op::Dcp => {
            let r = ((v + 255) % 256) as u8;
            (r, read_op_spec(c, Op::Cmp, r))
        },
        _ => {
            let r = ((v + 1) % 256) as u8;
            (r, read_op_spec(c, Op::Sbc, r))
        },
    }
}

/// Register transfers, increments of X and Y, flag operations and NOP.
#[verifier::opaque]
pub open spec fn implied_spec(c: Cpu, op: Op) -> Cpu {
    match op {
        Op::Tax => Cpu { x: c.a, p: set_nz(c.p, c.a), ..c },
        Op::Tay => Cpu { y: c.a, p: set_nz(c.p, c.a), ..c },
        Op::Txa => Cpu { a: c.x, p: set_nz(c.p, c.x), ..c },
        Op::Tya => Cpu { a: c.y, p: set_nz(c.p, c.y), ..c },
        Op::Tsx => Cpu { x: c.s, p: set_nz(c.p, c.s), ..c },
        Op::Txs => Cpu { s: c.x, ..c },
        Op::Inx => Cpu { x: ((c.x + 1) % 256) as u8, p: set_nz(c.p, ((c.x + 1) % 256) as u8), ..c },
        Op::Iny => Cpu { y: ((c.y + 1) % 256) as u8, p: set_nz(c.p, ((c.y + 1) % 256) as u8), ..c },
        Op::Dex => Cpu {
            x: ((c.x + 255) % 256) as u8,
            p: set_nz(c.p, ((c.x + 255) % 256) as u8),
            ..c
        },
        Op::Dey => Cpu {
            y: ((c.y + 255) % 256) as u8,
            p: set_nz(c.p, ((c.y + 255) % 256) as u8),
            ..c
        },
        Op::Clc => Cpu { p: with_flag(c.p, FLAG_C, false), ..c },
        Op::Sec => Cpu { p: with_flag(c.p, FLAG_C, true), ..c },
        Op::Cli => Cpu { p: with_flag(c.p, FLAG_I, false), ..c },
        Op::Sei => Cpu { p: with_flag(c.p, FLAG_I, true), ..c },
        Op::Clv => Cpu { p: with_flag(c.p, FLAG_V, false), ..c },
        Op::Cld => Cpu { p: with_flag(c.p, FLAG_D, false), ..c },
        Op::Sed => Cpu { p: with_flag(c.p, FLAG_D, true), ..c },
        _ => c,
    }
}

/// Whether a branch operation is taken under status `p`.
pub open spec fn branch_taken(p: u8, op: Op) -> bool {
    match op {
        Op::Bpl => !has_flag(p, FLAG_N),
        Op::Bmi => has_flag(p, FLAG_N),
        Op::Bvc => !has_flag(p, FLAG_V),
        Op::Bvs => has_flag(p, FLAG_V),
        Op::Bcc => !has_flag(p, FLAG_C),
        Op::Bcs => has_flag(p, FLAG_C),
        Op::Bne => !has_flag(p, FLAG_Z),
        _ => has_flag(p, FLAG_Z),
    }
}

/// The model after an operation, and the cycles a taken branch adds.
pub struct Executed {
    pub cpu: Cpu,
    pub bus: BusState,
    pub extra: int,
}

/// The effect of executing `ins` once its operand is fetched: `addr` is the
/// effective address (or branch target), `crossed` whether indexing crossed a page.
#[verifier::opaque]
pub open spec fn execute_spec(c: Cpu, m: BusState, ins: Instr, addr: u16, crossed: bool) -> Executed {
    let op = ins.op;
    if is_read_op(op) {
        Executed { cpu: read_op_spec(c, op, m.peek(addr)), bus: m.after_read(addr), extra: 0 }
    } else if is_store_op(op) {
        Executed { cpu: c, bus: m.after_write(addr, store_value(c, op)), extra: 0 }
    } else if is_rmw_op(op) {
        if ins.mode == Mode::Acc {
            let (r, c1) = rmw_spec(c, op, c.a);
            Executed { cpu: Cpu { a: r, ..c1 }, bus: m, extra: 0 }
        } else {
            let (r, c1) = rmw_spec(c, op, m.peek(addr));
            Executed { cpu: c1, bus: m.after_read(addr).after_write(addr, r), extra: 0 }
        }
    } else if is_branch_op(op) {
        if branch_taken(c.p, op) {
            Executed {
                cpu: Cpu { pc: addr, ..c },
                bus: m,
                extra: if crossed {
                    2
                } else {
                    1
                },
            }
        } else {
            Executed { cpu: c, bus: m, extra: 0 }
        }
    } else {
        control_spec(c, m, op, addr)
    }
}

/// Jumps, subroutine calls and returns, BRK, the stack operations, and the
/// operations on registers alone.
#[verifier::opaque]
pub open spec fn control_spec(c: Cpu, m: BusState, op: Op, addr: u16) -> Executed {
    match op {
        Op::Jmp => Executed { cpu: Cpu { pc: addr, ..c }, bus: m, extra: 0 },
        Op::Jsr => {
            let (c1, m1) = push16_spec(c, m, ((c.pc + 0xFFFF) % 0x10000) as u16);
            Executed { cpu: Cpu { pc: addr, ..c1 }, bus: m1, extra: 0 }
        },
        Op::Rts => {
            let (ret, c1, m1) = pop16_spec(c, m);
            Executed { cpu: Cpu { pc: inc16(ret), ..c1 }, bus: m1, extra: 0 }
        },
        Op::Rti => {
            let (v, c1, m1) = pop_spec(c, m);
            let (ret, c2, m2) = pop16_spec(c1, m1);
            Executed { cpu: Cpu { pc: ret, p: pulled_status(v), ..c2 }, bus: m2, extra: 0 }
        },
        Op::Brk => {
            let (c1, m1) = push16_spec(c, m, inc16(c.pc));
            let (c2, m2) = push_spec(c1, m1, pushed_status(c.p, true));
            let (target, m3) = read16_spec(m2, IRQ_VECTOR, inc16(IRQ_VECTOR));
            Executed {
                cpu: Cpu { pc: target, p: with_flag(c2.p, FLAG_I, true), ..c2 },
                bus: m3,
                extra: 0,
            }
        },
        Op::Pha => {
            let (c1, m1) = push_spec(c, m, c.a);
            Executed { cpu: c1, bus: m1, extra: 0 }
        },
        Op::Php => {
            let (c1, m1) = push_spec(c, m, pushed_status(c.p, true));
            Executed { cpu: c1, bus: m1, extra: 0 }
        },
        Op::Pla => {
            let (v, c1, m1) = pop_spec(c, m);
            Executed { cpu: Cpu { a: v, p: set_nz(c1.p, v), ..c1 }, bus: m1, extra: 0 }
        },
        Op::Plp => {
            let (v, c1, m1) = pop_spec(c, m);
            Executed { cpu: Cpu { p: pulled_status(v), ..c1 }, bus: m1, extra: 0 }
        },
        _ => Executed { cpu: implied_spec(c, op), bus: m, extra: 0 },
    }
}

/// An interrupt entry: PC and the status (B clear, bit 5 set) pushed, I set,
/// PC loaded from `vector`.
#[verifier::opaque]
pub open spec fn interrupt_spec(c: Cpu, m: BusState, vector: u16) -> (Cpu, BusState) {
    let (c1, m1) = push16_spec(c, m, c.pc);
    let (c2, m2) = push_spec(c1, m1, pushed_status(c.p, false));
    let (target, m3) = read16_spec(m2, vector, inc16(vector));
    (Cpu { pc: target, p: with_flag(c2.p, FLAG_I, true), ..c2 }, m3)
}

/// The model after one step, with the cycles the step took.
pub struct Step {
    pub cpu: Cpu,
    pub bus: BusState,
    pub cycles: int,
}

/// Cycles an interrupt entry takes.
pub const INTERRUPT_CYCLES: u8 = 7;

/// One step: a pending NMI is served first, then an asserted IRQ while I is
/// clear, else the opcode at PC is fetched, decoded and executed. The cycles are
/// the opcode's base cost, one more for a page crossed by an indexed read that
/// pays for it, and one more (two across a page) for a taken branch.
#[verifier::opaque]
pub open spec fn step_spec(c: Cpu, m: BusState) -> Step {
    if m.trigger_nmi {
        let (c1, m1) = interrupt_spec(c, BusState { trigger_nmi: false, ..m }, NMI_VECTOR);
        Step { cpu: c1, bus: m1, cycles: INTERRUPT_CYCLES as int }
    } else if m.irq == 0 && !has_flag(c.p, FLAG_I) {
        let (c1, m1) = interrupt_spec(c, m, IRQ_VECTOR);
        Step { cpu: c1, bus: m1, cycles: INTERRUPT_CYCLES as int }
    } else {
        let ins = instr_of(m.peek(c.pc));
        let f = fetch_spec(Cpu { pc: inc16(c.pc), ..c }, m.after_read(c.pc), ins.mode);
        let e = execute_spec(f.cpu, f.bus, ins, f.addr, f.crossed);
        Step {
            cpu: e.cpu,
            bus: e.bus,
            cycles: ins.cycles + (if ins.page_penalty && f.crossed {
                1int
            } else {
                0int
            }) + e.extra,
        }
    }
}
fn nz(p: u8, v: u8) -> (r: u8)
    ensures
        r == set_nz(p, v),
{
    reveal(set_nz);
    reveal(with_flag);
    let p1 = if v == 0 {
        p | FLAG_Z
    } else {
        p & !FLAG_Z
    };
    if v >= 128 {
        p1 | FLAG_N
    } else {
        p1 & !FLAG_N
    }
}

fn flag(p: u8, f: u8, set: bool) -> (r: u8)
    ensures
        r == with_flag(p, f, set),
{
    reveal(with_flag);
    if set {
        p | f
    } else {
        p & !f
    }
}

impl Cpu {
    /// The CPU after reset: PC from the reset vector, S = 0xFD, P = 0x24, and
    /// the seven cycles that the reset sequence takes.
    pub fn new(mem: &mut Mem) -> (r: Cpu)
        requires
            old(mem)@.wf(),
        ensures
            final(mem)@.wf(),
            (r.pc, final(mem)@) == read16_spec(old(mem)@, RESET_VECTOR, inc16(RESET_VECTOR)),
            r.a == 0 && r.x == 0 && r.y == 0,
            r.s == 0xFD,
            r.p == 0x24,
            r.cycles == 7,
    {
        let pc = mem.read_u16(RESET_VECTOR);
        Cpu { pc, a: 0, x: 0, y: 0, s: 0xFD, p: 0x24, cycles: 7 }
    }

    pub fn set_negative(&mut self, set: bool)
        ensures
            *final(self) == (Cpu { p: with_flag(old(self).p, FLAG_N, set), ..*old(self) }),
    {
        self.p = flag(self.p, FLAG_N, set);
    }

    pub fn set_overflow(&mut self, set: bool)
        ensures
            *final(self) == (Cpu { p: with_flag(old(self).p, FLAG_V, set), ..*old(self) }),
    {
        self.p = flag(self.p, FLAG_V, set);
    }

    pub fn set_decimal(&mut self, set: bool)
        ensures
            *final(self) == (Cpu { p: with_flag(old(self).p, FLAG_D, set), ..*old(self) }),
    {
        self.p = flag(self.p, FLAG_D, set);
    }

    pub fn set_interrupt_disable(&mut self, set: bool)
        ensures
            *final(self) == (Cpu { p: with_flag(old(self).p, FLAG_I, set), ..*old(self) }),
    {
        self.p = flag(self.p, FLAG_I, set);
    }

    pub fn set_zero(&mut self, set: bool)
        ensures
            *final(self) == (Cpu { p: with_flag(old(self).p, FLAG_Z, set), ..*old(self) }),
    {
        self.p = flag(self.p, FLAG_Z, set);
    }

    pub fn set_carry(&mut self, set: bool)
        ensures
            *final(self) == (Cpu { p: with_flag(old(self).p, FLAG_C, set), ..*old(self) }),
    {
        self.p = flag(self.p, FLAG_C, set);
    }

    pub fn get_negative(&self) -> (r: bool)
        ensures
            r == has_flag(self.p, FLAG_N),
    {
        self.p & FLAG_N != 0
    }

    pub fn get_overflow(&self) -> (r: bool)
        ensures
            r == has_flag(self.p, FLAG_V),
    {
        self.p & FLAG_V != 0
    }

    pub fn get_decimal(&self) -> (r: bool)
        ensures
            r == has_flag(self.p, FLAG_D),
    {
        self.p & FLAG_D != 0
    }

    pub fn get_interrupt_disable(&self) -> (r: bool)
        ensures
            r == has_flag(self.p, FLAG_I),
    {
        self.p & FLAG_I != 0
    }

    pub fn get_zero(&self) -> (r: bool)
        ensures
            r == has_flag(self.p, FLAG_Z),
    {
        self.p & FLAG_Z != 0
    }

    pub fn get_carry(&self) -> (r: bool)
        ensures
            r == has_flag(self.p, FLAG_C),
    {
        self.p & FLAG_C != 0
    }

    /// ADC: A + M + C into A, with C, V, Z and N.
    pub fn adc(&mut self, n: u8)
        ensures
            *final(self) == (Cpu {
                a: adc_value(old(self).a, n, old(self).p),
                p: adc_flags(old(self).a, n, old(self).p),
                ..*old(self)
            }),
    {
        reveal(adc_flags);
        let c: u16 = if self.p & FLAG_C != 0 {
            1
        } else {
            0
        };
        let sum: u16 = self.a as u16 + n as u16 + c;
        let r: u8 = (sum % 256) as u8;
        let p1 = flag(self.p, FLAG_C, sum > 0xFF);
        let p2 = flag(p1, FLAG_V, (self.a ^ r) & (n ^ r) & 0x80 != 0);
        self.p = nz(p2, r);
        self.a = r;
    }

    /// SBC: ADC of the operand's complement.
    pub fn sbc(&mut self, num_orig: u8)
        ensures
            *final(self) == (Cpu {
                a: adc_value(old(self).a, !num_orig, old(self).p),
                p: adc_flags(old(self).a, !num_orig, old(self).p),
                ..*old(self)
            }),
    {
        self.adc(!num_orig);
    }

    /// Pushes `n` at 0x0100 + S, then decrements S (mod 256).
    pub fn stack_push_u8(&mut self, mem: &mut Mem, n: u8)
        requires
            old(mem)@.wf(),
        ensures
            final(mem)@.wf(),
            (*final(self), final(mem)@) == push_spec(*old(self), old(mem)@, n),
    {
        mem.write_u8(0x100 + self.s as u16, n);
        self.s = self.s.wrapping_sub(1);
    }

    pub fn stack_push_u16(&mut self, mem: &mut Mem, n: u16)
        requires
            old(mem)@.wf(),
        ensures
            final(mem)@.wf(),
            (*final(self), final(mem)@) == push16_spec(*old(self), old(mem)@, n),
    {
        self.stack_push_u8(mem, (n / 256) as u8);
        self.stack_push_u8(mem, (n % 256) as u8);
    }

    /// Increments S (mod 256), then reads 0x0100 + S.
    pub fn stack_pop_u8(&mut self, mem: &mut Mem) -> (r: u8)
        requires
            old(mem)@.wf(),
        ensures
            final(mem)@.wf(),
            (r, *final(self), final(mem)@) == pop_spec(*old(self), old(mem)@),
    {
        self.s = self.s.wrapping_add(1);
        mem.read_u8(0x100 + self.s as u16)
    }

    pub fn stack_pop_u16(&mut self, mem: &mut Mem) -> (r: u16)
        requires
            old(mem)@.wf(),
        ensures
            final(mem)@.wf(),
            (r, *final(self), final(mem)@) == pop16_spec(*old(self), old(mem)@),
    {
        let lower = self.stack_pop_u8(mem) as u16;
        let upper = self.stack_pop_u8(mem) as u16;
        lower + upper * 256
    }

    /// The address of a (zp,X) operand.
    #[verifier::rlimit(30)]
    pub fn get_indirect_x_addr(&mut self, mem: &mut Mem) -> (r: u16)
        requires
            old(mem)@.wf(),
        ensures
            final(mem)@.wf(),
            *final(self) == fetch_izx(*old(self), old(mem)@).cpu,
            final(mem)@ == fetch_izx(*old(self), old(mem)@).bus,
            r == fetch_izx(*old(self), old(mem)@).addr,
    {
        let adr_of_adr_base = mem.read_u8(self.pc);
        self.pc = self.pc.wrapping_add(1);
        let zp = adr_of_adr_base.wrapping_add(self.x);
        let r = read16(mem, zp as u16, zp.wrapping_add(1) as u16);
        r
    }

    /// The address of a (zp),Y operand, and 1 if adding Y crossed a page.
    #[verifier::rlimit(30)]
    pub fn get_indirect_y_addr(&mut self, mem: &mut Mem) -> (r: (u16, u8))
        requires
            old(mem)@.wf(),
        ensures
            final(mem)@.wf(),
            *final(self) == fetch_izy(*old(self), old(mem)@).cpu,
            final(mem)@ == fetch_izy(*old(self), old(mem)@).bus,
            r.0 == fetch_izy(*old(self), old(mem)@).addr,
            r.1 == if fetch_izy(*old(self), old(mem)@).crossed {
                1u8
            } else {
                0u8
            },
    {
        let ghost c0 = *self;
        let ghost m0 = mem@;
        let zp = mem.read_u8(self.pc);
        self.pc = self.pc.wrapping_add(1);
        let hi_addr = zp.wrapping_add(1) as u16;
        assert(hi_addr == ((m0.peek(c0.pc) + 1) % 256) as u16);
        let base = read16(mem, zp as u16, hi_addr);
        let addr = base.wrapping_add(self.y as u16);
        let extra: u8 = if base % 256 + self.y as u16 > 0xFF {
            1
        } else {
            0
        };
        (addr, extra)
    }

    /// The address of an absolute,X operand, and 1 if adding X crossed a page.
    pub fn get_absolute_x_addr(&mut self, mem: &mut Mem) -> (r: (u16, u8))
        requires
            old(mem)@.wf(),
        ensures
            final(mem)@.wf(),
            *final(self) == fetch_abs(*old(self), old(mem)@, old(self).x).cpu,
            final(mem)@ == fetch_abs(*old(self), old(mem)@, old(self).x).bus,
            r.0 == fetch_abs(*old(self), old(mem)@, old(self).x).addr,
            r.1 == if fetch_abs(*old(self), old(mem)@, old(self).x).crossed {
                1u8
            } else {
                0u8
            },
    {
        let (addr, crossed) = self.fetch_absolute(mem, self.x);
        (addr, if crossed {
            1
        } else {
            0
        })
    }

    /// The address of an absolute,Y operand, and 1 if adding Y crossed a page.
    pub fn get_absolute_y_addr(&mut self, mem: &mut Mem) -> (r: (u16, u8))
        requires
            old(mem)@.wf(),
        ensures
            final(mem)@.wf(),
            *final(self) == fetch_abs(*old(self), old(mem)@, old(self).y).cpu,
            final(mem)@ == fetch_abs(*old(self), old(mem)@, old(self).y).bus,
            r.0 == fetch_abs(*old(self), old(mem)@, old(self).y).addr,
            r.1 == if fetch_abs(*old(self), old(mem)@, old(self).y).crossed {
                1u8
            } else {
                0u8
            },
    {
        let (addr, crossed) = self.fetch_absolute(mem, self.y);
        (addr, if crossed {
            1
        } else {
            0
        })
    }

    #[verifier::rlimit(30)]
    fn fetch_absolute(&mut self, mem: &mut Mem, index: u8) -> (r: (u16, bool))
        requires
            old(mem)@.wf(),
        ensures
            final(mem)@.wf(),
            *final(self) == fetch_abs(*old(self), old(mem)@, index).cpu,
            final(mem)@ == fetch_abs(*old(self), old(mem)@, index).bus,
            r.0 == fetch_abs(*old(self), old(mem)@, index).addr,
            r.1 == fetch_abs(*old(self), old(mem)@, index).crossed,
    {
        let pc1 = self.pc.wrapping_add(1);
        let base = read16(mem, self.pc, pc1);
        self.pc = pc1.wrapping_add(1);
        (base.wrapping_add(index as u16), base % 256 + index as u16 > 0xFF)
    }

    fn fetch_zero_page(&mut self, mem: &mut Mem, index: u8) -> (r: u16)
        requires
            old(mem)@.wf(),
        ensures
            final(mem)@.wf(),
            *final(self) == fetch_zp(*old(self), old(mem)@, index).cpu,
            final(mem)@ == fetch_zp(*old(self), old(mem)@, index).bus,
            r == fetch_zp(*old(self), old(mem)@, index).addr,
    {
        let b = mem.read_u8(self.pc);
        self.pc = self.pc.wrapping_add(1);
        b.wrapping_add(index) as u16
    }

    fn fetch_indirect(&mut self, mem: &mut Mem) -> (r: u16)
        requires
            old(mem)@.wf(),
        ensures
            final(mem)@.wf(),
            *final(self) == fetch_ind(*old(self), old(mem)@).cpu,
            final(mem)@ == fetch_ind(*old(self), old(mem)@).bus,
            r == fetch_ind(*old(self), old(mem)@).addr,
    {
        let pc1 = self.pc.wrapping_add(1);
        let ptr = read16(mem, self.pc, pc1);
        self.pc = pc1.wrapping_add(1);
        read16(mem, ptr, (ptr / 256) * 256 + (ptr % 256 + 1) % 256)
    }

    #[verifier::rlimit(30)]
    fn fetch_relative(&mut self, mem: &mut Mem) -> (r: (u16, bool))
        requires
            old(mem)@.wf(),
        ensures
            final(mem)@.wf(),
            *final(self) == fetch_rel(*old(self), old(mem)@).cpu,
            final(mem)@ == fetch_rel(*old(self), old(mem)@).bus,
            r.0 == fetch_rel(*old(self), old(mem)@).addr,
            r.1 == fetch_rel(*old(self), old(mem)@).crossed,
    {
        let ghost c0 = *self;
        let ghost m0 = mem@;
        let operand_page = self.pc / 256;
        let offset = mem.read_u8(self.pc);
        self.pc = self.pc.wrapping_add(1);
        let target = if offset < 128 {
            self.pc.wrapping_add(offset as u16)
        } else {
            self.pc.wrapping_sub(256 - offset as u16)
        };
        proof {
            let t = (self.pc + signed_offset(offset) + 0x10000) % 0x10000;
            assert(target as int == t);
            assert(fetch_rel(c0, m0).addr == t as u16);
        }
        (target, target / 256 != operand_page)
    }

    /// Fetches the operand of `mode`: the effective address (for immediate,
    /// the operand's own address; for branches, the target) and whether
    /// indexing crossed a page.
    #[verifier::rlimit(40)]
    fn fetch_operand(&mut self, mem: &mut Mem, mode: Mode) -> (r: (u16, bool))
        requires
            old(mem)@.wf(),
        ensures
            final(mem)@.wf(),
            *final(self) == fetch_spec(*old(self), old(mem)@, mode).cpu,
            final(mem)@ == fetch_spec(*old(self), old(mem)@, mode).bus,
            r.0 == fetch_spec(*old(self), old(mem)@, mode).addr,
            r.1 == fetch_spec(*old(self), old(mem)@, mode).crossed,
    {
        reveal(fetch_spec);
        match mode {
            Mode::Imp | Mode::Acc => (0, false),
            Mode::Imm => {
                let addr = self.pc;
                self.pc = self.pc.wrapping_add(1);
                (addr, false)
            },
            Mode::Zp => (self.fetch_zero_page(mem, 0), false),
            Mode::Zpx => (self.fetch_zero_page(mem, self.x), false),
            Mode::Zpy => (self.fetch_zero_page(mem, self.y), false),
            Mode::Abs => self.fetch_absolute(mem, 0),
            Mode::Abx => self.fetch_absolute(mem, self.x),
            Mode::Aby => self.fetch_absolute(mem, self.y),
            Mode::Ind => (self.fetch_indirect(mem), false),
            Mode::Izx => (self.get_indirect_x_addr(mem), false),
            Mode::Izy => {
                let (addr, extra) = self.get_indirect_y_addr(mem);
                (addr, extra == 1)
            },
            Mode::Rel => self.fetch_relative(mem),
        }
    }
}

/// Two reads, little-endian, at `lo_addr` and `hi_addr`.
fn read16(mem: &mut Mem, lo_addr: u16, hi_addr: u16) -> (r: u16)
    requires
        old(mem)@.wf(),
    ensures
        final(mem)@.wf(),
        (r, final(mem)@) == read16_spec(old(mem)@, lo_addr, hi_addr),
{
    let lo = mem.read_u8(lo_addr);
    let hi = mem.read_u8(hi_addr);
    lo as u16 + hi as u16 * 256
}
fn compare(p: u8, reg: u8, m: u8) -> (r: u8)
    ensures
        r == compare_flags(p, reg, m),
{
    reveal(compare_flags);
    nz(flag(p, FLAG_C, reg >= m), reg.wrapping_sub(m))
}

fn shift(op: Op, v: u8, p: u8) -> (r: (u8, u8))
    ensures
        r == shift_spec(op, v, p),
{
    reveal(shift_spec);
    let c: u8 = if p & FLAG_C != 0 {
        1
    } else {
        0
    };
    let r: u8 = match op {
        Op::Asl => ((v as u16 * 2) % 256) as u8,
        Op::Lsr => v / 2,
        Op::Rol => ((v as u16 * 2 + c as u16) % 256) as u8,
        _ => v / 2 + 128 * c,
    };
    let carry = match op {
        Op::Asl | Op::Rol => v >= 128,
        _ => v % 2 == 1,
    };
    (r, nz(flag(p, FLAG_C, carry), r))
}

fn is_read(op: Op) -> (r: bool)
    ensures
        r == is_read_op(op),
{
    matches!(op, Op::Lda | Op::Ldx | Op::Ldy | Op::Lax | Op::And | Op::Ora | Op::Eor | Op::Adc
        | Op::Sbc | Op::Cmp | Op::Cpx | Op::Cpy | Op::Bit)
}

fn is_store(op: Op) -> (r: bool)
    ensures
        r == is_store_op(op),
{
    matches!(op, Op::Sta | Op::Stx | Op::Sty | Op::Sax)
}

fn is_rmw(op: Op) -> (r: bool)
    ensures
        r == is_rmw_op(op),
{
    matches!(op, Op::Asl | Op::Lsr | Op::Rol | Op::Ror | Op::Inc | Op::Dec | Op::Slo | Op::Rla
        | Op::Sre | Op::Rra | Op::Dcp | Op::Isc)
}

fn is_branch(op: Op) -> (r: bool)
    ensures
        r == is_branch_op(op),
{
    matches!(op, Op::Bpl | Op::Bmi | Op::Bvc | Op::Bvs | Op::Bcc | Op::Bcs | Op::Bne | Op::Beq)
}

impl Cpu {
    fn apply_read(&mut self, op: Op, v: u8)
        ensures
            *final(self) == read_op_spec(*old(self), op, v),
    {
        reveal(read_op_spec);
        match op {
            Op::Lda => {
                self.a = v;
                self.p = nz(self.p, v);
            },
            Op::Ldx => {
                self.x = v;
                self.p = nz(self.p, v);
            },
            Op::Ldy => {
                self.y = v;
                self.p = nz(self.p, v);
            },
            Op::Lax => {
                self.a = v;
                self.x = v;
                self.p = nz(self.p, v);
            },
            Op::And => {
                self.a = self.a & v;
                self.p = nz(self.p, self.a);
            },
            Op::Ora => {
                self.a = self.a | v;
                self.p = nz(self.p, self.a);
            },
            Op::Eor => {
                self.a = self.a ^ v;
                self.p = nz(self.p, self.a);
            },
            Op::Adc => self.adc(v),
            Op::Sbc => self.sbc(v),
            Op::Cmp => self.p = compare(self.p, self.a, v),
            Op::Cpx => self.p = compare(self.p, self.x, v),
            Op::Cpy => self.p = compare(self.p, self.y, v),
            Op::Bit => {
                let p1 = flag(self.p, FLAG_Z, self.a & v == 0);
                let p2 = flag(p1, FLAG_V, v & 0x40 != 0);
                self.p = flag(p2, FLAG_N, v & 0x80 != 0);
            },
            _ => {},
        }
    }

    #[verifier::rlimit(30)]
    fn apply_rmw(&mut self, op: Op, v: u8) -> (r: u8)
        requires
            is_rmw_op(op),
        ensures
            (r, *final(self)) == rmw_spec(*old(self), op, v),
    {
        reveal(rmw_spec);
        match op {
            Op::Asl | Op::Lsr | Op::Rol | Op::Ror => {
                let (r, p) = shift(op, v, self.p);
                self.p = p;
                r
            },
            Op::Inc => {
                let r = v.wrapping_add(1);
                self.p = nz(self.p, r);
                r
            },
            Op::Dec => {
                let r = v.wrapping_sub(1);
                self.p = nz(self.p, r);
                r
            },
            Op::Slo | Op::Rla | Op::Sre | Op::Rra | Op::Dcp | Op::Isc => self.apply_combined(op, v),
            _ => 0,
        }
    }

    /// The unofficial read-modify-write operations: a shift, increment or
    /// decrement of memory followed by an operation on A with the result.
    #[verifier::rlimit(30)]
    fn apply_combined(&mut self, op: Op, v: u8) -> (r: u8)
        requires
            matches!(op, Op::Slo | Op::Rla | Op::Sre | Op::Rra | Op::Dcp | Op::Isc),
        ensures
            (r, *final(self)) == rmw_spec(*old(self), op, v),
    {
        reveal(rmw_spec);
        match op {
            Op::Slo => {
                let (r, p) = shift(Op::Asl, v, self.p);
                self.p = p;
                self.apply_read(Op::Ora, r);
                r
            },
            Op::Rla => {
                let (r, p) = shift(Op::Rol, v, self.p);
                self.p = p;
                self.apply_read(Op::And, r);
                r
            },
            Op::Sre => {
                let (r, p) = shift(Op::Lsr, v, self.p);
                self.p = p;
                self.apply_read(Op::Eor, r);
                r
            },
            Op::Rra => {
                let (r, p) = shift(Op::Ror, v, self.p);
                self.p = p;
                self.apply_read(Op::Adc, r);
                r
            },
            Op::Dcp => {
                let r = v.wrapping_sub(1);
                self.apply_read(Op::Cmp, r);
                r
            },
            _ => {
                let r = v.wrapping_add(1);
                self.apply_read(Op::Sbc, r);
                r
            },
        }
    }

    fn apply_implied(&mut self, op: Op)
        ensures
            *final(self) == implied_spec(*old(self), op),
    {
        reveal(implied_spec);
        match op {
            Op::Tax => {
                self.x = self.a;
                self.p = nz(self.p, self.a);
            },
            Op::Tay => {
                self.y = self.a;
                self.p = nz(self.p, self.a);
            },
            Op::Txa => {
                self.a = self.x;
                self.p = nz(self.p, self.x);
            },
            Op::Tya => {
                self.a = self.y;
                self.p = nz(self.p, self.y);
            },
            Op::Tsx => {
                self.x = self.s;
                self.p = nz(self.p, self.s);
            },
            Op::Txs => self.s = self.x,
            Op::Inx => {
                self.x = self.x.wrapping_add(1);
                self.p = nz(self.p, self.x);
            },
            Op::Iny => {
                self.y = self.y.wrapping_add(1);
                self.p = nz(self.p, self.y);
            },
            Op::Dex => {
                self.x = self.x.wrapping_sub(1);
                self.p = nz(self.p, self.x);
            },
            Op::Dey => {
                self.y = self.y.wrapping_sub(1);
                self.p = nz(self.p, self.y);
            },
            Op::Clc => self.set_carry(false),
            Op::Sec => self.set_carry(true),
            Op::Cli => self.set_interrupt_disable(false),
            Op::Sei => self.set_interrupt_disable(true),
            Op::Clv => self.set_overflow(false),
            Op::Cld => self.set_decimal(false),
            Op::Sed => self.set_decimal(true),
            _ => {},
        }
    }
}
fn branch_condition(p: u8, op: Op) -> (r: bool)
    ensures
        r == branch_taken(p, op),
{
    match op {
        Op::Bpl => p & FLAG_N == 0,
        Op::Bmi => p & FLAG_N != 0,
        Op::Bvc => p & FLAG_V == 0,
        Op::Bvs => p & FLAG_V != 0,
        Op::Bcc => p & FLAG_C == 0,
        Op::Bcs => p & FLAG_C != 0,
        Op::Bne => p & FLAG_Z == 0,
        _ => p & FLAG_Z != 0,
    }
}

/// Fetching an operand leaves the cycle count alone.
proof fn lemma_fetch_keeps_cycles(c: Cpu, m: BusState, mode: Mode)
    ensures
        fetch_spec(c, m, mode).cpu.cycles == c.cycles,
{
    reveal(fetch_spec);
}

/// Executing an operation leaves the cycle count alone.
proof fn lemma_execute_keeps_cycles(c: Cpu, m: BusState, ins: Instr, addr: u16, crossed: bool)
    ensures
        execute_spec(c, m, ins, addr, crossed).cpu.cycles == c.cycles,
{
    reveal(execute_spec);
    reveal(control_spec);
    reveal(read_op_spec);
    reveal(rmw_spec);
    reveal(implied_spec);
}

/// A step leaves the cycle count to the caller.
proof fn lemma_step_keeps_cycles(c: Cpu, m: BusState)
    ensures
        step_spec(c, m).cpu.cycles == c.cycles,
{
    reveal(step_spec);
    reveal(interrupt_spec);
    let ins = instr_of(m.peek(c.pc));
    let c1 = Cpu { pc: inc16(c.pc), ..c };
    let f = fetch_spec(c1, m.after_read(c.pc), ins.mode);
    lemma_fetch_keeps_cycles(c1, m.after_read(c.pc), ins.mode);
    lemma_execute_keeps_cycles(f.cpu, f.bus, ins, f.addr, f.crossed);
}

/// Branch opcodes are relative, cost two cycles and pay no indexing penalty.
proof fn lemma_branch_opcodes(opcode: u8)
    ensures
        is_branch_op(instr_of(opcode).op) ==> instr_of(opcode).mode == Mode::Rel
            && instr_of(opcode).cycles == 2 && !instr_of(opcode).page_penalty,
{
    reveal(instr_of);
}

/// A step that runs a branch is the branch's operand fetch, then the jump
/// when its condition holds.
proof fn lemma_branch_step(c: Cpu, m: BusState)
    requires
        !m.trigger_nmi,
        !(m.irq == 0 && !has_flag(c.p, FLAG_I)),
        is_branch_op(instr_of(m.peek(c.pc)).op),
    ensures
        ({
            let op = instr_of(m.peek(c.pc)).op;
            let f = fetch_rel(Cpu { pc: inc16(c.pc), ..c }, m.after_read(c.pc));
            &&& step_spec(c, m).bus == f.bus
            &&& step_spec(c, m).cpu == if branch_taken(c.p, op) {
                Cpu { pc: f.addr, ..f.cpu }
            } else {
                f.cpu
            }
            &&& step_spec(c, m).cycles == if !branch_taken(c.p, op) {
                2int
            } else if f.crossed {
                4int
            } else {
                3int
            }
        }),
{
    reveal(step_spec);
    reveal(fetch_spec);
    reveal(execute_spec);
    lemma_branch_opcodes(m.peek(c.pc));
}

/// Every opcode costs from two to eight cycles before penalties.
proof fn lemma_base_cycles(opcode: u8)
    ensures
        2 <= instr_of(opcode).cycles <= 8,
{
    reveal(instr_of);
}

impl Cpu {
    /// A relative branch with PC at its offset byte: reads the offset and moves
    /// PC past it; when `branch` holds, jumps to the target. Returns the cycles
    /// of the whole instruction: 2 when not taken, 3 when taken, 4 when the
    /// target lies on another page than the offset byte.
    pub fn branch_if(&mut self, mem: &mut Mem, branch: bool) -> (r: u8)
        requires
            old(mem)@.wf(),
        ensures
            final(mem)@.wf(),
            final(mem)@ == fetch_rel(*old(self), old(mem)@).bus,
            *final(self) == if branch {
                Cpu { pc: fetch_rel(*old(self), old(mem)@).addr, ..fetch_rel(*old(self), old(mem)@).cpu }
            } else {
                fetch_rel(*old(self), old(mem)@).cpu
            },
            r == if !branch {
                2u8
            } else if fetch_rel(*old(self), old(mem)@).crossed {
                4u8
            } else {
                3u8
            },
    {
        let (target, crossed) = self.fetch_relative(mem);
        2 + self.take_branch(branch, target, crossed)
    }

    /// A branch whose condition is `branch`: when taken, PC becomes `target`
    /// and the branch costs one more cycle, two when `crossed` a page.
    fn take_branch(&mut self, branch: bool, target: u16, crossed: bool) -> (extra: u8)
        ensures
            branch ==> *final(self) == (Cpu { pc: target, ..*old(self) }) && extra == if crossed {
                2u8
            } else {
                1u8
            },
            !branch ==> *final(self) == *old(self) && extra == 0,
    {
        if branch {
            self.pc = target;
            if crossed {
                2
            } else {
                1
            }
        } else {
            0
        }
    }

    fn stack_op(&mut self, mem: &mut Mem, op: Op, addr: u16)
        requires
            old(mem)@.wf(),
            matches!(op, Op::Pha | Op::Php | Op::Pla | Op::Plp),
        ensures
            final(mem)@.wf(),
            *final(self) == control_spec(*old(self), old(mem)@, op, addr).cpu,
            final(mem)@ == control_spec(*old(self), old(mem)@, op, addr).bus,
    {
        reveal(control_spec);
        match op {
            Op::Pha => self.stack_push_u8(mem, self.a),
            Op::Php => self.stack_push_u8(mem, self.p | FLAG_B | FLAG_U),
            Op::Pla => {
                let v = self.stack_pop_u8(mem);
                self.a = v;
                self.p = nz(self.p, v);
            },
            _ => {
                let v = self.stack_pop_u8(mem);
                self.p = (v & !FLAG_B) | FLAG_U;
            },
        }
    }

    #[verifier::rlimit(40)]
    fn jump_op(&mut self, mem: &mut Mem, op: Op, addr: u16)
        requires
            old(mem)@.wf(),
            matches!(op, Op::Jmp | Op::Jsr | Op::Rts | Op::Rti | Op::Brk),
        ensures
            final(mem)@.wf(),
            *final(self) == control_spec(*old(self), old(mem)@, op, addr).cpu,
            final(mem)@ == control_spec(*old(self), old(mem)@, op, addr).bus,
    {
        reveal(control_spec);
        match op {
            Op::Jmp => self.pc = addr,
            Op::Jsr => {
                self.stack_push_u16(mem, self.pc.wrapping_sub(1));
                self.pc = addr;
            },
            Op::Rts => {
                let ret = self.stack_pop_u16(mem);
                self.pc = ret.wrapping_add(1);
            },
            Op::Rti => {
                let v = self.stack_pop_u8(mem);
                let ret = self.stack_pop_u16(mem);
                self.pc = ret;
                self.p = (v & !FLAG_B) | FLAG_U;
            },
            _ => {
                let pushed = self.p | FLAG_B | FLAG_U;
                self.stack_push_u16(mem, self.pc.wrapping_add(1));
                self.stack_push_u8(mem, pushed);
                self.pc = read16(mem, IRQ_VECTOR, IRQ_VECTOR + 1);
                self.set_interrupt_disable(true);
            },
        }
    }

    /// Enters an interrupt through `vector`.
    fn interrupt(&mut self, mem: &mut Mem, vector: u16)
        requires
            old(mem)@.wf(),
            vector < 0xFFFF,
        ensures
            final(mem)@.wf(),
            (*final(self), final(mem)@) == interrupt_spec(*old(self), old(mem)@, vector),
    {
        reveal(interrupt_spec);
        let pushed = (self.p & !FLAG_B) | FLAG_U;
        self.stack_push_u16(mem, self.pc);
        self.stack_push_u8(mem, pushed);
        self.pc = read16(mem, vector, vector + 1);
        self.set_interrupt_disable(true);
    }

    fn store_value_of(&self, op: Op) -> (r: u8)
        ensures
            r == store_value(*self, op),
    {
        match op {
            Op::Sta => self.a,
            Op::Stx => self.x,
            Op::Sty => self.y,
            _ => self.a & self.x,
        }
    }

    /// Executes `ins` on its fetched operand; returns the cycles a taken branch adds.
    fn execute(&mut self, mem: &mut Mem, ins: Instr, addr: u16, crossed: bool) -> (extra: u8)
        requires
            old(mem)@.wf(),
        ensures
            final(mem)@.wf(),
            extra <= 2,
            *final(self) == execute_spec(*old(self), old(mem)@, ins, addr, crossed).cpu,
            final(mem)@ == execute_spec(*old(self), old(mem)@, ins, addr, crossed).bus,
            extra == execute_spec(*old(self), old(mem)@, ins, addr, crossed).extra,
    {
        reveal(execute_spec);
        reveal(control_spec);
        let op = ins.op;
        if is_read(op) {
            let v = mem.read_u8(addr);
            self.apply_read(op, v);
            0
        } else if is_store(op) {
            let v = self.store_value_of(op);
            mem.write_u8(addr, v);
            0
        } else if is_rmw(op) {
            if ins.mode == Mode::Acc {
                let r = self.apply_rmw(op, self.a);
                self.a = r;
            } else {
                let v = mem.read_u8(addr);
                let r = self.apply_rmw(op, v);
                mem.write_u8(addr, r);
            }
            0
        } else if is_branch(op) {
            self.take_branch(branch_condition(self.p, op), addr, crossed)
        } else {
            match op {
                Op::Pha | Op::Php | Op::Pla | Op::Plp => self.stack_op(mem, op, addr),
                Op::Jmp | Op::Jsr | Op::Rts | Op::Rti | Op::Brk => self.jump_op(mem, op, addr),
                _ => self.apply_implied(op),
            }
            0
        }
    }

    /// Runs one step (an interrupt entry or one instruction) and returns its cycles.
    pub fn run_next_opcode(&mut self, mem: &mut Mem) -> (r: u8)
        requires
            old(mem)@.wf(),
        ensures
            final(mem)@.wf(),
            *final(self) == step_spec(*old(self), old(mem)@).cpu,
            final(mem)@ == step_spec(*old(self), old(mem)@).bus,
            r == step_spec(*old(self), old(mem)@).cycles,
    {
        reveal(step_spec);
        if mem.get_trigger_nmi() {
            mem.set_trigger_nmi(false);
            self.interrupt(mem, NMI_VECTOR);
            return INTERRUPT_CYCLES;
        }
        if mem.get_irq() == 0 && !self.get_interrupt_disable() {
            self.interrupt(mem, IRQ_VECTOR);
            return INTERRUPT_CYCLES;
        }
        let opcode = mem.read_u8(self.pc);
        self.pc = self.pc.wrapping_add(1);
        let ins = decode(opcode);
        proof {
            lemma_base_cycles(opcode);
        }
        if is_branch(ins.op) {
            proof {
                lemma_branch_step(*old(self), old(mem)@);
            }
            return self.branch_if(mem, branch_condition(self.p, ins.op));
        }
        let (addr, crossed) = self.fetch_operand(mem, ins.mode);
        let extra = self.execute(mem, ins, addr, crossed);
        let penalty: u8 = if ins.page_penalty && crossed {
            1
        } else {
            0
        };
        ins.cycles + penalty + extra
    }

    /// One step, with the cycles of any OAM DMA that it started, added to the
    /// cycle count. Returns the cycles taken.
    pub fn emulate(&mut self, mem: &mut Mem) -> (r: u16)
        requires
            old(mem)@.wf(),
            old(self).cycles <= u64::MAX - 1024,
        ensures
            final(mem)@.wf(),
            2 <= r <= 11 + DMA_CYCLES,
            r == step_spec(*old(self), old(mem)@).cycles + step_spec(
                *old(self),
                old(mem)@,
            ).bus.dma_stall,
            *final(self) == (Cpu {
                cycles: (old(self).cycles + r) as u64,
                ..step_spec(*old(self), old(mem)@).cpu
            }),
            final(mem)@ == (BusState { dma_stall: 0, ..step_spec(*old(self), old(mem)@).bus }),
    {
        proof {
            lemma_step_keeps_cycles(*old(self), old(mem)@);
            lemma_step_takes_cycles(*old(self), old(mem)@);
        }
        let base = self.run_next_opcode(mem);
        let stall = mem.take_dma_stall();
        let cycles = base as u16 + stall;
        self.cycles = self.cycles + cycles as u64;
        cycles
    }
}
/// The status byte pushed by PHP, BRK and interrupt entry always has bit 5
/// set; B (bit 4) is set only for PHP and BRK.
pub proof fn lemma_pushed_status_bits(p: u8, brk: bool)
    ensures
        pushed_status(p, brk) & FLAG_U != 0,
        (pushed_status(p, brk) & FLAG_B != 0) == brk,
{
    assert((p | 0x10u8 | 0x20u8) & 0x20 != 0) by (bit_vector);
    assert((p | 0x10u8 | 0x20u8) & 0x10 != 0) by (bit_vector);
    assert(((p & !0x10u8) | 0x20u8) & 0x20 != 0) by (bit_vector);
    assert(((p & !0x10u8) | 0x20u8) & 0x10 == 0) by (bit_vector);
}

/// A push writes only the byte at 0x0100 + S, inside the stack page, and
/// moves S down by one modulo 256.
pub proof fn lemma_push_stays_in_stack_page(c: Cpu, m: BusState, v: u8)
    requires
        m.wf(),
    ensures
        0x100 <= stack_addr(c.s) <= 0x1FF,
        push_spec(c, m, v).0 == (Cpu { s: ((c.s + 255) % 256) as u8, ..c }),
        push_spec(c, m, v).1 == (BusState { ram: m.ram.update(0x100 + c.s, v), ..m }),
        forall|i: int|
            0 <= i < 0x800 && !(0x100 <= i <= 0x1FF) ==> #[trigger] push_spec(c, m, v).1.ram[i]
                == m.ram[i],
{
    reveal(BusState::after_write);
}

/// A pull reads the byte at 0x0100 + S after moving S up by one modulo 256,
/// and changes nothing on the bus.
pub proof fn lemma_pop_stays_in_stack_page(c: Cpu, m: BusState)
    requires
        m.wf(),
    ensures
        pop_spec(c, m).1.s == (c.s + 1) % 256,
        pop_spec(c, m).0 == m.ram[0x100 + (c.s + 1) % 256],
        pop_spec(c, m).2 == m,
{
    reveal(BusState::peek);
    reveal(BusState::after_read);
}

/// The carry out of ADC is whether A + M + C exceeds 0xFF; SBC is ADC of the
/// complement of M, so its carry is whether A + !M + C exceeds 0xFF.
pub proof fn lemma_adc_sbc_carry(c: Cpu, m: u8)
    ensures
        has_flag(read_op_spec(c, Op::Adc, m).p, FLAG_C) == (c.a + m + carry_in(c.p) > 0xFF),
        has_flag(read_op_spec(c, Op::Sbc, m).p, FLAG_C) == (c.a + (!m) + carry_in(c.p) > 0xFF),
{
    reveal(read_op_spec);
    lemma_adc_carry_flag(c.a, !m, c.p);
    lemma_adc_carry_flag(c.a, m, c.p);
}

proof fn lemma_adc_carry_flag(a: u8, m: u8, p: u8)
    ensures
        has_flag(adc_flags(a, m, p), FLAG_C) == (a + m + carry_in(p) > 0xFF),
{
    reveal(adc_flags);
    reveal(set_nz);
    reveal(with_flag);
    let r = adc_value(a, m, p);
    let v = (a ^ r) & (m ^ r) & 0x80 != 0;
    let q = with_flag(p, FLAG_C, adc_sum(a, m, p) > 0xFF);
    let q2 = with_flag(q, FLAG_V, v);
    assert((q & 1 != 0) == (adc_sum(a, m, p) > 0xFF)) by {
        if adc_sum(a, m, p) > 0xFF {
            assert((p | 1u8) & 1 != 0) by (bit_vector);
        } else {
            assert((p & !1u8) & 1 == 0) by (bit_vector);
        }
    }
    assert(((q2 & 1) != 0) == ((q & 1) != 0)) by {
        if v {
            assert(((q | 0x40u8) & 1) == (q & 1)) by (bit_vector);
        } else {
            assert(((q & !0x40u8) & 1) == (q & 1)) by (bit_vector);
        }
    }
    assert forall|x: u8, z: bool, n: bool|
        (#[trigger] with_flag(with_flag(x, FLAG_Z, z), FLAG_N, n)) & 1 == x & 1 by {
        assert((x | 2u8) & 1 == x & 1) by (bit_vector);
        assert((x & !2u8) & 1 == x & 1) by (bit_vector);
        let y = with_flag(x, FLAG_Z, z);
        assert((y | 0x80u8) & 1 == y & 1) by (bit_vector);
        assert((y & !0x80u8) & 1 == y & 1) by (bit_vector);
    }
}

/// Every step takes at least two cycles.
pub proof fn lemma_step_takes_cycles(c: Cpu, m: BusState)
    ensures
        2 <= step_spec(c, m).cycles <= 11,
{
    reveal(step_spec);
    reveal(execute_spec);
    reveal(control_spec);
    lemma_base_cycles(m.peek(c.pc));
}

/// The cycles of a step: seven for an interrupt entry; otherwise the opcode's
/// documented cost, plus one when an indexed read that pays for it crosses a
/// page, plus one for a taken branch and one more when its target is on
/// another page.
pub proof fn lemma_step_cycles(c: Cpu, m: BusState)
    ensures
        step_spec(c, m).cycles == if m.trigger_nmi || (m.irq == 0 && !has_flag(c.p, FLAG_I)) {
            7
        } else {
            let ins = instr_of(m.peek(c.pc));
            let f = fetch_spec(Cpu { pc: inc16(c.pc), ..c }, m.after_read(c.pc), ins.mode);
            ins.cycles + (if ins.page_penalty && f.crossed {
                1int
            } else {
                0int
            }) + (if is_branch_op(ins.op) && branch_taken(c.p, ins.op) {
                if f.crossed {
                    2int
                } else {
                    1int
                }
            } else {
                0int
            })
        },
{
    reveal(step_spec);
    reveal(execute_spec);
    reveal(control_spec);
    let ins = instr_of(m.peek(c.pc));
    let c1 = Cpu { pc: inc16(c.pc), ..c };
    lemma_fetch_keeps_p(c1, m.after_read(c.pc), ins.mode);
}

proof fn lemma_fetch_keeps_p(c: Cpu, m: BusState, mode: Mode)
    ensures
        fetch_spec(c, m, mode).cpu.p == c.p,
{
    reveal(fetch_spec);
}

/// No CPU step sets the vertical-blank flag.
pub proof fn lemma_step_never_sets_vblank(c: Cpu, m: BusState)
    ensures
        step_spec(c, m).bus.vblank ==> m.vblank,
{
    assert forall|m2: BusState, a: u16| #[trigger] m2.after_read(a).vblank implies m2.vblank by {
        lemma_access_never_sets_vblank(m2, a, 0);
    }
    assert forall|m2: BusState, a: u16, v: u8| #[trigger] m2.after_write(a, v).vblank implies m2.vblank by {
        lemma_access_never_sets_vblank(m2, a, v);
    }
    reveal(step_spec);
    reveal(interrupt_spec);
    reveal(fetch_spec);
    reveal(execute_spec);
    reveal(control_spec);
}

/// Every copy of P that a step pushes has bit 5 set: an NMI or IRQ entry and
/// BRK leave it at 0x0100 + S - 2, PHP at 0x0100 + S.
pub proof fn lemma_step_pushes_status_with_bit5(c: Cpu, m: BusState)
    requires
        m.wf(),
    ensures
        (m.trigger_nmi || (m.irq == 0 && !has_flag(c.p, FLAG_I))) ==> step_spec(c, m).bus.ram[0x100
            + (c.s + 254) % 256] & FLAG_U != 0,
        (!m.trigger_nmi && !(m.irq == 0 && !has_flag(c.p, FLAG_I)) && instr_of(m.peek(c.pc)).op
            == Op::Brk) ==> step_spec(c, m).bus.ram[0x100 + (c.s + 254) % 256] & FLAG_U != 0,
        (!m.trigger_nmi && !(m.irq == 0 && !has_flag(c.p, FLAG_I)) && instr_of(m.peek(c.pc)).op
            == Op::Php) ==> step_spec(c, m).bus.ram[0x100 + c.s] & FLAG_U != 0,
{
    reveal(step_spec);
    lemma_pushed_status_bits(c.p, true);
    lemma_pushed_status_bits(c.p, false);
    if m.trigger_nmi {
        lemma_interrupt_pushes_status(c, BusState { trigger_nmi: false, ..m }, NMI_VECTOR);
    } else if m.irq == 0 && !has_flag(c.p, FLAG_I) {
        lemma_interrupt_pushes_status(c, m, IRQ_VECTOR);
    } else {
        let ins = instr_of(m.peek(c.pc));
        let c1 = Cpu { pc: inc16(c.pc), ..c };
        let m1 = m.after_read(c.pc);
        lemma_read_keeps_ram(m, c.pc);
        lemma_brk_and_php_opcodes(m.peek(c.pc));
        if ins.op == Op::Brk || ins.op == Op::Php {
            lemma_implied_fetch(c1, m1);
            reveal(execute_spec);
            lemma_control_pushes_status(c1, m1, ins.op, 0);
        }
    }
}

proof fn lemma_read_keeps_ram(m: BusState, addr: u16)
    ensures
        m.after_read(addr).ram == m.ram,
        m.wf() ==> m.after_read(addr).wf(),
{
    reveal(BusState::after_read);
}

proof fn lemma_implied_fetch(c: Cpu, m: BusState)
    ensures
        fetch_spec(c, m, Mode::Imp) == (Fetched { cpu: c, bus: m, addr: 0, crossed: false }),
{
    reveal(fetch_spec);
}

/// An interrupt entry leaves the pushed status at 0x0100 + S - 2.
proof fn lemma_interrupt_pushes_status(c: Cpu, m: BusState, vector: u16)
    requires
        m.wf(),
    ensures
        interrupt_spec(c, m, vector).1.ram[0x100 + (c.s + 254) % 256] == pushed_status(c.p, false),
{
    reveal(interrupt_spec);
    let (c1, m1) = push_spec(c, m, (c.pc / 256) as u8);
    lemma_push_stays_in_stack_page(c, m, (c.pc / 256) as u8);
    let (c2, m2) = push_spec(c1, m1, (c.pc % 256) as u8);
    lemma_push_stays_in_stack_page(c1, m1, (c.pc % 256) as u8);
    let (c3, m3) = push_spec(c2, m2, pushed_status(c.p, false));
    lemma_push_stays_in_stack_page(c2, m2, pushed_status(c.p, false));
    lemma_read_keeps_ram(m3, vector);
    lemma_read_keeps_ram(m3.after_read(vector), inc16(vector));
}

/// BRK leaves the pushed status at 0x0100 + S - 2, PHP at 0x0100 + S.
proof fn lemma_control_pushes_status(c: Cpu, m: BusState, op: Op, addr: u16)
    requires
        m.wf(),
    ensures
        op == Op::Brk ==> control_spec(c, m, op, addr).bus.ram[0x100 + (c.s + 254) % 256]
            == pushed_status(c.p, true),
        op == Op::Php ==> control_spec(c, m, op, addr).bus.ram[0x100 + c.s] == pushed_status(
            c.p,
            true,
        ),
{
    reveal(control_spec);
    if op == Op::Brk {
        let (c1, m1) = push_spec(c, m, (inc16(c.pc) / 256) as u8);
        lemma_push_stays_in_stack_page(c, m, (inc16(c.pc) / 256) as u8);
        let (c2, m2) = push_spec(c1, m1, (inc16(c.pc) % 256) as u8);
        lemma_push_stays_in_stack_page(c1, m1, (inc16(c.pc) % 256) as u8);
        let (c3, m3) = push_spec(c2, m2, pushed_status(c.p, true));
        lemma_push_stays_in_stack_page(c2, m2, pushed_status(c.p, true));
        lemma_read_keeps_ram(m3, IRQ_VECTOR);
        lemma_read_keeps_ram(m3.after_read(IRQ_VECTOR), inc16(IRQ_VECTOR));
    } else if op == Op::Php {
        lemma_push_stays_in_stack_page(c, m, pushed_status(c.p, true));
    }
}

proof fn lemma_brk_and_php_opcodes(opcode: u8)
    ensures
        instr_of(opcode).op == Op::Brk ==> instr_of(opcode).mode == Mode::Imp,
        instr_of(opcode).op == Op::Php ==> instr_of(opcode).mode == Mode::Imp,
{
    reveal(instr_of);
}

} // verus!
