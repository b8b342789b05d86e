//! The instruction decoder: one entry per opcode byte, giving the operation,
//! the addressing mode, the base cycle cost and whether crossing a page on
//! an indexed read costs one more cycle.
use vstd::prelude::*;

verus! {

/// The operations of the 6502, with the unofficial ones that NES programs use.
/// The documented multi-byte NOPs decode as `Nop` with their addressing mode
/// and cost. Opcodes with no behaviour here (the jams, and those whose effect
/// is unstable on the chip) decode as 2-cycle `Nop`s that still consume the
/// operand bytes of their addressing mode.
#[derive(Clone, Copy, Debug, PartialEq, Eq, Structural)]
pub enum Op {
    Adc,
    And,
    Asl,
    Bcc,
    Bcs,
    Beq,
    Bit,
    Bmi,
    Bne,
    Bpl,
    Brk,
    Bvc,
    Bvs,
    Clc,
    Cld,
    Cli,
    Clv,
    Cmp,
    Cpx,
    Cpy,
    /// Unofficial: DEC, then CMP.
    Dcp,
    Dec,
    Dex,
    Dey,
    Eor,
    Inc,
    Inx,
    Iny,
    /// Unofficial: INC, then SBC.
    Isc,
    Jmp,
    Jsr,
    /// Unofficial: LDA and LDX in one.
    Lax,
    Lda,
    Ldx,
    Ldy,
    Lsr,
    Nop,
    Ora,
    Pha,
    Php,
    Pla,
    Plp,
    /// Unofficial: ROL, then AND.
    Rla,
    Rol,
    Ror,
    /// Unofficial: ROR, then ADC.
    Rra,
    Rti,
    Rts,
    /// Unofficial: store A AND X.
    Sax,
    Sbc,
    Sec,
    Sed,
    Sei,
    /// Unofficial: ASL, then ORA.
    Slo,
    /// Unofficial: LSR, then EOR.
    Sre,
    Sta,
    Stx,
    Sty,
    Tax,
    Tay,
    Tsx,
    Txa,
    Txs,
    Tya,
}

/// Addressing modes.
#[derive(Clone, Copy, Debug, PartialEq, Eq, Structural)]
pub enum Mode {
    /// Implied: no operand.
    Imp,
    /// The accumulator.
    Acc,
    /// Immediate: the byte after the opcode.
    Imm,
    /// Zero page.
    Zp,
    /// Zero page indexed by X, wrapping within page zero.
    Zpx,
    /// Zero page indexed by Y, wrapping within page zero.
    Zpy,
    /// Absolute.
    Abs,
    /// Absolute indexed by X.
    Abx,
    /// Absolute indexed by Y.
    Aby,
    /// Indirect, for JMP only, with the page-wrap of the pointer's high byte.
    Ind,
    /// Indexed indirect: (zp,X).
    Izx,
    /// Indirect indexed: (zp),Y.
    Izy,
    /// Relative, for branches.
    Rel,
}

/// One decoded opcode.
#[derive(Clone, Copy, Debug, PartialEq, Eq, Structural)]
pub struct Instr {
    pub op: Op,
    pub mode: Mode,
    /// Cycles before any page-crossing or branch penalty.
    pub cycles: u8,
    /// Whether an indexed address that crosses a page adds one cycle.
    pub page_penalty: bool,
}

/// The documented decoding of each opcode byte.
#[verifier::opaque]
pub open spec fn instr_of(opcode: u8) -> Instr {
    match opcode {
        0x00 => Instr { op: Op::Brk, mode: Mode::Imp, cycles: 7, page_penalty: false },
        0x01 => Instr { op: Op::Ora, mode: Mode::Izx, cycles: 6, page_penalty: false },
        0x02 => Instr { op: Op::Nop, mode: Mode::Imp, cycles: 2, page_penalty: false },
        0x03 => Instr { op: Op::Slo, mode: Mode::Izx, cycles: 8, page_penalty: false },
        0x04 => Instr { op: Op::Nop, mode: Mode::Zp, cycles: 3, page_penalty: false },
        0x05 => Instr { op: Op::Ora, mode: Mode::Zp, cycles: 3, page_penalty: false },
        0x06 => Instr { op: Op::Asl, mode: Mode::Zp, cycles: 5, page_penalty: false },
        0x07 => Instr { op: Op::Slo, mode: Mode::Zp, cycles: 5, page_penalty: false },
        0x08 => Instr { op: Op::Php, mode: Mode::Imp, cycles: 3, page_penalty: false },
        0x09 => Instr { op: Op::Ora, mode: Mode::Imm, cycles: 2, page_penalty: false },
        0x0A => Instr { op: Op::Asl, mode: Mode::Acc, cycles: 2, page_penalty: false },
        0x0B => Instr { op: Op::Nop, mode: Mode::Imm, cycles: 2, page_penalty: false },
        0x0C => Instr { op: Op::Nop, mode: Mode::Abs, cycles: 4, page_penalty: false },
        0x0D => Instr { op: Op::Ora, mode: Mode::Abs, cycles: 4, page_penalty: false },
        0x0E => Instr { op: Op::Asl, mode: Mode::Abs, cycles: 6, page_penalty: false },
        0x0F => Instr { op: Op::Slo, mode: Mode::Abs, cycles: 6, page_penalty: false },
        0x10 => Instr { op: Op::Bpl, mode: Mode::Rel, cycles: 2, page_penalty: false },
        0x11 => Instr { op: Op::Ora, mode: Mode::Izy, cycles: 5, page_penalty: true },
        0x12 => Instr { op: Op::Nop, mode: Mode::Imp, cycles: 2, page_penalty: false },
        0x13 => Instr { op: Op::Slo, mode: Mode::Izy, cycles: 8, page_penalty: false },
        0x14 => Instr { op: Op::Nop, mode: Mode::Zpx, cycles: 4, page_penalty: false },
        0x15 => Instr { op: Op::Ora, mode: Mode::Zpx, cycles: 4, page_penalty: false },
        0x16 => Instr { op: Op::Asl, mode: Mode::Zpx, cycles: 6, page_penalty: false },
        0x17 => Instr { op: Op::Slo, mode: Mode::Zpx, cycles: 6, page_penalty: false },
        0x18 => Instr { op: Op::Clc, mode: Mode::Imp, cycles: 2, page_penalty: false },
        0x19 => Instr { op: Op::Ora, mode: Mode::Aby, cycles: 4, page_penalty: true },
        0x1A => Instr { op: Op::Nop, mode: Mode::Imp, cycles: 2, page_penalty: false },
        0x1B => Instr { op: Op::Slo, mode: Mode::Aby, cycles: 7, page_penalty: false },
        0x1C => Instr { op: Op::Nop, mode: Mode::Abx, cycles: 4, page_penalty: true },
        0x1D => Instr { op: Op::Ora, mode: Mode::Abx, cycles: 4, page_penalty: true },
        0x1E => Instr { op: Op::Asl, mode: Mode::Abx, cycles: 7, page_penalty: false },
        0x1F => Instr { op: Op::Slo, mode: Mode::Abx, cycles: 7, page_penalty: false },
        0x20 => Instr { op: Op::Jsr, mode: Mode::Abs, cycles: 6, page_penalty: false },
        0x21 => Instr { op: Op::And, mode: Mode::Izx, cycles: 6, page_penalty: false },
        0x22 => Instr { op: Op::Nop, mode: Mode::Imp, cycles: 2, page_penalty: false },
        0x23 => Instr { op: Op::Rla, mode: Mode::Izx, cycles: 8, page_penalty: false },
        0x24 => Instr { op: Op::Bit, mode: Mode::Zp, cycles: 3, page_penalty: false },
        0x25 => Instr { op: Op::And, mode: Mode::Zp, cycles: 3, page_penalty: false },
        0x26 => Instr { op: Op::Rol, mode: Mode::Zp, cycles: 5, page_penalty: false },
        0x27 => Instr { op: Op::Rla, mode: Mode::Zp, cycles: 5, page_penalty: false },
        0x28 => Instr { op: Op::Plp, mode: Mode::Imp, cycles: 4, page_penalty: false },
        0x29 => Instr { op: Op::And, mode: Mode::Imm, cycles: 2, page_penalty: false },
        0x2A => Instr { op: Op::Rol, mode: Mode::Acc, cycles: 2, page_penalty: false },
        0x2B => Instr { op: Op::Nop, mode: Mode::Imm, cycles: 2, page_penalty: false },
        0x2C => Instr { op: Op::Bit, mode: Mode::Abs, cycles: 4, page_penalty: false },
        0x2D => Instr { op: Op::And, mode: Mode::Abs, cycles: 4, page_penalty: false },
        0x2E => Instr { op: Op::Rol, mode: Mode::Abs, cycles: 6, page_penalty: false },
        0x2F => Instr { op: Op::Rla, mode: Mode::Abs, cycles: 6, page_penalty: false },
        0x30 => Instr { op: Op::Bmi, mode: Mode::Rel, cycles: 2, page_penalty: false },
        0x31 => Instr { op: Op::And, mode: Mode::Izy, cycles: 5, page_penalty: true },
        0x32 => Instr { op: Op::Nop, mode: Mode::Imp, cycles: 2, page_penalty: false },
        0x33 => Instr { op: Op::Rla, mode: Mode::Izy, cycles: 8, page_penalty: false },
        0x34 => Instr { op: Op::Nop, mode: Mode::Zpx, cycles: 4, page_penalty: false },
        0x35 => Instr { op: Op::And, mode: Mode::Zpx, cycles: 4, page_penalty: false },
        0x36 => Instr { op: Op::Rol, mode: Mode::Zpx, cycles: 6, page_penalty: false },
        0x37 => Instr { op: Op::Rla, mode: Mode::Zpx, cycles: 6, page_penalty: false },
        0x38 => Instr { op: Op::Sec, mode: Mode::Imp, cycles: 2, page_penalty: false },
        0x39 => Instr { op: Op::And, mode: Mode::Aby, cycles: 4, page_penalty: true },
        0x3A => Instr { op: Op::Nop, mode: Mode::Imp, cycles: 2, page_penalty: false },
        0x3B => Instr { op: Op::Rla, mode: Mode::Aby, cycles: 7, page_penalty: false },
        0x3C => Instr { op: Op::Nop, mode: Mode::Abx, cycles: 4, page_penalty: true },
        0x3D => Instr { op: Op::And, mode: Mode::Abx, cycles: 4, page_penalty: true },
        0x3E => Instr { op: Op::Rol, mode: Mode::Abx, cycles: 7, page_penalty: false },
        0x3F => Instr { op: Op::Rla, mode: Mode::Abx, cycles: 7, page_penalty: false },
        0x40 => Instr { op: Op::Rti, mode: Mode::Imp, cycles: 6, page_penalty: false },
        0x41 => Instr { op: Op::Eor, mode: Mode::Izx, cycles: 6, page_penalty: false },
        0x42 => Instr { op: Op::Nop, mode: Mode::Imp, cycles: 2, page_penalty: false },
        0x43 => Instr { op: Op::Sre, mode: Mode::Izx, cycles: 8, page_penalty: false },
        0x44 => Instr { op: Op::Nop, mode: Mode::Zp, cycles: 3, page_penalty: false },
        0x45 => Instr { op: Op::Eor, mode: Mode::Zp, cycles: 3, page_penalty: false },
        0x46 => Instr { op: Op::Lsr, mode: Mode::Zp, cycles: 5, page_penalty: false },
        0x47 => Instr { op: Op::Sre, mode: Mode::Zp, cycles: 5, page_penalty: false },
        0x48 => Instr { op: Op::Pha, mode: Mode::Imp, cycles: 3, page_penalty: false },
        0x49 => Instr { op: Op::Eor, mode: Mode::Imm, cycles: 2, page_penalty: false },
        0x4A => Instr { op: Op::Lsr, mode: Mode::Acc, cycles: 2, page_penalty: false },
        0x4B => Instr { op: Op::Nop, mode: Mode::Imm, cycles: 2, page_penalty: false },
        0x4C => Instr { op: Op::Jmp, mode: Mode::Abs, cycles: 3, page_penalty: false },
        0x4D => Instr { op: Op::Eor, mode: Mode::Abs, cycles: 4, page_penalty: false },
        0x4E => Instr { op: Op::Lsr, mode: Mode::Abs, cycles: 6, page_penalty: false },
        0x4F => Instr { op: Op::Sre, mode: Mode::Abs, cycles: 6, page_penalty: false },
        0x50 => Instr { op: Op::Bvc, mode: Mode::Rel, cycles: 2, page_penalty: false },
        0x51 => Instr { op: Op::Eor, mode: Mode::Izy, cycles: 5, page_penalty: true },
        0x52 => Instr { op: Op::Nop, mode: Mode::Imp, cycles: 2, page_penalty: false },
        0x53 => Instr { op: Op::Sre, mode: Mode::Izy, cycles: 8, page_penalty: false },
        0x54 => Instr { op: Op::Nop, mode: Mode::Zpx, cycles: 4, page_penalty: false },
        0x55 => Instr { op: Op::Eor, mode: Mode::Zpx, cycles: 4, page_penalty: false },
        0x56 => Instr { op: Op::Lsr, mode: Mode::Zpx, cycles: 6, page_penalty: false },
        0x57 => Instr { op: Op::Sre, mode: Mode::Zpx, cycles: 6, page_penalty: false },
        0x58 => Instr { op: Op::Cli, mode: Mode::Imp, cycles: 2, page_penalty: false },
        0x59 => Instr { op: Op::Eor, mode: Mode::Aby, cycles: 4, page_penalty: true },
        0x5A => Instr { op: Op::Nop, mode: Mode::Imp, cycles: 2, page_penalty: false },
        0x5B => Instr { op: Op::Sre, mode: Mode::Aby, cycles: 7, page_penalty: false },
        0x5C => Instr { op: Op::Nop, mode: Mode::Abx, cycles: 4, page_penalty: true },
        0x5D => Instr { op: Op::Eor, mode: Mode::Abx, cycles: 4, page_penalty: true },
        0x5E => Instr { op: Op::Lsr, mode: Mode::Abx, cycles: 7, page_penalty: false },
        0x5F => Instr { op: Op::Sre, mode: Mode::Abx, cycles: 7, page_penalty: false },
        0x60 => Instr { op: Op::Rts, mode: Mode::Imp, cycles: 6, page_penalty: false },
        0x61 => Instr { op: Op::Adc, mode: Mode::Izx, cycles: 6, page_penalty: false },
        0x62 => Instr { op: Op::Nop, mode: Mode::Imp, cycles: 2, page_penalty: false },
        0x63 => Instr { op: Op::Rra, mode: Mode::Izx, cycles: 8, page_penalty: false },
        0x64 => Instr { op: Op::Nop, mode: Mode::Zp, cycles: 3, page_penalty: false },
        0x65 => Instr { op: Op::Adc, mode: Mode::Zp, cycles: 3, page_penalty: false },
        0x66 => Instr { op: Op::Ror, mode: Mode::Zp, cycles: 5, page_penalty: false },
        0x67 => Instr { op: Op::Rra, mode: Mode::Zp, cycles: 5, page_penalty: false },
        0x68 => Instr { op: Op::Pla, mode: Mode::Imp, cycles: 4, page_penalty: false },
        0x69 => Instr { op: Op::Adc, mode: Mode::Imm, cycles: 2, page_penalty: false },
        0x6A => Instr { op: Op::Ror, mode: Mode::Acc, cycles: 2, page_penalty: false },
        0x6B => Instr { op: Op::Nop, mode: Mode::Imm, cycles: 2, page_penalty: false },
        0x6C => Instr { op: Op::Jmp, mode: Mode::Ind, cycles: 5, page_penalty: false },
        0x6D => Instr { op: Op::Adc, mode: Mode::Abs, cycles: 4, page_penalty: false },
        0x6E => Instr { op: Op::Ror, mode: Mode::Abs, cycles: 6, page_penalty: false },
        0x6F => Instr { op: Op::Rra, mode: Mode::Abs, cycles: 6, page_penalty: false },
        0x70 => Instr { op: Op::Bvs, mode: Mode::Rel, cycles: 2, page_penalty: false },
        0x71 => Instr { op: Op::Adc, mode: Mode::Izy, cycles: 5, page_penalty: true },
        0x72 => Instr { op: Op::Nop, mode: Mode::Imp, cycles: 2, page_penalty: false },
        0x73 => Instr { op: Op::Rra, mode: Mode::Izy, cycles: 8, page_penalty: false },
        0x74 => Instr { op: Op::Nop, mode: Mode::Zpx, cycles: 4, page_penalty: false },
        0x75 => Instr { op: Op::Adc, mode: Mode::Zpx, cycles: 4, page_penalty: false },
        0x76 => Instr { op: Op::Ror, mode: Mode::Zpx, cycles: 6, page_penalty: false },
        0x77 => Instr { op: Op::Rra, mode: Mode::Zpx, cycles: 6, page_penalty: false },
        0x78 => Instr { op: Op::Sei, mode: Mode::Imp, cycles: 2, page_penalty: false },
        0x79 => Instr { op: Op::Adc, mode: Mode::Aby, cycles: 4, page_penalty: true },
        0x7A => Instr { op: Op::Nop, mode: Mode::Imp, cycles: 2, page_penalty: false },
        0x7B => Instr { op: Op::Rra, mode: Mode::Aby, cycles: 7, page_penalty: false },
        0x7C => Instr { op: Op::Nop, mode: Mode::Abx, cycles: 4, page_penalty: true },
        0x7D => Instr { op: Op::Adc, mode: Mode::Abx, cycles: 4, page_penalty: true },
        0x7E => Instr { op: Op::Ror, mode: Mode::Abx, cycles: 7, page_penalty: false },
        0x7F => Instr { op: Op::Rra, mode: Mode::Abx, cycles: 7, page_penalty: false },
        0x80 => Instr { op: Op::Nop, mode: Mode::Imm, cycles: 2, page_penalty: false },
        0x81 => Instr { op: Op::Sta, mode: Mode::Izx, cycles: 6, page_penalty: false },
        0x82 => Instr { op: Op::Nop, mode: Mode::Imm, cycles: 2, page_penalty: false },
        0x83 => Instr { op: Op::Sax, mode: Mode::Izx, cycles: 6, page_penalty: false },
        0x84 => Instr { op: Op::Sty, mode: Mode::Zp, cycles: 3, page_penalty: false },
        0x85 => Instr { op: Op::Sta, mode: Mode::Zp, cycles: 3, page_penalty: false },
        0x86 => Instr { op: Op::Stx, mode: Mode::Zp, cycles: 3, page_penalty: false },
        0x87 => Instr { op: Op::Sax, mode: Mode::Zp, cycles: 3, page_penalty: false },
        0x88 => Instr { op: Op::Dey, mode: Mode::Imp, cycles: 2, page_penalty: false },
        0x89 => Instr { op: Op::Nop, mode: Mode::Imm, cycles: 2, page_penalty: false },
        0x8A => Instr { op: Op::Txa, mode: Mode::Imp, cycles: 2, page_penalty: false },
        0x8B => Instr { op: Op::Nop, mode: Mode::Imm, cycles: 2, page_penalty: false },
        0x8C => Instr { op: Op::Sty, mode: Mode::Abs, cycles: 4, page_penalty: false },
        0x8D => Instr { op: Op::Sta, mode: Mode::Abs, cycles: 4, page_penalty: false },
        0x8E => Instr { op: Op::Stx, mode: Mode::Abs, cycles: 4, page_penalty: false },
        0x8F => Instr { op: Op::Sax, mode: Mode::Abs, cycles: 4, page_penalty: false },
        0x90 => Instr { op: Op::Bcc, mode: Mode::Rel, cycles: 2, page_penalty: false },
        0x91 => Instr { op: Op::Sta, mode: Mode::Izy, cycles: 6, page_penalty: false },
        0x92 => Instr { op: Op::Nop, mode: Mode::Imp, cycles: 2, page_penalty: false },
        0x93 => Instr { op: Op::Nop, mode: Mode::Izy, cycles: 2, page_penalty: false },
        0x94 => Instr { op: Op::Sty, mode: Mode::Zpx, cycles: 4, page_penalty: false },
        0x95 => Instr { op: Op::Sta, mode: Mode::Zpx, cycles: 4, page_penalty: false },
        0x96 => Instr { op: Op::Stx, mode: Mode::Zpy, cycles: 4, page_penalty: false },
        0x97 => Instr { op: Op::Sax, mode: Mode::Zpy, cycles: 4, page_penalty: false },
        0x98 => Instr { op: Op::Tya, mode: Mode::Imp, cycles: 2, page_penalty: false },
        0x99 => Instr { op: Op::Sta, mode: Mode::Aby, cycles: 5, page_penalty: false },
        0x9A => Instr { op: Op::Txs, mode: Mode::Imp, cycles: 2, page_penalty: false },
        0x9B => Instr { op: Op::Nop, mode: Mode::Aby, cycles: 2, page_penalty: false },
        0x9C => Instr { op: Op::Nop, mode: Mode::Abx, cycles: 2, page_penalty: false },
        0x9D => Instr { op: Op::Sta, mode: Mode::Abx, cycles: 5, page_penalty: false },
        0x9E => Instr { op: Op::Nop, mode: Mode::Aby, cycles: 2, page_penalty: false },
        0x9F => Instr { op: Op::Nop, mode: Mode::Aby, cycles: 2, page_penalty: false },
        0xA0 => Instr { op: Op::Ldy, mode: Mode::Imm, cycles: 2, page_penalty: false },
        0xA1 => Instr { op: Op::Lda, mode: Mode::Izx, cycles: 6, page_penalty: false },
        0xA2 => Instr { op: Op::Ldx, mode: Mode::Imm, cycles: 2, page_penalty: false },
        0xA3 => Instr { op: Op::Lax, mode: Mode::Izx, cycles: 6, page_penalty: false },
        0xA4 => Instr { op: Op::Ldy, mode: Mode::Zp, cycles: 3, page_penalty: false },
        0xA5 => Instr { op: Op::Lda, mode: Mode::Zp, cycles: 3, page_penalty: false },
        0xA6 => Instr { op: Op::Ldx, mode: Mode::Zp, cycles: 3, page_penalty: false },
        0xA7 => Instr { op: Op::Lax, mode: Mode::Zp, cycles: 3, page_penalty: false },
        0xA8 => Instr { op: Op::Tay, mode: Mode::Imp, cycles: 2, page_penalty: false },
        0xA9 => Instr { op: Op::Lda, mode: Mode::Imm, cycles: 2, page_penalty: false },
        0xAA => Instr { op: Op::Tax, mode: Mode::Imp, cycles: 2, page_penalty: false },
        0xAB => Instr { op: Op::Nop, mode: Mode::Imm, cycles: 2, page_penalty: false },
        0xAC => Instr { op: Op::Ldy, mode: Mode::Abs, cycles: 4, page_penalty: false },
        0xAD => Instr { op: Op::Lda, mode: Mode::Abs, cycles: 4, page_penalty: false },
        0xAE => Instr { op: Op::Ldx, mode: Mode::Abs, cycles: 4, page_penalty: false },
        0xAF => Instr { op: Op::Lax, mode: Mode::Abs, cycles: 4, page_penalty: false },
        0xB0 => Instr { op: Op::Bcs, mode: Mode::Rel, cycles: 2, page_penalty: false },
        0xB1 => Instr { op: Op::Lda, mode: Mode::Izy, cycles: 5, page_penalty: true },
        0xB2 => Instr { op: Op::Nop, mode: Mode::Imp, cycles: 2, page_penalty: false },
        0xB3 => Instr { op: Op::Lax, mode: Mode::Izy, cycles: 5, page_penalty: true },
        0xB4 => Instr { op: Op::Ldy, mode: Mode::Zpx, cycles: 4, page_penalty: false },
        0xB5 => Instr { op: Op::Lda, mode: Mode::Zpx, cycles: 4, page_penalty: false },
        0xB6 => Instr { op: Op::Ldx, mode: Mode::Zpy, cycles: 4, page_penalty: false },
        0xB7 => Instr { op: Op::Lax, mode: Mode::Zpy, cycles: 4, page_penalty: false },
        0xB8 => Instr { op: Op::Clv, mode: Mode::Imp, cycles: 2, page_penalty: false },
        0xB9 => Instr { op: Op::Lda, mode: Mode::Aby, cycles: 4, page_penalty: true },
        0xBA => Instr { op: Op::Tsx, mode: Mode::Imp, cycles: 2, page_penalty: false },
        0xBB => Instr { op: Op::Nop, mode: Mode::Aby, cycles: 2, page_penalty: false },
        0xBC => Instr { op: Op::Ldy, mode: Mode::Abx, cycles: 4, page_penalty: true },
        0xBD => Instr { op: Op::Lda, mode: Mode::Abx, cycles: 4, page_penalty: true },
        0xBE => Instr { op: Op::Ldx, mode: Mode::Aby, cycles: 4, page_penalty: true },
        0xBF => Instr { op: Op::Lax, mode: Mode::Aby, cycles: 4, page_penalty: true },
        0xC0 => Instr { op: Op::Cpy, mode: Mode::Imm, cycles: 2, page_penalty: false },
        0xC1 => Instr { op: Op::Cmp, mode: Mode::Izx, cycles: 6, page_penalty: false },
        0xC2 => Instr { op: Op::Nop, mode: Mode::Imm, cycles: 2, page_penalty: false },
        0xC3 => Instr { op: Op::Dcp, mode: Mode::Izx, cycles: 8, page_penalty: false },
        0xC4 => Instr { op: Op::Cpy, mode: Mode::Zp, cycles: 3, page_penalty: false },
        0xC5 => Instr { op: Op::Cmp, mode: Mode::Zp, cycles: 3, page_penalty: false },
        0xC6 => Instr { op: Op::Dec, mode: Mode::Zp, cycles: 5, page_penalty: false },
        0xC7 => Instr { op: Op::Dcp, mode: Mode::Zp, cycles: 5, page_penalty: false },
        0xC8 => Instr { op: Op::Iny, mode: Mode::Imp, cycles: 2, page_penalty: false },
        0xC9 => Instr { op: Op::Cmp, mode: Mode::Imm, cycles: 2, page_penalty: false },
        0xCA => Instr { op: Op::Dex, mode: Mode::Imp, cycles: 2, page_penalty: false },
        0xCB => Instr { op: Op::Nop, mode: Mode::Imm, cycles: 2, page_penalty: false },
        0xCC => Instr { op: Op::Cpy, mode: Mode::Abs, cycles: 4, page_penalty: false },
        0xCD => Instr { op: Op::Cmp, mode: Mode::Abs, cycles: 4, page_penalty: false },
        0xCE => Instr { op: Op::Dec, mode: Mode::Abs, cycles: 6, page_penalty: false },
        0xCF => Instr { op: Op::Dcp, mode: Mode::Abs, cycles: 6, page_penalty: false },
        0xD0 => Instr { op: Op::Bne, mode: Mode::Rel, cycles: 2, page_penalty: false },
        0xD1 => Instr { op: Op::Cmp, mode: Mode::Izy, cycles: 5, page_penalty: true },
        0xD2 => Instr { op: Op::Nop, mode: Mode::Imp, cycles: 2, page_penalty: false },
        0xD3 => Instr { op: Op::Dcp, mode: Mode::Izy, cycles: 8, page_penalty: false },
        0xD4 => Instr { op: Op::Nop, mode: Mode::Zpx, cycles: 4, page_penalty: false },
        0xD5 => Instr { op: Op::Cmp, mode: Mode::Zpx, cycles: 4, page_penalty: false },
        0xD6 => Instr { op: Op::Dec, mode: Mode::Zpx, cycles: 6, page_penalty: false },
        0xD7 => Instr { op: Op::Dcp, mode: Mode::Zpx, cycles: 6, page_penalty: false },
        0xD8 => Instr { op: Op::Cld, mode: Mode::Imp, cycles: 2, page_penalty: false },
        0xD9 => Instr { op: Op::Cmp, mode: Mode::Aby, cycles: 4, page_penalty: true },
        0xDA => Instr { op: Op::Nop, mode: Mode::Imp, cycles: 2, page_penalty: false },
        0xDB => Instr { op: Op::Dcp, mode: Mode::Aby, cycles: 7, page_penalty: false },
        0xDC => Instr { op: Op::Nop, mode: Mode::Abx, cycles: 4, page_penalty: true },
        0xDD => Instr { op: Op::Cmp, mode: Mode::Abx, cycles: 4, page_penalty: true },
        0xDE => Instr { op: Op::Dec, mode: Mode::Abx, cycles: 7, page_penalty: false },
        0xDF => Instr { op: Op::Dcp, mode: Mode::Abx, cycles: 7, page_penalty: false },
        0xE0 => Instr { op: Op::Cpx, mode: Mode::Imm, cycles: 2, page_penalty: false },
        0xE1 => Instr { op: Op::Sbc, mode: Mode::Izx, cycles: 6, page_penalty: false },
        0xE2 => Instr { op: Op::Nop, mode: Mode::Imm, cycles: 2, page_penalty: false },
        0xE3 => Instr { op: Op::Isc, mode: Mode::Izx, cycles: 8, page_penalty: false },
        0xE4 => Instr { op: Op::Cpx, mode: Mode::Zp, cycles: 3, page_penalty: false },
        0xE5 => Instr { op: Op::Sbc, mode: Mode::Zp, cycles: 3, page_penalty: false },
        0xE6 => Instr { op: Op::Inc, mode: Mode::Zp, cycles: 5, page_penalty: false },
        0xE7 => Instr { op: Op::Isc, mode: Mode::Zp, cycles: 5, page_penalty: false },
        0xE8 => Instr { op: Op::Inx, mode: Mode::Imp, cycles: 2, page_penalty: false },
        0xE9 => Instr { op: Op::Sbc, mode: Mode::Imm, cycles: 2, page_penalty: false },
        0xEA => Instr { op: Op::Nop, mode: Mode::Imp, cycles: 2, page_penalty: false },
        0xEB => Instr { op: Op::Sbc, mode: Mode::Imm, cycles: 2, page_penalty: false },
        0xEC => Instr { op: Op::Cpx, mode: Mode::Abs, cycles: 4, page_penalty: false },
        0xED => Instr { op: Op::Sbc, mode: Mode::Abs, cycles: 4, page_penalty: false },
        0xEE => Instr { op: Op::Inc, mode: Mode::Abs, cycles: 6, page_penalty: false },
        0xEF => Instr { op: Op::Isc, mode: Mode::Abs, cycles: 6, page_penalty: false },
        0xF0 => Instr { op: Op::Beq, mode: Mode::Rel, cycles: 2, page_penalty: false },
        0xF1 => Instr { op: Op::Sbc, mode: Mode::Izy, cycles: 5, page_penalty: true },
        0xF2 => Instr { op: Op::Nop, mode: Mode::Imp, cycles: 2, page_penalty: false },
        0xF3 => Instr { op: Op::Isc, mode: Mode::Izy, cycles: 8, page_penalty: false },
        0xF4 => Instr { op: Op::Nop, mode: Mode::Zpx, cycles: 4, page_penalty: false },
        0xF5 => Instr { op: Op::Sbc, mode: Mode::Zpx, cycles: 4, page_penalty: false },
        0xF6 => Instr { op: Op::Inc, mode: Mode::Zpx, cycles: 6, page_penalty: false },
        0xF7 => Instr { op: Op::Isc, mode: Mode::Zpx, cycles: 6, page_penalty: false },
        0xF8 => Instr { op: Op::Sed, mode: Mode::Imp, cycles: 2, page_penalty: false },
        0xF9 => Instr { op: Op::Sbc, mode: Mode::Aby, cycles: 4, page_penalty: true },
        0xFA => Instr { op: Op::Nop, mode: Mode::Imp, cycles: 2, page_penalty: false },
        0xFB => Instr { op: Op::Isc, mode: Mode::Aby, cycles: 7, page_penalty: false },
        0xFC => Instr { op: Op::Nop, mode: Mode::Abx, cycles: 4, page_penalty: true },
        0xFD => Instr { op: Op::Sbc, mode: Mode::Abx, cycles: 4, page_penalty: true },
        0xFE => Instr { op: Op::Inc, mode: Mode::Abx, cycles: 7, page_penalty: false },
        0xFF => Instr { op: Op::Isc, mode: Mode::Abx, cycles: 7, page_penalty: false },
    }
}

/// Decodes one opcode byte.
pub fn decode(opcode: u8) -> (r: Instr)
    ensures
        r == instr_of(opcode),
{
    reveal(instr_of);
    match opcode {
        0x00 => Instr { op: Op::Brk, mode: Mode::Imp, cycles: 7, page_penalty: false },
        0x01 => Instr { op: Op::Ora, mode: Mode::Izx, cycles: 6, page_penalty: false },
        0x02 => Instr { op: Op::Nop, mode: Mode::Imp, cycles: 2, page_penalty: false },
        0x03 => Instr { op: Op::Slo, mode: Mode::Izx, cycles: 8, page_penalty: false },
        0x04 => Instr { op: Op::Nop, mode: Mode::Zp, cycles: 3, page_penalty: false },
        0x05 => Instr { op: Op::Ora, mode: Mode::Zp, cycles: 3, page_penalty: false },
        0x06 => Instr { op: Op::Asl, mode: Mode::Zp, cycles: 5, page_penalty: false },
        0x07 => Instr { op: Op::Slo, mode: Mode::Zp, cycles: 5, page_penalty: false },
        0x08 => Instr { op: Op::Php, mode: Mode::Imp, cycles: 3, page_penalty: false },
        0x09 => Instr { op: Op::Ora, mode: Mode::Imm, cycles: 2, page_penalty: false },
        0x0A => Instr { op: Op::Asl, mode: Mode::Acc, cycles: 2, page_penalty: false },
        0x0B => Instr { op: Op::Nop, mode: Mode::Imm, cycles: 2, page_penalty: false },
        0x0C => Instr { op: Op::Nop, mode: Mode::Abs, cycles: 4, page_penalty: false },
        0x0D => Instr { op: Op::Ora, mode: Mode::Abs, cycles: 4, page_penalty: false },
        0x0E => Instr { op: Op::Asl, mode: Mode::Abs, cycles: 6, page_penalty: false },
        0x0F => Instr { op: Op::Slo, mode: Mode::Abs, cycles: 6, page_penalty: false },
        0x10 => Instr { op: Op::Bpl, mode: Mode::Rel, cycles: 2, page_penalty: false },
        0x11 => Instr { op: Op::Ora, mode: Mode::Izy, cycles: 5, page_penalty: true },
        0x12 => Instr { op: Op::Nop, mode: Mode::Imp, cycles: 2, page_penalty: false },
        0x13 => Instr { op: Op::Slo, mode: Mode::Izy, cycles: 8, page_penalty: false },
        0x14 => Instr { op: Op::Nop, mode: Mode::Zpx, cycles: 4, page_penalty: false },
        0x15 => Instr { op: Op::Ora, mode: Mode::Zpx, cycles: 4, page_penalty: false },
        0x16 => Instr { op: Op::Asl, mode: Mode::Zpx, cycles: 6, page_penalty: false },
        0x17 => Instr { op: Op::Slo, mode: Mode::Zpx, cycles: 6, page_penalty: false },
        0x18 => Instr { op: Op::Clc, mode: Mode::Imp, cycles: 2, page_penalty: false },
        0x19 => Instr { op: Op::Ora, mode: Mode::Aby, cycles: 4, page_penalty: true },
        0x1A => Instr { op: Op::Nop, mode: Mode::Imp, cycles: 2, page_penalty: false },
        0x1B => Instr { op: Op::Slo, mode: Mode::Aby, cycles: 7, page_penalty: false },
        0x1C => Instr { op: Op::Nop, mode: Mode::Abx, cycles: 4, page_penalty: true },
        0x1D => Instr { op: Op::Ora, mode: Mode::Abx, cycles: 4, page_penalty: true },
        0x1E => Instr { op: Op::Asl, mode: Mode::Abx, cycles: 7, page_penalty: false },
        0x1F => Instr { op: Op::Slo, mode: Mode::Abx, cycles: 7, page_penalty: false },
        0x20 => Instr { op: Op::Jsr, mode: Mode::Abs, cycles: 6, page_penalty: false },
        0x21 => Instr { op: Op::And, mode: Mode::Izx, cycles: 6, page_penalty: false },
        0x22 => Instr { op: Op::Nop, mode: Mode::Imp, cycles: 2, page_penalty: false },
        0x23 => Instr { op: Op::Rla, mode: Mode::Izx, cycles: 8, page_penalty: false },
        0x24 => Instr { op: Op::Bit, mode: Mode::Zp, cycles: 3, page_penalty: false },
        0x25 => Instr { op: Op::And, mode: Mode::Zp, cycles: 3, page_penalty: false },
        0x26 => Instr { op: Op::Rol, mode: Mode::Zp, cycles: 5, page_penalty: false },
        0x27 => Instr { op: Op::Rla, mode: Mode::Zp, cycles: 5, page_penalty: false },
        0x28 => Instr { op: Op::Plp, mode: Mode::Imp, cycles: 4, page_penalty: false },
        0x29 => Instr { op: Op::And, mode: Mode::Imm, cycles: 2, page_penalty: false },
        0x2A => Instr { op: Op::Rol, mode: Mode::Acc, cycles: 2, page_penalty: false },
        0x2B => Instr { op: Op::Nop, mode: Mode::Imm, cycles: 2, page_penalty: false },
        0x2C => Instr { op: Op::Bit, mode: Mode::Abs, cycles: 4, page_penalty: false },
        0x2D => Instr { op: Op::And, mode: Mode::Abs, cycles: 4, page_penalty: false },
        0x2E => Instr { op: Op::Rol, mode: Mode::Abs, cycles: 6, page_penalty: false },
        0x2F => Instr { op: Op::Rla, mode: Mode::Abs, cycles: 6, page_penalty: false },
        0x30 => Instr { op: Op::Bmi, mode: Mode::Rel, cycles: 2, page_penalty: false },
        0x31 => Instr { op: Op::And, mode: Mode::Izy, cycles: 5, page_penalty: true },
        0x32 => Instr { op: Op::Nop, mode: Mode::Imp, cycles: 2, page_penalty: false },
        0x33 => Instr { op: Op::Rla, mode: Mode::Izy, cycles: 8, page_penalty: false },
        0x34 => Instr { op: Op::Nop, mode: Mode::Zpx, cycles: 4, page_penalty: false },
        0x35 => Instr { op: Op::And, mode: Mode::Zpx, cycles: 4, page_penalty: false },
        0x36 => Instr { op: Op::Rol, mode: Mode::Zpx, cycles: 6, page_penalty: false },
        0x37 => Instr { op: Op::Rla, mode: Mode::Zpx, cycles: 6, page_penalty: false },
        0x38 => Instr { op: Op::Sec, mode: Mode::Imp, cycles: 2, page_penalty: false },
        0x39 => Instr { op: Op::And, mode: Mode::Aby, cycles: 4, page_penalty: true },
        0x3A => Instr { op: Op::Nop, mode: Mode::Imp, cycles: 2, page_penalty: false },
        0x3B => Instr { op: Op::Rla, mode: Mode::Aby, cycles: 7, page_penalty: false },
        0x3C => Instr { op: Op::Nop, mode: Mode::Abx, cycles: 4, page_penalty: true },
        0x3D => Instr { op: Op::And, mode: Mode::Abx, cycles: 4, page_penalty: true },
        0x3E => Instr { op: Op::Rol, mode: Mode::Abx, cycles: 7, page_penalty: false },
        0x3F => Instr { op: Op::Rla, mode: Mode::Abx, cycles: 7, page_penalty: false },
        0x40 => Instr { op: Op::Rti, mode: Mode::Imp, cycles: 6, page_penalty: false },
        0x41 => Instr { op: Op::Eor, mode: Mode::Izx, cycles: 6, page_penalty: false },
        0x42 => Instr { op: Op::Nop, mode: Mode::Imp, cycles: 2, page_penalty: false },
        0x43 => Instr { op: Op::Sre, mode: Mode::Izx, cycles: 8, page_penalty: false },
        0x44 => Instr { op: Op::Nop, mode: Mode::Zp, cycles: 3, page_penalty: false },
        0x45 => Instr { op: Op::Eor, mode: Mode::Zp, cycles: 3, page_penalty: false },
        0x46 => Instr { op: Op::Lsr, mode: Mode::Zp, cycles: 5, page_penalty: false },
        0x47 => Instr { op: Op::Sre, mode: Mode::Zp, cycles: 5, page_penalty: false },
        0x48 => Instr { op: Op::Pha, mode: Mode::Imp, cycles: 3, page_penalty: false },
        0x49 => Instr { op: Op::Eor, mode: Mode::Imm, cycles: 2, page_penalty: false },
        0x4A => Instr { op: Op::Lsr, mode: Mode::Acc, cycles: 2, page_penalty: false },
        0x4B => Instr { op: Op::Nop, mode: Mode::Imm, cycles: 2, page_penalty: false },
        0x4C => Instr { op: Op::Jmp, mode: Mode::Abs, cycles: 3, page_penalty: false },
        0x4D => Instr { op: Op::Eor, mode: Mode::Abs, cycles: 4, page_penalty: false },
        0x4E => Instr { op: Op::Lsr, mode: Mode::Abs, cycles: 6, page_penalty: false },
        0x4F => Instr { op: Op::Sre, mode: Mode::Abs, cycles: 6, page_penalty: false },
        0x50 => Instr { op: Op::Bvc, mode: Mode::Rel, cycles: 2, page_penalty: false },
        0x51 => Instr { op: Op::Eor, mode: Mode::Izy, cycles: 5, page_penalty: true },
        0x52 => Instr { op: Op::Nop, mode: Mode::Imp, cycles: 2, page_penalty: false },
        0x53 => Instr { op: Op::Sre, mode: Mode::Izy, cycles: 8, page_penalty: false },
        0x54 => Instr { op: Op::Nop, mode: Mode::Zpx, cycles: 4, page_penalty: false },
        0x55 => Instr { op: Op::Eor, mode: Mode::Zpx, cycles: 4, page_penalty: false },
        0x56 => Instr { op: Op::Lsr, mode: Mode::Zpx, cycles: 6, page_penalty: false },
        0x57 => Instr { op: Op::Sre, mode: Mode::Zpx, cycles: 6, page_penalty: false },
        0x58 => Instr { op: Op::Cli, mode: Mode::Imp, cycles: 2, page_penalty: false },
        0x59 => Instr { op: Op::Eor, mode: Mode::Aby, cycles: 4, page_penalty: true },
        0x5A => Instr { op: Op::Nop, mode: Mode::Imp, cycles: 2, page_penalty: false },
        0x5B => Instr { op: Op::Sre, mode: Mode::Aby, cycles: 7, page_penalty: false },
        0x5C => Instr { op: Op::Nop, mode: Mode::Abx, cycles: 4, page_penalty: true },
        0x5D => Instr { op: Op::Eor, mode: Mode::Abx, cycles: 4, page_penalty: true },
        0x5E => Instr { op: Op::Lsr, mode: Mode::Abx, cycles: 7, page_penalty: false },
        0x5F => Instr { op: Op::Sre, mode: Mode::Abx, cycles: 7, page_penalty: false },
        0x60 => Instr { op: Op::Rts, mode: Mode::Imp, cycles: 6, page_penalty: false },
        0x61 => Instr { op: Op::Adc, mode: Mode::Izx, cycles: 6, page_penalty: false },
        0x62 => Instr { op: Op::Nop, mode: Mode::Imp, cycles: 2, page_penalty: false },
        0x63 => Instr { op: Op::Rra, mode: Mode::Izx, cycles: 8, page_penalty: false },
        0x64 => Instr { op: Op::Nop, mode: Mode::Zp, cycles: 3, page_penalty: false },
        0x65 => Instr { op: Op::Adc, mode: Mode::Zp, cycles: 3, page_penalty: false },
        0x66 => Instr { op: Op::Ror, mode: Mode::Zp, cycles: 5, page_penalty: false },
        0x67 => Instr { op: Op::Rra, mode: Mode::Zp, cycles: 5, page_penalty: false },
        0x68 => Instr { op: Op::Pla, mode: Mode::Imp, cycles: 4, page_penalty: false },
        0x69 => Instr { op: Op::Adc, mode: Mode::Imm, cycles: 2, page_penalty: false },
        0x6A => Instr { op: Op::Ror, mode: Mode::Acc, cycles: 2, page_penalty: false },
        0x6B => Instr { op: Op::Nop, mode: Mode::Imm, cycles: 2, page_penalty: false },
        0x6C => Instr { op: Op::Jmp, mode: Mode::Ind, cycles: 5, page_penalty: false },
        0x6D => Instr { op: Op::Adc, mode: Mode::Abs, cycles: 4, page_penalty: false },
        0x6E => Instr { op: Op::Ror, mode: Mode::Abs, cycles: 6, page_penalty: false },
        0x6F => Instr { op: Op::Rra, mode: Mode::Abs, cycles: 6, page_penalty: false },
        0x70 => Instr { op: Op::Bvs, mode: Mode::Rel, cycles: 2, page_penalty: false },
        0x71 => Instr { op: Op::Adc, mode: Mode::Izy, cycles: 5, page_penalty: true },
        0x72 => Instr { op: Op::Nop, mode: Mode::Imp, cycles: 2, page_penalty: false },
        0x73 => Instr { op: Op::Rra, mode: Mode::Izy, cycles: 8, page_penalty: false },
        0x74 => Instr { op: Op::Nop, mode: Mode::Zpx, cycles: 4, page_penalty: false },
        0x75 => Instr { op: Op::Adc, mode: Mode::Zpx, cycles: 4, page_penalty: false },
        0x76 => Instr { op: Op::Ror, mode: Mode::Zpx, cycles: 6, page_penalty: false },
        0x77 => Instr { op: Op::Rra, mode: Mode::Zpx, cycles: 6, page_penalty: false },
        0x78 => Instr { op: Op::Sei, mode: Mode::Imp, cycles: 2, page_penalty: false },
        0x79 => Instr { op: Op::Adc, mode: Mode::Aby, cycles: 4, page_penalty: true },
        0x7A => Instr { op: Op::Nop, mode: Mode::Imp, cycles: 2, page_penalty: false },
        0x7B => Instr { op: Op::Rra, mode: Mode::Aby, cycles: 7, page_penalty: false },
        0x7C => Instr { op: Op::Nop, mode: Mode::Abx, cycles: 4, page_penalty: true },
        0x7D => Instr { op: Op::Adc, mode: Mode::Abx, cycles: 4, page_penalty: true },
        0x7E => Instr { op: Op::Ror, mode: Mode::Abx, cycles: 7, page_penalty: false },
        0x7F => Instr { op: Op::Rra, mode: Mode::Abx, cycles: 7, page_penalty: false },
        0x80 => Instr { op: Op::Nop, mode: Mode::Imm, cycles: 2, page_penalty: false },
        0x81 => Instr { op: Op::Sta, mode: Mode::Izx, cycles: 6, page_penalty: false },
        0x82 => Instr { op: Op::Nop, mode: Mode::Imm, cycles: 2, page_penalty: false },
        0x83 => Instr { op: Op::Sax, mode: Mode::Izx, cycles: 6, page_penalty: false },
        0x84 => Instr { op: Op::Sty, mode: Mode::Zp, cycles: 3, page_penalty: false },
        0x85 => Instr { op: Op::Sta, mode: Mode::Zp, cycles: 3, page_penalty: false },
        0x86 => Instr { op: Op::Stx, mode: Mode::Zp, cycles: 3, page_penalty: false },
        0x87 => Instr { op: Op::Sax, mode: Mode::Zp, cycles: 3, page_penalty: false },
        0x88 => Instr { op: Op::Dey, mode: Mode::Imp, cycles: 2, page_penalty: false },
        0x89 => Instr { op: Op::Nop, mode: Mode::Imm, cycles: 2, page_penalty: false },
        0x8A => Instr { op: Op::Txa, mode: Mode::Imp, cycles: 2, page_penalty: false },
        0x8B => Instr { op: Op::Nop, mode: Mode::Imm, cycles: 2, page_penalty: false },
        0x8C => Instr { op: Op::Sty, mode: Mode::Abs, cycles: 4, page_penalty: false },
        0x8D => Instr { op: Op::Sta, mode: Mode::Abs, cycles: 4, page_penalty: false },
        0x8E => Instr { op: Op::Stx, mode: Mode::Abs, cycles: 4, page_penalty: false },
        0x8F => Instr { op: Op::Sax, mode: Mode::Abs, cycles: 4, page_penalty: false },
        0x90 => Instr { op: Op::Bcc, mode: Mode::Rel, cycles: 2, page_penalty: false },
        0x91 => Instr { op: Op::Sta, mode: Mode::Izy, cycles: 6, page_penalty: false },
        0x92 => Instr { op: Op::Nop, mode: Mode::Imp, cycles: 2, page_penalty: false },
        0x93 => Instr { op: Op::Nop, mode: Mode::Izy, cycles: 2, page_penalty: false },
        0x94 => Instr { op: Op::Sty, mode: Mode::Zpx, cycles: 4, page_penalty: false },
        0x95 => Instr { op: Op::Sta, mode: Mode::Zpx, cycles: 4, page_penalty: false },
        0x96 => Instr { op: Op::Stx, mode: Mode::Zpy, cycles: 4, page_penalty: false },
        0x97 => Instr { op: Op::Sax, mode: Mode::Zpy, cycles: 4, page_penalty: false },
        0x98 => Instr { op: Op::Tya, mode: Mode::Imp, cycles: 2, page_penalty: false },
        0x99 => Instr { op: Op::Sta, mode: Mode::Aby, cycles: 5, page_penalty: false },
        0x9A => Instr { op: Op::Txs, mode: Mode::Imp, cycles: 2, page_penalty: false },
        0x9B => Instr { op: Op::Nop, mode: Mode::Aby, cycles: 2, page_penalty: false },
        0x9C => Instr { op: Op::Nop, mode: Mode::Abx, cycles: 2, page_penalty: false },
        0x9D => Instr { op: Op::Sta, mode: Mode::Abx, cycles: 5, page_penalty: false },
        0x9E => Instr { op: Op::Nop, mode: Mode::Aby, cycles: 2, page_penalty: false },
        0x9F => Instr { op: Op::Nop, mode: Mode::Aby, cycles: 2, page_penalty: false },
        0xA0 => Instr { op: Op::Ldy, mode: Mode::Imm, cycles: 2, page_penalty: false },
        0xA1 => Instr { op: Op::Lda, mode: Mode::Izx, cycles: 6, page_penalty: false },
        0xA2 => Instr { op: Op::Ldx, mode: Mode::Imm, cycles: 2, page_penalty: false },
        0xA3 => Instr { op: Op::Lax, mode: Mode::Izx, cycles: 6, page_penalty: false },
        0xA4 => Instr { op: Op::Ldy, mode: Mode::Zp, cycles: 3, page_penalty: false },
        0xA5 => Instr { op: Op::Lda, mode: Mode::Zp, cycles: 3, page_penalty: false },
        0xA6 => Instr { op: Op::Ldx, mode: Mode::Zp, cycles: 3, page_penalty: false },
        0xA7 => Instr { op: Op::Lax, mode: Mode::Zp, cycles: 3, page_penalty: false },
        0xA8 => Instr { op: Op::Tay, mode: Mode::Imp, cycles: 2, page_penalty: false },
        0xA9 => Instr { op: Op::Lda, mode: Mode::Imm, cycles: 2, page_penalty: false },
        0xAA => Instr { op: Op::Tax, mode: Mode::Imp, cycles: 2, page_penalty: false },
        0xAB => Instr { op: Op::Nop, mode: Mode::Imm, cycles: 2, page_penalty: false },
        0xAC => Instr { op: Op::Ldy, mode: Mode::Abs, cycles: 4, page_penalty: false },
        0xAD => Instr { op: Op::Lda, mode: Mode::Abs, cycles: 4, page_penalty: false },
        0xAE => Instr { op: Op::Ldx, mode: Mode::Abs, cycles: 4, page_penalty: false },
        0xAF => Instr { op: Op::Lax, mode: Mode::Abs, cycles: 4, page_penalty: false },
        0xB0 => Instr { op: Op::Bcs, mode: Mode::Rel, cycles: 2, page_penalty: false },
        0xB1 => Instr { op: Op::Lda, mode: Mode::Izy, cycles: 5, page_penalty: true },
        0xB2 => Instr { op: Op::Nop, mode: Mode::Imp, cycles: 2, page_penalty: false },
        0xB3 => Instr { op: Op::Lax, mode: Mode::Izy, cycles: 5, page_penalty: true },
        0xB4 => Instr { op: Op::Ldy, mode: Mode::Zpx, cycles: 4, page_penalty: false },
        0xB5 => Instr { op: Op::Lda, mode: Mode::Zpx, cycles: 4, page_penalty: false },
        0xB6 => Instr { op: Op::Ldx, mode: Mode::Zpy, cycles: 4, page_penalty: false },
        0xB7 => Instr { op: Op::Lax, mode: Mode::Zpy, cycles: 4, page_penalty: false },
        0xB8 => Instr { op: Op::Clv, mode: Mode::Imp, cycles: 2, page_penalty: false },
        0xB9 => Instr { op: Op::Lda, mode: Mode::Aby, cycles: 4, page_penalty: true },
        0xBA => Instr { op: Op::Tsx, mode: Mode::Imp, cycles: 2, page_penalty: false },
        0xBB => Instr { op: Op::Nop, mode: Mode::Aby, cycles: 2, page_penalty: false },
        0xBC => Instr { op: Op::Ldy, mode: Mode::Abx, cycles: 4, page_penalty: true },
        0xBD => Instr { op: Op::Lda, mode: Mode::Abx, cycles: 4, page_penalty: true },
        0xBE => Instr { op: Op::Ldx, mode: Mode::Aby, cycles: 4, page_penalty: true },
        0xBF => Instr { op: Op::Lax, mode: Mode::Aby, cycles: 4, page_penalty: true },
        0xC0 => Instr { op: Op::Cpy, mode: Mode::Imm, cycles: 2, page_penalty: false },
        0xC1 => Instr { op: Op::Cmp, mode: Mode::Izx, cycles: 6, page_penalty: false },
        0xC2 => Instr { op: Op::Nop, mode: Mode::Imm, cycles: 2, page_penalty: false },
        0xC3 => Instr { op: Op::Dcp, mode: Mode::Izx, cycles: 8, page_penalty: false },
        0xC4 => Instr { op: Op::Cpy, mode: Mode::Zp, cycles: 3, page_penalty: false },
        0xC5 => Instr { op: Op::Cmp, mode: Mode::Zp, cycles: 3, page_penalty: false },
        0xC6 => Instr { op: Op::Dec, mode: Mode::Zp, cycles: 5, page_penalty: false },
        0xC7 => Instr { op: Op::Dcp, mode: Mode::Zp, cycles: 5, page_penalty: false },
        0xC8 => Instr { op: Op::Iny, mode: Mode::Imp, cycles: 2, page_penalty: false },
        0xC9 => Instr { op: Op::Cmp, mode: Mode::Imm, cycles: 2, page_penalty: false },
        0xCA => Instr { op: Op::Dex, mode: Mode::Imp, cycles: 2, page_penalty: false },
        0xCB => Instr { op: Op::Nop, mode: Mode::Imm, cycles: 2, page_penalty: false },
        0xCC => Instr { op: Op::Cpy, mode: Mode::Abs, cycles: 4, page_penalty: false },
        0xCD => Instr { op: Op::Cmp, mode: Mode::Abs, cycles: 4, page_penalty: false },
        0xCE => Instr { op: Op::Dec, mode: Mode::Abs, cycles: 6, page_penalty: false },
        0xCF => Instr { op: Op::Dcp, mode: Mode::Abs, cycles: 6, page_penalty: false },
        0xD0 => Instr { op: Op::Bne, mode: Mode::Rel, cycles: 2, page_penalty: false },
        0xD1 => Instr { op: Op::Cmp, mode: Mode::Izy, cycles: 5, page_penalty: true },
        0xD2 => Instr { op: Op::Nop, mode: Mode::Imp, cycles: 2, page_penalty: false },
        0xD3 => Instr { op: Op::Dcp, mode: Mode::Izy, cycles: 8, page_penalty: false },
        0xD4 => Instr { op: Op::Nop, mode: Mode::Zpx, cycles: 4, page_penalty: false },
        0xD5 => Instr { op: Op::Cmp, mode: Mode::Zpx, cycles: 4, page_penalty: false },
        0xD6 => Instr { op: Op::Dec, mode: Mode::Zpx, cycles: 6, page_penalty: false },
        0xD7 => Instr { op: Op::Dcp, mode: Mode::Zpx, cycles: 6, page_penalty: false },
        0xD8 => Instr { op: Op::Cld, mode: Mode::Imp, cycles: 2, page_penalty: false },
        0xD9 => Instr { op: Op::Cmp, mode: Mode::Aby, cycles: 4, page_penalty: true },
        0xDA => Instr { op: Op::Nop, mode: Mode::Imp, cycles: 2, page_penalty: false },
        0xDB => Instr { op: Op::Dcp, mode: Mode::Aby, cycles: 7, page_penalty: false },
        0xDC => Instr { op: Op::Nop, mode: Mode::Abx, cycles: 4, page_penalty: true },
        0xDD => Instr { op: Op::Cmp, mode: Mode::Abx, cycles: 4, page_penalty: true },
        0xDE => Instr { op: Op::Dec, mode: Mode::Abx, cycles: 7, page_penalty: false },
        0xDF => Instr { op: Op::Dcp, mode: Mode::Abx, cycles: 7, page_penalty: false },
        0xE0 => Instr { op: Op::Cpx, mode: Mode::Imm, cycles: 2, page_penalty: false },
        0xE1 => Instr { op: Op::Sbc, mode: Mode::Izx, cycles: 6, page_penalty: false },
        0xE2 => Instr { op: Op::Nop, mode: Mode::Imm, cycles: 2, page_penalty: false },
        0xE3 => Instr { op: Op::Isc, mode: Mode::Izx, cycles: 8, page_penalty: false },
        0xE4 => Instr { op: Op::Cpx, mode: Mode::Zp, cycles: 3, page_penalty: false },
        0xE5 => Instr { op: Op::Sbc, mode: Mode::Zp, cycles: 3, page_penalty: false },
        0xE6 => Instr { op: Op::Inc, mode: Mode::Zp, cycles: 5, page_penalty: false },
        0xE7 => Instr { op: Op::Isc, mode: Mode::Zp, cycles: 5, page_penalty: false },
        0xE8 => Instr { op: Op::Inx, mode: Mode::Imp, cycles: 2, page_penalty: false },
        0xE9 => Instr { op: Op::Sbc, mode: Mode::Imm, cycles: 2, page_penalty: false },
        0xEA => Instr { op: Op::Nop, mode: Mode::Imp, cycles: 2, page_penalty: false },
        0xEB => Instr { op: Op::Sbc, mode: Mode::Imm, cycles: 2, page_penalty: false },
        0xEC => Instr { op: Op::Cpx, mode: Mode::Abs, cycles: 4, page_penalty: false },
        0xED => Instr { op: Op::Sbc, mode: Mode::Abs, cycles: 4, page_penalty: false },
        0xEE => Instr { op: Op::Inc, mode: Mode::Abs, cycles: 6, page_penalty: false },
        0xEF => Instr { op: Op::Isc, mode: Mode::Abs, cycles: 6, page_penalty: false },
        0xF0 => Instr { op: Op::Beq, mode: Mode::Rel, cycles: 2, page_penalty: false },
        0xF1 => Instr { op: Op::Sbc, mode: Mode::Izy, cycles: 5, page_penalty: true },
        0xF2 => Instr { op: Op::Nop, mode: Mode::Imp, cycles: 2, page_penalty: false },
        0xF3 => Instr { op: Op::Isc, mode: Mode::Izy, cycles: 8, page_penalty: false },
        0xF4 => Instr { op: Op::Nop, mode: Mode::Zpx, cycles: 4, page_penalty: false },
        0xF5 => Instr { op: Op::Sbc, mode: Mode::Zpx, cycles: 4, page_penalty: false },
        0xF6 => Instr { op: Op::Inc, mode: Mode::Zpx, cycles: 6, page_penalty: false },
        0xF7 => Instr { op: Op::Isc, mode: Mode::Zpx, cycles: 6, page_penalty: false },
        0xF8 => Instr { op: Op::Sed, mode: Mode::Imp, cycles: 2, page_penalty: false },
        0xF9 => Instr { op: Op::Sbc, mode: Mode::Aby, cycles: 4, page_penalty: true },
        0xFA => Instr { op: Op::Nop, mode: Mode::Imp, cycles: 2, page_penalty: false },
        0xFB => Instr { op: Op::Isc, mode: Mode::Aby, cycles: 7, page_penalty: false },
        0xFC => Instr { op: Op::Nop, mode: Mode::Abx, cycles: 4, page_penalty: true },
        0xFD => Instr { op: Op::Sbc, mode: Mode::Abx, cycles: 4, page_penalty: true },
        0xFE => Instr { op: Op::Inc, mode: Mode::Abx, cycles: 7, page_penalty: false },
        0xFF => Instr { op: Op::Isc, mode: Mode::Abx, cycles: 7, page_penalty: false },
    }
}

} // verus!
