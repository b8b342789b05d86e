use rustness::cpu::{Cpu, FLAG_B, FLAG_C, FLAG_I, FLAG_N, FLAG_U, FLAG_V, FLAG_Z};
use rustness::mem::Mem;

/// A bus over a 16 KiB PRG ROM filled with NOP, with `bytes` placed at the
/// given CPU addresses (0x8000..=0xFFFF, mirrored).
fn bus_with(bytes: &[(u16, u8)]) -> Mem {
    let mut prg = vec![0xEAu8; 16384];
    for &(addr, b) in bytes {
        prg[(addr as usize - 0x8000) % 16384] = b;
    }
    Mem::new(prg, vec![])
}

fn cpu_at(pc: u16) -> Cpu {
    Cpu { pc, a: 0, x: 0, y: 0, s: 0xFD, p: 0x24, cycles: 0 }
}

#[test]
fn reset_vector() {
    let mut mem = bus_with(&[(0xFFFC, 0x00), (0xFFFD, 0x80)]);
    let cpu = Cpu::new(&mut mem);
    assert_eq!(cpu.pc, 0x8000);
    assert_eq!(cpu.s, 0xFD);
    assert_eq!(cpu.p, 0x24);
    assert_eq!(cpu.cycles, 7);
}

#[test]
fn adc_carry_overflow() {
    let mut mem = bus_with(&[(0x8000, 0x69), (0x8001, 0x50)]);
    let mut cpu = cpu_at(0x8000);
    cpu.a = 0x50;
    cpu.cycles = 100;
    let taken = cpu.emulate(&mut mem);
    assert_eq!(taken, 2);
    assert_eq!(cpu.cycles, 102);
    assert_eq!(cpu.a, 0xA0);
    assert!(cpu.get_negative());
    assert!(cpu.get_overflow());
    assert!(!cpu.get_zero());
    assert!(!cpu.get_carry());
    assert_eq!(cpu.pc, 0x8002);
}

#[test]
fn branch_page_cross() {
    let mut mem = bus_with(&[(0x80FE, 0xD0), (0x80FF, 0x05)]);
    let mut cpu = cpu_at(0x80FE);
    let taken = cpu.emulate(&mut mem);
    assert_eq!(cpu.pc, 0x8105);
    assert_eq!(taken, 4);
    assert_eq!(cpu.cycles, 4);
}

#[test]
fn branch_taken_same_page_and_not_taken() {
    let mut mem = bus_with(&[(0x8010, 0xD0), (0x8011, 0x05), (0x8020, 0xF0), (0x8021, 0x05)]);
    let mut cpu = cpu_at(0x8010);
    assert_eq!(cpu.emulate(&mut mem), 3);
    assert_eq!(cpu.pc, 0x8017);
    let mut cpu = cpu_at(0x8020);
    assert_eq!(cpu.emulate(&mut mem), 2);
    assert_eq!(cpu.pc, 0x8022);
}

#[test]
fn branch_backwards() {
    let mut mem = bus_with(&[(0x8010, 0xD0), (0x8011, 0xFC)]);
    let mut cpu = cpu_at(0x8010);
    assert_eq!(cpu.emulate(&mut mem), 3);
    assert_eq!(cpu.pc, 0x800E);
}

#[test]
fn adc_and_sbc_carry_out() {
    let mut cpu = cpu_at(0x8000);
    cpu.a = 0xFF;
    cpu.set_carry(true);
    cpu.adc(0x00);
    assert_eq!(cpu.a, 0x00);
    assert!(cpu.get_carry());
    assert!(cpu.get_zero());
    assert!(!cpu.get_overflow());

    let mut cpu = cpu_at(0x8000);
    cpu.a = 0x10;
    cpu.set_carry(true);
    cpu.sbc(0x20);
    assert_eq!(cpu.a, 0xF0);
    assert!(!cpu.get_carry());
    assert!(cpu.get_negative());

    let mut cpu = cpu_at(0x8000);
    cpu.a = 0x50;
    cpu.set_carry(true);
    cpu.sbc(0xB0);
    assert_eq!(cpu.a, 0xA0);
    assert!(!cpu.get_carry());
    assert!(cpu.get_overflow());

    let mut cpu = cpu_at(0x8000);
    cpu.a = 0x30;
    cpu.set_carry(true);
    cpu.sbc(0x10);
    assert_eq!(cpu.a, 0x20);
    assert!(cpu.get_carry());
}

#[test]
fn php_pushes_bit5_and_b() {
    let mut mem = bus_with(&[(0x8000, 0x08)]);
    let mut cpu = cpu_at(0x8000);
    cpu.p = 0x00;
    assert_eq!(cpu.emulate(&mut mem), 3);
    assert_eq!(mem.peek_u8(0x01FD), FLAG_B | FLAG_U);
    assert_eq!(cpu.s, 0xFC);
}

#[test]
fn nmi_pushes_status_with_b_clear() {
    let mut mem = bus_with(&[(0xFFFA, 0x34), (0xFFFB, 0x92)]);
    mem.set_trigger_nmi(true);
    let mut cpu = cpu_at(0x8123);
    cpu.p = FLAG_B | FLAG_C;
    let taken = cpu.emulate(&mut mem);
    assert_eq!(taken, 7);
    assert_eq!(cpu.pc, 0x9234);
    assert_eq!(mem.peek_u8(0x01FD), 0x81);
    assert_eq!(mem.peek_u8(0x01FC), 0x23);
    let pushed = mem.peek_u8(0x01FB);
    assert_eq!(pushed & FLAG_U, FLAG_U);
    assert_eq!(pushed & FLAG_B, 0);
    assert!(cpu.get_interrupt_disable());
    assert!(!mem.get_trigger_nmi());
    assert_eq!(cpu.s, 0xFA);
}

#[test]
fn irq_served_only_when_enabled() {
    let mut mem = bus_with(&[(0xFFFE, 0x00), (0xFFFF, 0x90)]);
    mem.set_irq(0);
    let mut cpu = cpu_at(0x8000);
    cpu.p = 0x24;
    assert_eq!(cpu.emulate(&mut mem), 2);
    assert_eq!(cpu.pc, 0x8001);
    cpu.set_interrupt_disable(false);
    assert_eq!(cpu.emulate(&mut mem), 7);
    assert_eq!(cpu.pc, 0x9000);
    assert_eq!(mem.get_irq(), 0);
    assert!(cpu.get_interrupt_disable());
    assert_eq!(cpu.emulate(&mut mem), 2);
}

#[test]
fn brk_pushes_return_and_b() {
    let mut mem = bus_with(&[(0x8000, 0x00), (0xFFFE, 0x00), (0xFFFF, 0x90)]);
    let mut cpu = cpu_at(0x8000);
    assert_eq!(cpu.emulate(&mut mem), 7);
    assert_eq!(cpu.pc, 0x9000);
    assert_eq!(mem.peek_u8(0x01FD), 0x80);
    assert_eq!(mem.peek_u8(0x01FC), 0x02);
    assert_eq!(mem.peek_u8(0x01FB), 0x24 | FLAG_B | FLAG_U);
    assert_eq!(cpu.p & FLAG_I, FLAG_I);
}

#[test]
fn stack_wraps_within_page_one() {
    let mut mem = bus_with(&[]);
    let mut cpu = cpu_at(0x8000);
    cpu.s = 0x00;
    cpu.stack_push_u8(&mut mem, 0x11);
    assert_eq!(cpu.s, 0xFF);
    assert_eq!(mem.peek_u8(0x0100), 0x11);
    cpu.stack_push_u8(&mut mem, 0x22);
    assert_eq!(mem.peek_u8(0x01FF), 0x22);
    assert_eq!(mem.peek_u8(0x0000), 0);
    assert_eq!(mem.peek_u8(0x0200), 0);
    assert_eq!(cpu.stack_pop_u8(&mut mem), 0x22);
    assert_eq!(cpu.stack_pop_u8(&mut mem), 0x11);
    assert_eq!(cpu.s, 0x00);
}

#[test]
fn stack_u16_round_trip() {
    let mut mem = bus_with(&[]);
    let mut cpu = cpu_at(0x8000);
    cpu.stack_push_u16(&mut mem, 0xBEEF);
    assert_eq!(mem.peek_u8(0x01FD), 0xBE);
    assert_eq!(mem.peek_u8(0x01FC), 0xEF);
    assert_eq!(cpu.stack_pop_u16(&mut mem), 0xBEEF);
    assert_eq!(cpu.s, 0xFD);
}

#[test]
fn indexed_read_page_cross_costs_one_more() {
    // LDA $80FF,X with X = 1 crosses into page 0x81.
    let mut mem = bus_with(&[(0x8000, 0xBD), (0x8001, 0xFF), (0x8002, 0x80), (0x8100, 0x42)]);
    let mut cpu = cpu_at(0x8000);
    cpu.x = 1;
    assert_eq!(cpu.emulate(&mut mem), 5);
    assert_eq!(cpu.a, 0x42);
    // The same read without a crossing.
    let mut cpu = cpu_at(0x8000);
    cpu.x = 0;
    assert_eq!(cpu.emulate(&mut mem), 4);
    // STA $02FF,X always costs five.
    let mut mem = bus_with(&[(0x8000, 0x9D), (0x8001, 0xFF), (0x8002, 0x02)]);
    let mut cpu = cpu_at(0x8000);
    cpu.x = 1;
    cpu.a = 0x77;
    assert_eq!(cpu.emulate(&mut mem), 5);
    assert_eq!(mem.peek_u8(0x0300), 0x77);
}

#[test]
fn indirect_y_page_cross() {
    // LDA ($10),Y with the pointer 0x02FF and Y = 2.
    let mut mem = bus_with(&[(0x8000, 0xB1), (0x8001, 0x10)]);
    mem.write_u8(0x0010, 0xFF);
    mem.write_u8(0x0011, 0x02);
    mem.write_u8(0x0301, 0x99);
    let mut cpu = cpu_at(0x8000);
    cpu.y = 2;
    assert_eq!(cpu.emulate(&mut mem), 6);
    assert_eq!(cpu.a, 0x99);
    let mut cpu = cpu_at(0x8000);
    cpu.y = 0;
    let (addr, extra) = {
        cpu.pc = 0x8001;
        cpu.get_indirect_y_addr(&mut mem)
    };
    assert_eq!(addr, 0x02FF);
    assert_eq!(extra, 0);
}

#[test]
fn indirect_x_wraps_in_zero_page() {
    let mut mem = bus_with(&[(0x8000, 0xFE)]);
    mem.write_u8(0x00FF, 0x34);
    mem.write_u8(0x0000, 0x12);
    let mut cpu = cpu_at(0x8000);
    cpu.x = 0x01;
    assert_eq!(cpu.get_indirect_x_addr(&mut mem), 0x1234);
    assert_eq!(cpu.pc, 0x8001);
}

#[test]
fn jmp_indirect_page_wrap() {
    let mut mem = bus_with(&[(0x8000, 0x6C), (0x8001, 0xFF), (0x8002, 0x02)]);
    mem.write_u8(0x02FF, 0x34);
    mem.write_u8(0x0200, 0x12);
    mem.write_u8(0x0300, 0x56);
    let mut cpu = cpu_at(0x8000);
    assert_eq!(cpu.emulate(&mut mem), 5);
    assert_eq!(cpu.pc, 0x1234);
}

#[test]
fn jsr_then_rts() {
    let mut mem = bus_with(&[(0x8000, 0x20), (0x8001, 0x00), (0x8002, 0x90), (0x9000, 0x60)]);
    let mut cpu = cpu_at(0x8000);
    assert_eq!(cpu.emulate(&mut mem), 6);
    assert_eq!(cpu.pc, 0x9000);
    assert_eq!(mem.peek_u8(0x01FD), 0x80);
    assert_eq!(mem.peek_u8(0x01FC), 0x02);
    assert_eq!(cpu.emulate(&mut mem), 6);
    assert_eq!(cpu.pc, 0x8003);
    assert_eq!(cpu.s, 0xFD);
}

#[test]
fn oam_dma_adds_its_cycles() {
    // LDA #$02; STA $4014
    let mut mem = bus_with(&[(0x8000, 0xA9), (0x8001, 0x02), (0x8002, 0x8D), (0x8003, 0x14), (0x8004, 0x40)]);
    mem.write_u8(0x0203, 0x5A);
    let mut cpu = cpu_at(0x8000);
    assert_eq!(cpu.emulate(&mut mem), 2);
    assert_eq!(cpu.emulate(&mut mem), 4 + 513);
    assert_eq!(cpu.cycles, 2 + 4 + 513);
    assert_eq!(mem.oam_byte(3), 0x5A);
}

#[test]
fn unofficial_lax_and_dcp() {
    // LAX $10; DCP $11
    let mut mem = bus_with(&[(0x8000, 0xA7), (0x8001, 0x10), (0x8002, 0xC7), (0x8003, 0x11)]);
    mem.write_u8(0x0010, 0x80);
    mem.write_u8(0x0011, 0x81);
    let mut cpu = cpu_at(0x8000);
    assert_eq!(cpu.emulate(&mut mem), 3);
    assert_eq!(cpu.a, 0x80);
    assert_eq!(cpu.x, 0x80);
    assert!(cpu.get_negative());
    assert_eq!(cpu.emulate(&mut mem), 5);
    assert_eq!(mem.peek_u8(0x0011), 0x80);
    assert!(cpu.get_zero());
    assert!(cpu.get_carry());
}

#[test]
fn unused_opcodes_are_nops_that_consume_operands() {
    // 0x02 (no operand), 0x04 (zero page), 0x0C (absolute)
    let mut mem = bus_with(&[(0x8000, 0x02), (0x8001, 0x04), (0x8002, 0x33), (0x8003, 0x0C)]);
    let mut cpu = cpu_at(0x8000);
    assert_eq!(cpu.emulate(&mut mem), 2);
    assert_eq!(cpu.pc, 0x8001);
    assert_eq!(cpu.emulate(&mut mem), 3);
    assert_eq!(cpu.pc, 0x8003);
    assert_eq!(cpu.emulate(&mut mem), 4);
    assert_eq!(cpu.pc, 0x8006);
}

#[test]
fn shifts_and_rotates() {
    // ASL A; ROR A; LSR A
    let mut mem = bus_with(&[(0x8000, 0x0A), (0x8001, 0x6A), (0x8002, 0x4A)]);
    let mut cpu = cpu_at(0x8000);
    cpu.a = 0x81;
    cpu.emulate(&mut mem);
    assert_eq!(cpu.a, 0x02);
    assert!(cpu.get_carry());
    cpu.emulate(&mut mem);
    assert_eq!(cpu.a, 0x81);
    assert!(!cpu.get_carry());
    cpu.emulate(&mut mem);
    assert_eq!(cpu.a, 0x40);
    assert!(cpu.get_carry());
}

#[test]
fn compare_and_bit() {
    // CMP #$10; BIT $20
    let mut mem = bus_with(&[(0x8000, 0xC9), (0x8001, 0x10), (0x8002, 0x24), (0x8003, 0x20)]);
    mem.write_u8(0x0020, 0xC0);
    let mut cpu = cpu_at(0x8000);
    cpu.a = 0x10;
    cpu.emulate(&mut mem);
    assert!(cpu.get_zero());
    assert!(cpu.get_carry());
    cpu.emulate(&mut mem);
    assert!(cpu.get_negative());
    assert!(cpu.get_overflow());
    assert!(cpu.get_zero());
}

#[test]
fn flag_setters_and_getters() {
    let mut cpu = cpu_at(0x8000);
    cpu.p = 0;
    cpu.set_negative(true);
    cpu.set_decimal(true);
    assert_eq!(cpu.p, FLAG_N | 0x08);
    assert!(cpu.get_decimal());
    cpu.set_negative(false);
    assert_eq!(cpu.p, 0x08);
    cpu.set_zero(true);
    assert_eq!(cpu.p & FLAG_Z, FLAG_Z);
    cpu.set_overflow(true);
    assert_eq!(cpu.p & FLAG_V, FLAG_V);
}

#[test]
fn branch_if_reads_offset_and_counts_cycles() {
    let mut mem = bus_with(&[(0x80FF, 0x05), (0x8011, 0x05), (0x8031, 0xF0)]);
    let mut cpu = cpu_at(0x80FF);
    assert_eq!(cpu.branch_if(&mut mem, false), 2);
    assert_eq!(cpu.pc, 0x8100);
    let mut cpu = cpu_at(0x80FF);
    assert_eq!(cpu.branch_if(&mut mem, true), 4);
    assert_eq!(cpu.pc, 0x8105);
    let mut cpu = cpu_at(0x8011);
    assert_eq!(cpu.branch_if(&mut mem, true), 3);
    assert_eq!(cpu.pc, 0x8017);
    let mut cpu = cpu_at(0x8031);
    assert_eq!(cpu.branch_if(&mut mem, true), 3);
    assert_eq!(cpu.pc, 0x8022);
}

#[test]
fn unstable_opcodes_are_two_cycle_nops() {
    // 0x93 (zp),Y; 0xBB abs,Y; 0x9C abs,X
    let mut mem = bus_with(&[(0x8000, 0x93), (0x8001, 0x10), (0x8002, 0xBB), (0x8003, 0xFF), (0x8004, 0x02), (0x8005, 0x9C)]);
    let mut cpu = cpu_at(0x8000);
    cpu.a = 0x12;
    cpu.x = 0xFF;
    cpu.y = 0xFF;
    assert_eq!(cpu.emulate(&mut mem), 2);
    assert_eq!(cpu.pc, 0x8002);
    assert_eq!(cpu.emulate(&mut mem), 2);
    assert_eq!(cpu.pc, 0x8005);
    assert_eq!(cpu.emulate(&mut mem), 2);
    assert_eq!(cpu.pc, 0x8008);
    assert_eq!((cpu.a, cpu.x, cpu.y, cpu.s, cpu.p), (0x12, 0xFF, 0xFF, 0xFD, 0x24));
    assert_eq!(cpu.cycles, 6);
}

#[test]
fn trace_line_layout() {
    let cpu = Cpu { pc: 0xC000, a: 0, x: 0, y: 0, s: 0xFD, p: 0x24, cycles: 7 };
    assert_eq!(cpu.log_me(0x4C), "C000 | 4C | A:00 | X:00 | Y:00 | P:24 | SP:FD | CYC:7");
    let cpu = Cpu { pc: 0x0A1F, a: 0xFF, x: 0x10, y: 0x0B, s: 0x00, p: 0xE7, cycles: 1234567 };
    assert_eq!(cpu.log_me(0x00), "0A1F | 00 | A:FF | X:10 | Y:0B | P:E7 | SP:00 | CYC:1234567");
}
