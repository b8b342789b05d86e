//! One-line CPU traces, in the layout of the reference logs that test ROMs
//! ship with: PC, opcode, registers and the cycle count.
use crate::cpu::Cpu;
use vstd::prelude::*;
use vstd::string::*;

verus! {

pub open spec fn hex_char(d: int) -> char {
    if d == 0 {
        '0'
    } else if d == 1 {
        '1'
    } else if d == 2 {
        '2'
    } else if d == 3 {
        '3'
    } else if d == 4 {
        '4'
    } else if d == 5 {
        '5'
    } else if d == 6 {
        '6'
    } else if d == 7 {
        '7'
    } else if d == 8 {
        '8'
    } else if d == 9 {
        '9'
    } else if d == 10 {
        'A'
    } else if d == 11 {
        'B'
    } else if d == 12 {
        'C'
    } else if d == 13 {
        'D'
    } else if d == 14 {
        'E'
    } else {
        'F'
    }
}

/// The last `n` hexadecimal digits of `v`, upper case, most significant first.
pub open spec fn hex_digits(v: nat, n: nat) -> Seq<char>
    decreases n,
{
    if n == 0 {
        Seq::empty()
    } else {
        hex_digits(v / 16, (n - 1) as nat).push(hex_char((v % 16) as int))
    }
}

/// `v` in decimal, without leading zeros.
pub open spec fn dec_digits(v: nat) -> Seq<char>
    decreases v,
{
    if v < 10 {
        seq![hex_char(v as int)]
    } else {
        dec_digits(v / 10).push(hex_char((v % 10) as int))
    }
}

/// The trace line of `c` about to run `opcode`:
/// `PPPP | OO | A:AA | X:XX | Y:YY | P:PP | SP:SS | CYC:<decimal>`.
pub open spec fn trace_line(c: Cpu, opcode: u8) -> Seq<char> {
    hex_digits(c.pc as nat, 4) + " | "@ + hex_digits(opcode as nat, 2) + " | A:"@ + hex_digits(
        c.a as nat,
        2,
    ) + " | X:"@ + hex_digits(c.x as nat, 2) + " | Y:"@ + hex_digits(c.y as nat, 2) + " | P:"@
        + hex_digits(c.p as nat, 2) + " | SP:"@ + hex_digits(c.s as nat, 2) + " | CYC:"@ + dec_digits(
        c.cycles as nat,
    )
}

fn digit_str(d: u8) -> (r: &'static str)
    requires
        d < 16,
    ensures
        r@ == seq![hex_char(d as int)],
{
    proof {
        reveal_strlit("0");
        reveal_strlit("1");
        reveal_strlit("2");
        reveal_strlit("3");
        reveal_strlit("4");
        reveal_strlit("5");
        reveal_strlit("6");
        reveal_strlit("7");
        reveal_strlit("8");
        reveal_strlit("9");
        reveal_strlit("A");
        reveal_strlit("B");
        reveal_strlit("C");
        reveal_strlit("D");
        reveal_strlit("E");
        reveal_strlit("F");
    }
    let r = match d {
        0 => "0",
        1 => "1",
        2 => "2",
        3 => "3",
        4 => "4",
        5 => "5",
        6 => "6",
        7 => "7",
        8 => "8",
        9 => "9",
        10 => "A",
        11 => "B",
        12 => "C",
        13 => "D",
        14 => "E",
        _ => "F",
    };
    assert(r@ =~= seq![hex_char(d as int)]);
    r
}

fn push_hex(s: &mut String, v: u16, n: u8)
    ensures
        final(s)@ == old(s)@ + hex_digits(v as nat, n as nat),
    decreases n,
{
    if n > 0 {
        push_hex(s, v / 16, n - 1);
        s.append(digit_str((v % 16) as u8));
        assert(final(s)@ =~= old(s)@ + hex_digits(v as nat, n as nat));
    } else {
        assert(s@ =~= old(s)@ + hex_digits(v as nat, n as nat));
    }
}

fn push_dec(s: &mut String, v: u64)
    ensures
        final(s)@ == old(s)@ + dec_digits(v as nat),
    decreases v,
{
    if v >= 10 {
        push_dec(s, v / 10);
    }
    s.append(digit_str((v % 10) as u8));
    assert(final(s)@ =~= old(s)@ + dec_digits(v as nat));
}

impl Cpu {
    /// The trace line of this CPU about to run `opcode`.
    pub fn log_me(&self, opcode: u8) -> (r: String)
        ensures
            r@ == trace_line(*self, opcode),
    {
        let mut s = String::new();
        push_hex(&mut s, self.pc, 4);
        assert(s@ =~= hex_digits(self.pc as nat, 4));
        s.append(" | ");
        push_hex(&mut s, opcode as u16, 2);
        s.append(" | A:");
        push_hex(&mut s, self.a as u16, 2);
        s.append(" | X:");
        push_hex(&mut s, self.x as u16, 2);
        s.append(" | Y:");
        push_hex(&mut s, self.y as u16, 2);
        s.append(" | P:");
        push_hex(&mut s, self.p as u16, 2);
        s.append(" | SP:");
        push_hex(&mut s, self.s as u16, 2);
        s.append(" | CYC:");
        push_dec(&mut s, self.cycles);
        s
    }
}

} // verus!
