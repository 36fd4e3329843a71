//! Rendering of instructions, opcodes and operands to their canonical
//! assembly text.
//!
//! The text of each value is defined by the spec functions here
//! ([`spec_render_instruction`], [`spec_render_operand`], [`spec_mnemonic`]);
//! the executable `render` methods are verified to produce exactly that text.
//! Rendering is a pure function of the value alone: it touches no state and
//! cannot fail.

use vstd::prelude::*;

use crate::{operand_wf, Instruction, Opcode, Operand};

verus! {

/// The lowercase hexadecimal digit for `v` in `0..=15` (and `'0'` out of that
/// range, which no caller reaches).
pub open spec fn hex_digit(v: int) -> char {
    if v == 1 {
        '1'
    } else if v == 2 {
        '2'
    } else if v == 3 {
        '3'
    } else if v == 4 {
        '4'
    } else if v == 5 {
        '5'
    } else if v == 6 {
        '6'
    } else if v == 7 {
        '7'
    } else if v == 8 {
        '8'
    } else if v == 9 {
        '9'
    } else if v == 10 {
        'a'
    } else if v == 11 {
        'b'
    } else if v == 12 {
        'c'
    } else if v == 13 {
        'd'
    } else if v == 14 {
        'e'
    } else if v == 15 {
        'f'
    } else {
        '0'
    }
}

/// `v` in `0..=255` as exactly two hex digits.
pub open spec fn spec_hex2(v: int) -> Seq<char> {
    seq![hex_digit(v / 16), hex_digit(v % 16)]
}

/// `v` in `0..=65535` as exactly four hex digits.
pub open spec fn spec_hex4(v: int) -> Seq<char> {
    seq![
        hex_digit(v / 4096),
        hex_digit((v / 256) % 16),
        hex_digit((v / 16) % 16),
        hex_digit(v % 16),
    ]
}

/// `v` in `0..=255` in as few hex digits as it needs: one below 16, else two.
pub open spec fn spec_hex_min(v: int) -> Seq<char> {
    if v < 16 {
        seq![hex_digit(v)]
    } else {
        spec_hex2(v)
    }
}

/// The magnitude of a relative branch offset: the sign is rendered as a
/// prefix, not folded into the digits.
pub open spec fn branch_mag(rel: i8) -> int {
    if rel >= 0 {
        rel as int
    } else {
        -(rel as int)
    }
}

/// The condition-selector bits of a conditional-branch group's first operand.
pub open spec fn spec_selector(o: Operand) -> u8 {
    match o {
        Operand::ImmU8 { imm } => imm,
        _ => 0,
    }
}

/// The canonical text of an operand.
pub open spec fn spec_render_operand(o: Operand) -> Seq<char> {
    match o {
        Operand::Nothing => Seq::<char>::empty(),
        Operand::Register { n } => "r"@ + seq![hex_digit(n as int)],
        Operand::RegisterPair { n } => "r"@ + seq![hex_digit(n as int)] + ":r"@
            + seq![hex_digit(n as int + 1)],
        Operand::MemAbs16 { addr } => "[0x"@ + spec_hex4(addr as int) + "]"@,
        Operand::MemRegIndirect { n } => "[r"@ + seq![hex_digit(n as int)] + ":r"@
            + seq![hex_digit(n as int + 1)] + "]"@,
        Operand::MemRegIndirectOffset { n, offs } => "[r"@ + seq![hex_digit(n as int)] + ":r"@
            + seq![hex_digit(n as int + 1)] + " + 0x"@ + spec_hex_min(offs as int) + "]"@,
        Operand::BranchRelI8 { rel } => (if rel >= 0 {
            "$+0x"@
        } else {
            "$-0x"@
        }) + spec_hex_min(branch_mag(rel)),
        Operand::ImmU8 { imm } => "0x"@ + spec_hex2(imm as int),
        Operand::ImmU16 { imm } => "0x"@ + spec_hex4(imm as int),
    }
}

/// The mnemonic of an opcode.
pub open spec fn spec_mnemonic(op: Opcode) -> Seq<char> {
    match op {
        Opcode::Adc => "adc"@,
        Opcode::MovRnR0 => "movrnr0"@,
        Opcode::Or => "or"@,
        Opcode::And => "and"@,
        Opcode::Xor => "xor"@,
        Opcode::Rcl => "rcl"@,
        Opcode::Rcr => "rcr"@,
        Opcode::Inc => "inc"@,
        Opcode::IncW => "incw"@,
        Opcode::Dec => "dec"@,
        Opcode::Sbc => "sbc"@,
        Opcode::Add => "add"@,
        Opcode::Op5xHi => "op5xhi"@,
        Opcode::Scf => "scf"@,
        Opcode::Ccf => "ccf"@,
        Opcode::Bit => "bit"@,
        Opcode::Op6xHi => "op6xhi"@,
        Opcode::MovR0Rn => "movr0rn"@,
        Opcode::Cmp => "cmp"@,
        Opcode::Push => "push"@,
        Opcode::Pop => "pop"@,
        Opcode::Jz => "jz"@,
        Opcode::Jc => "jc"@,
        Opcode::JccLo => "jcclo"@,
        Opcode::Jnz => "jnz"@,
        Opcode::Jnc => "jnc"@,
        Opcode::JccHi => "jcchi"@,
        Opcode::Ret => "ret"@,
        Opcode::Iret => "iret"@,
        Opcode::Jmp => "jmp"@,
        Opcode::Call => "call"@,
        Opcode::LoadImm8 => "loadimm8"@,
        Opcode::LoadAbs16 => "loadabs16"@,
        Opcode::StoreAbs16 => "storeabs16"@,
        Opcode::LoadRegPair => "loadregpair"@,
        Opcode::StoreRegPair => "storeregpair"@,
        Opcode::LoadRegPairC => "loadregpairc"@,
        Opcode::StoreRegPairC => "storeregpairc"@,
    }
}

/// The canonical text of a whole instruction. Implicit-accumulator forms
/// write `r0` explicitly; explicit two-operand forms are rendered
/// destination first, whatever the encoding order; the conditional-branch
/// groups show their condition selector after the mnemonic.
pub open spec fn spec_render_instruction(i: Instruction) -> Seq<char> {
    match i.spec_opcode() {
        Opcode::Ret => "ret"@,
        Opcode::Iret => "iret"@,
        Opcode::Scf => "scf"@,
        Opcode::Ccf => "ccf"@,
        Opcode::Jnz => "jnz "@ + spec_render_operand(i.spec_operand(0)),
        Opcode::Jnc => "jnc "@ + spec_render_operand(i.spec_operand(0)),
        Opcode::Jz => "jz "@ + spec_render_operand(i.spec_operand(0)),
        Opcode::Jc => "jc "@ + spec_render_operand(i.spec_operand(0)),
        Opcode::JccLo => "jcc.lo."@ + spec_hex_min(spec_selector(i.spec_operand(0)) as int) + " "@
            + spec_render_operand(i.spec_operand(1)),
        Opcode::JccHi => "jcc.hi."@ + spec_hex_min(spec_selector(i.spec_operand(0)) as int) + " "@
            + spec_render_operand(i.spec_operand(1)),
        Opcode::Adc => "adc r0, "@ + spec_render_operand(i.spec_operand(0)),
        Opcode::Sbc => "sbc r0, "@ + spec_render_operand(i.spec_operand(0)),
        Opcode::Cmp => "cmp r0, "@ + spec_render_operand(i.spec_operand(0)),
        Opcode::Bit => "bit r0, "@ + spec_render_operand(i.spec_operand(0)),
        Opcode::MovRnR0 => "r0 <- "@ + spec_render_operand(i.spec_operand(0)),
        Opcode::Or => "r0 |= "@ + spec_render_operand(i.spec_operand(0)),
        Opcode::And => "r0 &= "@ + spec_render_operand(i.spec_operand(0)),
        Opcode::Xor => "r0 ^= "@ + spec_render_operand(i.spec_operand(0)),
        Opcode::Add => "r0 += "@ + spec_render_operand(i.spec_operand(0)),
        Opcode::Rcl => "rcl "@ + spec_render_operand(i.spec_operand(0)),
        Opcode::Rcr => "rcr "@ + spec_render_operand(i.spec_operand(0)),
        Opcode::Inc => "inc "@ + spec_render_operand(i.spec_operand(0)),
        Opcode::IncW => "incw "@ + spec_render_operand(i.spec_operand(0)),
        Opcode::Dec => "dec "@ + spec_render_operand(i.spec_operand(0)),
        Opcode::Op5xHi => "op5xhi "@ + spec_render_operand(i.spec_operand(0)),
        Opcode::Op6xHi => "op6xhi "@ + spec_render_operand(i.spec_operand(0)),
        Opcode::MovR0Rn => spec_render_operand(i.spec_operand(0)) + " <- r0"@,
        Opcode::Push => "push "@ + spec_render_operand(i.spec_operand(0)),
        Opcode::Pop => "pop "@ + spec_render_operand(i.spec_operand(0)),
        Opcode::Jmp => "jmp "@ + spec_render_operand(i.spec_operand(0)),
        Opcode::Call => "call "@ + spec_render_operand(i.spec_operand(0)),
        Opcode::LoadImm8 => spec_render_operand(i.spec_operand(0)) + " <- "@
            + spec_render_operand(i.spec_operand(1)),
        Opcode::LoadAbs16 => spec_render_operand(i.spec_operand(0)) + " <- "@
            + spec_render_operand(i.spec_operand(1)),
        Opcode::StoreAbs16 => spec_render_operand(i.spec_operand(1)) + " <- "@
            + spec_render_operand(i.spec_operand(0)),
        Opcode::LoadRegPair => "r0 <- "@ + spec_render_operand(i.spec_operand(0)),
        Opcode::LoadRegPairC => "r0 <- "@ + spec_render_operand(i.spec_operand(0)),
        Opcode::StoreRegPair => spec_render_operand(i.spec_operand(0)) + " <- r0"@,
        Opcode::StoreRegPairC => spec_render_operand(i.spec_operand(0)) + " <- r0"@,
    }
}

/// The one-character string holding the hex digit for `v`.
fn digit_str(v: u8) -> (r: &'static str)
    requires
        v < 16,
    ensures
        r@ == seq![hex_digit(v as int)],
{
    proof {
        reveal_strlit("0");
        reveal_strlit("1");
        reveal_strlit("2");
        reveal_strlit("3");
        reveal_strlit("4");
        reveal_strlit("5");
        reveal_strlit("6");
        reveal_strlit("7");
        reveal_strlit("8");
        reveal_strlit("9");
        reveal_strlit("a");
        reveal_strlit("b");
        reveal_strlit("c");
        reveal_strlit("d");
        reveal_strlit("e");
        reveal_strlit("f");
        assert("0"@ =~= seq!['0']);
        assert("1"@ =~= seq!['1']);
        assert("2"@ =~= seq!['2']);
        assert("3"@ =~= seq!['3']);
        assert("4"@ =~= seq!['4']);
        assert("5"@ =~= seq!['5']);
        assert("6"@ =~= seq!['6']);
        assert("7"@ =~= seq!['7']);
        assert("8"@ =~= seq!['8']);
        assert("9"@ =~= seq!['9']);
        assert("a"@ =~= seq!['a']);
        assert("b"@ =~= seq!['b']);
        assert("c"@ =~= seq!['c']);
        assert("d"@ =~= seq!['d']);
        assert("e"@ =~= seq!['e']);
        assert("f"@ =~= seq!['f']);
    }
    match v {
        0 => "0",
        1 => "1",
        2 => "2",
        3 => "3",
        4 => "4",
        5 => "5",
        6 => "6",
        7 => "7",
        8 => "8",
        9 => "9",
        10 => "a",
        11 => "b",
        12 => "c",
        13 => "d",
        14 => "e",
        _ => "f",
    }
}

/// Append one hex digit for `v`.
fn push_digit(s: &mut String, v: u8)
    requires
        v < 16,
    ensures
        final(s)@ == old(s)@ + seq![hex_digit(v as int)],
{
    s.append(digit_str(v));
}

/// Append `v` as exactly two hex digits.
fn push_hex2(s: &mut String, v: u8)
    ensures
        final(s)@ == old(s)@ + spec_hex2(v as int),
{
    let ghost s0 = s@;
    s.append(digit_str(v / 16));
    s.append(digit_str(v % 16));
    proof {
        assert(s@ =~= s0 + spec_hex2(v as int));
    }
}

/// Append `v` as exactly four hex digits.
fn push_hex4(s: &mut String, v: u16)
    ensures
        final(s)@ == old(s)@ + spec_hex4(v as int),
{
    let ghost s0 = s@;
    s.append(digit_str((v / 4096) as u8));
    s.append(digit_str(((v / 256) % 16) as u8));
    s.append(digit_str(((v / 16) % 16) as u8));
    s.append(digit_str((v % 16) as u8));
    proof {
        assert(s@ =~= s0 + spec_hex4(v as int));
    }
}

/// Append `v` in as few hex digits as it needs.
fn push_hex_min(s: &mut String, v: u8)
    ensures
        final(s)@ == old(s)@ + spec_hex_min(v as int),
{
    if v < 16 {
        s.append(digit_str(v));
    } else {
        push_hex2(s, v);
    }
}

impl Operand {
    /// This operand's canonical text: exactly [`spec_render_operand`].
    pub fn render(&self) -> (r: String)
        requires
            operand_wf(*self),
        ensures
            r@ == spec_render_operand(*self),
    {
        match *self {
            Operand::Nothing => String::new(),
            Operand::Register { n } => {
                let mut s = String::from_str("r");
                push_digit(&mut s, n);
                s
            },
            Operand::RegisterPair { n } => {
                let mut s = String::from_str("r");
                push_digit(&mut s, n);
                s.append(":r");
                push_digit(&mut s, n + 1);
                s
            },
            Operand::MemAbs16 { addr } => {
                let mut s = String::from_str("[0x");
                push_hex4(&mut s, addr);
                s.append("]");
                s
            },
            Operand::MemRegIndirect { n } => {
                let mut s = String::from_str("[r");
                push_digit(&mut s, n);
                s.append(":r");
                push_digit(&mut s, n + 1);
                s.append("]");
                s
            },
            Operand::MemRegIndirectOffset { n, offs } => {
                let mut s = String::from_str("[r");
                push_digit(&mut s, n);
                s.append(":r");
                push_digit(&mut s, n + 1);
                s.append(" + 0x");
                push_hex_min(&mut s, offs);
                s.append("]");
                s
            },
            Operand::BranchRelI8 { rel } => {
                let mut s = if rel >= 0 {
                    String::from_str("$+0x")
                } else {
                    String::from_str("$-0x")
                };
                let mag: u8 = if rel >= 0 {
                    rel as u8
                } else {
                    (-(rel as i16)) as u8
                };
                proof {
                    assert(mag as int == branch_mag(rel));
                }
                push_hex_min(&mut s, mag);
                s
            },
            Operand::ImmU8 { imm } => {
                let mut s = String::from_str("0x");
                push_hex2(&mut s, imm);
                s
            },
            Operand::ImmU16 { imm } => {
                let mut s = String::from_str("0x");
                push_hex4(&mut s, imm);
                s
            },
        }
    }
}

impl Opcode {
    /// This opcode's mnemonic: exactly [`spec_mnemonic`].
    pub fn render(&self) -> (r: String)
        ensures
            r@ == spec_mnemonic(*self),
    {
        match *self {
            Opcode::Adc => String::from_str("adc"),
            Opcode::MovRnR0 => String::from_str("movrnr0"),
            Opcode::Or => String::from_str("or"),
            Opcode::And => String::from_str("and"),
            Opcode::Xor => String::from_str("xor"),
            Opcode::Rcl => String::from_str("rcl"),
            Opcode::Rcr => String::from_str("rcr"),
            Opcode::Inc => String::from_str("inc"),
            Opcode::IncW => String::from_str("incw"),
            Opcode::Dec => String::from_str("dec"),
            Opcode::Sbc => String::from_str("sbc"),
            Opcode::Add => String::from_str("add"),
            Opcode::Op5xHi => String::from_str("op5xhi"),
            Opcode::Scf => String::from_str("scf"),
            Opcode::Ccf => String::from_str("ccf"),
            Opcode::Bit => String::from_str("bit"),
            Opcode::Op6xHi => String::from_str("op6xhi"),
            Opcode::MovR0Rn => String::from_str("movr0rn"),
            Opcode::Cmp => String::from_str("cmp"),
            Opcode::Push => String::from_str("push"),
            Opcode::Pop => String::from_str("pop"),
            Opcode::Jz => String::from_str("jz"),
            Opcode::Jc => String::from_str("jc"),
            Opcode::JccLo => String::from_str("jcclo"),
            Opcode::Jnz => String::from_str("jnz"),
            Opcode::Jnc => String::from_str("jnc"),
            Opcode::JccHi => String::from_str("jcchi"),
            Opcode::Ret => String::from_str("ret"),
            Opcode::Iret => String::from_str("iret"),
            Opcode::Jmp => String::from_str("jmp"),
            Opcode::Call => String::from_str("call"),
            Opcode::LoadImm8 => String::from_str("loadimm8"),
            Opcode::LoadAbs16 => String::from_str("loadabs16"),
            Opcode::StoreAbs16 => String::from_str("storeabs16"),
            Opcode::LoadRegPair => String::from_str("loadregpair"),
            Opcode::StoreRegPair => String::from_str("storeregpair"),
            Opcode::LoadRegPairC => String::from_str("loadregpairc"),
            Opcode::StoreRegPairC => String::from_str("storeregpairc"),
        }
    }
}

impl Instruction {
    /// This instruction's canonical text: exactly
    /// [`spec_render_instruction`], a function of the instruction value
    /// alone. Only the register bounds of the operands are required; every
    /// instruction the decoder returns satisfies them.
    pub fn render(&self) -> (r: String)
        requires
            operand_wf(self.spec_operand(0)),
            operand_wf(self.spec_operand(1)),
        ensures
            r@ == spec_render_instruction(*self),
    {
        match self.opcode {
            Opcode::Ret => String::from_str("ret"),
            Opcode::Iret => String::from_str("iret"),
            Opcode::Scf => String::from_str("scf"),
            Opcode::Ccf => String::from_str("ccf"),
            Opcode::Jnz => {
                let mut s = String::from_str("jnz ");
                s.append(self.operand0.render().as_str());
                s
            },
            Opcode::Jnc => {
                let mut s = String::from_str("jnc ");
                s.append(self.operand0.render().as_str());
                s
            },
            Opcode::Jz => {
                let mut s = String::from_str("jz ");
                s.append(self.operand0.render().as_str());
                s
            },
            Opcode::Jc => {
                let mut s = String::from_str("jc ");
                s.append(self.operand0.render().as_str());
                s
            },
            Opcode::JccLo => {
                let sel: u8 = match self.operand0 {
                    Operand::ImmU8 { imm } => imm,
                    _ => 0,
                };
                let mut s = String::from_str("jcc.lo.");
                push_hex_min(&mut s, sel);
                s.append(" ");
                s.append(self.operand1.render().as_str());
                s
            },
            Opcode::JccHi => {
                let sel: u8 = match self.operand0 {
                    Operand::ImmU8 { imm } => imm,
                    _ => 0,
                };
                let mut s = String::from_str("jcc.hi.");
                push_hex_min(&mut s, sel);
                s.append(" ");
                s.append(self.operand1.render().as_str());
                s
            },
            Opcode::Adc => {
                let mut s = String::from_str("adc r0, ");
                s.append(self.operand0.render().as_str());
                s
            },
            Opcode::Sbc => {
                let mut s = String::from_str("sbc r0, ");
                s.append(self.operand0.render().as_str());
                s
            },
            Opcode::Cmp => {
                let mut s = String::from_str("cmp r0, ");
                s.append(self.operand0.render().as_str());
                s
            },
            Opcode::Bit => {
                let mut s = String::from_str("bit r0, ");
                s.append(self.operand0.render().as_str());
                s
            },
            Opcode::MovRnR0 => {
                let mut s = String::from_str("r0 <- ");
                s.append(self.operand0.render().as_str());
                s
            },
            Opcode::Or => {
                let mut s = String::from_str("r0 |= ");
                s.append(self.operand0.render().as_str());
                s
            },
            Opcode::And => {
                let mut s = String::from_str("r0 &= ");
                s.append(self.operand0.render().as_str());
                s
            },
            Opcode::Xor => {
                let mut s = String::from_str("r0 ^= ");
                s.append(self.operand0.render().as_str());
                s
            },
            Opcode::Add => {
                let mut s = String::from_str("r0 += ");
                s.append(self.operand0.render().as_str());
                s
            },
            Opcode::Rcl => {
                let mut s = String::from_str("rcl ");
                s.append(self.operand0.render().as_str());
                s
            },
            Opcode::Rcr => {
                let mut s = String::from_str("rcr ");
                s.append(self.operand0.render().as_str());
                s
            },
            Opcode::Inc => {
                let mut s = String::from_str("inc ");
                s.append(self.operand0.render().as_str());
                s
            },
            Opcode::IncW => {
                let mut s = String::from_str("incw ");
                s.append(self.operand0.render().as_str());
                s
            },
            Opcode::Dec => {
                let mut s = String::from_str("dec ");
                s.append(self.operand0.render().as_str());
                s
            },
            Opcode::Op5xHi => {
                let mut s = String::from_str("op5xhi ");
                s.append(self.operand0.render().as_str());
                s
            },
            Opcode::Op6xHi => {
                let mut s = String::from_str("op6xhi ");
                s.append(self.operand0.render().as_str());
                s
            },
            Opcode::MovR0Rn => {
                let mut s = self.operand0.render();
                s.append(" <- r0");
                s
            },
            Opcode::Push => {
                let mut s = String::from_str("push ");
                s.append(self.operand0.render().as_str());
                s
            },
            Opcode::Pop => {
                let mut s = String::from_str("pop ");
                s.append(self.operand0.render().as_str());
                s
            },
            Opcode::Jmp => {
                let mut s = String::from_str("jmp ");
                s.append(self.operand0.render().as_str());
                s
            },
            Opcode::Call => {
                let mut s = String::from_str("call ");
                s.append(self.operand0.render().as_str());
                s
            },
            Opcode::LoadImm8 => {
                let mut s = self.operand0.render();
                s.append(" <- ");
                s.append(self.operand1.render().as_str());
                s
            },
            Opcode::LoadAbs16 => {
                let mut s = self.operand0.render();
                s.append(" <- ");
                s.append(self.operand1.render().as_str());
                s
            },
            Opcode::StoreAbs16 => {
                let mut s = self.operand1.render();
                s.append(" <- ");
                s.append(self.operand0.render().as_str());
                s
            },
            Opcode::LoadRegPair => {
                let mut s = String::from_str("r0 <- ");
                s.append(self.operand0.render().as_str());
                s
            },
            Opcode::LoadRegPairC => {
                let mut s = String::from_str("r0 <- ");
                s.append(self.operand0.render().as_str());
                s
            },
            Opcode::StoreRegPair => {
                let mut s = self.operand0.render();
                s.append(" <- r0");
                s
            },
            Opcode::StoreRegPairC => {
                let mut s = self.operand0.render();
                s.append(" <- r0");
                s
            },
        }
    }
}

/// Rendering is deterministic: the text of an instruction depends on the
/// instruction value alone, so equal instructions render to equal text.
pub proof fn lemma_render_deterministic(a: Instruction, b: Instruction)
    requires
        a == b,
    ensures
        spec_render_instruction(a) == spec_render_instruction(b),
{
}

} // verus!
