//! A decoder and renderer for the instruction set of Avnera audio
//! microcontrollers.
//!
//! The instruction set is undocumented; the encoding handled here was inferred
//! from firmware dumps. A byte stream is decoded one instruction at a time:
//! the first byte selects an opcode family by its top five bits, the bottom
//! three bits usually pick a register or a sub-case, and some families consume
//! one or two further operand bytes. Decoded instructions render to a
//! canonical assembly text.
//!
//! The decode algorithm is specified by [`decode::spec_decode`], a mathematical
//! function from a byte sequence to an instruction or a [`DecodeError`], and
//! the rendering by spec functions in [`display`]; the executable code is
//! verified against both.

use vstd::prelude::*;

pub mod decode;
pub mod display;

pub use decode::{ByteReader, InstDecoder};

verus! {

/// A marker type for the Avnera architecture: 16-bit addresses, 8-bit words,
/// instructions of one to three bytes.
#[derive(Hash, Eq, PartialEq, Debug, Copy, Clone)]
pub struct Avnera;

/// Why a decode failed. These are the only two failure modes: the input ran
/// out while a byte was still needed, or the opcode byte has no meaning.
#[derive(Debug, Copy, Clone, Hash, PartialEq, Eq, Structural)]
pub enum DecodeError {
    /// The input ended while the decoder still needed a byte (the opcode byte
    /// itself, or a required operand byte).
    Truncated,
    /// The opcode byte falls in an unpopulated family, or is an undefined
    /// exact value within a family that has exact-value overrides.
    InvalidOpcode,
}

/// An operand of an Avnera instruction.
#[derive(Debug, Copy, Clone, Hash, PartialEq, Eq, Structural)]
#[allow(inconsistent_fields)]
pub enum Operand {
    /// No operand in this position. This is an internal filler for unused
    /// slots; [`Instruction::operand`] returns `None` rather than ever
    /// handing it out.
    Nothing,
    /// A direct register reference `rN`, with `n` in `0..=7`.
    Register { n: u8 },
    /// A register pair `rN:rN+1`, with `n` in `0..=7`. Programs seem to pick
    /// even `n` by convention; odd `n` is not rejected.
    RegisterPair { n: u8 },
    /// Memory at a fixed 16-bit address.
    MemAbs16 { addr: u16 },
    /// Memory at the address held in a register pair: `[rN:rN+1]`.
    MemRegIndirect { n: u8 },
    /// Memory at a register pair plus an 8-bit offset: `[rN:rN+1 + offs]`.
    MemRegIndirectOffset { n: u8, offs: u8 },
    /// A relative branch: the target is the address of the next instruction
    /// plus `rel`, sign-extended.
    BranchRelI8 { rel: i8 },
    /// An 8-bit immediate.
    ImmU8 { imm: u8 },
    /// A 16-bit immediate, little-endian on the wire.
    ImmU16 { imm: u16 },
}

/// The operation of an Avnera instruction. Semantics are mostly unknown; the
/// mnemonics are inferred. Two families whose meaning is unresolved are kept
/// as the distinct opaque opcodes [`Opcode::Op5xHi`] and [`Opcode::Op6xHi`].
#[derive(Debug, Copy, Clone, Hash, PartialEq, Eq, Structural)]
pub enum Opcode {
    /// Add with carry from register N into register 0.
    Adc,
    /// Move from register N to register 0.
    MovRnR0,
    /// Bitwise `or` from register N into register 0.
    Or,
    /// Bitwise `and` from register N into register 0.
    And,
    /// Bitwise `xor` from register N into register 0.
    Xor,
    /// Rotate register N left once through carry.
    Rcl,
    /// Rotate register N right once through carry.
    Rcr,
    /// Increment register N.
    Inc,
    /// Decrement register N.
    Dec,
    /// Increment register pair `rN:rN+1`.
    IncW,
    /// Subtract with carry from register N into register 0.
    Sbc,
    /// Add from register N into register 0.
    Add,
    /// An unknown operation in the byte range `0x58..=0x5f` (except `0x59`).
    Op5xHi,
    /// Set the carry flag.
    Scf,
    /// Clear the carry flag.
    Ccf,
    /// Toggle bit `n` in register 0.
    Bit,
    /// An unknown operation in the byte range `0x68..=0x6f` (except `0x69`).
    Op6xHi,
    /// Move from register 0 to register N.
    MovR0Rn,
    /// Compare registers N and 0, setting flags.
    Cmp,
    /// Push register N.
    Push,
    /// Pop register N.
    Pop,
    /// Branch if the `z` bit is clear.
    Jnz,
    /// Branch if the `c` bit is clear.
    Jnc,
    /// Conditional branch with an unknown condition, from the byte range
    /// `0x92..=0x97`; the first operand is the condition-selector bit pattern.
    JccLo,
    /// Branch if the `z` bit is set.
    Jz,
    /// Branch if the `c` bit is set.
    Jc,
    /// Conditional branch with an unknown condition, from the byte range
    /// `0x9a..=0x9f`; the first operand is the condition-selector bit pattern.
    JccHi,
    /// Return.
    Ret,
    /// Return from an interrupt handler.
    Iret,
    /// Jump to an absolute 16-bit address.
    Jmp,
    /// Call an absolute 16-bit address.
    Call,
    /// Load an 8-bit immediate into register N.
    LoadImm8,
    /// Load from an absolute 16-bit address into register N.
    LoadAbs16,
    /// Store register N to an absolute 16-bit address.
    StoreAbs16,
    /// Load from `[rM:rM+1]` into register 0.
    LoadRegPair,
    /// Store register 0 to `[rM:rM+1]`.
    StoreRegPair,
    /// Load from `[rM:rM+1 + C]` into register 0.
    LoadRegPairC,
    /// Store register 0 to `[rM:rM+1 + C]`.
    StoreRegPairC,
}

/// How many operand slots an opcode populates: its arity.
pub open spec fn arity(op: Opcode) -> nat {
    match op {
        Opcode::Scf => 0,
        Opcode::Ccf => 0,
        Opcode::Ret => 0,
        Opcode::Iret => 0,
        Opcode::JccLo => 2,
        Opcode::JccHi => 2,
        Opcode::StoreAbs16 => 2,
        Opcode::LoadImm8 => 2,
        Opcode::LoadAbs16 => 2,
        _ => 1,
    }
}

/// A well-formed operand: register indices fit the eight registers `r0..r7`.
/// This bound is an observed convention of the encoding (the three low bits of
/// the opcode byte select the register), not a hardware-enforced rule.
pub open spec fn operand_wf(o: Operand) -> bool {
    match o {
        Operand::Register { n } => n < 8,
        Operand::RegisterPair { n } => n < 8,
        Operand::MemRegIndirect { n } => n < 8,
        Operand::MemRegIndirectOffset { n, offs } => n < 8,
        _ => true,
    }
}

/// One decoded Avnera instruction: an opcode, up to two operands in encoding
/// order, and the number of bytes its encoding occupied.
#[derive(Debug, Copy, Clone, Hash, PartialEq, Eq, Structural)]
pub struct Instruction {
    opcode: Opcode,
    operand0: Operand,
    operand1: Operand,
    operand_count: u8,
    length: u8,
}

impl Instruction {
    /// The opcode of this instruction.
    pub closed spec fn spec_opcode(&self) -> Opcode {
        self.opcode
    }

    /// The operand in slot `idx` (0 or 1), `Operand::Nothing` for an unused
    /// slot.
    pub closed spec fn spec_operand(&self, idx: int) -> Operand {
        if idx == 0 {
            self.operand0
        } else {
            self.operand1
        }
    }

    /// How many leading operand slots are populated.
    pub closed spec fn spec_operand_count(&self) -> u8 {
        self.operand_count
    }

    /// How many bytes of input this instruction's encoding occupied.
    pub closed spec fn spec_length(&self) -> u8 {
        self.length
    }

    /// A well-formed instruction: the operand count matches the opcode's
    /// arity, exactly the leading `operand_count` slots are populated, the
    /// operands themselves are well formed, and a conditional-branch group
    /// carries its condition selector as an 8-bit immediate in slot 0.
    pub open spec fn wf(&self) -> bool {
        &&& self.spec_operand_count() == arity(self.spec_opcode())
        &&& self.spec_operand_count() <= 2
        &&& (self.spec_operand(0) is Nothing <==> self.spec_operand_count() == 0)
        &&& (self.spec_operand(1) is Nothing <==> self.spec_operand_count() <= 1)
        &&& operand_wf(self.spec_operand(0))
        &&& operand_wf(self.spec_operand(1))
        &&& (self.spec_opcode() == Opcode::JccLo || self.spec_opcode() == Opcode::JccHi)
            ==> self.spec_operand(0) is ImmU8
    }

    /// The length, in bytes, of this instruction's encoding.
    pub fn len(&self) -> (r: u8)
        ensures
            r == self.spec_length(),
    {
        self.length
    }

    /// How many operands this instruction has: 0, 1 or 2.
    pub fn operand_count(&self) -> (r: u8)
        ensures
            r == self.spec_operand_count(),
    {
        self.operand_count
    }

    /// The operand in position `idx`: `Some` exactly when `idx` is below
    /// [`Instruction::operand_count`], and never `Operand::Nothing` on a
    /// well-formed instruction.
    pub fn operand(&self, idx: u8) -> (r: Option<Operand>)
        ensures
            idx < self.spec_operand_count() && idx < 2 ==> r == Some(self.spec_operand(idx as int)),
            idx >= self.spec_operand_count() || idx >= 2 ==> r is None,
            self.wf() ==> (r is Some <==> idx < self.spec_operand_count()),
            self.wf() ==> (r matches Some(o) ==> !(o is Nothing)),
    {
        if idx == 0 && 0 < self.operand_count {
            Some(self.operand0)
        } else if idx == 1 && 1 < self.operand_count {
            Some(self.operand1)
        } else {
            None
        }
    }

    pub(crate) fn reset_operands(&mut self)
        ensures
            final(self).spec_opcode() == old(self).spec_opcode(),
            final(self).spec_length() == old(self).spec_length(),
            final(self).spec_operand(0) is Nothing,
            final(self).spec_operand(1) is Nothing,
            final(self).spec_operand_count() == 0,
    {
        self.operand0 = Operand::Nothing;
        self.operand1 = Operand::Nothing;
        self.operand_count = 0;
    }

    pub(crate) fn set_length(&mut self, length: u8)
        ensures
            final(self).spec_opcode() == old(self).spec_opcode(),
            final(self).spec_operand(0) == old(self).spec_operand(0),
            final(self).spec_operand(1) == old(self).spec_operand(1),
            final(self).spec_operand_count() == old(self).spec_operand_count(),
            final(self).spec_length() == length,
    {
        self.length = length;
    }

    pub(crate) fn new_0op(opcode: Opcode) -> (r: Self)
        ensures
            r.spec_opcode() == opcode,
            r.spec_operand(0) is Nothing,
            r.spec_operand(1) is Nothing,
            r.spec_operand_count() == 0,
            r.spec_length() == 0,
    {
        Self {
            opcode,
            operand0: Operand::Nothing,
            operand1: Operand::Nothing,
            operand_count: 0,
            length: 0,
        }
    }

    pub(crate) fn new_1op(opcode: Opcode, operand: Operand) -> (r: Self)
        ensures
            r.spec_opcode() == opcode,
            r.spec_operand(0) == operand,
            r.spec_operand(1) is Nothing,
            r.spec_operand_count() == 1,
            r.spec_length() == 0,
    {
        Self {
            opcode,
            operand0: operand,
            operand1: Operand::Nothing,
            operand_count: 1,
            length: 0,
        }
    }

    pub(crate) fn new_2op(opcode: Opcode, operand0: Operand, operand1: Operand) -> (r: Self)
        ensures
            r.spec_opcode() == opcode,
            r.spec_operand(0) == operand0,
            r.spec_operand(1) == operand1,
            r.spec_operand_count() == 2,
            r.spec_length() == 0,
    {
        Self {
            opcode,
            operand0,
            operand1,
            operand_count: 2,
            length: 0,
        }
    }
}

impl Default for Instruction {
    /// A placeholder instruction: a zero-operand `scf` of length 0, meant to
    /// be overwritten by a decode.
    fn default() -> (r: Instruction)
        ensures
            r.spec_opcode() == Opcode::Scf,
            r.spec_operand(0) is Nothing,
            r.spec_operand(1) is Nothing,
            r.spec_operand_count() == 0,
            r.spec_length() == 0,
            r.wf(),
    {
        Instruction {
            opcode: Opcode::Scf,
            operand0: Operand::Nothing,
            operand1: Operand::Nothing,
            operand_count: 0,
            length: 0,
        }
    }
}

} // verus!
