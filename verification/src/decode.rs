//! The byte-to-instruction decoder.
//!
//! [`spec_decode`] is the mathematical definition of the instruction
//! encoding: a function from a byte sequence to the instruction its first
//! bytes hold, or to the error that decoding them must raise. The executable
//! decoder is verified to agree with it exactly.

use vstd::prelude::*;

use crate::{arity, DecodeError, Instruction, Opcode, Operand};

verus! {

/// A sequential byte cursor over a slice, with the mark/next/offset shape the
/// decoder needs: `mark` records the start of the current decode, `next`
/// yields the byte under the cursor or fails at the end of input, and
/// `offset` tells how many bytes were consumed since the last mark.
pub struct ByteReader<'a> {
    data: &'a [u8],
    pos: usize,
    mark: usize,
}

impl<'a> ByteReader<'a> {
    /// The whole underlying byte sequence.
    pub closed spec fn bytes(&self) -> Seq<u8> {
        self.data@
    }

    /// How many bytes the cursor has consumed from the start of the slice.
    pub closed spec fn position(&self) -> int {
        self.pos as int
    }

    /// The position recorded by the last `mark` (0 before any mark).
    pub closed spec fn marked(&self) -> int {
        self.mark as int
    }

    /// The cursor is inside its slice and the mark does not lie ahead of it.
    pub open spec fn wf(&self) -> bool {
        0 <= self.marked() <= self.position() <= self.bytes().len()
    }

    /// The bytes not yet consumed.
    pub open spec fn remaining(&self) -> Seq<u8> {
        self.bytes().skip(self.position())
    }

    /// A cursor at the start of `data`.
    pub fn new(data: &'a [u8]) -> (r: Self)
        ensures
            r.bytes() == data@,
            r.position() == 0,
            r.marked() == 0,
            r.wf(),
    {
        ByteReader { data, pos: 0, mark: 0 }
    }

    /// Record the current position as the start of the current decode.
    pub fn mark(&mut self)
        requires
            old(self).wf(),
        ensures
            final(self).wf(),
            final(self).bytes() == old(self).bytes(),
            final(self).position() == old(self).position(),
            final(self).marked() == old(self).position(),
    {
        self.mark = self.pos;
    }

    /// The byte under the cursor, advancing past it; `Truncated` at the end
    /// of input, leaving the cursor in place.
    pub fn next(&mut self) -> (r: Result<u8, DecodeError>)
        requires
            old(self).wf(),
        ensures
            final(self).wf(),
            final(self).bytes() == old(self).bytes(),
            final(self).marked() == old(self).marked(),
            old(self).position() < old(self).bytes().len() ==> {
                &&& r == Ok::<u8, DecodeError>(old(self).bytes()[old(self).position()])
                &&& final(self).position() == old(self).position() + 1
            },
            old(self).position() >= old(self).bytes().len() ==> {
                &&& r == Err::<u8, DecodeError>(DecodeError::Truncated)
                &&& final(self).position() == old(self).position()
            },
    {
        if self.pos < self.data.len() {
            let b = self.data[self.pos];
            self.pos = self.pos + 1;
            Ok(b)
        } else {
            Err(DecodeError::Truncated)
        }
    }

    /// How many bytes were consumed since the last mark.
    pub fn offset(&self) -> (r: usize)
        requires
            self.wf(),
        ensures
            r as int == self.position() - self.marked(),
    {
        self.pos - self.mark
    }
}

/// The 16-bit value that two bytes hold in little-endian order.
pub open spec fn le16(lo: u8, hi: u8) -> u16 {
    (lo as u16) | ((hi as u16) << 8)
}

/// The little-endian pair holds the low byte plus 256 times the high byte.
pub proof fn lemma_le16_value(lo: u8, hi: u8)
    ensures
        le16(lo, hi) as int == lo as int + 256 * (hi as int),
{
    assert(((lo as u16) | ((hi as u16) << 8)) == (lo as u16) + 256 * (hi as u16))
        by (bit_vector);
}

/// The relative-branch byte is read as a signed two's-complement offset:
/// bytes below 128 keep their value, the rest wrap to negative.
pub proof fn lemma_branch_rel_signed(b: u8)
    ensures
        (b as i8) as int == if b < 128 {
            b as int
        } else {
            b as int - 256
        },
{
    assert((b as i8) as int == if b < 128 {
        b as int
    } else {
        b as int - 256
    }) by (bit_vector);
}

spec fn sinst(op: Opcode, count: u8, o0: Operand, o1: Operand, len: u8) -> Instruction {
    Instruction { opcode: op, operand0: o0, operand1: o1, operand_count: count, length: len }
}

/// What decoding the first bytes of `s` yields: the instruction they encode,
/// `Truncated` where a needed byte is missing, or `InvalidOpcode` where the
/// first byte has no meaning.
///
/// The first byte is split into a family (its top five bits) and low bits
/// (its bottom three). Families `0x00`..`0x88` and `0xc0`, `0xd0`, `0xf0` are
/// single-byte encodings; `0x90`, `0x98`, `0xd8`, `0xe0`, `0xf8` read one
/// further byte; `0xc8`, `0xe8` and the `jmp`/`call` values of `0xb8` read
/// two further bytes, little-endian. `0x58`, `0x68` and `0xb8` carve exact
/// byte values out of their family.
pub closed spec fn spec_decode(s: Seq<u8>) -> Result<Instruction, DecodeError> {
    if s.len() < 1 {
        Err(DecodeError::Truncated)
    } else {
        let b = s[0];
        let low = b & 7;
        let fam = b & 0xf8;
        if fam == 0x00 {
            Ok(sinst(Opcode::Inc, 1, Operand::Register { n: low }, Operand::Nothing, 1))
        } else if fam == 0x08 {
            Ok(sinst(Opcode::Adc, 1, Operand::Register { n: low }, Operand::Nothing, 1))
        } else if fam == 0x10 {
            Ok(sinst(Opcode::MovRnR0, 1, Operand::Register { n: low }, Operand::Nothing, 1))
        } else if fam == 0x18 {
            Ok(sinst(Opcode::Or, 1, Operand::Register { n: low }, Operand::Nothing, 1))
        } else if fam == 0x20 {
            Ok(sinst(Opcode::And, 1, Operand::Register { n: low }, Operand::Nothing, 1))
        } else if fam == 0x28 {
            Ok(sinst(Opcode::Xor, 1, Operand::Register { n: low }, Operand::Nothing, 1))
        } else if fam == 0x30 {
            Ok(sinst(Opcode::Rcl, 1, Operand::Register { n: low }, Operand::Nothing, 1))
        } else if fam == 0x38 {
            Ok(sinst(Opcode::Rcr, 1, Operand::Register { n: low }, Operand::Nothing, 1))
        } else if fam == 0x40 {
            Ok(sinst(Opcode::Dec, 1, Operand::Register { n: low }, Operand::Nothing, 1))
        } else if fam == 0x48 {
            Ok(sinst(Opcode::Sbc, 1, Operand::Register { n: low }, Operand::Nothing, 1))
        } else if fam == 0x50 {
            Ok(sinst(Opcode::Add, 1, Operand::Register { n: low }, Operand::Nothing, 1))
        } else if fam == 0x58 {
            if b == 0x59 {
                Ok(sinst(Opcode::Scf, 0, Operand::Nothing, Operand::Nothing, 1))
            } else {
                Ok(sinst(Opcode::Op5xHi, 1, Operand::ImmU8 { imm: low }, Operand::Nothing, 1))
            }
        } else if fam == 0x60 {
            Ok(sinst(Opcode::Bit, 1, Operand::ImmU8 { imm: low }, Operand::Nothing, 1))
        } else if fam == 0x68 {
            if b == 0x69 {
                Ok(sinst(Opcode::Ccf, 0, Operand::Nothing, Operand::Nothing, 1))
            } else {
                Ok(sinst(Opcode::Op6xHi, 1, Operand::ImmU8 { imm: low }, Operand::Nothing, 1))
            }
        } else if fam == 0x70 {
            Ok(sinst(Opcode::MovR0Rn, 1, Operand::Register { n: low }, Operand::Nothing, 1))
        } else if fam == 0x78 {
            Ok(sinst(Opcode::Cmp, 1, Operand::Register { n: low }, Operand::Nothing, 1))
        } else if fam == 0x80 {
            Ok(sinst(Opcode::Push, 1, Operand::Register { n: low }, Operand::Nothing, 1))
        } else if fam == 0x88 {
            Ok(sinst(Opcode::Pop, 1, Operand::Register { n: low }, Operand::Nothing, 1))
        } else if fam == 0x90 {
            if s.len() < 2 {
                Err(DecodeError::Truncated)
            } else {
                let rel = Operand::BranchRelI8 { rel: s[1] as i8 };
                if low == 0 {
                    Ok(sinst(Opcode::Jnz, 1, rel, Operand::Nothing, 2))
                } else if low == 1 {
                    Ok(sinst(Opcode::Jnc, 1, rel, Operand::Nothing, 2))
                } else {
                    Ok(sinst(Opcode::JccLo, 2, Operand::ImmU8 { imm: low }, rel, 2))
                }
            }
        } else if fam == 0x98 {
            if s.len() < 2 {
                Err(DecodeError::Truncated)
            } else {
                let rel = Operand::BranchRelI8 { rel: s[1] as i8 };
                if low == 0 {
                    Ok(sinst(Opcode::Jz, 1, rel, Operand::Nothing, 2))
                } else if low == 1 {
                    Ok(sinst(Opcode::Jc, 1, rel, Operand::Nothing, 2))
                } else {
                    Ok(sinst(Opcode::JccHi, 2, Operand::ImmU8 { imm: low }, rel, 2))
                }
            }
        } else if fam == 0xb8 {
            if b == 0xb9 {
                Ok(sinst(Opcode::Ret, 0, Operand::Nothing, Operand::Nothing, 1))
            } else if b == 0xba {
                Ok(sinst(Opcode::Iret, 0, Operand::Nothing, Operand::Nothing, 1))
            } else if b == 0xbc {
                if s.len() < 3 {
                    Err(DecodeError::Truncated)
                } else {
                    Ok(sinst(Opcode::Jmp, 1, Operand::ImmU16 { imm: le16(s[1], s[2]) },
                        Operand::Nothing, 3))
                }
            } else if b == 0xbf {
                if s.len() < 3 {
                    Err(DecodeError::Truncated)
                } else {
                    Ok(sinst(Opcode::Call, 1, Operand::ImmU16 { imm: le16(s[1], s[2]) },
                        Operand::Nothing, 3))
                }
            } else {
                Err(DecodeError::InvalidOpcode)
            }
        } else if fam == 0xc0 {
            Ok(sinst(Opcode::IncW, 1, Operand::RegisterPair { n: low }, Operand::Nothing, 1))
        } else if fam == 0xc8 {
            if s.len() < 3 {
                Err(DecodeError::Truncated)
            } else {
                Ok(sinst(Opcode::StoreAbs16, 2, Operand::Register { n: low },
                    Operand::MemAbs16 { addr: le16(s[1], s[2]) }, 3))
            }
        } else if fam == 0xd0 {
            Ok(sinst(Opcode::StoreRegPair, 1, Operand::MemRegIndirect { n: low },
                Operand::Nothing, 1))
        } else if fam == 0xd8 {
            if s.len() < 2 {
                Err(DecodeError::Truncated)
            } else {
                Ok(sinst(Opcode::StoreRegPairC, 1,
                    Operand::MemRegIndirectOffset { n: low, offs: s[1] }, Operand::Nothing, 2))
            }
        } else if fam == 0xe0 {
            if s.len() < 2 {
                Err(DecodeError::Truncated)
            } else {
                Ok(sinst(Opcode::LoadImm8, 2, Operand::Register { n: low },
                    Operand::ImmU8 { imm: s[1] }, 2))
            }
        } else if fam == 0xe8 {
            if s.len() < 3 {
                Err(DecodeError::Truncated)
            } else {
                Ok(sinst(Opcode::LoadAbs16, 2, Operand::Register { n: low },
                    Operand::MemAbs16 { addr: le16(s[1], s[2]) }, 3))
            }
        } else if fam == 0xf0 {
            Ok(sinst(Opcode::LoadRegPair, 1, Operand::MemRegIndirect { n: low },
                Operand::Nothing, 1))
        } else if fam == 0xf8 {
            if s.len() < 2 {
                Err(DecodeError::Truncated)
            } else {
                Ok(sinst(Opcode::LoadRegPairC, 1,
                    Operand::MemRegIndirectOffset { n: low, offs: s[1] }, Operand::Nothing, 2))
            }
        } else {
            Err(DecodeError::InvalidOpcode)
        }
    }
}

/// Decoding never goes wrong in any third way: whatever the first byte (all
/// 256 values) and whatever follows it, the result is either a well-formed
/// instruction — its operand count is its opcode's arity, its length is one
/// to three bytes, none of which lay beyond the input — or one of the two
/// decode errors.
pub proof fn lemma_decode_total(s: Seq<u8>)
    ensures
        (match spec_decode(s) {
            Ok(i) => i.wf() && 1 <= i.spec_length() <= 3 && i.spec_length() as int <= s.len()
                && i.spec_operand_count() == arity(i.spec_opcode()),
            Err(e) => e == DecodeError::Truncated || e == DecodeError::InvalidOpcode,
        }),
{
    if s.len() >= 1 {
        let b = s[0];
        assert((b & 7) < 8) by (bit_vector);
    }
}

/// Decoding reads nothing past the bytes the instruction occupies: a byte
/// sequence that agrees with `s` on the `length` bytes of the instruction
/// that `s` decodes to decodes to the identical instruction.
pub proof fn lemma_decode_window(s: Seq<u8>, t: Seq<u8>)
    requires
        spec_decode(s) is Ok,
        spec_decode(s)->Ok_0.spec_length() as int <= t.len(),
        forall|j: int|
            0 <= j < spec_decode(s)->Ok_0.spec_length() as int ==> t[j] == s[j],
    ensures
        spec_decode(t) == spec_decode(s),
{
    lemma_decode_total(s);
    assert(t[0] == s[0]);
    let i = spec_decode(s)->Ok_0;
    if i.spec_length() >= 2 {
        assert(t[1] == s[1]);
    }
    if i.spec_length() >= 3 {
        assert(t[2] == s[2]);
    }
}

/// Re-decoding exactly the window of bytes an instruction was decoded from —
/// its first `length` bytes — yields the structurally identical instruction.
pub proof fn lemma_redecode_window(s: Seq<u8>)
    requires
        spec_decode(s) is Ok,
    ensures
        spec_decode(s.take(spec_decode(s)->Ok_0.spec_length() as int)) == spec_decode(s),
{
    lemma_decode_total(s);
    let len = spec_decode(s)->Ok_0.spec_length() as int;
    lemma_decode_window(s, s.take(len));
}

/// The empty byte sequence decodes to `Truncated`.
pub proof fn lemma_decode_empty()
    ensures
        spec_decode(Seq::<u8>::empty()) == Err::<Instruction, DecodeError>(DecodeError::Truncated),
{
}

/// Cutting a decodable byte sequence anywhere short of its instruction's
/// length — including to nothing — makes decoding fail with `Truncated`, and
/// with nothing else.
pub proof fn lemma_decode_truncated_prefix(s: Seq<u8>, k: int)
    requires
        spec_decode(s) is Ok,
        0 <= k < spec_decode(s)->Ok_0.spec_length() as int,
    ensures
        spec_decode(s.take(k)) == Err::<Instruction, DecodeError>(DecodeError::Truncated),
{
    lemma_decode_total(s);
    if k >= 1 {
        assert(s.take(k)[0] == s[0]);
    }
    if k >= 2 {
        assert(s.take(k)[1] == s[1]);
    }
}

/// The Avnera instruction decoder. It holds no state; decoding is a pure
/// function of the bytes under the cursor.
#[derive(Debug, Copy, Clone, PartialEq, Eq, Hash, PartialOrd, Ord)]
pub struct InstDecoder {}

impl Default for InstDecoder {
    fn default() -> (r: Self)
        ensures
            r == (InstDecoder {  }),
    {
        InstDecoder {  }
    }
}

/// Read two bytes as a little-endian 16-bit value.
fn next_u16(words: &mut ByteReader<'_>) -> (r: Result<u16, DecodeError>)
    requires
        old(words).wf(),
    ensures
        final(words).wf(),
        final(words).bytes() == old(words).bytes(),
        final(words).marked() == old(words).marked(),
        old(words).position() + 2 <= old(words).bytes().len() ==> {
            &&& r == Ok::<u16, DecodeError>(le16(
                old(words).bytes()[old(words).position()],
                old(words).bytes()[old(words).position() + 1],
            ))
            &&& final(words).position() == old(words).position() + 2
        },
        old(words).position() + 2 > old(words).bytes().len() ==> {
            &&& r == Err::<u16, DecodeError>(DecodeError::Truncated)
            &&& final(words).position() == old(words).bytes().len()
        },
{
    let i_lo = match words.next() {
        Ok(b) => b,
        Err(e) => {
            return Err(e);
        },
    };
    let i_hi = match words.next() {
        Ok(b) => b,
        Err(e) => {
            return Err(e);
        },
    };
    Ok((i_lo as u16) | ((i_hi as u16) << 8))
}

impl InstDecoder {
    /// Decode one instruction from the start of `data`.
    ///
    /// The result is exactly [`spec_decode`] of the slice's contents; on
    /// success the instruction's length says how many of the leading bytes it
    /// occupied.
    pub fn decode_slice(data: &[u8]) -> (r: Result<Instruction, DecodeError>)
        ensures
            r == spec_decode(data@),
    {
        let mut reader = ByteReader::new(data);
        proof {
            assert(reader.remaining() =~= data@);
        }
        InstDecoder::default().decode(&mut reader)
    }

    /// Decode one instruction from the cursor.
    ///
    /// The result is exactly [`spec_decode`] of the bytes remaining at the
    /// cursor; on success the cursor advances by the instruction's length,
    /// which is the number of bytes consumed.
    pub fn decode(&self, words: &mut ByteReader<'_>) -> (r: Result<Instruction, DecodeError>)
        requires
            old(words).wf(),
        ensures
            final(words).wf(),
            final(words).bytes() == old(words).bytes(),
            final(words).marked() == old(words).position(),
            (match spec_decode(old(words).remaining()) {
                Ok(i) => r == Ok::<Instruction, DecodeError>(i) && final(words).position()
                    == old(words).position() + i.spec_length() as int,
                Err(e) => r == Err::<Instruction, DecodeError>(e),
            }),
    {
        let mut inst = Instruction::default();
        match self.decode_into(&mut inst, words) {
            Ok(()) => Ok(inst),
            Err(e) => Err(e),
        }
    }

    /// Decode one instruction from the cursor into `inst`.
    ///
    /// On success `inst` is exactly the instruction [`spec_decode`] gives for
    /// the bytes remaining at the cursor, and the cursor advances by its
    /// length. On failure `inst` holds no meaningful value and the caller
    /// must discard it.
    pub fn decode_into(&self, inst: &mut Instruction, words: &mut ByteReader<'_>) -> (r: Result<
        (),
        DecodeError,
    >)
        requires
            old(words).wf(),
        ensures
            final(words).wf(),
            final(words).bytes() == old(words).bytes(),
            final(words).marked() == old(words).position(),
            (match spec_decode(old(words).remaining()) {
                Ok(i) => r == Ok::<(), DecodeError>(()) && *final(inst) == i
                    && final(words).position() == old(words).position() + i.spec_length() as int,
                Err(e) => r == Err::<(), DecodeError>(e),
            }),
    {
        let ghost rem = old(words).remaining();
        inst.set_length(0);
        inst.reset_operands();
        words.mark();
        let word = match words.next() {
            Ok(b) => b,
            Err(e) => {
                return Err(e);
            },
        };
        proof {
            assert(rem.len() >= 1);
            assert(rem[0] == word);
        }
        let low_bits = word & 0b111;

        let decoded = match word & 0xf8 {
            0x00 => Instruction::new_1op(Opcode::Inc, Operand::Register { n: low_bits }),
            0x08 => Instruction::new_1op(Opcode::Adc, Operand::Register { n: low_bits }),
            0x10 => Instruction::new_1op(Opcode::MovRnR0, Operand::Register { n: low_bits }),
            0x18 => Instruction::new_1op(Opcode::Or, Operand::Register { n: low_bits }),
            0x20 => Instruction::new_1op(Opcode::And, Operand::Register { n: low_bits }),
            0x28 => Instruction::new_1op(Opcode::Xor, Operand::Register { n: low_bits }),
            0x30 => Instruction::new_1op(Opcode::Rcl, Operand::Register { n: low_bits }),
            0x38 => Instruction::new_1op(Opcode::Rcr, Operand::Register { n: low_bits }),
            0x40 => Instruction::new_1op(Opcode::Dec, Operand::Register { n: low_bits }),
            0x48 => Instruction::new_1op(Opcode::Sbc, Operand::Register { n: low_bits }),
            0x50 => Instruction::new_1op(Opcode::Add, Operand::Register { n: low_bits }),
            0x58 => {
                if word == 0x59 {
                    Instruction::new_0op(Opcode::Scf)
                } else {
                    Instruction::new_1op(Opcode::Op5xHi, Operand::ImmU8 { imm: low_bits })
                }
            },
            0x60 => Instruction::new_1op(Opcode::Bit, Operand::ImmU8 { imm: low_bits }),
            0x68 => {
                if word == 0x69 {
                    Instruction::new_0op(Opcode::Ccf)
                } else {
                    Instruction::new_1op(Opcode::Op6xHi, Operand::ImmU8 { imm: low_bits })
                }
            },
            0x70 => Instruction::new_1op(Opcode::MovR0Rn, Operand::Register { n: low_bits }),
            0x78 => Instruction::new_1op(Opcode::Cmp, Operand::Register { n: low_bits }),
            0x80 => Instruction::new_1op(Opcode::Push, Operand::Register { n: low_bits }),
            0x88 => Instruction::new_1op(Opcode::Pop, Operand::Register { n: low_bits }),
            0x90 => {
                let rel_byte = match words.next() {
                    Ok(b) => b,
                    Err(e) => {
                        return Err(e);
                    },
                };
                let op = Operand::BranchRelI8 { rel: rel_byte as i8 };
                if low_bits == 0 {
                    Instruction::new_1op(Opcode::Jnz, op)
                } else if low_bits == 1 {
                    Instruction::new_1op(Opcode::Jnc, op)
                } else {
                    Instruction::new_2op(Opcode::JccLo, Operand::ImmU8 { imm: low_bits }, op)
                }
            },
            0x98 => {
                let rel_byte = match words.next() {
                    Ok(b) => b,
                    Err(e) => {
                        return Err(e);
                    },
                };
                let op = Operand::BranchRelI8 { rel: rel_byte as i8 };
                if low_bits == 0 {
                    Instruction::new_1op(Opcode::Jz, op)
                } else if low_bits == 1 {
                    Instruction::new_1op(Opcode::Jc, op)
                } else {
                    Instruction::new_2op(Opcode::JccHi, Operand::ImmU8 { imm: low_bits }, op)
                }
            },
            0xb8 => {
                if word == 0xb9 {
                    Instruction::new_0op(Opcode::Ret)
                } else if word == 0xba {
                    Instruction::new_0op(Opcode::Iret)
                } else if word == 0xbc {
                    let imm = match next_u16(words) {
                        Ok(v) => v,
                        Err(e) => {
                            return Err(e);
                        },
                    };
                    Instruction::new_1op(Opcode::Jmp, Operand::ImmU16 { imm })
                } else if word == 0xbf {
                    let imm = match next_u16(words) {
                        Ok(v) => v,
                        Err(e) => {
                            return Err(e);
                        },
                    };
                    Instruction::new_1op(Opcode::Call, Operand::ImmU16 { imm })
                } else {
                    return Err(DecodeError::InvalidOpcode);
                }
            },
            0xc0 => Instruction::new_1op(Opcode::IncW, Operand::RegisterPair { n: low_bits }),
            0xc8 => {
                let addr = match next_u16(words) {
                    Ok(v) => v,
                    Err(e) => {
                        return Err(e);
                    },
                };
                Instruction::new_2op(
                    Opcode::StoreAbs16,
                    Operand::Register { n: low_bits },
                    Operand::MemAbs16 { addr },
                )
            },
            0xd0 => Instruction::new_1op(
                Opcode::StoreRegPair,
                Operand::MemRegIndirect { n: low_bits },
            ),
            0xd8 => {
                let offs = match words.next() {
                    Ok(b) => b,
                    Err(e) => {
                        return Err(e);
                    },
                };
                Instruction::new_1op(
                    Opcode::StoreRegPairC,
                    Operand::MemRegIndirectOffset { n: low_bits, offs },
                )
            },
            0xe0 => {
                let imm = match words.next() {
                    Ok(b) => b,
                    Err(e) => {
                        return Err(e);
                    },
                };
                Instruction::new_2op(
                    Opcode::LoadImm8,
                    Operand::Register { n: low_bits },
                    Operand::ImmU8 { imm },
                )
            },
            0xe8 => {
                let addr = match next_u16(words) {
                    Ok(v) => v,
                    Err(e) => {
                        return Err(e);
                    },
                };
                Instruction::new_2op(
                    Opcode::LoadAbs16,
                    Operand::Register { n: low_bits },
                    Operand::MemAbs16 { addr },
                )
            },
            0xf0 => Instruction::new_1op(
                Opcode::LoadRegPair,
                Operand::MemRegIndirect { n: low_bits },
            ),
            0xf8 => {
                let offs = match words.next() {
                    Ok(b) => b,
                    Err(e) => {
                        return Err(e);
                    },
                };
                Instruction::new_1op(
                    Opcode::LoadRegPairC,
                    Operand::MemRegIndirectOffset { n: low_bits, offs },
                )
            },
            _ => {
                return Err(DecodeError::InvalidOpcode);
            },
        };
        *inst = decoded;
        let off = words.offset();
        inst.set_length(off as u8);
        Ok(())
    }
}

} // verus!
