use avnera::{ByteReader, DecodeError, InstDecoder, Instruction, Opcode, Operand};

#[test]
fn test_sequential_decodes_share_a_cursor() {
    let data = [0xb9, 0x29, 0xbc, 0x8a, 0xd9];
    let mut reader = ByteReader::new(&data);
    let decoder = InstDecoder::default();

    let first = decoder.decode(&mut reader).unwrap();
    assert_eq!(&first.render(), "ret");
    assert_eq!(first.len(), 1);
    assert_eq!(reader.offset(), 1);

    let second = decoder.decode(&mut reader).unwrap();
    assert_eq!(&second.render(), "r0 ^= r1");
    assert_eq!(second.len(), 1);

    let third = decoder.decode(&mut reader).unwrap();
    assert_eq!(&third.render(), "jmp 0xd98a");
    assert_eq!(third.len(), 3);

    assert_eq!(decoder.decode(&mut reader), Err(DecodeError::Truncated));
}

#[test]
fn test_decode_into_overwrites_instruction() {
    let data = [0x84];
    let mut reader = ByteReader::new(&data);
    let mut inst = Instruction::default();
    InstDecoder::default().decode_into(&mut inst, &mut reader).unwrap();
    assert_eq!(&inst.render(), "push r4");
    assert_eq!(inst.len(), 1);
    assert_eq!(inst.operand(0), Some(Operand::Register { n: 4 }));
}

#[test]
fn test_byte_length_matches_bytes_consumed() {
    // one instruction of each length, decoded from a shared cursor: the
    // cursor advances by exactly the instruction's reported byte length
    let data = [0x03, 0xd8, 0x40, 0xe8, 0x0b, 0x11, 0x59];
    let mut reader = ByteReader::new(&data);
    let decoder = InstDecoder::default();
    let mut consumed: usize = 0;
    let expected_lengths = [1u8, 2, 3, 1];
    for expected in expected_lengths {
        let inst = decoder.decode(&mut reader).unwrap();
        assert_eq!(inst.len(), expected);
        assert_eq!(reader.offset() as u8, expected);
        consumed += usize::from(inst.len());
    }
    assert_eq!(consumed, data.len());
    assert_eq!(decoder.decode(&mut reader), Err(DecodeError::Truncated));
}

#[test]
fn test_default_instruction() {
    let inst = Instruction::default();
    assert_eq!(inst.len(), 0);
    assert_eq!(inst.operand_count(), 0);
    assert_eq!(inst.operand(0), None);
    assert_eq!(&inst.render(), "scf");
}

#[test]
fn test_opcode_mnemonics() {
    assert_eq!(&Opcode::Adc.render(), "adc");
    assert_eq!(&Opcode::IncW.render(), "incw");
    assert_eq!(&Opcode::JccLo.render(), "jcclo");
    assert_eq!(&Opcode::StoreRegPairC.render(), "storeregpairc");
}

#[test]
fn test_operand_render() {
    assert_eq!(&Operand::Register { n: 5 }.render(), "r5");
    assert_eq!(&Operand::RegisterPair { n: 6 }.render(), "r6:r7");
    assert_eq!(&Operand::MemAbs16 { addr: 0xbeef }.render(), "[0xbeef]");
    assert_eq!(&Operand::MemRegIndirect { n: 0 }.render(), "[r0:r1]");
    assert_eq!(&Operand::MemRegIndirectOffset { n: 4, offs: 0x40 }.render(), "[r4:r5 + 0x40]");
    assert_eq!(&Operand::BranchRelI8 { rel: -128 }.render(), "$-0x80");
    assert_eq!(&Operand::BranchRelI8 { rel: 127 }.render(), "$+0x7f");
    assert_eq!(&Operand::ImmU8 { imm: 3 }.render(), "0x03");
    assert_eq!(&Operand::ImmU16 { imm: 3 }.render(), "0x0003");
    assert_eq!(&Operand::Nothing.render(), "");
}

#[test]
fn test_error_variants_differ() {
    assert_ne!(DecodeError::Truncated, DecodeError::InvalidOpcode);
}
