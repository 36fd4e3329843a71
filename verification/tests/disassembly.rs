use avnera::{DecodeError, InstDecoder, Operand};

fn test_display(data: &[u8], expected: &'static str) {
    match InstDecoder::decode_slice(data) {
        Ok(instr) => {
            let displayed = instr.render();
            assert_eq!(&displayed, expected);
            assert_eq!(data.len() as u8, instr.len());
        }
        Err(e) => {
            panic!("failed to decode {:02x?}: {:?}", data, e);
        }
    }
}

#[test]
fn test_disassembly() {
    test_display(&[0xc9, 0xf2, 0xed], "[0xedf2] <- r1");
    test_display(&[0xc8, 0x0b, 0x11], "[0x110b] <- r0");
    test_display(&[0xe4, 0x0e], "r4 <- 0x0e");
    test_display(&[0xbc, 0x8a, 0xd9], "jmp 0xd98a");
    test_display(&[0xb9], "ret");
    test_display(&[0x29], "r0 ^= r1");
    test_display(&[0x49], "sbc r0, r1");
    test_display(&[0x59], "scf");
    test_display(&[0x5a], "op5xhi 0x02");
    test_display(&[0x90, 0x50], "jnz $+0x50");
    test_display(&[0x0a], "adc r0, r2");
    test_display(&[0x84], "push r4");
    test_display(&[0xc4], "incw r4:r5");
}

#[test]
fn test_single_byte_families() {
    test_display(&[0x03], "inc r3");
    test_display(&[0x13], "r0 <- r3");
    test_display(&[0x1b], "r0 |= r3");
    test_display(&[0x23], "r0 &= r3");
    test_display(&[0x33], "rcl r3");
    test_display(&[0x3b], "rcr r3");
    test_display(&[0x43], "dec r3");
    test_display(&[0x53], "r0 += r3");
    test_display(&[0x63], "bit r0, 0x03");
    test_display(&[0x73], "r3 <- r0");
    test_display(&[0x7b], "cmp r0, r3");
    test_display(&[0x8b], "pop r3");
    test_display(&[0xd3], "[r3:r4] <- r0");
    test_display(&[0xf2], "r0 <- [r2:r3]");
}

#[test]
fn test_exact_value_overrides() {
    test_display(&[0x58], "op5xhi 0x00");
    test_display(&[0x59], "scf");
    test_display(&[0x5f], "op5xhi 0x07");
    test_display(&[0x68], "op6xhi 0x00");
    test_display(&[0x69], "ccf");
    test_display(&[0x6a], "op6xhi 0x02");
    test_display(&[0xba], "iret");
    test_display(&[0xbf, 0x34, 0x12], "call 0x1234");
}

#[test]
fn test_branches() {
    test_display(&[0x91, 0x10], "jnc $+0x10");
    test_display(&[0x93, 0x10], "jcc.lo.3 $+0x10");
    test_display(&[0x98, 0x10], "jz $+0x10");
    test_display(&[0x99, 0xf0], "jc $-0x10");
    test_display(&[0x9c, 0x7f], "jcc.hi.4 $+0x7f");
    test_display(&[0x90, 0x80], "jnz $-0x80");
    test_display(&[0x90, 0x00], "jnz $+0x0");
    test_display(&[0x90, 0xff], "jnz $-0x1");
}

#[test]
fn test_indirect_offset_renders_minimal_hex() {
    test_display(&[0xda, 0x40], "[r2:r3 + 0x40] <- r0");
    test_display(&[0xfa, 0x05], "r0 <- [r2:r3 + 0x5]");
    test_display(&[0xf8, 0x00], "r0 <- [r0:r1 + 0x0]");
}

#[test]
fn test_invalid_opcodes() {
    for data in [[0xa0u8], [0xa7], [0xa8], [0xb0], [0xb7], [0xb8], [0xbb], [0xbd], [0xbe]] {
        assert_eq!(InstDecoder::decode_slice(&data), Err(DecodeError::InvalidOpcode));
    }
}

#[test]
fn test_truncated_inputs() {
    assert_eq!(InstDecoder::decode_slice(&[]), Err(DecodeError::Truncated));
    assert_eq!(InstDecoder::decode_slice(&[0xbc]), Err(DecodeError::Truncated));
    assert_eq!(InstDecoder::decode_slice(&[0xbc, 0x8a]), Err(DecodeError::Truncated));
    assert_eq!(InstDecoder::decode_slice(&[0xbf, 0x34]), Err(DecodeError::Truncated));
    assert_eq!(InstDecoder::decode_slice(&[0x90]), Err(DecodeError::Truncated));
    assert_eq!(InstDecoder::decode_slice(&[0x9f]), Err(DecodeError::Truncated));
    assert_eq!(InstDecoder::decode_slice(&[0xc8]), Err(DecodeError::Truncated));
    assert_eq!(InstDecoder::decode_slice(&[0xc8, 0x0b]), Err(DecodeError::Truncated));
    assert_eq!(InstDecoder::decode_slice(&[0xd8]), Err(DecodeError::Truncated));
    assert_eq!(InstDecoder::decode_slice(&[0xe0]), Err(DecodeError::Truncated));
    assert_eq!(InstDecoder::decode_slice(&[0xe8, 0x00]), Err(DecodeError::Truncated));
    assert_eq!(InstDecoder::decode_slice(&[0xf8]), Err(DecodeError::Truncated));
}

#[test]
fn test_every_first_byte_decodes_or_rejects() {
    for b in 0u16..=0xff {
        let data = [b as u8, 0x00, 0x00];
        match InstDecoder::decode_slice(&data) {
            Ok(inst) => {
                assert!(inst.len() >= 1);
                assert!(inst.len() <= 3);
                assert!(inst.operand_count() <= 2);
                for idx in 0..inst.operand_count() {
                    let op = inst.operand(idx);
                    assert!(op.is_some());
                    assert!(op != Some(Operand::Nothing));
                }
                // rendering is total over decoded instructions
                let _ = inst.render();
            }
            Err(e) => {
                // three bytes are enough for every family, so only an
                // unpopulated opcode can fail here
                assert_eq!(e, DecodeError::InvalidOpcode);
            }
        }
    }
}

#[test]
fn test_operand_access() {
    let inst = InstDecoder::decode_slice(&[0xc8, 0x0b, 0x11]).unwrap();
    assert_eq!(inst.operand_count(), 2);
    assert_eq!(inst.operand(0), Some(Operand::Register { n: 0 }));
    assert_eq!(inst.operand(1), Some(Operand::MemAbs16 { addr: 0x110b }));
    assert_eq!(inst.operand(2), None);
    assert_eq!(inst.operand(255), None);

    let inst = InstDecoder::decode_slice(&[0x28]).unwrap();
    assert_eq!(inst.operand_count(), 1);
    assert_eq!(inst.len(), 1);
    assert_eq!(inst.operand(0), Some(Operand::Register { n: 0 }));
    assert_eq!(inst.operand(1), None);

    let inst = InstDecoder::decode_slice(&[0xb9]).unwrap();
    assert_eq!(inst.operand_count(), 0);
    assert_eq!(inst.operand(0), None);

    let inst = InstDecoder::decode_slice(&[0x95, 0x22]).unwrap();
    assert_eq!(inst.operand_count(), 2);
    assert_eq!(inst.operand(0), Some(Operand::ImmU8 { imm: 5 }));
    assert_eq!(inst.operand(1), Some(Operand::BranchRelI8 { rel: 0x22 }));
}

#[test]
fn test_redecode_window_is_identical() {
    // decoding ignores bytes past the instruction's length: re-decoding just
    // the window the instruction occupied yields a structurally identical
    // instruction
    let with_trailing = InstDecoder::decode_slice(&[0xe4, 0x0e, 0xff, 0x00]).unwrap();
    assert_eq!(with_trailing.len(), 2);
    let window_only = InstDecoder::decode_slice(&[0xe4, 0x0e]).unwrap();
    assert_eq!(with_trailing, window_only);

    let with_trailing = InstDecoder::decode_slice(&[0xb9, 0xb9]).unwrap();
    assert_eq!(with_trailing.len(), 1);
    let window_only = InstDecoder::decode_slice(&[0xb9]).unwrap();
    assert_eq!(with_trailing, window_only);
}

#[test]
fn test_render_is_deterministic() {
    let inst = InstDecoder::decode_slice(&[0xc9, 0xf2, 0xed]).unwrap();
    assert_eq!(inst.render(), inst.render());
    let again = InstDecoder::decode_slice(&[0xc9, 0xf2, 0xed]).unwrap();
    assert_eq!(inst.render(), again.render());
}
