use sim86::decoder::{classify, step, Decoded, DecodeError, JumpKind, OpcodeClass, Operation};
use sim86::machine::MachineState;
use sim86::rm::Rm;
use sim86::stream::ByteStream;

fn stream_of(bytes: &[u8]) -> ByteStream {
    ByteStream::new(bytes.to_vec())
}

#[test]
fn register_mode_consumes_nothing_and_names_the_rm_field() {
    for w in 0..2usize {
        for rm in 0..8usize {
            let mut stream = stream_of(&[]);
            let operand = Rm::new(&mut stream, 0b11, w, rm).unwrap();
            assert_eq!(operand, Rm::Reg { w, reg: rm });
            assert_eq!(stream.stream_position(), 0);
        }
    }
}

#[test]
fn direct_memory_mode_reads_a_little_endian_address() {
    let mut stream = stream_of(&[0x34, 0x12]);
    let operand = Rm::new(&mut stream, 0b00, 1, 0b110).unwrap();
    assert_eq!(operand, Rm::DirectMemory(0x1234));
    assert_eq!(stream.stream_position(), 2);
}

#[test]
fn no_displacement_mode_consumes_nothing() {
    let mut stream = stream_of(&[]);
    let operand = Rm::new(&mut stream, 0b00, 1, 0b011).unwrap();
    assert_eq!(operand, Rm::MemoryNoDisplacment(3));
    assert_eq!(stream.stream_position(), 0);
}

#[test]
fn eight_bit_displacement_is_sign_extended() {
    let mut stream = stream_of(&[0xfe]);
    let operand = Rm::new(&mut stream, 0b01, 1, 2).unwrap();
    assert_eq!(operand, Rm::MemoryWithDisplacment { rm: 2, displacment: 0xfffe });
}

#[test]
fn sixteen_bit_displacement_is_little_endian() {
    let mut stream = stream_of(&[0xcd, 0xab]);
    let operand = Rm::new(&mut stream, 0b10, 0, 5).unwrap();
    assert_eq!(operand, Rm::MemoryWithDisplacment { rm: 5, displacment: 0xabcd });
}

#[test]
fn truncated_displacement_is_an_error() {
    let mut stream = stream_of(&[0x34]);
    assert!(Rm::new(&mut stream, 0b10, 1, 0).is_err());
    assert_eq!(stream.stream_position(), 0);
}

#[test]
fn move_immediate_word_decodes_value_five() {
    // 10111000 00000101 00000000: mov ax, 5
    let mut stream = stream_of(&[0xb8, 0x05, 0x00]);
    let mut state = MachineState::new();
    let record = step(&mut stream, &mut state, false).unwrap();
    assert_eq!(record.decoded, Decoded::MovImmediateToRegister { w: 1, reg: 0, data: 5 });
    assert_eq!(record.old_ip, 0);
    assert_eq!(record.new_ip, 3);
}

#[test]
fn add_register_to_register_decodes_destination_and_source() {
    // 00000001 11000001: add cx, ax (w = 1, d = 0, mod = 11, reg = 0, rm = 1)
    let mut stream = stream_of(&[0x01, 0xc1]);
    let mut state = MachineState::new();
    let record = step(&mut stream, &mut state, false).unwrap();
    assert_eq!(
        record.decoded,
        Decoded::RmToRm {
            operation: Operation::Add,
            destination: Rm::Reg { w: 1, reg: 1 },
            source: Rm::Reg { w: 1, reg: 0 },
        }
    );
    let fresh = MachineState::new();
    assert_eq!(state.registers, fresh.registers);
    assert!(state.memory.iter().all(|&b| b == 0));
}

#[test]
fn direction_bit_swaps_source_and_destination() {
    // 10001011 11001000: mov cx, ax with d = 1 (reg field is the destination)
    let mut stream = stream_of(&[0x8b, 0xc8]);
    let mut state = MachineState::new();
    let record = step(&mut stream, &mut state, false).unwrap();
    assert_eq!(
        record.decoded,
        Decoded::RmToRm {
            operation: Operation::Mov,
            destination: Rm::Reg { w: 1, reg: 1 },
            source: Rm::Reg { w: 1, reg: 0 },
        }
    );
}

#[test]
fn immediate_to_accumulator_is_decode_only() {
    let mut stream = stream_of(&[0x04, 0x05]);
    let mut state = MachineState::new();
    let record = step(&mut stream, &mut state, true).unwrap();
    assert_eq!(
        record.decoded,
        Decoded::ImmediateToAccumulator { operation: Operation::Add, w: 0, data: 5 }
    );
    let fresh = MachineState::new();
    assert_eq!(state.registers, fresh.registers);
    assert_eq!(state.clock, 0);

    let mut stream = stream_of(&[0x2d, 0x01, 0x00]);
    let record = step(&mut stream, &mut state, true).unwrap();
    assert_eq!(
        record.decoded,
        Decoded::ImmediateToAccumulator { operation: Operation::Sub, w: 1, data: 1 }
    );
    assert_eq!(stream.stream_position(), 3);
}

#[test]
fn unknown_byte_is_consumed_alone_and_surfaced() {
    let mut stream = stream_of(&[0xf4, 0xb8]);
    let mut state = MachineState::new();
    let record = step(&mut stream, &mut state, true).unwrap();
    assert_eq!(record.decoded, Decoded::Unknown { byte: 0xf4 });
    assert_eq!(record.new_ip, 1);
    assert_eq!(state.clock, 0);
}

#[test]
fn truncated_move_immediate_word_is_fatal() {
    // mov ax, imm16 with only one immediate byte present
    let mut stream = stream_of(&[0xb8, 0x05]);
    let mut state = MachineState::new();
    assert_eq!(step(&mut stream, &mut state, true), Err(DecodeError::TruncatedStream));
}

#[test]
fn missing_addressing_mode_byte_is_fatal() {
    let mut stream = stream_of(&[0x89]);
    let mut state = MachineState::new();
    assert_eq!(step(&mut stream, &mut state, false), Err(DecodeError::TruncatedStream));
}

#[test]
fn missing_immediate_after_addressing_mode_byte_is_fatal() {
    // 10000011 11000001: add cx, imm8 — but the immediate byte is missing
    let mut stream = stream_of(&[0x83, 0xc1]);
    let mut state = MachineState::new();
    assert_eq!(step(&mut stream, &mut state, false), Err(DecodeError::TruncatedStream));
}

#[test]
fn opcode_patterns_are_mutually_exclusive() {
    for byte in 0..=255u8 {
        let mut matches = 0;
        if byte & 0xf0 == 0xb0 {
            matches += 1;
        }
        if byte & 0xfc == 0x80 {
            matches += 1;
        }
        if byte & 0xfe == 0xc6 {
            matches += 1;
        }
        if byte & 0xfc == 0x88 || byte & 0xfc == 0x00 || byte & 0xfc == 0x28 || byte & 0xfc == 0x38
        {
            matches += 1;
        }
        if byte & 0xfe == 0x04 || byte & 0xfe == 0x2c || byte & 0xfe == 0x3c {
            matches += 1;
        }
        if byte & 0xf0 == 0x70 || byte & 0xfc == 0xe0 {
            matches += 1;
        }
        assert!(matches <= 1, "byte {byte:#04x} matches {matches} opcode families");
    }
}

#[test]
fn classify_names_each_family() {
    assert_eq!(classify(0xb8), OpcodeClass::MovImmediateToRegister);
    assert_eq!(classify(0x83), OpcodeClass::ImmediateToRm);
    assert_eq!(classify(0xc6), OpcodeClass::MovImmediateToRm);
    assert_eq!(classify(0xc7), OpcodeClass::MovImmediateToRm);
    assert_eq!(classify(0x89), OpcodeClass::RmToRm(Operation::Mov));
    assert_eq!(classify(0x01), OpcodeClass::RmToRm(Operation::Add));
    assert_eq!(classify(0x29), OpcodeClass::RmToRm(Operation::Sub));
    assert_eq!(classify(0x39), OpcodeClass::RmToRm(Operation::Cmp));
    assert_eq!(classify(0x04), OpcodeClass::ImmediateToAccumulator(Operation::Add));
    assert_eq!(classify(0x2c), OpcodeClass::ImmediateToAccumulator(Operation::Sub));
    assert_eq!(classify(0x3d), OpcodeClass::ImmediateToAccumulator(Operation::Cmp));
    assert_eq!(classify(0xf4), OpcodeClass::Unknown);
}

#[test]
fn jump_table_maps_all_twenty_codes() {
    let expected = [
        (0x74u8, JumpKind::Je),
        (0x7c, JumpKind::Jl),
        (0x7e, JumpKind::Jle),
        (0x72, JumpKind::Jb),
        (0x76, JumpKind::Jbe),
        (0x7a, JumpKind::Jp),
        (0x70, JumpKind::Jo),
        (0x78, JumpKind::Js),
        (0x75, JumpKind::Jne),
        (0x7d, JumpKind::Jnl),
        (0x7f, JumpKind::Jg),
        (0x73, JumpKind::Jnb),
        (0x77, JumpKind::Ja),
        (0x7b, JumpKind::Jnp),
        (0x71, JumpKind::Jno),
        (0x79, JumpKind::Jns),
        (0xe2, JumpKind::Loop),
        (0xe1, JumpKind::Loopz),
        (0xe0, JumpKind::Loopnz),
        (0xe3, JumpKind::Jcxz),
    ];
    for (byte, kind) in expected {
        assert_eq!(classify(byte), OpcodeClass::Jump(kind));
    }
}
