use sim86::decoder::{run, step, Decoded, DecodeError, JumpKind};
use sim86::flag::Flags;
use sim86::machine::MachineState;
use sim86::rm::Rm;
use sim86::simulator::rm_to_rm_simulator::{CmpRmToRmSimulator, RMToRmSimulator};
use sim86::simulator::SimulatorInput;
use sim86::stream::ByteStream;

fn stream_of(bytes: &[u8]) -> ByteStream {
    ByteStream::new(bytes.to_vec())
}

#[test]
fn move_immediate_word_stores_exactly_one_register() {
    // mov ax, 5; after simulation slot 0 is 5 and nothing else moved
    let mut stream = stream_of(&[0xb8, 0x05, 0x00]);
    let mut state = MachineState::new();
    let record = step(&mut stream, &mut state, true).unwrap();
    assert_eq!(record.decoded, Decoded::MovImmediateToRegister { w: 1, reg: 0, data: 5 });
    assert_eq!(state.registers[0], 5);
    for slot in 1..8 {
        assert_eq!(state.registers[slot], 0);
    }
    assert!(!state.flags.zf);
    assert!(!state.flags.sf);
    assert_eq!(record.old_value, 0);
    assert_eq!(record.new_value, 5);
    assert_eq!(record.cycles, 4);
}

#[test]
fn move_immediate_negative_value_keeps_flags_untouched() {
    // mov cx, -1: this family never touches the flags
    let mut stream = stream_of(&[0xb9, 0xff, 0xff]);
    let mut state = MachineState::new();
    state.flags = Flags { zf: true, sf: false };
    step(&mut stream, &mut state, true).unwrap();
    assert_eq!(state.registers[1], -1);
    assert_eq!(state.flags, Flags { zf: true, sf: false });
}

#[test]
fn move_immediate_byte_width_is_decode_only() {
    // mov al, 5: byte width is not simulated
    let mut stream = stream_of(&[0xb0, 0x05]);
    let mut state = MachineState::new();
    let record = step(&mut stream, &mut state, true).unwrap();
    assert_eq!(record.decoded, Decoded::MovImmediateToRegister { w: 0, reg: 0, data: 5 });
    assert_eq!(state.registers[0], 0);
}

#[test]
fn move_register_to_register_updates_flags_from_value() {
    // mov ax, 5; mov cx, ax
    let mut stream = stream_of(&[0xb8, 0x05, 0x00, 0x89, 0xc1]);
    let mut state = MachineState::new();
    run(&mut stream, &mut state, true, 100).unwrap();
    assert_eq!(state.registers[0], 5);
    assert_eq!(state.registers[1], 5);
    assert!(!state.flags.zf);
    assert!(!state.flags.sf);
}

#[test]
fn subtraction_produces_sign_flag_on_negative_result() {
    // mov ax, 5; mov cx, 8; sub ax, cx (0x29, d = 0, dest = rm = ax)
    let mut stream = stream_of(&[0xb8, 0x05, 0x00, 0xb9, 0x08, 0x00, 0x29, 0xc8]);
    let mut state = MachineState::new();
    let records = run(&mut stream, &mut state, true, 100).unwrap();
    assert_eq!(state.registers[0], -3);
    assert!(!state.flags.zf);
    assert!(state.flags.sf);
    assert_eq!(records[2].cycles, 3);
}

#[test]
fn subtraction_to_zero_sets_the_zero_flag() {
    // mov ax, 5; mov cx, 5; sub ax, cx
    let mut stream = stream_of(&[0xb8, 0x05, 0x00, 0xb9, 0x05, 0x00, 0x29, 0xc8]);
    let mut state = MachineState::new();
    run(&mut stream, &mut state, true, 100).unwrap();
    assert_eq!(state.registers[0], 0);
    assert!(state.flags.zf);
    assert!(!state.flags.sf);
}

#[test]
fn cmp_never_mutates_registers_or_memory() {
    let mut state = MachineState::new();
    state.registers = [5, 3, -7, 100, 0, 22, -1, 9];
    state.memory[100] = 0xaa;
    let registers_before = state.registers;
    let memory_before_100 = state.memory[100];
    let destinations = [
        Rm::Reg { w: 1, reg: 1 },
        Rm::DirectMemory(100),
        Rm::MemoryWithDisplacment { rm: 2, displacment: 4 },
        Rm::MemoryNoDisplacment(6),
    ];
    let sources = [
        Rm::Reg { w: 1, reg: 0 },
        Rm::DirectMemory(7),
        Rm::MemoryWithDisplacment { rm: 1, displacment: 1 },
        Rm::MemoryNoDisplacment(2),
    ];
    for destination in destinations {
        for source in sources {
            let input = SimulatorInput {
                source: Some(source),
                destination,
                immediate_value: None,
            };
            CmpRmToRmSimulator.simulate(&mut state, input);
            assert_eq!(state.registers, registers_before);
            assert_eq!(state.memory[100], memory_before_100);
            assert!(state.memory[..100].iter().all(|&b| b == 0));
            assert!(state.memory[101..].iter().all(|&b| b == 0));
        }
    }
}

#[test]
fn cmp_register_to_register_updates_flags_only() {
    // mov ax, 7; mov cx, 5; cmp cx, ax (0x39, dest = rm = cx): flags from 5 - 7
    let mut stream = stream_of(&[0xb8, 0x07, 0x00, 0xb9, 0x05, 0x00, 0x39, 0xc1]);
    let mut state = MachineState::new();
    let records = run(&mut stream, &mut state, true, 100).unwrap();
    assert_eq!(state.registers[0], 7);
    assert_eq!(state.registers[1], 5);
    assert!(!state.flags.zf);
    assert!(state.flags.sf);
    assert_eq!(records[2].cycles, 3);
}

#[test]
fn cmp_immediate_updates_flags_from_the_difference() {
    // mov ax, 7; cmp ax, 7 (0x83 with secondary field 111): the difference
    // is zero, so the zero flag is set and nothing else moves
    let mut stream = stream_of(&[0xb8, 0x07, 0x00, 0x83, 0xf8, 0x07]);
    let mut state = MachineState::new();
    let records = run(&mut stream, &mut state, true, 100).unwrap();
    assert_eq!(state.registers[0], 7);
    assert!(state.flags.zf);
    assert!(!state.flags.sf);
    assert_eq!(records[1].cycles, 4);

    // cmp ax, 9: the difference is negative, so the sign flag is set
    let mut stream = stream_of(&[0xb8, 0x07, 0x00, 0x83, 0xf8, 0x09]);
    let mut state = MachineState::new();
    run(&mut stream, &mut state, true, 100).unwrap();
    assert_eq!(state.registers[0], 7);
    assert!(!state.flags.zf);
    assert!(state.flags.sf);
}

#[test]
fn add_immediate_updates_flags_from_the_result() {
    // mov ax, 5; add ax, -5: the destination reaches zero and the zero
    // flag follows the result, not the immediate
    let mut stream = stream_of(&[0xb8, 0x05, 0x00, 0x83, 0xc0, 0xfb]);
    let mut state = MachineState::new();
    let records = run(&mut stream, &mut state, true, 100).unwrap();
    assert_eq!(state.registers[0], 0);
    assert!(state.flags.zf);
    assert!(!state.flags.sf);
    assert_eq!(records[1].cycles, 4);

    // mov ax, 5; add ax, 0: the destination keeps 5 and no flag is set
    let mut stream = stream_of(&[0xb8, 0x05, 0x00, 0x83, 0xc0, 0x00]);
    let mut state = MachineState::new();
    run(&mut stream, &mut state, true, 100).unwrap();
    assert_eq!(state.registers[0], 5);
    assert!(!state.flags.zf);
    assert!(!state.flags.sf);
}

#[test]
fn sub_immediate_updates_register_and_flags_from_the_result() {
    // mov ax, 5; sub ax, 5 (0x83 secondary field 101): the result is zero
    let mut stream = stream_of(&[0xb8, 0x05, 0x00, 0x83, 0xe8, 0x05]);
    let mut state = MachineState::new();
    run(&mut stream, &mut state, true, 100).unwrap();
    assert_eq!(state.registers[0], 0);
    assert!(state.flags.zf);
    assert!(!state.flags.sf);

    // mov ax, 5; sub ax, 3: the result is positive
    let mut stream = stream_of(&[0xb8, 0x05, 0x00, 0x83, 0xe8, 0x03]);
    let mut state = MachineState::new();
    run(&mut stream, &mut state, true, 100).unwrap();
    assert_eq!(state.registers[0], 2);
    assert!(!state.flags.zf);
    assert!(!state.flags.sf);
}

#[test]
fn move_immediate_to_register_memory_form_stores_the_immediate() {
    // mov ax, 5; then the 0xc7 form with register destination ax and
    // immediate 3: the destination takes 3 verbatim
    let mut stream = stream_of(&[0xb8, 0x05, 0x00, 0xc7, 0xc0, 0x03, 0x00]);
    let mut state = MachineState::new();
    let records = run(&mut stream, &mut state, true, 100).unwrap();
    assert_eq!(state.registers[0], 3);
    assert!(!state.flags.zf);
    assert!(!state.flags.sf);
    assert_eq!(records[1].old_value, 5);
    assert_eq!(records[1].new_value, 3);
    assert_eq!(records[1].cycles, 4);
}

#[test]
fn move_immediate_to_direct_memory_stores_the_low_byte() {
    // mov word [0x1234], 0x00ff
    let mut stream = stream_of(&[0xc7, 0x06, 0x34, 0x12, 0xff, 0x00]);
    let mut state = MachineState::new();
    let record = step(&mut stream, &mut state, true).unwrap();
    assert_eq!(state.memory[0x1234], 0xff);
    assert_eq!(record.new_value, 0xff);
    assert_eq!(record.cycles, 10 + 6);
    // a memory destination of mov leaves the flags alone
    assert_eq!(state.flags, Flags { zf: false, sf: false });
    let fresh = MachineState::new();
    assert_eq!(state.registers, fresh.registers);
}

#[test]
fn move_immediate_to_memory_writes_at_the_effective_address() {
    // mov bx, 0x100; mov byte [bx], 0xab (rm field 7 selects the bx row)
    let mut stream = stream_of(&[0xbb, 0x00, 0x01, 0xc6, 0x07, 0xab]);
    let mut state = MachineState::new();
    run(&mut stream, &mut state, true, 100).unwrap();
    assert_eq!(state.memory[0x100], 0xab);
    assert_eq!(state.memory[7], 0);
}

#[test]
fn with_displacement_operands_use_the_base_index_combination() {
    // mov bx, 0x100; mov byte [bx + 0x10], 42; mov al, [bx + 0x10]
    let mut stream = stream_of(&[
        0xbb, 0x00, 0x01, // mov bx, 0x100
        0xc6, 0x47, 0x10, 0x2a, // mov byte [bx + 0x10], 42
        0x8a, 0x47, 0x10, // mov al, [bx + 0x10]
    ]);
    let mut state = MachineState::new();
    run(&mut stream, &mut state, true, 100).unwrap();
    assert_eq!(state.memory[0x110], 42);
    assert_eq!(state.memory[0x10], 0);
    assert_eq!(state.registers[0], 42);
}

#[test]
fn byte_width_register_writes_preserve_the_other_half() {
    // mov ax, 0x0102; mov al, 5 (0xc6 form, register destination 0 at
    // byte width): only the low half changes
    let mut stream = stream_of(&[0xb8, 0x02, 0x01, 0xc6, 0xc0, 0x05]);
    let mut state = MachineState::new();
    run(&mut stream, &mut state, true, 100).unwrap();
    assert_eq!(state.registers[0], 0x0105);

    // mov ax, 0x0102; mov ah, 5 (byte-width register 4 aliases the high
    // half of slot 0)
    let mut stream = stream_of(&[0xb8, 0x02, 0x01, 0xc6, 0xc4, 0x05]);
    let mut state = MachineState::new();
    run(&mut stream, &mut state, true, 100).unwrap();
    assert_eq!(state.registers[0], 0x0502);
}

#[test]
fn byte_width_register_reads_address_the_half() {
    // mov ax, 0x0102; mov bl, ah (0x88, reg field ah, rm field bl): the
    // high half of slot 0 lands in the low half of slot 3
    let mut stream = stream_of(&[0xb8, 0x02, 0x01, 0x88, 0xe3]);
    let mut state = MachineState::new();
    run(&mut stream, &mut state, true, 100).unwrap();
    assert_eq!(state.registers[0], 0x0102);
    assert_eq!(state.registers[3], 0x0001);
    assert!(!state.flags.zf);
    assert!(!state.flags.sf);
}

#[test]
fn move_register_to_direct_memory_stores_the_low_byte() {
    // mov word [0x1234], 0xaa; mov ax, 0x0587; mov [0x1234], ax
    let mut stream = stream_of(&[
        0xc7, 0x06, 0x34, 0x12, 0xaa, 0x00, // mov word [0x1234], 0xaa
        0xb8, 0x87, 0x05, // mov ax, 0x0587
        0x89, 0x06, 0x34, 0x12, // mov [0x1234], ax
    ]);
    let mut state = MachineState::new();
    let records = run(&mut stream, &mut state, true, 100).unwrap();
    assert_eq!(state.memory[0x1234], 0x87);
    // the record reports the byte before and after the store, and the
    // direct-addressing cost
    assert_eq!(records[2].old_value, 0xaa);
    assert_eq!(records[2].new_value, 0x87);
    assert_eq!(records[2].cycles, 9 + 6);
}

#[test]
fn move_memory_source_reads_through_the_effective_address() {
    // mov ax, 9; mov cx, ax; mov dx, [bx + si] with bx = si = 0 reads
    // memory[0]
    let mut state = MachineState::new();
    state.memory[0] = 42;
    let mut stream = stream_of(&[0x8b, 0x10]);
    // 0x8b: w = 1, d = 1; 0x10: mod = 00, reg = 010 (dx), rm = 000
    let record = step(&mut stream, &mut state, true).unwrap();
    assert_eq!(state.registers[2], 42);
    assert_eq!(record.cycles, 8 + 7);
}

#[test]
fn jne_with_zero_flag_clear_seeks_back() {
    // 01110101 0xfe: jne -2 repositions the stream two bytes before the
    // position after the jump
    let mut stream = stream_of(&[0x75, 0xfe]);
    let mut state = MachineState::new();
    state.flags = Flags { zf: false, sf: false };
    let record = step(&mut stream, &mut state, true).unwrap();
    assert_eq!(record.decoded, Decoded::Jump { kind: JumpKind::Jne, displacement: -2 });
    assert_eq!(record.old_ip, 0);
    assert_eq!(record.new_ip, 0);
    assert_eq!(stream.stream_position(), 0);
}

#[test]
fn jne_with_zero_flag_set_falls_through() {
    let mut stream = stream_of(&[0x75, 0xfe]);
    let mut state = MachineState::new();
    state.flags = Flags { zf: true, sf: false };
    let record = step(&mut stream, &mut state, true).unwrap();
    assert_eq!(record.new_ip, 2);
    assert_eq!(stream.stream_position(), 2);
}

#[test]
fn other_jumps_are_never_taken() {
    // je -2 with the zero flag clear: decoded, not taken
    let mut stream = stream_of(&[0x74, 0xfe]);
    let mut state = MachineState::new();
    let record = step(&mut stream, &mut state, true).unwrap();
    assert_eq!(record.decoded, Decoded::Jump { kind: JumpKind::Je, displacement: -2 });
    assert_eq!(stream.stream_position(), 2);
}

#[test]
fn jne_targeting_before_the_stream_start_is_fatal() {
    // jne -4 from position 2 would land at -2
    let mut stream = stream_of(&[0x75, 0xfc]);
    let mut state = MachineState::new();
    assert_eq!(step(&mut stream, &mut state, true), Err(DecodeError::SeekOutOfRange));
}

#[test]
fn a_loop_counted_down_by_jne_terminates() {
    // mov ax, 3; mov cx, 1; sub ax, cx; jne -4 — runs the subtraction three
    // times, then falls through
    let mut stream = stream_of(&[0xb8, 0x03, 0x00, 0xb9, 0x01, 0x00, 0x29, 0xc8, 0x75, 0xfc]);
    let mut state = MachineState::new();
    let records = run(&mut stream, &mut state, true, 100).unwrap();
    assert_eq!(state.registers[0], 0);
    assert!(state.flags.zf);
    // two instructions to set up, then (sub, jne) three times
    assert_eq!(records.len(), 8);
    assert_eq!(stream.stream_position(), 10);
}

#[test]
fn without_simulation_the_machine_is_untouched() {
    let mut stream = stream_of(&[0xb8, 0x05, 0x00, 0x29, 0xc8, 0x75, 0xfc]);
    let mut state = MachineState::new();
    let records = run(&mut stream, &mut state, false, 100).unwrap();
    let fresh = MachineState::new();
    assert_eq!(records.len(), 3);
    assert_eq!(state.registers, fresh.registers);
    assert_eq!(state.flags, fresh.flags);
    assert_eq!(state.clock, 0);
}

#[test]
fn run_aborts_on_a_truncated_stream_with_no_records() {
    let mut stream = stream_of(&[0xb8, 0x05, 0x00, 0xb9, 0x08]);
    let mut state = MachineState::new();
    assert_eq!(
        run(&mut stream, &mut state, true, 100),
        Err(DecodeError::TruncatedStream)
    );
    // the first instruction's effect stands; the failing one changed nothing
    assert_eq!(state.registers[0], 5);
    assert_eq!(state.registers[1], 0);
}

#[test]
fn update_from_number_matches_zero_and_sign() {
    let mut flags = Flags { zf: false, sf: false };
    flags.update_from_number(0);
    assert_eq!(flags, Flags { zf: true, sf: false });
    flags.update_from_number(-5);
    assert_eq!(flags, Flags { zf: false, sf: true });
    flags.update_from_number(7);
    assert_eq!(flags, Flags { zf: false, sf: false });
    flags.update_from_number(i16::MIN);
    assert_eq!(flags, Flags { zf: false, sf: true });
}
