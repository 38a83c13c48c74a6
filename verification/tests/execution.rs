use toy_machine::instruction::Instruction;
use toy_machine::machine::Machine;
use toy_machine::opcode::OpCode;

#[test]
fn lib_test_from_primitive_to_opcode() {
    let v: [OpCode; 3] = [
        OpCode::from_u8(0).unwrap(),
        OpCode::from_u8(1).unwrap(),
        OpCode::from_u8(2).unwrap(),
    ];

    let expected: [OpCode; 3] = [OpCode::Halt, OpCode::Add, OpCode::Subtract];

    for i in 0..3 {
        assert_eq!(v[i], expected[i]);
    }
}

#[test]
fn machine_test_from_primitive_to_opcode() {
    let v: [OpCode; 3] = [
        OpCode::from_u8(0).unwrap(),
        OpCode::from_u8(1).unwrap(),
        OpCode::from_u8(2).unwrap(),
    ];

    let expected: [OpCode; 3] = [OpCode::Halt, OpCode::Add, OpCode::Subtract];

    for i in 0..3 {
        assert_eq!(v[i], expected[i]);
    }
}

#[test]
fn lib_test_to_primitive_opcode() {
    let v: [u8; 3] = [
        OpCode::Halt.to_u8(),
        OpCode::Add.to_u8(),
        OpCode::Subtract.to_u8(),
    ];

    assert_eq!(v, [0, 1, 2]);
}

#[test]
fn machine_test_to_primitive_opcode() {
    let v: [u8; 3] = [
        OpCode::Halt.to_u8(),
        OpCode::Add.to_u8(),
        OpCode::Subtract.to_u8(),
    ];

    assert_eq!(v, [0, 1, 2]);
}

#[test]
fn opcode_numbers_roundtrip() {
    for n in 0..16u8 {
        let op = OpCode::from_u8(n).unwrap();
        assert_eq!(op.to_u8(), n);
    }
    assert!(OpCode::from_u8(16).is_none());
    assert!(OpCode::from_u8(255).is_none());
}

#[test]
fn lib_basic_instruction() {
    // add, subtract, and, xor, left-shift, right-shift
    let mut machine = Machine::new();
    let d: u8 = 1;
    let s: u8 = 2;
    let t: u8 = 3;
    let t_sub: u8 = 4;
    machine.set_reg(s as usize, 0x19);
    machine.set_reg(t as usize, 0x08);
    machine.set_reg(t_sub as usize, 0x20);

    let op: u8 = 1; // add: R[d] <- R[s] + R[t]
    let instruction = Instruction::new(op, d, s, t, 0);
    assert!(machine.execute_next_instruction(&instruction));
    assert_eq!(machine.get_regs()[d as usize], 33u16);

    let op = 2; // subtract: R[d] <- R[s] - R[t]
    let instruction = Instruction::new(op, d, s, t, 0);
    assert!(machine.execute_next_instruction(&instruction));
    assert_eq!(machine.get_regs()[d as usize], 17u16);

    let op = 2; // subtract: R[d] <- R[s] - R[t]
    let instruction = Instruction::new(op, d, s, t_sub, 0);
    assert!(machine.execute_next_instruction(&instruction));
    assert_eq!(machine.get_regs()[d as usize] as i16, -7i16);

    let op = 3; // and: R[s] & R[t]
    let instruction = Instruction::new(op, d, s, t, 0);
    assert!(machine.execute_next_instruction(&instruction));
    assert_eq!(machine.get_regs()[d as usize], 8u16);

    let op = 4; // xor: R[d] <- R[s] ^ R[t]
    let instruction = Instruction::new(op, d, s, t, 0);
    assert!(machine.execute_next_instruction(&instruction));
    assert_eq!(machine.get_regs()[d as usize], 17u16);

    let op = 5; // left shift: R[d] <- R[s] << R[t]
    let instruction = Instruction::new(op, d, s, t, 0);
    assert!(machine.execute_next_instruction(&instruction));
    assert_eq!(machine.get_regs()[d as usize], 6400u16);

    let op = 6; // right shift: R[d] <- R[s] >> R[t]
    let instruction = Instruction::new(op, d, s, t, 0);
    assert!(machine.execute_next_instruction(&instruction));
    assert_eq!(machine.get_regs()[d as usize], 0u16);
}

#[test]
fn machine_basic_instruction() {
    // add, subtract, and, xor, left-shift, right-shift
    let mut machine = Machine::new();
    let d: u8 = 1;
    let s: u8 = 2;
    let t: u8 = 3;
    let t_sub: u8 = 4;
    machine.set_reg(s as usize, 0x19);
    machine.set_reg(t as usize, 0x08);
    machine.set_reg(t_sub as usize, 0x20);

    let op: u8 = 1;
    let instruction = Instruction::new(op, d, s, t, 0);
    assert!(machine.execute_next_instruction(&instruction));
    assert_eq!(machine.get_regs()[d as usize], 33u16);

    let op = 2;
    let instruction = Instruction::new(op, d, s, t, 0);
    assert!(machine.execute_next_instruction(&instruction));
    assert_eq!(machine.get_regs()[d as usize], 17u16);

    let op = 2;
    let instruction = Instruction::new(op, d, s, t_sub, 0);
    assert!(machine.execute_next_instruction(&instruction));
    assert_eq!(machine.get_regs()[d as usize] as i16, -7i16);

    let op = 3;
    let instruction = Instruction::new(op, d, s, t, 0);
    assert!(machine.execute_next_instruction(&instruction));
    assert_eq!(machine.get_regs()[d as usize], 8u16);

    let op = 4;
    let instruction = Instruction::new(op, d, s, t, 0);
    assert!(machine.execute_next_instruction(&instruction));
    assert_eq!(machine.get_regs()[d as usize], 17u16);

    let op = 5;
    let instruction = Instruction::new(op, d, s, t, 0);
    assert!(machine.execute_next_instruction(&instruction));
    assert_eq!(machine.get_regs()[d as usize], 6400u16);

    let op = 6;
    let instruction = Instruction::new(op, d, s, t, 0);
    assert!(machine.execute_next_instruction(&instruction));
    assert_eq!(machine.get_regs()[d as usize], 0u16);
}

#[test]
fn lib_load_and_store_instructions() {
    let mut machine = Machine::new();
    let d: u8 = 1;
    let t: u8 = 3;

    let op = 7; // load address: R[d] <- addr
    let addr = 0x30;
    let instruction = Instruction::new(op, d, 0, 0, addr);
    assert_eq!(machine.get_regs()[d as usize], 0 as u16);
    assert!(machine.execute_next_instruction(&instruction));
    assert_eq!(machine.get_regs()[d as usize], 0x30 as u16);

    let op = 8; // load: R[d] <- mem[addr]
    machine.set_memory_word(addr as usize, 0x1234 as u16);
    let instruction = Instruction::new(op, d, 0, 0, addr);
    assert!(machine.execute_next_instruction(&instruction));
    assert_eq!(machine.get_regs()[d as usize], 0x1234 as u16);

    let op = 9; // store: mem[addr] <- R[d]
    let addr = 0x40;
    assert_eq!(machine.get_memory_word(addr as usize), 0x0 as u16);
    assert_eq!(machine.get_regs()[d as usize], 0x1234 as u16);
    let instruction = Instruction::new(op, d, 0, 0, addr);
    assert!(machine.execute_next_instruction(&instruction));
    assert_eq!(machine.get_memory_word(addr as usize), 0x1234 as u16);

    let op = 0xA; // load indirect: R[d] <- mem[R[t]]
    machine.set_reg(t as usize, 0x50);
    assert_eq!(machine.get_memory_word(machine.get_regs()[t as usize] as usize), 0x0 as u16);
    let slot = machine.get_regs()[t as usize] as usize;
    machine.set_memory_word(slot, 0x1212);
    machine.set_reg(d as usize, 0x0);
    assert_eq!(machine.get_regs()[d as usize], 0x0 as u16);
    let instruction = Instruction::new(op, d, 0, t, 0);
    assert!(machine.execute_next_instruction(&instruction));
    assert_eq!(machine.get_regs()[d as usize], 0x1212 as u16);

    let op = 0xB; // store indirect: mem[R[t]] <- R[d]
    machine.set_reg(d as usize, 0x2121);
    machine.set_reg(t as usize, 0x60);
    assert_eq!(machine.get_memory_word(machine.get_regs()[t as usize] as usize), 0x0 as u16);
    let instruction = Instruction::new(op, d, 0, t, 0);
    assert!(machine.execute_next_instruction(&instruction));
    assert_eq!(machine.get_memory_word(machine.get_regs()[t as usize] as usize), 0x2121 as u16);
}

#[test]
fn machine_load_and_store_instructions() {
    let mut machine = Machine::new();
    let d: u8 = 1;
    let t: u8 = 3;

    let op = 7;
    let addr = 0x30;
    let instruction = Instruction::new(op, d, 0, 0, addr);
    assert_eq!(machine.get_regs()[d as usize], 0 as u16);
    assert!(machine.execute_next_instruction(&instruction));
    assert_eq!(machine.get_regs()[d as usize], 0x30 as u16);

    let op = 8;
    machine.set_memory_word(addr as usize, 0x1234 as u16);
    let instruction = Instruction::new(op, d, 0, 0, addr);
    assert!(machine.execute_next_instruction(&instruction));
    assert_eq!(machine.get_regs()[d as usize], 0x1234 as u16);

    let op = 9;
    let addr = 0x40;
    assert_eq!(machine.get_memory_word(addr as usize), 0x0 as u16);
    assert_eq!(machine.get_regs()[d as usize], 0x1234 as u16);
    let instruction = Instruction::new(op, d, 0, 0, addr);
    assert!(machine.execute_next_instruction(&instruction));
    assert_eq!(machine.get_memory_word(addr as usize), 0x1234 as u16);

    let op = 0xA;
    machine.set_reg(t as usize, 0x50);
    assert_eq!(machine.get_memory_word(machine.get_regs()[t as usize] as usize), 0x0 as u16);
    let slot = machine.get_regs()[t as usize] as usize;
    machine.set_memory_word(slot, 0x1212);
    machine.set_reg(d as usize, 0x0);
    assert_eq!(machine.get_regs()[d as usize], 0x0 as u16);
    let instruction = Instruction::new(op, d, 0, t, 0);
    assert!(machine.execute_next_instruction(&instruction));
    assert_eq!(machine.get_regs()[d as usize], 0x1212 as u16);

    let op = 0xB;
    machine.set_reg(d as usize, 0x2121);
    machine.set_reg(t as usize, 0x60);
    assert_eq!(machine.get_memory_word(machine.get_regs()[t as usize] as usize), 0x0 as u16);
    let instruction = Instruction::new(op, d, 0, t, 0);
    assert!(machine.execute_next_instruction(&instruction));
    assert_eq!(machine.get_memory_word(machine.get_regs()[t as usize] as usize), 0x2121 as u16);
}

#[test]
fn lib_control_flow_instructions() {
    let mut machine = Machine::new();
    let d: u8 = 1;

    let op = 0xC; // branch zero: if (R[d] == 0) pc <- addr
    let addr = 0x30;
    machine.set_program_counter(0x10);
    assert_eq!(machine.get_program_counter(), 0x10);
    machine.set_reg(d as usize, 0x1);
    let instruction = Instruction::new(op, d, 0, 0, addr);
    assert!(machine.execute_next_instruction(&instruction));
    assert_eq!(machine.get_program_counter(), 0x10);
    machine.set_reg(d as usize, 0x0);
    let instruction = Instruction::new(op, d, 0, 0, addr);
    assert!(machine.execute_next_instruction(&instruction));
    assert_eq!(machine.get_program_counter(), 0x30);

    let op = 0xD; // branch positive: if (R[d] > 0) pc <- addr
    let addr = 0x30;
    machine.set_program_counter(0x10);
    assert_eq!(machine.get_program_counter(), 0x10);
    machine.set_reg(d as usize, 0x0);
    let instruction = Instruction::new(op, d, 0, 0, addr);
    assert!(machine.execute_next_instruction(&instruction));
    assert_eq!(machine.get_program_counter(), 0x10);
    machine.set_reg(d as usize, 0x1);
    let instruction = Instruction::new(op, d, 0, 0, addr);
    assert!(machine.execute_next_instruction(&instruction));
    assert_eq!(machine.get_program_counter(), 0x30);

    let op = 0xE; // jump register: pc <- R[d]
    machine.set_program_counter(0x10);
    assert_eq!(machine.get_program_counter(), 0x10);
    machine.set_reg(d as usize, 0x30);
    let instruction = Instruction::new(op, d, 0, 0, 0);
    assert!(machine.execute_next_instruction(&instruction));
    assert_eq!(machine.get_program_counter(), 0x30);

    let op = 0xF; // jump and link: R[d] <- pc; pc <- addr
    let addr = 0x30;
    machine.set_program_counter(0x10);
    assert_eq!(machine.get_program_counter(), 0x10);
    machine.set_reg(d as usize, 0x30);
    let instruction = Instruction::new(op, d, 0, 0, addr);
    assert!(machine.execute_next_instruction(&instruction));
    assert_eq!(machine.get_regs()[d as usize], 0x10);
    assert_eq!(machine.get_program_counter(), 0x30);

    let op = 0x0; // halt
    let instruction = Instruction::new(op, 0, 0, 0, 0);
    assert!(!machine.execute_next_instruction(&instruction));
}

#[test]
fn machine_control_flow_instructions() {
    let mut machine = Machine::new();
    let d: u8 = 1;

    let op = 0xC;
    let addr = 0x30;
    machine.set_program_counter(0x10);
    assert_eq!(machine.get_program_counter(), 0x10);
    machine.set_reg(d as usize, 0x1);
    let instruction = Instruction::new(op, d, 0, 0, addr);
    assert!(machine.execute_next_instruction(&instruction));
    assert_eq!(machine.get_program_counter(), 0x10);
    machine.set_reg(d as usize, 0x0);
    let instruction = Instruction::new(op, d, 0, 0, addr);
    assert!(machine.execute_next_instruction(&instruction));
    assert_eq!(machine.get_program_counter(), 0x30);

    let op = 0xD;
    let addr = 0x30;
    machine.set_program_counter(0x10);
    assert_eq!(machine.get_program_counter(), 0x10);
    machine.set_reg(d as usize, 0x0);
    let instruction = Instruction::new(op, d, 0, 0, addr);
    assert!(machine.execute_next_instruction(&instruction));
    assert_eq!(machine.get_program_counter(), 0x10);
    machine.set_reg(d as usize, 0x1);
    let instruction = Instruction::new(op, d, 0, 0, addr);
    assert!(machine.execute_next_instruction(&instruction));
    assert_eq!(machine.get_program_counter(), 0x30);

    let op = 0xE;
    machine.set_program_counter(0x10);
    assert_eq!(machine.get_program_counter(), 0x10);
    machine.set_reg(d as usize, 0x30);
    let instruction = Instruction::new(op, d, 0, 0, 0);
    assert!(machine.execute_next_instruction(&instruction));
    assert_eq!(machine.get_program_counter(), 0x30);

    let op = 0xF;
    let addr = 0x30;
    machine.set_program_counter(0x10);
    assert_eq!(machine.get_program_counter(), 0x10);
    machine.set_reg(d as usize, 0x30);
    let instruction = Instruction::new(op, d, 0, 0, addr);
    assert!(machine.execute_next_instruction(&instruction));
    assert_eq!(machine.get_regs()[d as usize], 0x10);
    assert_eq!(machine.get_program_counter(), 0x30);

    let op = 0x0;
    let instruction = Instruction::new(op, 0, 0, 0, 0);
    assert!(!machine.execute_next_instruction(&instruction));
}

#[test]
fn add_wraps_around_sixteen_bits() {
    let mut machine = Machine::new();
    machine.set_reg(2, 0xFFFF);
    machine.set_reg(3, 0x0002);
    let instruction = Instruction::new(1, 1, 2, 3, 0);
    assert!(machine.execute_next_instruction(&instruction));
    assert_eq!(machine.get_regs()[1], 1);
}

#[test]
fn subtract_is_twos_complement() {
    let mut machine = Machine::new();
    machine.set_reg(2, 0x19);
    machine.set_reg(3, 0x20);
    let instruction = Instruction::new(2, 1, 2, 3, 0);
    assert!(machine.execute_next_instruction(&instruction));
    assert_eq!(machine.get_regs()[1], 0xFFF9);
    assert_eq!(machine.get_regs()[1] as i16, -7i16);
}

#[test]
fn shift_by_sixteen_or_more_clears_the_word() {
    let mut machine = Machine::new();
    machine.set_reg(2, 0xABCD);
    machine.set_reg(3, 16);
    let instruction = Instruction::new(5, 1, 2, 3, 0);
    assert!(machine.execute_next_instruction(&instruction));
    assert_eq!(machine.get_regs()[1], 0);
    machine.set_reg(3, 0x1000);
    let instruction = Instruction::new(6, 1, 2, 3, 0);
    assert!(machine.execute_next_instruction(&instruction));
    assert_eq!(machine.get_regs()[1], 0);
}

#[test]
fn branch_positive_compares_unsigned() {
    // A register holding the two's-complement bit pattern of a negative
    // number still counts as positive: the comparison is unsigned.
    let mut machine = Machine::new();
    machine.set_program_counter(0x10);
    machine.set_reg(1, 0xFFFF);
    let instruction = Instruction::new(0xD, 1, 0, 0, 0x42);
    assert!(machine.execute_next_instruction(&instruction));
    assert_eq!(machine.get_program_counter(), 0x42);
}

#[test]
fn jump_register_masks_to_eight_bits() {
    let mut machine = Machine::new();
    machine.set_reg(1, 0x1234);
    let instruction = Instruction::new(0xE, 1, 0, 0, 0);
    assert!(machine.execute_next_instruction(&instruction));
    assert_eq!(machine.get_program_counter(), 0x34);
}

#[test]
fn register_zero_reads_zero_after_every_instruction() {
    let mut machine = Machine::new();
    machine.set_reg(0, 0x7777);
    machine.set_reg(2, 5);
    machine.set_reg(3, 6);
    let instruction = Instruction::new(1, 0, 2, 3, 0); // add targeting R[0]
    assert!(machine.execute_next_instruction(&instruction));
    assert_eq!(machine.get_regs()[0], 0);
}

#[test]
fn load_address_leaves_other_registers_unchanged() {
    let mut machine = Machine::new();
    for i in 1..16 {
        machine.set_reg(i, 0x1000 + i as u16);
    }
    let before = machine.get_regs();
    let instruction = Instruction::new(7, 1, 0, 0, 0x30);
    assert!(machine.execute_next_instruction(&instruction));
    let after = machine.get_regs();
    assert_eq!(after[1], 0x30);
    for i in 0..16 {
        if i != 1 {
            assert_eq!(after[i], before[i]);
        }
    }
}
